//! The multisig authorizer: collects the signatures of designated signers on
//! one administrative instruction at a time and lets it through, once, when
//! enough of them have signed.
//!
//! The instruction is bound to its signatures by a digest of its accounts and
//! its encoded parameters, so that signatures given to one instruction never
//! count towards another.

use vstd::prelude::*;
use vstd::array::{spec_array_fill_for_copy_type, spec_array_update};
use crate::errors::{already_executed, already_signed, ErrorCode, MultiSigError, not_authorized};
use crate::state::account::Pubkey;
use crate::state::transition;

verus! {

/// The most signers that a multisig can designate.
pub const MAX_SIGNERS: usize = 6;

/// The administrative instructions that the authorizer gates.
#[derive(Clone, Copy, Debug, PartialEq, Eq, Structural)]
pub enum AdminInstruction {
    AddPool,
    RemovePool,
    AddCustody,
    RemoveCustody,
}

impl AdminInstruction {
    /// The byte that stands for the instruction in what is signed.
    pub open spec fn tag(&self) -> u8 {
        match self {
            AdminInstruction::AddPool => 0,
            AdminInstruction::RemovePool => 1,
            AdminInstruction::AddCustody => 2,
            AdminInstruction::RemoveCustody => 3,
        }
    }

    /// The byte that stands for the instruction in what is signed.
    pub fn to_tag(&self) -> (tag: u8)
        ensures
            tag == self.tag(),
    {
        match self {
            AdminInstruction::AddPool => 0,
            AdminInstruction::RemovePool => 1,
            AdminInstruction::AddCustody => 2,
            AdminInstruction::RemoveCustody => 3,
        }
    }
}

/// The signers, the threshold and the signatures given so far to the pending
/// instruction.
#[derive(Clone, Copy, Debug, PartialEq, Eq)]
pub struct Multisig {
    /// How many of `signers` are designated: the first `num_signers`.
    pub num_signers: u8,
    /// The threshold: how many signatures let an instruction through.
    pub min_signatures: u8,
    /// The number of accounts of the pending instruction.
    pub instruction_accounts_len: u64,
    /// The length of the encoded parameters of the pending instruction.
    pub instruction_data_len: u64,
    /// The digest of the pending instruction.
    pub instruction_hash: [u8; 32],
    pub signers: [Pubkey; 6],
    /// Which signers have signed the pending instruction.
    pub signed: [bool; 6],
    /// Whether the pending instruction has gone through.
    pub executed: bool,
}

/// The SHA-256 digest of a byte string.
pub uninterp spec fn sha256(bytes: Seq<u8>) -> [u8; 32];

/// Calls `anchor_lang::solana_program::hash::hash`, which feeds the bytes to
/// a SHA-256 hasher and returns the 32 bytes it ends with. The contract
/// names that digest and claims nothing else of it.
#[verifier::external_body]
fn sha256_digest(bytes: &Vec<u8>) -> (digest: [u8; 32])
    ensures
        digest == sha256(bytes@),
{
    anchor_lang::solana_program::hash::hash(bytes.as_slice()).to_bytes()
}

/// The addresses of the given accounts, one after the other.
pub open spec fn account_bytes(accounts: Seq<Pubkey>) -> Seq<u8>
    decreases accounts.len(),
{
    if accounts.len() == 0 {
        Seq::empty()
    } else {
        account_bytes(accounts.drop_last()) + accounts.last().bytes@
    }
}

/// What is digested of an instruction: the addresses of its accounts, then
/// its encoded parameters.
pub open spec fn signed_bytes(accounts: Seq<Pubkey>, data: Seq<u8>) -> Seq<u8> {
    account_bytes(accounts) + data
}

/// Whether a multisig can be made of the given signers and threshold: one to
/// six signers, none of them twice, and a threshold that they can meet.
pub open spec fn valid_configuration(signers: Seq<Pubkey>, min_signatures: u8) -> bool {
    &&& 1 <= min_signatures <= signers.len() <= 6
    &&& signers.no_duplicates()
}

/// How many of six flags are set.
pub open spec fn count_set(flags: [bool; 6]) -> nat {
    (if flags[0] {
        1nat
    } else {
        0
    }) + (if flags[1] {
        1nat
    } else {
        0
    }) + (if flags[2] {
        1nat
    } else {
        0
    }) + (if flags[3] {
        1nat
    } else {
        0
    }) + (if flags[4] {
        1nat
    } else {
        0
    }) + (if flags[5] {
        1nat
    } else {
        0
    })
}

impl Multisig {
    /// The number of designated signers.
    pub open spec fn designated(&self) -> int {
        if self.num_signers <= 6 {
            self.num_signers as int
        } else {
            6
        }
    }

    /// The place of `signer` among the designated signers from place `from`
    /// on, if it has one.
    pub open spec fn index_from(&self, signer: Pubkey, from: int) -> Option<int>
        decreases 6 - from,
    {
        if from < 0 || from >= self.designated() {
            None
        } else if self.signers[from] == signer {
            Some(from)
        } else {
            self.index_from(signer, from + 1)
        }
    }

    /// The place of `signer` among the designated signers, if it is one.
    pub open spec fn signer_index(&self, signer: Pubkey) -> Option<int> {
        self.index_from(signer, 0)
    }

    /// The number of signatures given to the pending instruction.
    pub open spec fn signature_count(&self) -> nat {
        count_set(self.signed)
    }

    /// The authorizer's invariant: a threshold that the designated signers
    /// can meet, no signer designated twice, no signature but of a designated
    /// signer, never more signatures than the threshold asks for, and
    /// `executed` set exactly when the threshold is met.
    pub open spec fn wf(&self) -> bool {
        &&& 1 <= self.min_signatures <= self.num_signers <= 6
        &&& forall|i: int, j: int|
            0 <= i < self.num_signers && 0 <= j < self.num_signers && i != j ==> self.signers[i]
                != self.signers[j]
        &&& forall|i: int| self.num_signers <= i < 6 ==> !self.signed[i]
        &&& self.signature_count() <= self.min_signatures
        &&& self.executed <==> self.signature_count() == self.min_signatures
    }

    /// Whether the pending instruction is the one of the given digest and
    /// lengths.
    pub open spec fn is_pending(&self, hash: [u8; 32], accounts_len: u64, data_len: u64) -> bool {
        &&& self.instruction_hash == hash
        &&& self.instruction_accounts_len == accounts_len
        &&& self.instruction_data_len == data_len
    }

    /// The authorizer with the given instruction pending and no signature on
    /// it yet.
    pub open spec fn restarted(self, hash: [u8; 32], accounts_len: u64, data_len: u64) -> Multisig {
        Multisig {
            instruction_hash: hash,
            instruction_accounts_len: accounts_len,
            instruction_data_len: data_len,
            signed: spec_array_fill_for_copy_type::<bool, 6>(false),
            executed: false,
            ..self
        }
    }

    /// The authorizer as a signature on the given instruction finds it: as it
    /// is where that instruction is pending, and started afresh where another
    /// one is.
    pub open spec fn proposal(self, hash: [u8; 32], accounts_len: u64, data_len: u64) -> Multisig {
        if self.is_pending(hash, accounts_len, data_len) {
            self
        } else {
            self.restarted(hash, accounts_len, data_len)
        }
    }

    /// What a signature of `signer` on the instruction of the given digest
    /// prescribes. Who is not designated is refused. Who has signed the
    /// instruction before is refused, and so is anyone once it has gone
    /// through. Otherwise the signature is recorded; if it is the one that
    /// meets the threshold the instruction goes through and 0 is returned,
    /// and if not, the number of signatures still missing.
    pub open spec fn signed_by(
        self,
        signer: Pubkey,
        hash: [u8; 32],
        accounts_len: u64,
        data_len: u64,
    ) -> Result<(Multisig, u8), ErrorCode> {
        match self.signer_index(signer) {
            None => Err(not_authorized()),
            Some(i) => {
                let current = self.proposal(hash, accounts_len, data_len);
                if current.signed[i] {
                    Err(already_signed())
                } else if current.executed {
                    Err(already_executed())
                } else {
                    let marked = Multisig {
                        signed: spec_array_update(current.signed, i, true),
                        ..current
                    };
                    if marked.signature_count() >= marked.min_signatures {
                        Ok((Multisig { executed: true, ..marked }, 0u8))
                    } else {
                        Ok((marked, (marked.min_signatures - marked.signature_count()) as u8))
                    }
                }
            },
        }
    }

    /// A multisig of the given signers and threshold, with nothing pending.
    /// The places that no signer takes hold the address of all zeroes.
    pub fn new(signers: &Vec<Pubkey>, min_signatures: u8) -> (r: Option<Multisig>)
        ensures
            r is Some <==> valid_configuration(signers@, min_signatures),
            r matches Some(multisig) ==> {
                &&& multisig.wf()
                &&& multisig.num_signers == signers@.len()
                &&& multisig.min_signatures == min_signatures
                &&& forall|i: int| 0 <= i < signers@.len() ==> multisig.signers[i] == signers@[i]
                &&& forall|i: int|
                    signers@.len() <= i < 6 ==> multisig.signers[i].bytes
                        == spec_array_fill_for_copy_type::<u8, 32>(0u8)
                &&& multisig.signed == spec_array_fill_for_copy_type::<bool, 6>(false)
                &&& !multisig.executed
                &&& multisig.instruction_hash == spec_array_fill_for_copy_type::<u8, 32>(0u8)
                &&& multisig.instruction_accounts_len == 0
                &&& multisig.instruction_data_len == 0
            },
    {
        let n = signers.len();
        if min_signatures < 1 || n > 6 || min_signatures as usize > n {
            return None;
        }
        let nobody = Pubkey { bytes: [0u8;32] };
        let mut keys = [nobody;6];
        let mut i: usize = 0;
        while i < n
            invariant
                i <= n == signers@.len() <= 6,
                forall|a: int| 0 <= a < i ==> keys[a] == signers@[a],
                forall|a: int| i <= a < 6 ==> keys[a] == nobody,
                forall|a: int, b: int| 0 <= a < i && 0 <= b < i && a != b ==> signers@[a] != signers@[b],
            decreases n - i,
        {
            let mut j: usize = 0;
            while j < i
                invariant
                    j <= i < n == signers@.len(),
                    forall|b: int| 0 <= b < j ==> signers@[b] != signers@[i as int],
                decreases i - j,
            {
                if signers[j] == signers[i] {
                    return None;
                }
                j = j + 1;
            }
            keys[i] = signers[i];
            i = i + 1;
        }
        Some(
            Multisig {
                num_signers: n as u8,
                min_signatures,
                instruction_accounts_len: 0,
                instruction_data_len: 0,
                instruction_hash: [0u8;32],
                signers: keys,
                signed: [false;6],
                executed: false,
            },
        )
    }

    /// The digest that binds an instruction to its signatures.
    pub fn get_instruction_hash(instruction_accounts: &Vec<Pubkey>, instruction_data: &Vec<u8>) -> (hash:
        [u8; 32])
        ensures
            hash == sha256(signed_bytes(instruction_accounts@, instruction_data@)),
    {
        let mut bytes: Vec<u8> = Vec::new();
        let mut i: usize = 0;
        while i < instruction_accounts.len()
            invariant
                i <= instruction_accounts@.len(),
                bytes@ == account_bytes(instruction_accounts@.take(i as int)),
            decreases instruction_accounts@.len() - i,
        {
            let key = instruction_accounts[i];
            let ghost before = bytes@;
            let mut k: usize = 0;
            while k < 32
                invariant
                    k <= 32,
                    bytes@ == before + key.bytes@.take(k as int),
                decreases 32 - k,
            {
                bytes.push(key.bytes[k]);
                k = k + 1;
            }
            proof {
                let next = instruction_accounts@.take(i + 1);
                assert(next.drop_last() =~= instruction_accounts@.take(i as int));
            }
            i = i + 1;
        }
        assert(instruction_accounts@.take(i as int) =~= instruction_accounts@);
        let ghost prefix = bytes@;
        let mut k: usize = 0;
        while k < instruction_data.len()
            invariant
                k <= instruction_data@.len(),
                bytes@ == prefix + instruction_data@.take(k as int),
            decreases instruction_data@.len() - k,
        {
            bytes.push(instruction_data[k]);
            assert(instruction_data@.take(k + 1) =~= instruction_data@.take(k as int).push(
                instruction_data@[k as int],
            ));
            k = k + 1;
        }
        assert(instruction_data@.take(k as int) =~= instruction_data@);
        sha256_digest(&bytes)
    }

    /// Records the signature of `signer` on the instruction of the given
    /// accounts and encoded parameters, and says how many signatures are
    /// still missing.
    pub fn sign_multisig(
        &mut self,
        signer: &Pubkey,
        instruction_accounts: &Vec<Pubkey>,
        instruction_data: &Vec<u8>,
    ) -> (r: Result<u8, ErrorCode>)
        ensures
            transition(
                old(self).signed_by(
                    *signer,
                    sha256(signed_bytes(instruction_accounts@, instruction_data@)),
                    instruction_accounts@.len() as u64,
                    instruction_data@.len() as u64,
                ),
                *old(self),
                *final(self),
                r,
            ),
    {
        let hash = Multisig::get_instruction_hash(instruction_accounts, instruction_data);
        self.sign_with_hash(
            signer,
            &hash,
            instruction_accounts.len() as u64,
            instruction_data.len() as u64,
        )
    }

    /// Whether the invariant holds of this record.
    pub fn is_valid(&self) -> (ok: bool)
        ensures
            ok == self.wf(),
    {
        if self.min_signatures < 1 || self.min_signatures > self.num_signers || self.num_signers
            > 6 {
            return false;
        }
        let n = self.num_signers as usize;
        let mut i: usize = 0;
        while i < n
            invariant
                i <= n == self.num_signers <= 6,
                forall|a: int, b: int| 0 <= a < i && 0 <= b < n && a != b ==> self.signers[a]
                    != self.signers[b],
            decreases n - i,
        {
            let mut j: usize = 0;
            while j < n
                invariant
                    i < n == self.num_signers <= 6,
                    j <= n,
                    forall|b: int| 0 <= b < j && i != b ==> self.signers[i as int] != self.signers[b],
                decreases n - j,
            {
                if i != j && self.signers[i] == self.signers[j] {
                    return false;
                }
                j = j + 1;
            }
            i = i + 1;
        }
        let mut k: usize = n;
        while k < 6
            invariant
                n <= k <= 6,
                n == self.num_signers,
                forall|b: int| n <= b < k ==> !self.signed[b],
            decreases 6 - k,
        {
            if self.signed[k] {
                return false;
            }
            k = k + 1;
        }
        let count = self.count_signatures();
        count <= self.min_signatures && self.executed == (count == self.min_signatures)
    }

    /// The number of signatures given to the pending instruction.
    pub fn count_signatures(&self) -> (count: u8)
        ensures
            count == self.signature_count(),
    {
        let mut count: u8 = 0;
        if self.signed[0] {
            count = count + 1;
        }
        if self.signed[1] {
            count = count + 1;
        }
        if self.signed[2] {
            count = count + 1;
        }
        if self.signed[3] {
            count = count + 1;
        }
        if self.signed[4] {
            count = count + 1;
        }
        if self.signed[5] {
            count = count + 1;
        }
        count
    }

    /// Finds the place of `signer` among the designated signers.
    pub fn get_signer_index(&self, signer: &Pubkey) -> (r: Option<usize>)
        ensures
            self.signer_index(*signer) == (match r {
                Some(i) => Some(i as int),
                None => None::<int>,
            }),
            r matches Some(i) ==> i < self.designated() && self.signers[i as int] == *signer,
    {
        let n: usize = if self.num_signers <= 6 {
            self.num_signers as usize
        } else {
            6
        };
        let mut i: usize = 0;
        while i < n
            invariant
                i <= n <= 6,
                n == self.designated(),
                self.signer_index(*signer) == self.index_from(*signer, i as int),
            decreases n - i,
        {
            if self.signers[i] == *signer {
                return Some(i);
            }
            i = i + 1;
        }
        None
    }

    /// Whether `key` is a designated signer.
    pub fn is_signer(&self, key: &Pubkey) -> (r: bool)
        ensures
            r == self.signer_index(*key).is_some(),
    {
        self.get_signer_index(key).is_some()
    }

    /// Records the signature of `signer` on the instruction of the given
    /// digest, and says how many signatures are still missing.
    pub fn sign_with_hash(
        &mut self,
        signer: &Pubkey,
        instruction_hash: &[u8; 32],
        accounts_len: u64,
        data_len: u64,
    ) -> (r: Result<u8, ErrorCode>)
        ensures
            transition(
                old(self).signed_by(*signer, *instruction_hash, accounts_len, data_len),
                *old(self),
                *final(self),
                r,
            ),
    {
        let index = match self.get_signer_index(signer) {
            Some(i) => i,
            None => {
                return Err(ErrorCode::MultiSig(MultiSigError::NotAuthorizedMultiSigError));
            },
        };
        let mut current = *self;
        if !(same_digest(&self.instruction_hash, instruction_hash)
            && self.instruction_accounts_len == accounts_len && self.instruction_data_len
            == data_len) {
            current.instruction_hash = *instruction_hash;
            current.instruction_accounts_len = accounts_len;
            current.instruction_data_len = data_len;
            current.signed = [false;6];
            current.executed = false;
        }
        if current.signed[index] {
            return Err(ErrorCode::MultiSig(MultiSigError::AlreadySignedMultiSigError));
        }
        if current.executed {
            return Err(ErrorCode::MultiSig(MultiSigError::AlreadyExecutedMultiSigError));
        }
        current.signed[index] = true;
        let count = current.count_signatures();
        if count >= current.min_signatures {
            current.executed = true;
            *self = current;
            Ok(0)
        } else {
            *self = current;
            Ok(current.min_signatures - count)
        }
    }
}

/// The place found for a signer is a designated one and holds that signer.
pub proof fn lemma_signer_index_from(multisig: Multisig, signer: Pubkey, from: int)
    requires
        0 <= from,
    ensures
        multisig.index_from(signer, from) matches Some(i) ==> from <= i < multisig.designated()
            && multisig.signers[i] == signer,
    decreases 6 - from,
{
    if from < multisig.designated() && multisig.signers[from] != signer {
        lemma_signer_index_from(multisig, signer, from + 1);
    }
}

/// Who is a signer, and at which place, depends on the designated signers
/// alone, not on what is pending or signed.
pub proof fn lemma_same_signers(a: Multisig, b: Multisig, signer: Pubkey, from: int)
    requires
        a.signers == b.signers,
        a.num_signers == b.num_signers,
        0 <= from,
    ensures
        a.index_from(signer, from) == b.index_from(signer, from),
    decreases 6 - from,
{
    if from < a.designated() && a.signers[from] != signer {
        lemma_same_signers(a, b, signer, from + 1);
    }
}

/// Whether two digests are the same.
pub fn same_digest(a: &[u8; 32], b: &[u8; 32]) -> (same: bool)
    ensures
        same == (*a == *b),
{
    let mut i: usize = 0;
    while i < 32
        invariant
            i <= 32,
            forall|j: int| 0 <= j < i ==> a@[j] == b@[j],
        decreases 32 - i,
    {
        if a[i] != b[i] {
            return false;
        }
        i = i + 1;
    }
    assert(*a =~= *b);
    true
}

} // verus!
