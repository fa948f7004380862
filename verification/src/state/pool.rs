//! The pool: a named, append-only registry of the custodies that back it.

use vstd::prelude::*;
use crate::errors::{already_registered, ErrorCode, PoolError};
use crate::state::account::Pubkey;
use crate::state::transition;

verus! {

/// A named collection of custodies, each known by the mint of its asset.
#[derive(Debug, PartialEq, Eq)]
pub struct Pool {
    pub name: String,
    /// The mints of the registered custodies, in the order of registration.
    pub custodies: Vec<Pubkey>,
}

/// What a pool is, to the contracts.
pub struct PoolView {
    pub name: Seq<char>,
    pub custodies: Seq<Pubkey>,
}

impl View for Pool {
    type V = PoolView;

    open spec fn view(&self) -> PoolView {
        PoolView { name: self.name@, custodies: self.custodies@ }
    }
}

impl PoolView {
    /// The pool's invariant: no asset is registered twice.
    pub open spec fn wf(&self) -> bool {
        self.custodies.no_duplicates()
    }

    /// What `register` prescribes: an asset that is registered already is
    /// refused; a new one goes to the end of the list.
    pub open spec fn registered(self, mint: Pubkey) -> Result<(PoolView, ()), ErrorCode> {
        if self.custodies.contains(mint) {
            Err(already_registered())
        } else {
            Ok((PoolView { custodies: self.custodies.push(mint), ..self }, ()))
        }
    }
}

impl Pool {
    /// A pool of the given name with no custody yet.
    pub fn new(name: String) -> (pool: Pool)
        ensures
            pool@ == (PoolView { name: name@, custodies: Seq::empty() }),
            pool@.wf(),
    {
        Pool { name, custodies: Vec::new() }
    }

    /// Whether the asset of the given mint has a custody in the pool.
    pub fn contains(&self, mint: &Pubkey) -> (found: bool)
        ensures
            found == self@.custodies.contains(*mint),
    {
        let mut i: usize = 0;
        while i < self.custodies.len()
            invariant
                i <= self.custodies@.len(),
                forall|j: int| 0 <= j < i ==> self.custodies@[j] != *mint,
            decreases self.custodies@.len() - i,
        {
            if self.custodies[i] == *mint {
                return true;
            }
            i = i + 1;
        }
        false
    }

    /// Appends the custody of a new asset to the pool.
    pub fn register(&mut self, mint: Pubkey) -> (r: Result<(), ErrorCode>)
        ensures
            transition(old(self)@.registered(mint), old(self)@, final(self)@, r),
            old(self)@.wf() ==> final(self)@.wf(),
            r is Ok ==> final(self)@.custodies.last() == mint,
    {
        if self.contains(&mint) {
            return Err(ErrorCode::Pool(PoolError::InvalidCustodyState));
        }
        self.custodies.push(mint);
        proof {
            let before = old(self)@.custodies;
            let after = self@.custodies;
            if before.no_duplicates() {
                assert forall|i: int, j: int|
                    0 <= i < after.len() && 0 <= j < after.len() && i != j implies after[i]
                    != after[j] by {}
            }
        }
        Ok(())
    }
}

} // verus!
