//! The instructions: one atomic operation each. An instruction takes the
//! accounts it works on as one value, checks everything before it changes
//! anything, and on failure leaves every account as it was.

pub mod add_custody;
pub mod auto_exercise;
pub mod depositusdc;
pub mod depositwsol;
pub mod exercise_option;
pub mod expire_option;
pub mod initialize;
pub mod movement;
pub mod selloption;
pub mod settlement;
pub mod withdrawusdc;
pub mod withdrawwsol;
