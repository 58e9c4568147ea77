use vstd::prelude::*;

pub mod account;
pub mod address;
pub mod error;
pub mod key;
pub mod lifecycle;

pub use account::{UserAccount, ANCHOR_DISCRIMINATOR, USER_ACCOUNT_INIT_SPACE, USER_ACCOUNT_SPACE};
pub use address::{find_user_address, verify_user_address};
pub use error::CustomError;
pub use key::Pubkey;
pub use lifecycle::{
    deposit, initialize_user, InitializeUser, ModifyBalance, RecordAccount, RecordState,
    SignerAccount,
};

verus! {

} // verus!
