use vstd::prelude::*;

use crate::account::{UserAccount, USER_ACCOUNT_SPACE};
use crate::address::{derived_user_address, find_user_address};
use crate::error::CustomError;
use crate::key::{system_program_id, Pubkey};

verus! {

/// Whether a record is stored at an address.
#[derive(Clone, Copy, Debug)]
pub enum RecordState {
    Absent,
    Present(UserAccount),
}

/// The account that holds (or will hold) a user record.
#[derive(Clone, Copy, Debug)]
pub struct RecordAccount {
    pub address: Pubkey,
    pub lamports: u64,
    /// Bytes allocated for the account's data.
    pub space: usize,
    pub state: RecordState,
}

/// The user: a key, whether it signed the request, and what it holds.
#[derive(Clone, Copy, Debug)]
pub struct SignerAccount {
    pub key: Pubkey,
    pub is_signer: bool,
    pub lamports: u64,
}

/// The accounts that `initialize_user` works on, in order.
#[derive(Clone, Copy, Debug)]
pub struct InitializeUser {
    pub user_account: RecordAccount,
    pub user: SignerAccount,
    pub system_program: Pubkey,
}

/// The accounts that `deposit` works on, in order.
#[derive(Clone, Copy, Debug)]
pub struct ModifyBalance {
    pub user_account: RecordAccount,
    pub user: SignerAccount,
    pub system_program: Pubkey,
}

/// What the payer must add so that an account holding `held` reaches `rent`.
pub open spec fn rent_due(rent: u64, held: u64) -> u64 {
    if held >= rent {
        0
    } else {
        (rent - held) as u64
    }
}

/// The accounts after `initialize_user`, or the error it reports.
pub open spec fn initialize_user_outcome(program_id: Seq<u8>, pre: InitializeUser, rent: u64) -> Result<
    InitializeUser,
    CustomError,
> {
    if !pre.user.is_signer {
        Err(CustomError::MissingSignature)
    } else if pre.system_program@ != system_program_id() {
        Err(CustomError::InvalidProgramId)
    } else {
        match derived_user_address(program_id, pre.user.key@) {
            Err(e) => Err(e),
            Ok((address, _bump)) => {
                let due = rent_due(rent, pre.user_account.lamports);
                if pre.user_account.address@ != address {
                    Err(CustomError::AddressMismatch)
                } else if pre.user_account.state is Present {
                    Err(CustomError::AccountAlreadyExists)
                } else if pre.user.lamports < due {
                    Err(CustomError::InsufficientPayerFunds)
                } else {
                    Ok(
                        InitializeUser {
                            user_account: RecordAccount {
                                address: pre.user_account.address,
                                lamports: (pre.user_account.lamports + due) as u64,
                                space: USER_ACCOUNT_SPACE,
                                state: RecordState::Present(
                                    UserAccount { owner: pre.user.key, balance: 0, total_bets: 0 },
                                ),
                            },
                            user: SignerAccount {
                                key: pre.user.key,
                                is_signer: pre.user.is_signer,
                                lamports: (pre.user.lamports - due) as u64,
                            },
                            system_program: pre.system_program,
                        },
                    )
                }
            },
        }
    }
}

/// The accounts after `deposit`, or the error it reports.
pub open spec fn deposit_outcome(pre: ModifyBalance, amount: u64) -> Result<ModifyBalance, CustomError> {
    if !pre.user.is_signer {
        Err(CustomError::MissingSignature)
    } else if pre.system_program@ != system_program_id() {
        Err(CustomError::InvalidProgramId)
    } else {
        match pre.user_account.state {
            RecordState::Absent => Err(CustomError::AccountNotInitialized),
            RecordState::Present(record) => {
                if record.owner@ != pre.user.key@ {
                    Err(CustomError::UnauthorizedSigner)
                } else if pre.user.lamports < amount {
                    Err(CustomError::InsufficientFunds)
                } else if record.balance + amount > u64::MAX || pre.user_account.lamports + amount
                    > u64::MAX {
                    Err(CustomError::BalanceOverflow)
                } else {
                    Ok(
                        ModifyBalance {
                            user_account: RecordAccount {
                                address: pre.user_account.address,
                                lamports: (pre.user_account.lamports + amount) as u64,
                                space: pre.user_account.space,
                                state: RecordState::Present(
                                    UserAccount {
                                        owner: record.owner,
                                        balance: (record.balance + amount) as u64,
                                        total_bets: record.total_bets,
                                    },
                                ),
                            },
                            user: SignerAccount {
                                key: pre.user.key,
                                is_signer: pre.user.is_signer,
                                lamports: (pre.user.lamports - amount) as u64,
                            },
                            system_program: pre.system_program,
                        },
                    )
                }
            },
        }
    }
}

/// Creates the record of the signing user at its derived address, with the
/// user as owner and both counters at zero. The user pays what the record
/// account lacks of `rent`, the minimum balance for `USER_ACCOUNT_SPACE` bytes.
/// On any error no account changes.
pub fn initialize_user(program_id: &Pubkey, ctx: &mut InitializeUser, rent: u64) -> (r: Result<
    (),
    CustomError,
>)
    ensures
        match initialize_user_outcome(program_id@, *old(ctx), rent) {
            Ok(post) => r is Ok && *final(ctx) == post,
            Err(e) => r == Err::<(), CustomError>(e) && *final(ctx) == *old(ctx),
        },
        r is Ok ==> final(ctx).user_account.state == RecordState::Present(
            UserAccount { owner: old(ctx).user.key, balance: 0, total_bets: 0 },
        ),
        r is Ok ==> final(ctx).user_account.space == USER_ACCOUNT_SPACE,
        r is Ok ==> final(ctx).user.lamports == old(ctx).user.lamports - rent_due(
            rent,
            old(ctx).user_account.lamports,
        ),
        r is Ok ==> final(ctx).user.lamports + final(ctx).user_account.lamports == old(
            ctx,
        ).user.lamports + old(ctx).user_account.lamports,
{
    if !ctx.user.is_signer {
        return Err(CustomError::MissingSignature);
    }
    if !(ctx.system_program == Pubkey::system_program()) {
        return Err(CustomError::InvalidProgramId);
    }
    let address = match find_user_address(program_id, &ctx.user.key) {
        Ok((address, _bump)) => address,
        Err(e) => {
            return Err(e);
        },
    };
    if !(ctx.user_account.address == address) {
        return Err(CustomError::AddressMismatch);
    }
    if let RecordState::Present(_) = ctx.user_account.state {
        return Err(CustomError::AccountAlreadyExists);
    }
    let due: u64 = if ctx.user_account.lamports >= rent {
        0
    } else {
        rent - ctx.user_account.lamports
    };
    if ctx.user.lamports < due {
        return Err(CustomError::InsufficientPayerFunds);
    }
    ctx.user.lamports = ctx.user.lamports - due;
    ctx.user_account.lamports = ctx.user_account.lamports + due;
    ctx.user_account.space = USER_ACCOUNT_SPACE;
    ctx.user_account.state = RecordState::Present(
        UserAccount { owner: ctx.user.key, balance: 0, total_bets: 0 },
    );
    Ok(())
}

/// Moves `amount` from the signing owner to the record's account and credits
/// it to the record's balance, both or neither. On any error no account
/// changes.
pub fn deposit(ctx: &mut ModifyBalance, amount: u64) -> (r: Result<(), CustomError>)
    ensures
        match deposit_outcome(*old(ctx), amount) {
            Ok(post) => r is Ok && *final(ctx) == post,
            Err(e) => r == Err::<(), CustomError>(e) && *final(ctx) == *old(ctx),
        },
        r is Ok ==> final(ctx).user.lamports == old(ctx).user.lamports - amount,
        r is Ok ==> final(ctx).user_account.lamports == old(ctx).user_account.lamports + amount,
        r is Ok ==> old(ctx).user_account.state is Present && final(ctx).user_account.state is Present,
        r is Ok ==> final(ctx).user_account.state->Present_0.balance == old(
            ctx,
        ).user_account.state->Present_0.balance + amount,
        r is Ok ==> final(ctx).user_account.state->Present_0.owner == old(
            ctx,
        ).user_account.state->Present_0.owner,
        r is Ok ==> final(ctx).user_account.state->Present_0.total_bets == old(
            ctx,
        ).user_account.state->Present_0.total_bets,
{
    if !ctx.user.is_signer {
        return Err(CustomError::MissingSignature);
    }
    if !(ctx.system_program == Pubkey::system_program()) {
        return Err(CustomError::InvalidProgramId);
    }
    let record = match ctx.user_account.state {
        RecordState::Absent => {
            return Err(CustomError::AccountNotInitialized);
        },
        RecordState::Present(record) => record,
    };
    if !(record.owner == ctx.user.key) {
        return Err(CustomError::UnauthorizedSigner);
    }
    if ctx.user.lamports < amount {
        return Err(CustomError::InsufficientFunds);
    }
    if record.balance > u64::MAX - amount || ctx.user_account.lamports > u64::MAX - amount {
        return Err(CustomError::BalanceOverflow);
    }
    ctx.user.lamports = ctx.user.lamports - amount;
    ctx.user_account.lamports = ctx.user_account.lamports + amount;
    ctx.user_account.state = RecordState::Present(
        UserAccount {
            owner: record.owner,
            balance: record.balance + amount,
            total_bets: record.total_bets,
        },
    );
    Ok(())
}

/// Whether `pre` is a request that `initialize_user` accepts up to the
/// existence and funding checks: signed, with the system program, and naming
/// the record address derived for the signer.
pub open spec fn initialize_request_valid(program_id: Seq<u8>, pre: InitializeUser) -> bool {
    &&& pre.user.is_signer
    &&& pre.system_program@ == system_program_id()
    &&& derived_user_address(program_id, pre.user.key@) matches Ok((address, _bump))
    &&& pre.user_account.address@ == address
}

/// A record is created once per key: a valid request for an absent record
/// that the user can fund succeeds, and the same request made again on the
/// resulting accounts, with any rent, fails with `AccountAlreadyExists`
/// (and so, by `initialize_user`, changes nothing).
pub proof fn lemma_initialize_once(program_id: Pubkey, pre: InitializeUser, rent: u64, later_rent: u64)
    requires
        initialize_request_valid(program_id@, pre),
        pre.user_account.state is Absent,
        pre.user.lamports >= rent_due(rent, pre.user_account.lamports),
    ensures
        initialize_user_outcome(program_id@, pre, rent) is Ok,
        initialize_user_outcome(program_id@, initialize_user_outcome(program_id@, pre, rent)->Ok_0, later_rent)
            == Err::<InitializeUser, CustomError>(CustomError::AccountAlreadyExists),
{
}

/// A user who cannot fund the record's rent gets `InsufficientPayerFunds` and
/// no record.
pub proof fn lemma_initialize_underfunded(program_id: Pubkey, pre: InitializeUser, rent: u64)
    requires
        initialize_request_valid(program_id@, pre),
        pre.user_account.state is Absent,
        pre.user.lamports < rent_due(rent, pre.user_account.lamports),
    ensures
        initialize_user_outcome(program_id@, pre, rent) == Err::<InitializeUser, CustomError>(
            CustomError::InsufficientPayerFunds,
        ),
{
}

/// Whether `pre` is a deposit request by the record's signing owner.
pub open spec fn deposit_request_valid(pre: ModifyBalance) -> bool {
    &&& pre.user.is_signer
    &&& pre.system_program@ == system_program_id()
    &&& pre.user_account.state matches RecordState::Present(record)
    &&& record.owner@ == pre.user.key@
}

/// A valid deposit of `amount` raises the record's balance by `amount`, lowers
/// the user's funds by `amount`, and raises the record account's funds by the
/// same, so what the account holds beyond the balance does not drift; one of
/// more than the user holds returns `InsufficientFunds` and changes nothing.
pub proof fn lemma_deposit_moves_amount(pre: ModifyBalance, amount: u64)
    requires
        deposit_request_valid(pre),
    ensures
        amount > pre.user.lamports ==> deposit_outcome(pre, amount) == Err::<
            ModifyBalance,
            CustomError,
        >(CustomError::InsufficientFunds),
        amount <= pre.user.lamports && pre.user_account.state->Present_0.balance + amount
            <= u64::MAX && pre.user_account.lamports + amount <= u64::MAX ==> ({
            let post = deposit_outcome(pre, amount)->Ok_0;
            &&& deposit_outcome(pre, amount) is Ok
            &&& post.user_account.state->Present_0.balance == pre.user_account.state->Present_0.balance
                + amount
            &&& post.user.lamports == pre.user.lamports - amount
            &&& post.user_account.lamports - post.user_account.state->Present_0.balance
                == pre.user_account.lamports - pre.user_account.state->Present_0.balance
        }),
{
}

} // verus!
