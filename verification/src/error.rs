//! What an instruction can be refused for.

use vstd::prelude::*;

verus! {

/// The reasons for which the program itself refuses a request.
#[derive(Clone, Copy, Debug, PartialEq, Eq, Structural)]
pub enum StakingError {
    ZeroAmount,
    InsufficientStake,
    NothingToClaim,
    MathOverflow,
}

impl StakingError {
    /// The text shown to a user for this error.
    pub fn message(&self) -> (text: &'static str)
        ensures
            text@ == (match *self {
                StakingError::ZeroAmount => "Amount must be greater than zero"@,
                StakingError::InsufficientStake => "Insufficient staked balance"@,
                StakingError::NothingToClaim => "No rewards to claim"@,
                StakingError::MathOverflow => "Arithmetic overflow"@,
            }),
    {
        match self {
            StakingError::ZeroAmount => "Amount must be greater than zero",
            StakingError::InsufficientStake => "Insufficient staked balance",
            StakingError::NothingToClaim => "No rewards to claim",
            StakingError::MathOverflow => "Arithmetic overflow",
        }
    }
}

/// The accounts that instructions name.
#[derive(Clone, Copy, Debug, PartialEq, Eq, Structural)]
pub enum AccountName {
    Admin,
    User,
    Owner,
    Pool,
    StakeAccount,
    StakeVault,
    RewardVault,
    AdminRewardAccount,
    UserStakeAccount,
    UserRewardAccount,
    TokenProgram,
    AssociatedTokenProgram,
    SystemProgram,
}

/// The rules that an account handed to an instruction can break.
#[derive(Clone, Copy, Debug, PartialEq, Eq, Structural)]
pub enum Constraint {
    /// It must have signed.
    Signer,
    /// It must be a certain program.
    ProgramId,
    /// It must be executable.
    Executable,
    /// Its seeds must have an address.
    NoBump,
    /// It must live at the address that its seeds derive.
    Seeds,
    /// It must be writable.
    Mut,
    /// It must live at the associated token address of its owner and mint.
    Associated,
    /// It must be free for creation: owned by no program but the system program, and without
    /// data.
    InUse,
    /// It must not be handed in twice for writing.
    DuplicateMutable,
    /// Its record must name a certain other account.
    HasOne,
    /// It must live at a certain address.
    Address,
    /// Its tokens must belong to a certain owner.
    TokenOwner,
    /// Its tokens must be of a certain mint.
    TokenMint,
}

/// A rule on the accounts of an instruction was broken, and by which account.
#[derive(Clone, Copy, Debug, PartialEq, Eq, Structural)]
pub struct ConstraintError {
    pub account: AccountName,
    pub constraint: Constraint,
}

/// Why an instruction was refused: for the accounts handed to it, or by the program's own rules.
#[derive(Clone, Copy, Debug, PartialEq, Eq, Structural)]
pub enum InstructionError {
    Accounts(ConstraintError),
    Program(StakingError),
}

} // verus!
