use vstd::prelude::*;

verus! {

/// Every way an action of the engine can be refused.
#[derive(Debug, Clone, Copy, PartialEq, Eq, Structural)]
pub enum ArenaError {
    Unauthorized,
    MathOverflow,
    InvalidRig,
    InvalidLock,
    StakeLocked,
    InvalidBps,
    TooManyActiveBoosts,
    InsufficientBoostPoints,
    IncompleteConfig,
    InvalidStakePda,
}

/// The human-readable message of each error.
pub open spec fn message_of(e: ArenaError) -> Seq<char> {
    match e {
        ArenaError::Unauthorized => "Unauthorized"@,
        ArenaError::MathOverflow => "Math overflow"@,
        ArenaError::InvalidRig => "Invalid rig"@,
        ArenaError::InvalidLock => "Invalid lock"@,
        ArenaError::StakeLocked => "Stake still locked"@,
        ArenaError::InvalidBps => "Invalid basis points value"@,
        ArenaError::TooManyActiveBoosts => "Too many active boosts"@,
        ArenaError::InsufficientBoostPoints => "Insufficient boost points"@,
        ArenaError::IncompleteConfig => "Configuration incomplete"@,
        ArenaError::InvalidStakePda => "Invalid stake PDA"@,
    }
}

impl ArenaError {
    /// Human-readable message of the error.
    pub fn message(&self) -> (r: &'static str)
        ensures
            r@ == message_of(*self),
    {
        match self {
            ArenaError::Unauthorized => "Unauthorized",
            ArenaError::MathOverflow => "Math overflow",
            ArenaError::InvalidRig => "Invalid rig",
            ArenaError::InvalidLock => "Invalid lock",
            ArenaError::StakeLocked => "Stake still locked",
            ArenaError::InvalidBps => "Invalid basis points value",
            ArenaError::TooManyActiveBoosts => "Too many active boosts",
            ArenaError::InsufficientBoostPoints => "Insufficient boost points",
            ArenaError::IncompleteConfig => "Configuration incomplete",
            ArenaError::InvalidStakePda => "Invalid stake PDA",
        }
    }
}

} // verus!
