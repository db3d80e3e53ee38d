use vstd::prelude::*;

verus! {

/// The identity of an authenticated caller.
pub type AccountId = u64;

/// Why an action was refused. A refused action changes nothing.
#[derive(Clone, Copy, Debug, PartialEq, Eq, Structural)]
pub enum GameError {
    /// `init` on an account that already has a state.
    AlreadyInitialized,
    /// An action other than `init` on an account without a state.
    NoAccount,
    /// The balance that pays for the action is below its price.
    InsufficientFunds,
    /// The targeted cell is not a gold vein, or lies outside the grid.
    InvalidTerrain,
    /// The single mine has already been bought.
    AlreadyBuilt,
    /// There is no active building to level up at the target.
    NotYetBuilt,
    /// The state holds no gold balance.
    ResourceNotFound,
    /// The given time is earlier than the building's last update.
    StaleTimestamp,
    /// The accrued balance does not fit in a `u64`.
    BalanceOverflow,
}

/// Notifications for the surrounding runtime.
#[derive(Clone, Copy, Debug, PartialEq, Eq, Structural)]
pub enum Event {
    /// An account was given its starting state.
    PlayerCreated(AccountId),
}

} // verus!
