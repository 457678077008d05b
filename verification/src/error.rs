//! Failure reasons. Every rule violation is detected before any mutation,
//! is surfaced to the caller, and leaves the state unchanged.

use vstd::prelude::*;

verus! {

/// Why a placement is illegal.
#[derive(Clone, Copy, Debug, PartialEq, Eq, Structural)]
pub enum PlacementError {
    /// The target vertex or edge is already occupied.
    Occupied,
    /// A directly connected vertex already holds a settlement or a city.
    DistanceRule,
    /// No owned road, settlement or city reaches the target.
    NotConnected,
    /// The player has no piece of the required kind left.
    NoPieces,
    /// A city may only replace a settlement of the same player.
    NotOwnSettlement,
}

/// Why an operation was refused. All failures are recoverable and leave
/// the session exactly as it was.
#[derive(Clone, Copy, Debug, PartialEq, Eq, Structural)]
pub enum GameError {
    /// The action does not fit the current turn phase.
    OutOfOrder,
    /// The acting player is not the player in turn.
    NotYourTurn,
    /// A placement rule is violated; the sub-reason says which.
    IllegalPlacement(PlacementError),
    /// A non-existent hex, vertex, edge or direction, or a robber move to
    /// the hex it already occupies.
    InvalidTarget,
}

} // verus!
