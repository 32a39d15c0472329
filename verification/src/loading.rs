//! The asset-loading gate: when the application may enter play.
//!
//! The host tracks a group of pending asset loads and reports their joint
//! state each tick. The decision here is the whole logic of that phase:
//! enter the in-game state exactly when every tracked asset has loaded —
//! dropping the tracking there — and otherwise stay loading, a failed
//! asset included.

use vstd::prelude::*;

verus! {

/// The application's top-level state.
#[derive(Clone, Copy, Debug, PartialEq, Eq, Hash, Structural)]
pub enum AppState {
    Loading,
    InGame,
}

/// Joint state of a group of tracked asset loads, as the host reports it.
#[derive(Clone, Copy, Debug, PartialEq, Eq, Structural)]
pub enum LoadState {
    NotLoaded,
    Loading,
    Loaded,
    Failed,
    Unloaded,
}

/// Decides the tick's transition: `Some(InGame)` exactly when the whole
/// group has loaded — the host then drops its tracking handles — and `None`
/// otherwise, so the application keeps loading (a failure holds it there
/// too).
pub fn check_assets_ready(load: LoadState) -> (r: Option<AppState>)
    ensures
        load is Loaded ==> r == Some(AppState::InGame),
        !(load is Loaded) ==> r is None,
{
    match load {
        LoadState::Loaded => Some(AppState::InGame),
        _ => None,
    }
}

} // verus!
