//! The actions a player can bind inputs to.

use vstd::prelude::*;

verus! {

/// Everything the player can do; a host binds keys, buttons and axes to
/// these.
#[derive(Clone, Copy, PartialEq, Eq, Structural, Hash, Debug)]
#[non_exhaustive]
pub enum PlayerAction {
    Hit,
    Place,
    Jump,
    Move,
    Look,
    MoveUp,
    MoveDown,
    MoveLeft,
    MoveRight,
    EnterHex,
    ExitChunk,
    ToolbarNext,
    ToolbarPrev,
    ItemInc,
    ItemDec,
}

} // verus!
