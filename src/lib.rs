//! A minimal desktop UI host: a widget tree of text, the fixed vertical
//! layout that turns it into positioned text sections each frame, the
//! surface-configuration rules of the graphics context, and the event-loop
//! state machine that drives redraws, resizes and shutdown.
use vstd::prelude::*;

pub mod widgets;
pub mod frame;
pub mod graphics;
pub mod host;

verus! {

} // verus!
