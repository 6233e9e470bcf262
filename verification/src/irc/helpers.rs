//! Parts of IRC messages.
use vstd::prelude::*;

verus! {

/// A user mode flag (RFC 2812, 3.1.5).
#[allow(non_camel_case_types)]
pub enum Mode {
    a,
    i,
    w,
    r,
    o,
    O,
    s,
}

/// A change of user modes: flags added (`plus`) or removed, with an optional parameter.
pub struct ModeMsg {
    plus: bool,
    modes: Vec<Mode>,
    modeparam: Option<String>,
}

/// Joining channels (with their keys), or leaving all of them.
pub enum JoinMsg {
    Join { channels: Vec<String>, keys: Option<Vec<String>> },
    Leave,
}

} // verus!
