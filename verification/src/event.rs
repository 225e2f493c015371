//! One input event as plain values.
use vstd::prelude::*;

verus! {

/// An input event: its type, its code and its value, as the kernel reports
/// them and as the virtual device is sent them.
#[derive(Clone, Copy, Debug, PartialEq, Eq, Structural)]
pub struct RawEvent {
    pub kind: u16,
    pub code: u16,
    pub value: i32,
}

impl RawEvent {
    /// An event with the given type, code and value.
    pub fn new(kind: u16, code: u16, value: i32) -> (e: RawEvent)
        ensures
            e == (RawEvent { kind, code, value }),
    {
        RawEvent { kind, code, value }
    }
}

} // verus!
