//! The opcodes of the session's message loop and their numeric encoding,
//! as the host's registration interface expects them.

use vstd::prelude::*;

verus! {

/// The events the session's blocking receive loop understands.
#[derive(Clone, Copy, Debug, PartialEq, Eq, Structural)]
pub enum EcdhTestOp {
    /// Redraw UI
    Redraw,
    /// User input line
    Line,
    /// Focus change event
    ChangeFocus,
    /// Quit the app
    Quit,
}

/// The numeric code each opcode is registered and dispatched under.
pub open spec fn opcode_value(op: EcdhTestOp) -> int {
    match op {
        EcdhTestOp::Redraw => 0,
        EcdhTestOp::Line => 1,
        EcdhTestOp::ChangeFocus => 2,
        EcdhTestOp::Quit => 3,
    }
}

impl EcdhTestOp {
    /// The code this opcode is registered under.
    pub fn to_u32(&self) -> (r: u32)
        ensures
            r == opcode_value(*self),
    {
        match *self {
            EcdhTestOp::Redraw => 0,
            EcdhTestOp::Line => 1,
            EcdhTestOp::ChangeFocus => 2,
            EcdhTestOp::Quit => 3,
        }
    }

    /// The opcode a received message id names, if any.
    pub fn from_usize(n: usize) -> (r: Option<EcdhTestOp>)
        ensures
            match r {
                Some(op) => opcode_value(op) == n,
                None => n > 3,
            },
    {
        if n == 0 {
            Some(EcdhTestOp::Redraw)
        } else if n == 1 {
            Some(EcdhTestOp::Line)
        } else if n == 2 {
            Some(EcdhTestOp::ChangeFocus)
        } else if n == 3 {
            Some(EcdhTestOp::Quit)
        } else {
            None
        }
    }
}

} // verus!
