//! The buffer's single error kind, with enough numeric context for a
//! precise diagnostic line.

use vstd::prelude::*;
use vstd::string::StringExecFns;
use crate::decimal::decimal;
use crate::decimal::decimal_string;

verus! {

/// A requested position, step count or range would touch or exceed the
/// buffer's fixed capacity. Each variant records which operation was refused
/// and the numbers its diagnostic needs; callers branch on the variant
/// rather than parse text.
#[derive(Clone, Copy, Debug, PartialEq, Eq, Structural)]
pub enum OutOfBounds {
    /// A cursor step would land at or past the capacity.
    Step { steps: usize, position: usize, capacity: usize },
    /// A seek target lies at or past the capacity.
    Seek { position: usize, capacity: usize },
    /// The cursor itself stands at the capacity: no byte is left to read.
    Read,
    /// A range reaches to or past the capacity.
    Range { start: usize, length: usize, capacity: usize },
}

/// The diagnostic line for an error, character for character.
pub open spec fn message_spec(error: OutOfBounds) -> Seq<char> {
    match error {
        OutOfBounds::Step { steps, position, capacity } => "The number of steps "@ + decimal(
            steps as nat,
        ) + " exceeded from position "@ + decimal(position as nat)
            + " the maximum capacity of the buffer ("@ + decimal(capacity as nat) + ")."@,
        OutOfBounds::Seek { position, capacity } => "The position "@ + decimal(position as nat)
            + " is not valid because the maximum position is "@ + decimal(
            if capacity > 0 {
                (capacity - 1) as nat
            } else {
                0
            },
        ) + "."@,
        OutOfBounds::Read => "Maximum position reached so, no more bytes can be read."@,
        OutOfBounds::Range { start, length, capacity } => "The range starting from "@ + decimal(
            start as nat,
        ) + " with length "@ + decimal(length as nat) + " exceeded the limit ("@ + decimal(
            capacity as nat,
        ) + ")."@,
    }
}

impl OutOfBounds {
    /// Renders the diagnostic line for this error.
    pub fn message(&self) -> (text: String)
        ensures
            text@ == message_spec(*self),
    {
        match *self {
            OutOfBounds::Step { steps, position, capacity } => {
                let mut text: String = "The number of steps ".to_owned();
                text.append(decimal_string(steps).as_str());
                text.append(" exceeded from position ");
                text.append(decimal_string(position).as_str());
                text.append(" the maximum capacity of the buffer (");
                text.append(decimal_string(capacity).as_str());
                text.append(").");
                text
            },
            OutOfBounds::Seek { position, capacity } => {
                let maximum: usize = if capacity > 0 {
                    capacity - 1
                } else {
                    0
                };
                let mut text: String = "The position ".to_owned();
                text.append(decimal_string(position).as_str());
                text.append(" is not valid because the maximum position is ");
                text.append(decimal_string(maximum).as_str());
                text.append(".");
                text
            },
            OutOfBounds::Read => "Maximum position reached so, no more bytes can be read."
                .to_owned(),
            OutOfBounds::Range { start, length, capacity } => {
                let mut text: String = "The range starting from ".to_owned();
                text.append(decimal_string(start).as_str());
                text.append(" with length ");
                text.append(decimal_string(length).as_str());
                text.append(" exceeded the limit (");
                text.append(decimal_string(capacity).as_str());
                text.append(").");
                text
            },
        }
    }
}

} // verus!
