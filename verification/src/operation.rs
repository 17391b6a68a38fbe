//! The five operations of the service and what each of them means: its
//! effect on the counter and the text of its reply.

use crate::decimal::decimal_text;
use vstd::prelude::*;

verus! {

/// One of the parameterless operations that a caller may invoke.
#[derive(Clone, Copy, Debug, PartialEq, Eq, Structural)]
pub enum Operation {
    /// Adds one to the counter.
    Increment,
    /// Takes one from the counter.
    Decrement,
    /// Reads the counter.
    GetValue,
    /// Sets the counter to zero.
    Reset,
    /// Answers with the greeting and leaves the counter alone.
    Echo,
}

/// The greeting that `Echo` answers with, whatever the counter holds.
pub open spec fn greeting_text() -> Seq<char> {
    "你好， 我是mcp-server-rust"@
}

/// The greeting, as a string.
pub fn greeting() -> (text: String)
    ensures
        text@ == greeting_text(),
{
    "你好， 我是mcp-server-rust".to_owned()
}

impl Operation {
    /// The counter after the operation, applied to a counter that holds
    /// `value`. The model is unbounded; `permitted` says when the result can
    /// be stored.
    pub open spec fn next_value(self, value: int) -> int {
        match self {
            Operation::Increment => value + 1,
            Operation::Decrement => value - 1,
            Operation::Reset => 0,
            Operation::GetValue | Operation::Echo => value,
        }
    }

    /// Whether the operation stores a value in the counter.
    pub open spec fn writes(self) -> bool {
        self is Increment || self is Decrement || self is Reset
    }

    /// The text of the reply to the operation, applied to a counter that
    /// holds `value`: the decimal notation of the counter after it, or the
    /// greeting.
    pub open spec fn reply_text(self, value: int) -> Seq<char> {
        match self {
            Operation::Echo => greeting_text(),
            _ => decimal_text(self.next_value(value)),
        }
    }

    /// Whether a counter that holds `value` can store the operation's result.
    pub open spec fn permitted(self, value: int) -> bool {
        i32::MIN <= self.next_value(value) <= i32::MAX
    }

    /// The name under which callers invoke the operation.
    pub open spec fn name_text(self) -> Seq<char> {
        match self {
            Operation::Increment => "increment"@,
            Operation::Decrement => "decrement"@,
            Operation::GetValue => "get_value"@,
            Operation::Reset => "reset"@,
            Operation::Echo => "echo"@,
        }
    }

    /// The sentence that describes the operation to callers.
    pub open spec fn description_text(self) -> Seq<char> {
        match self {
            Operation::Increment => "Increment the counter"@,
            Operation::Decrement => "Decrement the counter"@,
            Operation::GetValue => "Get the current value of the counter"@,
            Operation::Reset => "Reset the counter to zero"@,
            Operation::Echo => "Echo the input"@,
        }
    }

    /// The name under which callers invoke the operation.
    pub fn name(self) -> (name: &'static str)
        ensures
            name@ == self.name_text(),
    {
        match self {
            Operation::Increment => "increment",
            Operation::Decrement => "decrement",
            Operation::GetValue => "get_value",
            Operation::Reset => "reset",
            Operation::Echo => "echo",
        }
    }

    /// The sentence that describes the operation to callers.
    pub fn description(self) -> (text: &'static str)
        ensures
            text@ == self.description_text(),
    {
        match self {
            Operation::Increment => "Increment the counter",
            Operation::Decrement => "Decrement the counter",
            Operation::GetValue => "Get the current value of the counter",
            Operation::Reset => "Reset the counter to zero",
            Operation::Echo => "Echo the input",
        }
    }
}

} // verus!
