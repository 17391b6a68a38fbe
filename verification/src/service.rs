//! The service itself: the counter and the handlers of the five operations.

use crate::decimal::{decimal_text, to_decimal};
use crate::operation::{greeting, greeting_text, Operation};
use crate::reply::{success_text, text_result};
use rmcp::model::CallToolResult;
use vstd::prelude::*;

verus! {

/// The counter service. It owns the counter; every handler that changes the
/// counter takes the service by `&mut`, so no two of them ever run on it at
/// once, and a caller that shares the service puts it behind a lock.
#[derive(Debug)]
pub struct HelloWorld {
    counter: i32,
}

impl View for HelloWorld {
    type V = i32;

    /// The value that the counter holds.
    closed spec fn view(&self) -> i32 {
        self.counter
    }
}

/// What the service tells a caller about itself.
pub open spec fn instructions_text() -> Seq<char> {
    "this is counter mcp server in rust"@
}

impl HelloWorld {
    /// What the service tells a caller about itself.
    pub fn instructions() -> (text: String)
        ensures
            text@ == instructions_text(),
    {
        "this is counter mcp server in rust".to_owned()
    }

    /// A service whose counter holds zero.
    pub fn new() -> (service: Self)
        ensures
            service@ == 0,
    {
        HelloWorld { counter: 0 }
    }

    /// A service whose counter holds `value`; `new` is this at zero.
    pub fn with_value(value: i32) -> (service: Self)
        ensures
            service@ == value,
    {
        HelloWorld { counter: value }
    }

    /// The value that the counter holds.
    pub fn value(&self) -> (value: i32)
        ensures
            value == self@,
    {
        self.counter
    }

    /// Adds one to the counter and replies with the new value.
    pub fn increment(&mut self) -> (reply: CallToolResult)
        requires
            old(self)@ < i32::MAX,
        ensures
            final(self)@ == old(self)@ + 1,
            reply == text_result(decimal_text(old(self)@ + 1)),
    {
        self.counter += 1;
        success_text(to_decimal(self.counter))
    }

    /// Takes one from the counter and replies with the new value.
    pub fn decrement(&mut self) -> (reply: CallToolResult)
        requires
            old(self)@ > i32::MIN,
        ensures
            final(self)@ == old(self)@ - 1,
            reply == text_result(decimal_text(old(self)@ - 1)),
    {
        self.counter -= 1;
        success_text(to_decimal(self.counter))
    }

    /// Replies with the value of the counter, which it leaves as it is.
    pub fn get_value(&self) -> (reply: CallToolResult)
        ensures
            reply == text_result(decimal_text(self@ as int)),
    {
        success_text(to_decimal(self.counter))
    }

    /// Sets the counter to zero and replies with the new value, `0`.
    pub fn reset(&mut self) -> (reply: CallToolResult)
        ensures
            final(self)@ == 0,
            reply == text_result("0"@),
    {
        self.counter = 0;
        proof {
            reveal_strlit("0");
            assert(decimal_text(0) =~= "0"@);
        }
        success_text(to_decimal(self.counter))
    }

    /// Replies with the greeting. It takes no service: no counter is read
    /// or changed for it.
    pub fn echo() -> (reply: CallToolResult)
        ensures
            reply == text_result(greeting_text()),
    {
        success_text(greeting())
    }

    /// Applies `op` where the counter can store its result, and replies as
    /// the handler of `op` does. Where it cannot (one more than the largest
    /// value, one less than the smallest) nothing is applied and there is no
    /// reply.
    pub fn call(&mut self, op: Operation) -> (reply: Option<CallToolResult>)
        ensures
            op.permitted(old(self)@ as int) ==> final(self)@ == op.next_value(old(self)@ as int)
                && reply == Some(text_result(op.reply_text(old(self)@ as int))),
            !op.permitted(old(self)@ as int) ==> final(self)@ == old(self)@ && reply is None,
    {
        match op {
            Operation::Increment => {
                if self.counter < i32::MAX {
                    Some(self.increment())
                } else {
                    None
                }
            },
            Operation::Decrement => {
                if self.counter > i32::MIN {
                    Some(self.decrement())
                } else {
                    None
                }
            },
            Operation::GetValue => Some(self.get_value()),
            Operation::Reset => {
                let reply = self.reset();
                proof {
                    reveal_strlit("0");
                    assert(decimal_text(0) =~= "0"@);
                }
                Some(reply)
            },
            Operation::Echo => Some(Self::echo()),
        }
    }
}

} // verus!
