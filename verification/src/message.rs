//! The message (echo) service: answers a diagnostic call with a fixed
//! greeting and the number it was sent.

use vstd::prelude::*;

verus! {

/// The reply to one echo call.
pub struct Message {
    pub text: String,
    pub number: i64,
}

/// One instance of the message service. It holds no state: every instance
/// behaves identically, and a call leaves it unchanged.
pub struct MessageImpl;

impl MessageImpl {
    /// Allocate a fresh service instance.
    pub fn new() -> MessageImpl {
        MessageImpl {  }
    }

    /// Answer an echo call: the text is always `"Hello There"` and the
    /// number is the one received, over the full signed 64-bit range.
    /// The reply is a function of `num` alone, and the receiver is left
    /// as it was: no state is shared between instances or between calls.
    pub fn get(&mut self, num: i64) -> (m: Message)
        ensures
            m.text@ == "Hello There"@,
            m.number == num,
            *final(self) == *old(self),
    {
        Message { text: "Hello There".to_owned(), number: num }
    }
}

} // verus!
