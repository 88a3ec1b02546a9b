use vstd::prelude::*;

verus! {

/// What a transport operation can fail with.
#[derive(Debug, Clone, Copy, PartialEq, Eq, Structural)]
pub enum Error {
    /// A frame is shorter than the header every frame starts with.
    BufferUnderflow,
    /// The queue has no room for the frame that was asked for.
    BufferOverflow,
    /// The payload of a received frame is not a valid value of the expected type.
    InvalidMsg,
    /// The producer side could not enqueue.
    TxFail,
    /// The consumer side could not dequeue.
    RxFail,
}

impl Error {
    /// The text that describes this error.
    pub open spec fn text(self) -> Seq<char> {
        match self {
            Error::BufferUnderflow => "buffer underflow"@,
            Error::BufferOverflow => "buffer overflow"@,
            Error::InvalidMsg => "invalid msg"@,
            Error::TxFail => "tx fail"@,
            Error::RxFail => "rx fail"@,
        }
    }

    /// Renders the error as the short lower-case phrase that names it.
    pub fn message(&self) -> (s: String)
        ensures
            s@ == self.text(),
    {
        match self {
            Error::BufferUnderflow => "buffer underflow".to_string(),
            Error::BufferOverflow => "buffer overflow".to_string(),
            Error::InvalidMsg => "invalid msg".to_string(),
            Error::TxFail => "tx fail".to_string(),
            Error::RxFail => "rx fail".to_string(),
        }
    }
}

} // verus!
