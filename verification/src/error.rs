use vstd::prelude::*;

verus! {

/// Errors raised while turning one log line into an event value.
#[derive(Debug, Clone, PartialEq, Eq)]
pub enum Error {
    /// A token did not match the expected shape (a boolean that was not
    /// `T`/`F`, an identifier outside the closed set).
    InvalidToken,
    /// A field was demanded but the token stream was exhausted.
    UnexpectedEnd,
    /// The scalar parser rejected an integer token.
    ParseIntError,
    /// The scalar parser rejected a decimal token.
    ParseFloatError,
    /// A list-shaped field's token did not begin with `[` and end with `]`.
    NotAList,
    /// The top-level parse left unread tokens after the event was complete.
    ReaderNotExhausted,
    /// Forwarded from a caller-supplied consumer.
    CustomError(String),
    /// The caller asked for a capability outside this codec's remit.
    UnsupportedOperation(&'static str),
}

/// Errors raised while turning an event value back into a log line.
#[derive(Debug, Clone, PartialEq, Eq)]
pub enum SerializeError {
    /// Forwarded from a caller-supplied producer.
    CustomError(String),
    /// The caller asked for a capability outside this codec's remit.
    UnsupportedOperation(&'static str),
}

} // verus!
