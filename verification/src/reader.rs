//! The decision taken after one attempt to read a message.
//!
//! A reader owns a stream that never blocks. Each call makes one attempt to
//! decode one message from it. The attempt ends in one of three ways: a
//! message is complete, the stream has nothing ready, or the attempt failed.
//! This module turns the end of an attempt into what the caller of the reader
//! sees: a message, "nothing yet", or an error that ends the connection. The
//! next call is a new attempt; nothing is kept from one to the next.
//!
//! The attempt itself is made by whoever owns the stream. It hands the result
//! to [`try_recv`], together with the bytes that the attempt read.

use crate::encoding::{failure_kind, failure_of};
use vstd::prelude::*;

verus! {

/// Why one attempt to decode a message produced no value.
#[derive(Debug, Clone, PartialEq, Eq)]
pub enum DecodeFailure {
    /// The stream gave an error. The flag tells whether the error only says
    /// that no bytes were ready.
    Io(bool),
    /// A text is not UTF-8.
    InvalidUtf8Encoding,
    /// A truth value is encoded by this byte, which is neither 0 nor 1.
    InvalidBoolEncoding(u8),
    /// A character is not encoded as one.
    InvalidCharEncoding,
    /// The tag of a variant is this number, which no variant has.
    InvalidTagEncoding(usize),
    /// The type asks the decoder to find out what comes next, which this
    /// encoding cannot tell.
    DeserializeAnyNotSupported,
    /// The message takes more bytes than the size limit admits.
    SizeLimit,
    /// A sequence does not tell its length in advance.
    SequenceMustHaveLength,
    /// The type of the message refused the bytes, with this text.
    Custom(String),
}

impl DecodeFailure {
    /// The stream had no bytes ready. Nothing is wrong: the caller asks again
    /// later.
    pub open spec fn would_block(self) -> bool {
        self == DecodeFailure::Io(true)
    }

    /// The stream failed, and not only for want of bytes.
    pub open spec fn stream_failed(self) -> bool {
        self == DecodeFailure::Io(false)
    }

    /// Bytes were read, and they are not a message of the expected type.
    pub open spec fn is_malformed(self) -> bool {
        !(self is Io)
    }
}

/// An error that ends the connection. It holds the cause as the decoder gave
/// it, whole.
#[derive(Debug, Clone, PartialEq, Eq)]
pub enum RecvError<E> {
    /// The stream failed.
    Io(E),
    /// The bytes read are not a message. The error also holds the bytes that
    /// the attempt read, for diagnostics.
    Malformed(E, Vec<u8>),
}

/// What the caller of a reader sees after an attempt that ended in `attempt`
/// and read the bytes `raw`. A failed attempt tells its kind and its cause.
pub open spec fn settled<T, E>(attempt: Result<T, (DecodeFailure, E)>, raw: Vec<u8>) -> Result<
    Option<T>,
    RecvError<E>,
> {
    match attempt {
        Ok(message) => Ok(Some(message)),
        Err((failure, cause)) => if failure.would_block() {
            Ok(None)
        } else if failure.stream_failed() {
            Err(RecvError::Io(cause))
        } else {
            Err(RecvError::Malformed(cause, raw))
        },
    }
}

/// Settles one attempt to read a message.
///
/// A decoded message is handed on. A stream without bytes ready is no error:
/// the answer is `Ok(None)`. Any other failure of the stream is an error that
/// holds the cause. Bytes that are not a message are an error that holds the
/// cause and `raw`, the bytes that the attempt read, whatever their number.
pub fn settle<T, E>(attempt: Result<T, (DecodeFailure, E)>, raw: Vec<u8>) -> (r: Result<
    Option<T>,
    RecvError<E>,
>)
    ensures
        r == settled(attempt, raw),
        r is Ok <==> attempt is Ok || (attempt matches Err(failed) && failed.0.would_block()),
        r matches Ok(Some(message)) ==> attempt == Ok::<T, (DecodeFailure, E)>(message),
        r matches Err(RecvError::Io(cause)) ==> attempt matches Err(failed) && failed.1 == cause
            && failed.0.stream_failed(),
        r matches Err(RecvError::Malformed(cause, bytes)) ==> attempt matches Err(failed)
            && failed.1 == cause && failed.0.is_malformed() && bytes == raw,
{
    match attempt {
        Ok(message) => Ok(Some(message)),
        Err((failure, cause)) => match failure {
            DecodeFailure::Io(would_block) => {
                if would_block {
                    Ok(None)
                } else {
                    Err(RecvError::Io(cause))
                }
            },
            _ => Err(RecvError::Malformed(cause, raw)),
        },
    }
}

/// Settles one attempt that `bincode` made to read a message.
///
/// `attempt` is what the decoder returned and `raw` holds the bytes that the
/// attempt read. A decoded message is handed on. After an error the answer is
/// that of [`settle`] for the kind of the error, with the error itself as the
/// cause: "nothing yet" exactly when the stream would block, the error when the
/// stream failed otherwise, and the error with `raw` when the bytes are not a
/// message.
pub fn try_recv<T>(attempt: Result<T, Box<bincode::ErrorKind>>, raw: Vec<u8>) -> (r: Result<
    Option<T>,
    RecvError<Box<bincode::ErrorKind>>,
>)
    ensures
        attempt matches Ok(message) ==> r == Ok::<Option<T>, RecvError<Box<bincode::ErrorKind>>>(
            Some(message),
        ),
        attempt matches Err(error) ==> r == settled::<T, Box<bincode::ErrorKind>>(
            Err((failure_kind(*error), error)),
            raw,
        ),
        r == Ok::<Option<T>, RecvError<Box<bincode::ErrorKind>>>(None) <==> (attempt matches Err(
            error,
        ) && failure_kind(*error).would_block()),
{
    match attempt {
        Ok(message) => Ok(Some(message)),
        Err(error) => {
            let failure = failure_of(&*error);
            settle(Err((failure, error)), raw)
        },
    }
}

} // verus!
