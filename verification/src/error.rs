//! The errors a transaction session can end in.

use vstd::prelude::*;

verus! {

/// A protocol-level failure of one transaction session.
///
/// `Protocol` carries the code and message of an error signal reported by the
/// remote service; `MalformedSignal` records that a fixed-shape signal arrived
/// with the wrong arity or field types (a protocol version skew the caller
/// must learn about); `ConnectionClosed` records that the signal stream ended
/// before any terminal signal.
#[derive(Debug)]
pub enum TransactionError {
    Protocol { code: u32, message: String },
    MalformedSignal { member: String },
    ConnectionClosed,
}

/// The mathematical value of a [`TransactionError`]: the same shape with
/// strings read as character sequences.
#[verifier::ext_equal]
pub enum ErrorView {
    Protocol { code: u32, message: Seq<char> },
    MalformedSignal { member: Seq<char> },
    ConnectionClosed,
}

impl View for TransactionError {
    type V = ErrorView;

    open spec fn view(&self) -> ErrorView {
        match self {
            TransactionError::Protocol { code, message } => ErrorView::Protocol {
                code: *code,
                message: message@,
            },
            TransactionError::MalformedSignal { member } => ErrorView::MalformedSignal {
                member: member@,
            },
            TransactionError::ConnectionClosed => ErrorView::ConnectionClosed,
        }
    }
}

impl TransactionError {
    /// A short human-readable rendering of the error.
    pub fn describe(&self) -> (s: String)
        ensures
            self is Protocol ==> s@ == self->message@,
            self is MalformedSignal ==> s@ == "malformed signal payload"@,
            self is ConnectionClosed ==> s@ == "connection closed unexpectedly"@,
    {
        match self {
            TransactionError::Protocol { code: _, message } => message.clone(),
            TransactionError::MalformedSignal { member: _ } => String::from_str(
                "malformed signal payload",
            ),
            TransactionError::ConnectionClosed => String::from_str(
                "connection closed unexpectedly",
            ),
        }
    }
}

} // verus!
