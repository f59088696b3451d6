//! The structured error taxonomy of the projection core. Every error is
//! fatal for the enclosing block transaction; the boundary that surfaces
//! them to clients lives outside this crate.

use vstd::prelude::*;
use crate::domain::Amount;

verus! {

/// A required wire-level field of an event payload.
#[derive(Clone, Copy, Debug, PartialEq, Eq, Structural)]
pub enum WireField {
    AssetId,
    PreviousBalance,
    NewBalance,
}

/// The direction a balance-change event declares.
#[derive(Clone, Copy, Debug, PartialEq, Eq, Structural)]
pub enum EventKind {
    Credit,
    Debit,
}

/// Why an envelope could not be decoded into a domain event.
#[derive(Debug, PartialEq, Eq)]
pub enum MalformedReason {
    /// The envelope's type tag is outside the recognized set.
    UnrecognizedKind { tag: String },
    /// The binary payload could not be parsed into a structured message.
    UnparseablePayload,
    /// The payload parsed, but a required field was absent.
    MissingField { field: WireField },
}

/// Why a value could not be converted losslessly between its domain type
/// and its relational column encoding.
#[derive(Clone, Copy, Debug, PartialEq, Eq, Structural)]
pub enum CodecReason {
    /// A stored numeric value carries a nonzero fractional part.
    NonIntegralValue,
    /// A stored numeric magnitude does not fit in 16 bytes.
    MagnitudeOverflow,
    /// A stored identifier is not exactly 32 bytes.
    IdentifierLength,
    /// A wire-level field of an event could not become its domain type.
    InvalidField { field: WireField },
}

/// Every failure the projection core can report. Each one aborts the
/// enclosing block transaction.
#[derive(Debug, PartialEq, Eq)]
#[allow(inconsistent_fields)]
pub enum Error {
    /// An unknown tag reached the decoder, the payload was unparseable, or
    /// a required field was missing.
    MalformedEvent { reason: MalformedReason },
    /// A stored or incoming value cannot be converted losslessly.
    CodecError { reason: CodecReason },
    /// A decoded event's balance moved in the direction its kind forbids.
    InvariantViolation { kind: EventKind, previous: Amount, new_balance: Amount },
    /// Applying the one-time schema DDL failed; fatal to startup.
    SchemaInit,
}

} // verus!
