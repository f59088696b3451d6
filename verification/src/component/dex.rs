//! The circuit-breaker projection component: decodes value circuit breaker
//! credit and debit envelopes into typed events, enforces the direction
//! invariant of each, and computes the ledger adjustment row to append.

use vstd::prelude::*;
use crate::domain::{copy_bytes, Amount, AssetId};
use crate::error::{CodecReason, Error, EventKind, MalformedReason, WireField};
use crate::text::str_eq;

verus! {

/// The characters of the credit event's fully-qualified kind.
pub open spec fn credit_tag() -> Seq<char> {
    "penumbra.core.component.dex.v1.EventValueCircuitBreakerCredit"@
}

/// The characters of the debit event's fully-qualified kind.
pub open spec fn debit_tag() -> Seq<char> {
    "penumbra.core.component.dex.v1.EventValueCircuitBreakerDebit"@
}

/// The credit event's fully-qualified kind.
pub fn credit_tag_str() -> (r: &'static str)
    ensures
        r@ == credit_tag(),
{
    "penumbra.core.component.dex.v1.EventValueCircuitBreakerCredit"
}

/// The debit event's fully-qualified kind.
pub fn debit_tag_str() -> (r: &'static str)
    ensures
        r@ == debit_tag(),
{
    "penumbra.core.component.dex.v1.EventValueCircuitBreakerDebit"
}

/// A wire-level 128-bit amount: two 64-bit halves.
#[derive(Clone, Copy, Debug, PartialEq, Eq, Structural)]
pub struct WireAmount {
    pub lo: u64,
    pub hi: u64,
}

/// The value a wire-level amount denotes.
pub open spec fn wire_amount_value(w: WireAmount) -> nat {
    (w.lo + w.hi * 0x10000000000000000) as nat
}

impl WireAmount {
    /// Assemble the 128-bit amount from its two halves; never fails.
    pub fn to_amount(&self) -> (r: Amount)
        ensures
            r@ == wire_amount_value(*self),
    {
        proof {
            assert((self.hi as nat) * 0x10000000000000000 <= 0xffffffffffffffff
                * 0x10000000000000000) by (nonlinear_arith)
                requires
                    self.hi <= 0xffffffffffffffff,
            ;
        }
        let value: u128 = (self.lo as u128) + (self.hi as u128) * 0x10000000000000000u128;
        Amount::from_u128(value)
    }
}

/// A wire-level asset identifier: raw bytes of unchecked length.
#[derive(Clone, Debug, PartialEq, Eq)]
pub struct WireAssetId {
    pub inner: Vec<u8>,
}

/// A parsed event payload. Every field is optional at the wire level:
/// presence is checked by the decoder, never assumed.
#[derive(Debug)]
pub struct EventPayload {
    pub asset_id: Option<WireAssetId>,
    pub previous_balance: Option<WireAmount>,
    pub new_balance: Option<WireAmount>,
}

/// The opaque unit of input to the decoder: a type tag, the payload as
/// parsed from the binary encoding (`None` when unparseable), and
/// positional metadata.
#[derive(Debug)]
pub struct Envelope {
    pub type_tag: String,
    pub payload: Option<EventPayload>,
    pub local_rowid: i64,
    pub block_height: u64,
}

/// One of the events this component recognizes; a decoded instance always
/// carries every field.
#[derive(Debug, PartialEq, Eq)]
pub enum Event {
    CircuitBreakerCredit { asset_id: AssetId, previous_balance: Amount, new_balance: Amount },
    CircuitBreakerDebit { asset_id: AssetId, previous_balance: Amount, new_balance: Amount },
}

/// The mathematical content of an event: kind, asset bytes, previous and
/// new balances.
pub open spec fn event_view(ev: Event) -> (EventKind, Seq<u8>, nat, nat) {
    match ev {
        Event::CircuitBreakerCredit { asset_id, previous_balance, new_balance } => (
            EventKind::Credit,
            asset_id@,
            previous_balance@,
            new_balance@,
        ),
        Event::CircuitBreakerDebit { asset_id, previous_balance, new_balance } => (
            EventKind::Debit,
            asset_id@,
            previous_balance@,
            new_balance@,
        ),
    }
}

/// What decoding an envelope must yield, case by case. Checks run in
/// order: tag recognition, payload presence, then the presence of every
/// required field, and only then conversion of the field values; the first
/// failure decides the error. So a missing required field is always
/// reported as such, whatever the other fields hold.
pub open spec fn decode_spec(env: Envelope, r: Result<Event, Error>) -> bool {
    if env.type_tag@ != credit_tag() && env.type_tag@ != debit_tag() {
        r matches Err(Error::MalformedEvent {
            reason: MalformedReason::UnrecognizedKind { tag },
        }) && tag@ == env.type_tag@
    } else {
        let kind = if env.type_tag@ == credit_tag() {
            EventKind::Credit
        } else {
            EventKind::Debit
        };
        match env.payload {
            None => r == Err::<Event, Error>(
                Error::MalformedEvent { reason: MalformedReason::UnparseablePayload },
            ),
            Some(p) => match p.asset_id {
                None => r == Err::<Event, Error>(
                    Error::MalformedEvent {
                        reason: MalformedReason::MissingField { field: WireField::AssetId },
                    },
                ),
                Some(wire_asset) => match p.previous_balance {
                    None => r == Err::<Event, Error>(
                        Error::MalformedEvent {
                            reason: MalformedReason::MissingField {
                                field: WireField::PreviousBalance,
                            },
                        },
                    ),
                    Some(prev) => match p.new_balance {
                        None => r == Err::<Event, Error>(
                            Error::MalformedEvent {
                                reason: MalformedReason::MissingField {
                                    field: WireField::NewBalance,
                                },
                            },
                        ),
                        Some(new) => {
                            if wire_asset.inner@.len() != 32 {
                                r == Err::<Event, Error>(
                                    Error::CodecError {
                                        reason: CodecReason::InvalidField {
                                            field: WireField::AssetId,
                                        },
                                    },
                                )
                            } else {
                                r matches Ok(ev) && event_view(ev) == (
                                    kind,
                                    wire_asset.inner@,
                                    wire_amount_value(prev),
                                    wire_amount_value(new),
                                )
                            }
                        },
                    },
                },
            },
        }
    }
}

impl Event {
    /// Decode an envelope into exactly one fully-populated event, or the
    /// error of the first failing check: an unrecognized tag, an
    /// unparseable payload, a missing required field (checked before any
    /// conversion), or an unconvertible field — never a partially-populated
    /// value.
    pub fn decode(env: &Envelope) -> (r: Result<Event, Error>)
        ensures
            decode_spec(*env, r),
    {
        let is_credit = str_eq(env.type_tag.as_str(), credit_tag_str());
        let is_debit = str_eq(env.type_tag.as_str(), debit_tag_str());
        if !is_credit && !is_debit {
            return Err(
                Error::MalformedEvent {
                    reason: MalformedReason::UnrecognizedKind { tag: env.type_tag.clone() },
                },
            );
        }
        let payload = match &env.payload {
            None => {
                return Err(Error::MalformedEvent { reason: MalformedReason::UnparseablePayload });
            },
            Some(p) => p,
        };
        let wire_asset = match &payload.asset_id {
            None => {
                return Err(
                    Error::MalformedEvent {
                        reason: MalformedReason::MissingField { field: WireField::AssetId },
                    },
                );
            },
            Some(w) => w,
        };
        let wire_previous = match &payload.previous_balance {
            None => {
                return Err(
                    Error::MalformedEvent {
                        reason: MalformedReason::MissingField { field: WireField::PreviousBalance },
                    },
                );
            },
            Some(w) => w,
        };
        let wire_new = match &payload.new_balance {
            None => {
                return Err(
                    Error::MalformedEvent {
                        reason: MalformedReason::MissingField { field: WireField::NewBalance },
                    },
                );
            },
            Some(w) => w,
        };
        let asset_id = match AssetId::try_from_bytes(copy_bytes(&wire_asset.inner)) {
            None => {
                return Err(
                    Error::CodecError {
                        reason: CodecReason::InvalidField { field: WireField::AssetId },
                    },
                );
            },
            Some(id) => id,
        };
        let previous_balance = wire_previous.to_amount();
        let new_balance = wire_new.to_amount();
        if is_credit {
            Ok(Event::CircuitBreakerCredit { asset_id, previous_balance, new_balance })
        } else {
            Ok(Event::CircuitBreakerDebit { asset_id, previous_balance, new_balance })
        }
    }
}

/// One ledger adjustment row: the asset and a signed delta, given as a
/// sign and a magnitude. Rows are append-only; they are never updated.
#[derive(Debug, PartialEq, Eq)]
pub struct LedgerAdjustment {
    pub asset_id: AssetId,
    pub negative: bool,
    pub magnitude: Amount,
}

/// Whether an event's balance change moves in the direction its kind
/// requires.
pub open spec fn event_ok(ev: Event) -> bool {
    match ev {
        Event::CircuitBreakerCredit { previous_balance, new_balance, .. } => new_balance@
            >= previous_balance@,
        Event::CircuitBreakerDebit { previous_balance, new_balance, .. } => new_balance@
            <= previous_balance@,
    }
}

/// What projecting an event must yield: a credit inserts `new - previous`
/// positively, a debit inserts `previous - new` negatively, and a change
/// in the forbidden direction is rejected with the offending balances.
pub open spec fn project_spec(ev: Event, r: Result<LedgerAdjustment, Error>) -> bool {
    match ev {
        Event::CircuitBreakerCredit { asset_id, previous_balance, new_balance } => {
            if new_balance@ >= previous_balance@ {
                r matches Ok(row) && row.asset_id@ == asset_id@ && row.negative == false
                    && row.magnitude@ == new_balance@ - previous_balance@
            } else {
                r == Err::<LedgerAdjustment, Error>(
                    Error::InvariantViolation {
                        kind: EventKind::Credit,
                        previous: previous_balance,
                        new_balance,
                    },
                )
            }
        },
        Event::CircuitBreakerDebit { asset_id, previous_balance, new_balance } => {
            if new_balance@ <= previous_balance@ {
                r matches Ok(row) && row.asset_id@ == asset_id@ && row.negative == true
                    && row.magnitude@ == previous_balance@ - new_balance@
            } else {
                r == Err::<LedgerAdjustment, Error>(
                    Error::InvariantViolation {
                        kind: EventKind::Debit,
                        previous: previous_balance,
                        new_balance,
                    },
                )
            }
        },
    }
}

impl Event {
    /// Compute the ledger adjustment this event projects to, with checked
    /// subtraction: the delta magnitude, its sign, and the asset — or an
    /// invariant violation when the balance moved the forbidden way.
    pub fn project(&self) -> (r: Result<LedgerAdjustment, Error>)
        ensures
            project_spec(*self, r),
    {
        match self {
            Event::CircuitBreakerCredit { asset_id, previous_balance, new_balance } => {
                match new_balance.checked_sub(previous_balance) {
                    Some(magnitude) => Ok(
                        LedgerAdjustment { asset_id: asset_id.clone(), negative: false, magnitude },
                    ),
                    None => Err(
                        Error::InvariantViolation {
                            kind: EventKind::Credit,
                            previous: *previous_balance,
                            new_balance: *new_balance,
                        },
                    ),
                }
            },
            Event::CircuitBreakerDebit { asset_id, previous_balance, new_balance } => {
                match previous_balance.checked_sub(new_balance) {
                    Some(magnitude) => Ok(
                        LedgerAdjustment { asset_id: asset_id.clone(), negative: true, magnitude },
                    ),
                    None => Err(
                        Error::InvariantViolation {
                            kind: EventKind::Debit,
                            previous: *previous_balance,
                            new_balance: *new_balance,
                        },
                    ),
                }
            },
        }
    }
}

/// Project a block's events in arrival order, all or nothing: the rows for
/// every event when each satisfies its invariant, or the error of the
/// first violating event with nothing applied — the value-level statement
/// of per-block atomicity.
pub fn project_all(events: &Vec<Event>) -> (r: Result<Vec<LedgerAdjustment>, Error>)
    ensures
        match r {
            Ok(rows) => rows@.len() == events@.len() && forall|i: int|
                0 <= i < events@.len() ==> #[trigger] project_spec(events@[i], Ok(rows@[i])),
            Err(e) => exists|i: int|
                0 <= i < events@.len() && #[trigger] project_spec(events@[i], Err(e)) && forall|
                    j: int,
                |
                    0 <= j < i ==> event_ok(events@[j]),
        },
{
    let n = events.len();
    let mut rows: Vec<LedgerAdjustment> = Vec::new();
    let mut i: usize = 0;
    while i < n
        invariant
            i <= n,
            n == events@.len(),
            rows@.len() == i,
            forall|k: int| 0 <= k < i ==> #[trigger] project_spec(events@[k], Ok(rows@[k])),
            forall|k: int| 0 <= k < i ==> event_ok(events@[k]),
        decreases n - i,
    {
        match events[i].project() {
            Ok(row) => {
                rows.push(row);
            },
            Err(e) => {
                return Err(e);
            },
        }
        i = i + 1;
    }
    Ok(rows)
}

/// The set of event kinds this component registers for.
pub open spec fn relevant_tags() -> Set<Seq<char>> {
    set![credit_tag(), debit_tag()]
}

/// The circuit-breaker component: holds its registered tag set, decodes
/// and validates matching envelopes, and computes their relational deltas.
#[derive(Debug)]
pub struct Component {
    event_strings: Vec<String>,
}

impl Component {
    /// The registered tags, in declaration order: credit, then debit.
    #[verifier::type_invariant]
    spec fn wf(&self) -> bool {
        self.event_strings@.len() == 2 && self.event_strings@[0]@ == credit_tag()
            && self.event_strings@[1]@ == debit_tag()
    }

    /// A component registered for the credit and debit event kinds.
    pub fn new() -> Self {
        let mut event_strings: Vec<String> = Vec::new();
        event_strings.push(credit_tag_str().to_owned());
        event_strings.push(debit_tag_str().to_owned());
        Component { event_strings }
    }

    /// Membership in the registered tag set; never an error, and false for
    /// every unrecognized tag.
    pub fn is_relevant(&self, type_str: &str) -> (r: bool)
        ensures
            r == relevant_tags().contains(type_str@),
    {
        proof {
            use_type_invariant(self);
        }
        let r = str_eq(type_str, self.event_strings[0].as_str()) || str_eq(
            type_str,
            self.event_strings[1].as_str(),
        );
        r
    }

    /// The characters of the component's one-time schema DDL: the
    /// append-only adjustment table, created idempotently.
    pub open spec fn schema_ddl() -> Seq<char> {
        "CREATE TABLE IF NOT EXISTS dex_value_circuit_breaker_change (\
         asset_id BYTEA NOT NULL, flow_value NUMERIC NOT NULL);"@
    }

    /// The component's one-time schema DDL, exactly the fixed statement of
    /// `schema_ddl`.
    pub fn init_statement(&self) -> (r: &'static str)
        ensures
            r@ == Self::schema_ddl(),
    {
        "CREATE TABLE IF NOT EXISTS dex_value_circuit_breaker_change (\
         asset_id BYTEA NOT NULL, flow_value NUMERIC NOT NULL);"
    }

    /// Decode one envelope and compute its adjustment row: the pure
    /// decision part of applying an event, handed back to the caller that
    /// owns the enclosing transaction.
    pub fn process_event(&self, env: &Envelope) -> (r: Result<LedgerAdjustment, Error>)
        ensures
            match r {
                Ok(row) => exists|ev: Event|
                    #[trigger] decode_spec(*env, Ok(ev)) && project_spec(ev, Ok(row)),
                Err(e) => decode_spec(*env, Err(e)) || (exists|ev: Event|
                    #[trigger] decode_spec(*env, Ok(ev)) && project_spec(ev, Err(e))),
            },
    {
        match Event::decode(env) {
            Ok(ev) => {
                let r = ev.project();
                proof {
                    assert(decode_spec(*env, Ok(ev)) && project_spec(ev, r));
                }
                r
            },
            Err(e) => Err(e),
        }
    }
}

/// An envelope whose tag is outside the registered set always decodes to a
/// malformed-event error naming that tag — relevance and decoding agree.
pub proof fn lemma_unregistered_tag_rejected(env: Envelope, r: Result<Event, Error>)
    requires
        !relevant_tags().contains(env.type_tag@),
        decode_spec(env, r),
    ensures
        r matches Err(Error::MalformedEvent {
            reason: MalformedReason::UnrecognizedKind { tag },
        }) && tag@ == env.type_tag@,
{
}

/// An envelope whose payload is missing a required field always decodes to
/// a malformed-event error naming that field, whatever the other fields
/// hold.
pub proof fn lemma_missing_field_rejected(env: Envelope, p: EventPayload, r: Result<Event, Error>)
    requires
        relevant_tags().contains(env.type_tag@),
        env.payload == Some(p),
        p.asset_id is None || p.previous_balance is None || p.new_balance is None,
        decode_spec(env, r),
    ensures
        r matches Err(Error::MalformedEvent { reason: MalformedReason::MissingField { field } })
            && (match field {
            WireField::AssetId => p.asset_id is None,
            WireField::PreviousBalance => p.asset_id is Some && p.previous_balance is None,
            WireField::NewBalance => p.asset_id is Some && p.previous_balance is Some
                && p.new_balance is None,
        }),
{
}

} // verus!
