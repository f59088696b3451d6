//! Tests of the event decoder, the invariant-checked projector, and the
//! relevance filter.

use chain_projection::component::dex::{
    credit_tag_str, debit_tag_str, project_all, Component, Envelope, Event, EventPayload,
    LedgerAdjustment, WireAmount, WireAssetId,
};
use chain_projection::domain::{Amount, AssetId};
use chain_projection::error::{Error, EventKind, MalformedReason, WireField};

fn asset_bytes() -> Vec<u8> {
    (0u8..32).map(|i| i.wrapping_mul(3).wrapping_add(1)).collect()
}

fn asset() -> AssetId {
    AssetId::try_from_bytes(asset_bytes()).unwrap()
}

fn payload(previous: u128, new: u128) -> EventPayload {
    EventPayload {
        asset_id: Some(WireAssetId { inner: asset_bytes() }),
        previous_balance: Some(WireAmount { lo: previous as u64, hi: (previous >> 64) as u64 }),
        new_balance: Some(WireAmount { lo: new as u64, hi: (new >> 64) as u64 }),
    }
}

fn envelope(tag: &str, payload: Option<EventPayload>) -> Envelope {
    Envelope { type_tag: tag.to_owned(), payload, local_rowid: 1, block_height: 7 }
}

#[test]
fn credit_envelope_decodes_fully_populated() {
    let env = envelope(credit_tag_str(), Some(payload(10, 15)));
    let ev = Event::decode(&env).expect("well-formed credit decodes");
    assert_eq!(
        ev,
        Event::CircuitBreakerCredit {
            asset_id: asset(),
            previous_balance: Amount::from_u128(10),
            new_balance: Amount::from_u128(15),
        }
    );
}

#[test]
fn debit_envelope_decodes_fully_populated() {
    let env = envelope(debit_tag_str(), Some(payload(15, 10)));
    let ev = Event::decode(&env).expect("well-formed debit decodes");
    assert_eq!(
        ev,
        Event::CircuitBreakerDebit {
            asset_id: asset(),
            previous_balance: Amount::from_u128(15),
            new_balance: Amount::from_u128(10),
        }
    );
}

#[test]
fn wire_amount_halves_assemble() {
    let env = envelope(credit_tag_str(), Some(EventPayload {
        asset_id: Some(WireAssetId { inner: asset_bytes() }),
        previous_balance: Some(WireAmount { lo: 0, hi: 0 }),
        new_balance: Some(WireAmount { lo: 1, hi: 1 }),
    }));
    match Event::decode(&env).unwrap() {
        Event::CircuitBreakerCredit { new_balance, .. } => {
            assert_eq!(new_balance.value(), (1u128 << 64) + 1);
        }
        other => panic!("unexpected event: {other:?}"),
    }
}

#[test]
fn unknown_tag_is_malformed_and_named() {
    let env = envelope("penumbra.core.component.sct.v1.EventAnchor", Some(payload(1, 2)));
    let err = Event::decode(&env).unwrap_err();
    assert_eq!(
        err,
        Error::MalformedEvent {
            reason: MalformedReason::UnrecognizedKind {
                tag: "penumbra.core.component.sct.v1.EventAnchor".to_owned(),
            },
        }
    );
}

#[test]
fn unparseable_payload_is_malformed() {
    let env = envelope(credit_tag_str(), None);
    let err = Event::decode(&env).unwrap_err();
    assert_eq!(
        err,
        Error::MalformedEvent { reason: MalformedReason::UnparseablePayload }
    );
}

#[test]
fn missing_fields_are_named() {
    let mut p = payload(1, 2);
    p.asset_id = None;
    let err = Event::decode(&envelope(credit_tag_str(), Some(p))).unwrap_err();
    assert_eq!(
        err,
        Error::MalformedEvent {
            reason: MalformedReason::MissingField { field: WireField::AssetId },
        }
    );

    let mut p = payload(1, 2);
    p.previous_balance = None;
    let err = Event::decode(&envelope(credit_tag_str(), Some(p))).unwrap_err();
    assert_eq!(
        err,
        Error::MalformedEvent {
            reason: MalformedReason::MissingField { field: WireField::PreviousBalance },
        }
    );

    let mut p = payload(1, 2);
    p.new_balance = None;
    let err = Event::decode(&envelope(debit_tag_str(), Some(p))).unwrap_err();
    assert_eq!(
        err,
        Error::MalformedEvent {
            reason: MalformedReason::MissingField { field: WireField::NewBalance },
        }
    );
}

#[test]
fn missing_field_is_named_before_any_conversion() {
    // Even with an unconvertible asset identifier, a missing required
    // field is what gets reported.
    let mut p = payload(1, 2);
    p.asset_id = Some(WireAssetId { inner: vec![0u8; 31] });
    p.previous_balance = None;
    let err = Event::decode(&envelope(credit_tag_str(), Some(p))).unwrap_err();
    assert_eq!(
        err,
        Error::MalformedEvent {
            reason: MalformedReason::MissingField { field: WireField::PreviousBalance },
        }
    );
}

#[test]
fn short_wire_identifier_is_a_codec_error() {
    let mut p = payload(1, 2);
    p.asset_id = Some(WireAssetId { inner: vec![0u8; 31] });
    let err = Event::decode(&envelope(credit_tag_str(), Some(p))).unwrap_err();
    assert_eq!(
        err,
        Error::CodecError {
            reason: chain_projection::error::CodecReason::InvalidField {
                field: WireField::AssetId,
            },
        }
    );
}

#[test]
fn is_relevant_matches_exactly_the_registered_tags() {
    let component = Component::new();
    assert!(component.is_relevant(credit_tag_str()));
    assert!(component.is_relevant(debit_tag_str()));
    assert!(!component.is_relevant("block"));
    assert!(!component.is_relevant(""));
    assert!(!component.is_relevant("penumbra.core.component.dex.v1.EventSwap"));
}

#[test]
fn credit_projects_positive_delta() {
    let ev = Event::CircuitBreakerCredit {
        asset_id: asset(),
        previous_balance: Amount::from_u128(10),
        new_balance: Amount::from_u128(15),
    };
    let row = ev.project().expect("increasing credit is valid");
    assert_eq!(row.asset_id, asset());
    assert!(!row.negative);
    assert_eq!(row.magnitude.value(), 5);
}

#[test]
fn decreasing_credit_is_an_invariant_violation() {
    let ev = Event::CircuitBreakerCredit {
        asset_id: asset(),
        previous_balance: Amount::from_u128(15),
        new_balance: Amount::from_u128(10),
    };
    let err = ev.project().unwrap_err();
    assert_eq!(
        err,
        Error::InvariantViolation {
            kind: EventKind::Credit,
            previous: Amount::from_u128(15),
            new_balance: Amount::from_u128(10),
        }
    );
}

#[test]
fn debit_projects_negative_delta() {
    let ev = Event::CircuitBreakerDebit {
        asset_id: asset(),
        previous_balance: Amount::from_u128(15),
        new_balance: Amount::from_u128(10),
    };
    let row = ev.project().expect("decreasing debit is valid");
    assert!(row.negative);
    assert_eq!(row.magnitude.value(), 5);
}

#[test]
fn increasing_debit_is_an_invariant_violation() {
    let ev = Event::CircuitBreakerDebit {
        asset_id: asset(),
        previous_balance: Amount::from_u128(10),
        new_balance: Amount::from_u128(15),
    };
    let err = ev.project().unwrap_err();
    assert_eq!(
        err,
        Error::InvariantViolation {
            kind: EventKind::Debit,
            previous: Amount::from_u128(10),
            new_balance: Amount::from_u128(15),
        }
    );
}

#[test]
fn zero_delta_events_are_valid() {
    let ev = Event::CircuitBreakerCredit {
        asset_id: asset(),
        previous_balance: Amount::from_u128(4),
        new_balance: Amount::from_u128(4),
    };
    let row = ev.project().unwrap();
    assert_eq!(row.magnitude.value(), 0);
}

#[test]
fn block_of_valid_events_projects_every_row() {
    let events = vec![
        Event::CircuitBreakerCredit {
            asset_id: asset(),
            previous_balance: Amount::from_u128(10),
            new_balance: Amount::from_u128(15),
        },
        Event::CircuitBreakerDebit {
            asset_id: asset(),
            previous_balance: Amount::from_u128(15),
            new_balance: Amount::from_u128(10),
        },
    ];
    let rows: Vec<LedgerAdjustment> = project_all(&events).expect("both events are valid");
    assert_eq!(rows.len(), 2);
    assert!(!rows[0].negative);
    assert_eq!(rows[0].magnitude.value(), 5);
    assert!(rows[1].negative);
    assert_eq!(rows[1].magnitude.value(), 5);
}

#[test]
fn one_violating_event_aborts_the_whole_block() {
    let events = vec![
        Event::CircuitBreakerCredit {
            asset_id: asset(),
            previous_balance: Amount::from_u128(10),
            new_balance: Amount::from_u128(15),
        },
        Event::CircuitBreakerCredit {
            asset_id: asset(),
            previous_balance: Amount::from_u128(15),
            new_balance: Amount::from_u128(10),
        },
        Event::CircuitBreakerDebit {
            asset_id: asset(),
            previous_balance: Amount::from_u128(15),
            new_balance: Amount::from_u128(10),
        },
    ];
    let err = project_all(&events).unwrap_err();
    assert_eq!(
        err,
        Error::InvariantViolation {
            kind: EventKind::Credit,
            previous: Amount::from_u128(15),
            new_balance: Amount::from_u128(10),
        }
    );
}

#[test]
fn component_processes_an_envelope_end_to_end() {
    let component = Component::new();
    let row = component
        .process_event(&envelope(credit_tag_str(), Some(payload(10, 15))))
        .expect("valid credit is applied");
    assert_eq!(row.magnitude.value(), 5);
    assert!(!row.negative);

    let err = component
        .process_event(&envelope(credit_tag_str(), Some(payload(15, 10))))
        .unwrap_err();
    assert!(matches!(err, Error::InvariantViolation { .. }));
}
