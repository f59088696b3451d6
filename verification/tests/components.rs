//! Tests of the block summary component, the validator assembly, and
//! content negotiation.

use chain_projection::component::block;
use chain_projection::component::validator::{
    DefFundingStream, FundingStream, Validator, ValidatorDefinition, ValidatorSummary,
};
use chain_projection::web::common::{accepts_json, AcceptsJson};

#[test]
fn block_component_is_relevant_only_for_blocks() {
    let c = block::Component::new();
    assert!(c.is_relevant("block"));
    assert!(!c.is_relevant("blocks"));
    assert!(!c.is_relevant(""));
}

#[test]
fn block_summary_carries_the_source_columns() {
    let b = block::Component::summarize(100, 1_700_000_000_000_000, 42);
    assert_eq!(b.height, 100);
    assert_eq!(b.created_at_micros, 1_700_000_000_000_000);
    assert_eq!(b.transaction_count, 42);
}

#[test]
fn init_statements_are_idempotent_ddl() {
    assert!(block::Component::new().init_statement().contains("IF NOT EXISTS"));
    assert!(chain_projection::component::dex::Component::new()
        .init_statement()
        .contains("IF NOT EXISTS"));
}

#[test]
fn validator_summary_carries_its_columns() {
    let s = ValidatorSummary::from_parts("node one".to_owned(), vec![9u8; 32], 1000);
    assert_eq!(s.name, "node one");
    assert_eq!(s.identity, vec![9u8; 32]);
    assert_eq!(s.voting_power, 1000);
}

#[test]
fn validator_assembly_partitions_sums_and_sorts() {
    let definition = ValidatorDefinition {
        description: "a validator".to_owned(),
        website: "https://validator.example".to_owned(),
        enabled: true,
        funding_streams: vec![
            DefFundingStream::ToAddress { address: "addr-low".to_owned(), rate_bps: 100 },
            DefFundingStream::ToCommunityPool { rate_bps: 150 },
            DefFundingStream::ToAddress { address: "addr-high".to_owned(), rate_bps: 400 },
            DefFundingStream::ToCommunityPool { rate_bps: 50 },
            DefFundingStream::ToAddress { address: "addr-mid".to_owned(), rate_bps: 250 },
        ],
    };
    let v = Validator::from_parts(vec![1u8; 32], "node one".to_owned(), 77, definition);
    assert_eq!(v.identity, vec![1u8; 32]);
    assert_eq!(v.name, "node one");
    assert_eq!(v.voting_power, 77);
    assert_eq!(v.description, "a validator");
    assert_eq!(v.website, "https://validator.example");
    assert!(v.enabled);
    assert_eq!(v.community_pool_rate_bps, 200);
    assert_eq!(
        v.funding_streams,
        vec![
            FundingStream { address: "addr-high".to_owned(), rate_bps: 400 },
            FundingStream { address: "addr-mid".to_owned(), rate_bps: 250 },
            FundingStream { address: "addr-low".to_owned(), rate_bps: 100 },
        ]
    );
}

#[test]
fn validator_assembly_with_no_streams() {
    let definition = ValidatorDefinition {
        description: String::new(),
        website: String::new(),
        enabled: false,
        funding_streams: Vec::new(),
    };
    let v = Validator::from_parts(vec![0u8; 32], String::new(), 0, definition);
    assert_eq!(v.community_pool_rate_bps, 0);
    assert!(v.funding_streams.is_empty());
}

#[test]
fn json_negotiation_reads_the_accept_header() {
    assert!(!accepts_json(None));
    assert!(accepts_json(Some("application/json")));
    assert!(accepts_json(Some("application/json; q=0.9")));
    assert!(!accepts_json(Some("text/html")));
    assert!(!accepts_json(Some("application/jso")));
    assert_eq!(AcceptsJson::from_header(Some("application/json")).0, true);
    assert_eq!(AcceptsJson::from_header(None).0, false);
}
