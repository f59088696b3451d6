//! The block summary projection component: one immutable row per block,
//! assembled from the source store's height, timestamp and transaction
//! count.

use vstd::prelude::*;
use crate::text::str_eq;

verus! {

/// The pseudo event kind under which block records arrive.
pub open spec fn block_tag() -> Seq<char> {
    "block"@
}

/// One row of the block summary table; inserted exactly once, immutable
/// thereafter. The creation time is microseconds since the epoch.
#[derive(Clone, Copy, Debug, PartialEq, Eq, Structural)]
pub struct Block {
    pub height: i64,
    pub transaction_count: i64,
    pub created_at_micros: i64,
}

/// A component for indexing and retrieving information about blocks.
#[derive(Clone, Copy, Debug)]
pub struct Component {}

impl Component {
    /// A block summary component.
    pub fn new() -> Self {
        Component {  }
    }

    /// Relevant exactly for the block record kind.
    pub fn is_relevant(&self, type_str: &str) -> (r: bool)
        ensures
            r == (type_str@ == block_tag()),
    {
        str_eq(type_str, "block")
    }

    /// The characters of the component's one-time schema DDL: the block
    /// summary table, created idempotently.
    pub open spec fn schema_ddl() -> Seq<char> {
        "CREATE TABLE IF NOT EXISTS block (height BIGINT PRIMARY KEY, \
         transaction_count BIGINT NOT NULL, created_at TIMESTAMPTZ NOT NULL);"@
    }

    /// The component's one-time schema DDL, exactly the fixed statement of
    /// `schema_ddl`.
    pub fn init_statement(&self) -> (r: &'static str)
        ensures
            r@ == Self::schema_ddl(),
    {
        "CREATE TABLE IF NOT EXISTS block (height BIGINT PRIMARY KEY, \
         transaction_count BIGINT NOT NULL, created_at TIMESTAMPTZ NOT NULL);"
    }

    /// Assemble the summary row for one block from what the source store
    /// reports: the pure part of applying a block record.
    pub fn summarize(height: i64, created_at_micros: i64, transaction_count: i64) -> (r: Block)
        ensures
            r.height == height,
            r.created_at_micros == created_at_micros,
            r.transaction_count == transaction_count,
    {
        Block { height, transaction_count, created_at_micros }
    }
}

} // verus!
