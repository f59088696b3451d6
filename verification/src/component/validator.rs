//! The validator read-side component: assembles validator records from
//! what the relational store holds, partitioning a definition's funding
//! streams into per-address commissions (sorted by rate, descending) and
//! the aggregate community-pool rate.

use vstd::prelude::*;

verus! {

/// A very basic view of a validator.
#[derive(Debug, PartialEq, Eq)]
pub struct ValidatorSummary {
    /// The name of the validator.
    pub name: String,
    /// The 32 raw bytes of the validator's identity key.
    pub identity: Vec<u8>,
    /// The voting power of the validator.
    pub voting_power: i64,
}

impl ValidatorSummary {
    /// Assemble a summary from one stored row's columns.
    pub fn from_parts(name: String, identity: Vec<u8>, voting_power: i64) -> (r: ValidatorSummary)
        ensures
            r.name == name,
            r.identity == identity,
            r.voting_power == voting_power,
    {
        ValidatorSummary { name, identity, voting_power }
    }
}

/// A commission destination: an address and its rate in basis points.
#[derive(Debug, PartialEq, Eq)]
pub struct FundingStream {
    pub address: String,
    pub rate_bps: u16,
}

/// One funding stream of a validator definition, as stored.
#[derive(Debug, PartialEq, Eq)]
pub enum DefFundingStream {
    ToAddress { address: String, rate_bps: u16 },
    ToCommunityPool { rate_bps: u16 },
}

/// A validator definition, as parsed from its stored document.
#[derive(Debug)]
pub struct ValidatorDefinition {
    pub description: String,
    pub website: String,
    pub enabled: bool,
    pub funding_streams: Vec<DefFundingStream>,
}

/// The sum of the community-pool rates in a stream list.
pub open spec fn community_sum(s: Seq<DefFundingStream>) -> int
    decreases s.len(),
{
    if s.len() == 0 {
        0
    } else {
        community_sum(s.drop_last()) + (match s.last() {
            DefFundingStream::ToCommunityPool { rate_bps } => rate_bps as int,
            DefFundingStream::ToAddress { .. } => 0,
        })
    }
}

/// The per-address streams of a stream list, in order.
pub open spec fn address_streams(s: Seq<DefFundingStream>) -> Seq<FundingStream>
    decreases s.len(),
{
    if s.len() == 0 {
        Seq::empty()
    } else {
        address_streams(s.drop_last()) + (match s.last() {
            DefFundingStream::ToAddress { address, rate_bps } => seq![
                FundingStream { address, rate_bps },
            ],
            DefFundingStream::ToCommunityPool { .. } => Seq::empty(),
        })
    }
}

/// Community rates are non-negative, so every prefix sum is bounded by the
/// whole sum.
pub proof fn lemma_community_sum_prefix(s: Seq<DefFundingStream>, i: int)
    requires
        0 <= i <= s.len(),
    ensures
        0 <= community_sum(s.subrange(0, i)) <= community_sum(s),
    decreases s.len() - i,
{
    lemma_community_sum_nonneg(s.subrange(0, i));
    if i == s.len() {
        assert(s.subrange(0, i) =~= s);
    } else {
        lemma_community_sum_prefix(s, i + 1);
        assert(s.subrange(0, i + 1).drop_last() =~= s.subrange(0, i));
        assert(community_sum(s.subrange(0, i)) <= community_sum(s.subrange(0, i + 1)));
    }
}

/// A sum of community rates is never negative.
pub proof fn lemma_community_sum_nonneg(s: Seq<DefFundingStream>)
    ensures
        community_sum(s) >= 0,
    decreases s.len(),
{
    if s.len() > 0 {
        lemma_community_sum_nonneg(s.drop_last());
    }
}

/// Rates never increase along the sequence.
pub open spec fn sorted_desc(s: Seq<FundingStream>) -> bool {
    forall|i: int, j: int| 0 <= i < j < s.len() ==> s[i].rate_bps >= s[j].rate_bps
}

/// Sort funding streams by rate, descending: the result is ordered and
/// holds exactly the input's streams.
fn sort_streams_desc(input: Vec<FundingStream>) -> (r: Vec<FundingStream>)
    ensures
        sorted_desc(r@),
        r@.to_multiset() == input@.to_multiset(),
{
    broadcast use vstd::seq_lib::group_to_multiset_ensures;

    let ghost unsorted = input@;
    let mut remaining = input;
    let mut out: Vec<FundingStream> = Vec::new();
    while remaining.len() > 0
        invariant
            sorted_desc(out@),
            forall|a: int, b: int|
                0 <= a < out@.len() && 0 <= b < remaining@.len() ==> out@[a].rate_bps
                    >= remaining@[b].rate_bps,
            out@.to_multiset().add(remaining@.to_multiset()) == unsorted.to_multiset(),
        decreases remaining@.len(),
    {
        let mut mi: usize = 0;
        let mut k: usize = 1;
        while k < remaining.len()
            invariant
                mi < k <= remaining@.len(),
                remaining@.len() > 0,
                forall|t: int| 0 <= t < k ==> remaining@[t].rate_bps <= remaining@[mi as int].rate_bps,
            decreases remaining@.len() - k,
        {
            if remaining[k].rate_bps > remaining[mi].rate_bps {
                mi = k;
            }
            k = k + 1;
        }
        let ghost before = remaining@;
        let ghost out_before = out@;
        let x = remaining.remove(mi);
        out.push(x);
        proof {
            assert(out@ =~= out_before.push(x));
            assert(remaining@ =~= before.remove(mi as int));
            vstd::seq_lib::to_multiset_build::<FundingStream>(out_before, x);
            vstd::seq_lib::to_multiset_remove::<FundingStream>(before, mi as int);
            vstd::seq_lib::to_multiset_contains::<FundingStream>(before, x);
            assert(before.contains(x));
            assert(before.to_multiset().count(x) > 0);
            assert(out@.to_multiset().add(remaining@.to_multiset()) =~= out_before.to_multiset().add(
                before.to_multiset(),
            ));
            assert(forall|b: int|
                0 <= b < remaining@.len() ==> exists|t: int|
                    0 <= t < before.len() && before[t] == #[trigger] remaining@[b]);
        }
    }
    proof {
        assert(remaining@ =~= Seq::<FundingStream>::empty());
        assert forall|y: FundingStream| remaining@.to_multiset().count(y) == 0 by {
            vstd::seq_lib::to_multiset_contains::<FundingStream>(remaining@, y);
        }
        assert(remaining@.to_multiset() =~= vstd::multiset::Multiset::<FundingStream>::empty());
        assert(out@.to_multiset().add(remaining@.to_multiset()) =~= out@.to_multiset());
    }
    out
}

/// A full description of a validator, assembled from its stored columns.
#[derive(Debug)]
pub struct Validator {
    /// The 32 raw bytes of the validator's identity key.
    pub identity: Vec<u8>,
    /// The name of the validator.
    pub name: String,
    /// The voting power of the validator.
    pub voting_power: i64,
    /// A short description of what the validator is.
    pub description: String,
    /// A link to the validator's website.
    pub website: String,
    /// Whether or not the validator is enabled.
    pub enabled: bool,
    /// Where the commission, if any, of the validator goes, sorted by rate
    /// descending.
    pub funding_streams: Vec<FundingStream>,
    /// The aggregate contribution to the community pool.
    pub community_pool_rate_bps: u16,
}

impl Validator {
    /// Assemble a validator from its stored columns and parsed definition:
    /// scalar fields carry over, per-address funding streams are kept and
    /// sorted by rate descending, and community-pool streams are summed.
    pub fn from_parts(
        identity: Vec<u8>,
        name: String,
        voting_power: i64,
        definition: ValidatorDefinition,
    ) -> (r: Validator)
        requires
            community_sum(definition.funding_streams@) <= u16::MAX,
        ensures
            r.identity == identity,
            r.name == name,
            r.voting_power == voting_power,
            r.description == definition.description,
            r.website == definition.website,
            r.enabled == definition.enabled,
            r.community_pool_rate_bps as int == community_sum(definition.funding_streams@),
            sorted_desc(r.funding_streams@),
            r.funding_streams@.to_multiset() == address_streams(
                definition.funding_streams@,
            ).to_multiset(),
    {
        let ValidatorDefinition { description, website, enabled, funding_streams } = definition;
        let ghost defs = funding_streams@;
        let mut rest = funding_streams;
        let mut to_address: Vec<FundingStream> = Vec::new();
        let mut community_pool_rate_bps: u16 = 0;
        let ghost i: int = 0;
        proof {
            assert(defs.subrange(0, 0) =~= Seq::<DefFundingStream>::empty());
            assert(address_streams(defs.subrange(0, 0)) =~= Seq::<FundingStream>::empty());
        }
        while rest.len() > 0
            invariant
                0 <= i <= defs.len(),
                rest@ =~= defs.subrange(i, defs.len() as int),
                to_address@ == address_streams(defs.subrange(0, i)),
                community_pool_rate_bps as int == community_sum(defs.subrange(0, i)),
                community_sum(defs) <= u16::MAX,
            decreases rest@.len(),
        {
            proof {
                assert(defs.subrange(i, defs.len() as int).first() == defs[i]);
                assert(defs.subrange(i + 1, defs.len() as int) =~= defs.subrange(
                    i,
                    defs.len() as int,
                ).drop_first());
                assert(defs.subrange(0, i + 1).drop_last() =~= defs.subrange(0, i));
                assert(defs.subrange(0, i + 1).last() == defs[i]);
                lemma_community_sum_prefix(defs, i + 1);
            }
            let item = rest.remove(0);
            match item {
                DefFundingStream::ToAddress { address, rate_bps } => {
                    to_address.push(FundingStream { address, rate_bps });
                    proof {
                        assert(to_address@ =~= address_streams(defs.subrange(0, i + 1)));
                    }
                },
                DefFundingStream::ToCommunityPool { rate_bps } => {
                    community_pool_rate_bps = community_pool_rate_bps + rate_bps;
                },
            }
            proof {
                i = i + 1;
            }
        }
        proof {
            assert(defs.subrange(0, defs.len() as int) =~= defs);
        }
        let funding_streams = sort_streams_desc(to_address);
        Validator {
            identity,
            name,
            voting_power,
            description,
            website,
            enabled,
            funding_streams,
            community_pool_rate_bps,
        }
    }
}

/// A component for indexing and retrieving information about validators.
#[derive(Clone, Copy, Debug)]
pub struct Component {}

impl Component {
    /// A validator component.
    pub fn new() -> Self {
        Component {  }
    }
}

} // verus!
