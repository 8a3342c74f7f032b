//! The expression aggregator: composes an entry with its author identity
//! and profile, its formatted creation time, its channel attributes, one
//! level of nested sub-entries, and its incoming reaction links into a
//! single denormalized result tree, built fresh on every call.

use vstd::prelude::*;
use vstd::string::StringExecFns;

use crate::links::{FromRecord, get_links_and_load_type, projected_targets};
use crate::records::{
    Address, Attribute, AttributeModel, CoreError, EntryAndAddress, ExpressionPost,
    ExpressionPostModel, User, UserModel, UserName, UserNameModel, seq_view,
};
use crate::store::{LinkMatch, LinkMatchModel, Store, StoreModel, matching_targets};
use crate::time::model_timestamp;

verus! {

/// A fully aggregated expression. `sub_expressions` is filled one level
/// deep at most: a nested aggregate always carries an empty list of its
/// own.
#[derive(Debug)]
pub struct ExpressionData {
    pub expression: EntryAndAddress<ExpressionPost>,
    pub sub_expressions: Vec<ExpressionData>,
    pub author_username: EntryAndAddress<UserName>,
    pub author_profile: EntryAndAddress<User>,
    pub timestamp: String,
    pub channels: Vec<EntryAndAddress<Attribute>>,
    pub resonations: Vec<EntryAndAddress<UserName>>,
}

/// The flat model of one aggregated expression, nested sub-entries left
/// aside.
pub ghost struct ExpressionSummaryModel {
    pub expression: (Address, ExpressionPostModel),
    pub author_username: (Address, UserNameModel),
    pub author_profile: (Address, UserModel),
    pub timestamp: Seq<char>,
    pub channels: Seq<(Address, AttributeModel)>,
    pub resonations: Seq<(Address, UserNameModel)>,
}

/// The flat model of an aggregate: everything but its nested sub-entries.
pub open spec fn summary_view(d: ExpressionData) -> ExpressionSummaryModel {
    ExpressionSummaryModel {
        expression: d.expression@,
        author_username: d.author_username@,
        author_profile: d.author_profile@,
        timestamp: d.timestamp@,
        channels: seq_view(d.channels@),
        resonations: seq_view(d.resonations@),
    }
}

/// The flat models of a list of aggregates.
pub open spec fn sub_views(s: Seq<ExpressionData>) -> Seq<ExpressionSummaryModel> {
    Seq::new(s.len(), |i: int| summary_view(s[i]))
}

/// The links of one aggregation step: targets of the given type leaving
/// the entry, any tag, projected into shape `R`.
pub open spec fn model_projected<R: FromRecord>(
    m: StoreModel,
    base: Address,
    link_type: Seq<char>,
) -> Seq<(Address, R::V)> {
    projected_targets::<R>(
        m,
        matching_targets(m.links, base, LinkMatchModel::Exactly(link_type), LinkMatchModel::Any),
    )
}

/// What aggregating one entry yields, nested sub-entries left aside.
/// Exactly one "auth"/"owner" link must carry the author's name record;
/// the first "profile" link behind it carries the profile; the entry's
/// single stored revision yields the `"Y-M-D-H"` timestamp; channel
/// attributes and reaction links come along in link order.
pub open spec fn model_aggregate_shallow(
    m: StoreModel,
    e: (Address, ExpressionPostModel),
) -> Result<ExpressionSummaryModel, CoreError> {
    let authors = projected_targets::<UserName>(
        m,
        matching_targets(
            m.links,
            e.0,
            LinkMatchModel::Exactly("auth"@),
            LinkMatchModel::Exactly("owner"@),
        ),
    );
    if authors.len() != 1 {
        Err(CoreError::NoAuthor)
    } else {
        let author = authors[0];
        let profiles = model_projected::<User>(m, author.0, "profile"@);
        if profiles.len() == 0 {
            Err(CoreError::NoAuthorProfile)
        } else {
            match model_timestamp(m, e.0) {
                Ok(tb) => Ok(
                    ExpressionSummaryModel {
                        expression: e,
                        author_username: author,
                        author_profile: profiles[0],
                        timestamp: tb.year + "-"@ + tb.month + "-"@ + tb.day + "-"@ + tb.hour,
                        channels: model_projected::<Attribute>(m, e.0, "channels"@),
                        resonations: model_projected::<UserName>(m, e.0, "resonation"@),
                    },
                ),
                Err(err) => Err(err),
            }
        }
    }
}

/// Aggregates each nested sub-entry in link order, nested sub-entries of
/// their own left aside; the first failure wins.
pub open spec fn model_sub_summaries(
    m: StoreModel,
    subs: Seq<(Address, ExpressionPostModel)>,
) -> Result<Seq<ExpressionSummaryModel>, CoreError>
    decreases subs.len(),
{
    if subs.len() == 0 {
        Ok(Seq::empty())
    } else {
        match model_sub_summaries(m, subs.drop_last()) {
            Ok(rs) => match model_aggregate_shallow(m, subs.last()) {
                Ok(one) => Ok(rs.push(one)),
                Err(e) => Err(e),
            },
            Err(e) => Err(e),
        }
    }
}

/// The first failing sub-entry decides the whole list.
pub proof fn lemma_sub_summaries_fail(
    m: StoreModel,
    subs: Seq<(Address, ExpressionPostModel)>,
    k: int,
    e: CoreError,
)
    requires
        0 <= k < subs.len(),
        model_sub_summaries(m, subs.take(k)) is Ok,
        model_aggregate_shallow(m, subs[k]) == Err::<ExpressionSummaryModel, CoreError>(e),
    ensures
        model_sub_summaries(m, subs) == Err::<Seq<ExpressionSummaryModel>, CoreError>(e),
    decreases subs.len(),
{
    if k == subs.len() - 1 {
        assert(subs.take(k) =~= subs.drop_last());
    } else {
        assert(subs.drop_last().take(k) =~= subs.take(k));
        assert(subs.drop_last()[k] == subs[k]);
        lemma_sub_summaries_fail(m, subs.drop_last(), k, e);
    }
}

/// What a whole aggregation call yields: the entry's own flat aggregate,
/// and — when sub-entries are asked for — the flat aggregates of its
/// "sub_expression" targets in link order.
pub open spec fn model_aggregate(
    m: StoreModel,
    e: (Address, ExpressionPostModel),
    fetch_sub_expressions: bool,
) -> Result<(ExpressionSummaryModel, Seq<ExpressionSummaryModel>), CoreError> {
    match model_aggregate_shallow(m, e) {
        Ok(top) => if fetch_sub_expressions {
            let subs = model_projected::<ExpressionPost>(m, e.0, "sub_expression"@);
            match model_sub_summaries(m, subs) {
                Ok(rs) => Ok((top, rs)),
                Err(err) => Err(err),
            }
        } else {
            Ok((top, Seq::empty()))
        },
        Err(err) => Err(err),
    }
}

pub open spec fn fetch_rank(fetch: bool) -> int {
    if fetch {
        1
    } else {
        0
    }
}

/// Aggregates an entry: its author's name record (exactly one "owner"
/// link expected), the profile behind it, the `"Y-M-D-H"` form of its
/// creation time, its channel attributes, its reaction links, and — when
/// asked for — one level of nested sub-entries, never more: a nested
/// aggregate always has an empty `sub_expressions` of its own.
#[verifier::loop_isolation(false)]
pub fn get_expression_attributes(
    store: &Store,
    expression_data: EntryAndAddress<ExpressionPost>,
    fetch_sub_expressions: bool,
) -> (r: Result<ExpressionData, CoreError>)
    requires
        store.wf(),
    ensures
        match (r, model_aggregate(store@, expression_data@, fetch_sub_expressions)) {
            (Ok(d), Ok((top, subs))) => {
                &&& summary_view(d) == top
                &&& sub_views(d.sub_expressions@) == subs
                &&& forall|k: int|
                    0 <= k < d.sub_expressions@.len()
                        ==> d.sub_expressions@[k].sub_expressions@.len() == 0
            },
            (Err(e), Err(me)) => e == me,
            _ => false,
        },
    decreases fetch_rank(fetch_sub_expressions),
{
    let mut author_links = get_links_and_load_type::<UserName>(
        store,
        expression_data.address,
        &LinkMatch::Exactly("auth".to_owned()),
        &LinkMatch::Exactly("owner".to_owned()),
    );
    if author_links.len() != 1 {
        return Err(CoreError::NoAuthor);
    }
    let author = author_links.remove(0);
    proof {
        assert(author@ == projected_targets::<UserName>(
            store@,
            matching_targets(
                store@.links,
                expression_data.address,
                LinkMatchModel::Exactly("auth"@),
                LinkMatchModel::Exactly("owner"@),
            ),
        )[0]);
    }
    let mut profiles = get_links_and_load_type::<User>(
        store,
        author.address,
        &LinkMatch::Exactly("profile".to_owned()),
        &LinkMatch::Any,
    );
    if profiles.len() == 0 {
        return Err(CoreError::NoAuthorProfile);
    }
    let profile = profiles.remove(0);
    let tb = match crate::time::get_entries_timestamp(store, expression_data.address) {
        Ok(tb) => tb,
        Err(e) => {
            return Err(e);
        },
    };
    let timestamp = tb.year.concat("-").concat(tb.month.as_str()).concat("-").concat(
        tb.day.as_str(),
    ).concat("-").concat(tb.hour.as_str());
    let channels = get_links_and_load_type::<Attribute>(
        store,
        expression_data.address,
        &LinkMatch::Exactly("channels".to_owned()),
        &LinkMatch::Any,
    );
    let mut sub_expressions: Vec<ExpressionData> = Vec::new();
    if fetch_sub_expressions {
        let subs = get_links_and_load_type::<ExpressionPost>(
            store,
            expression_data.address,
            &LinkMatch::Exactly("sub_expression".to_owned()),
            &LinkMatch::Any,
        );
        let ghost subs_m = model_projected::<ExpressionPost>(
            store@,
            expression_data.address,
            "sub_expression"@,
        );
        let n = subs.len();
        let mut k: usize = 0;
        proof {
            assert(subs_m.take(0) =~= Seq::<(Address, ExpressionPostModel)>::empty());
            assert(sub_views(sub_expressions@) =~= Seq::<ExpressionSummaryModel>::empty());
        }
        while k < n
            invariant
                k <= n,
                n == subs.len(),
                seq_view(subs@) == subs_m,
                model_sub_summaries(store@, subs_m.take(k as int)) == Ok::<
                    Seq<ExpressionSummaryModel>,
                    CoreError,
                >(sub_views(sub_expressions@)),
                forall|j: int|
                    0 <= j < sub_expressions@.len()
                        ==> sub_expressions@[j].sub_expressions@.len() == 0,
            decreases n - k,
        {
            proof {
                assert(subs_m.take(k as int + 1).drop_last() =~= subs_m.take(k as int));
                assert(subs_m.take(k as int + 1).last() == subs_m[k as int]);
            }
            let sub = EntryAndAddress {
                address: subs[k].address,
                entry: subs[k].entry.duplicate(),
            };
            proof {
                assert(sub@ == subs_m[k as int]);
            }
            match get_expression_attributes(store, sub, false) {
                Ok(d) => {
                    proof {
                        assert(sub_views(sub_expressions@.push(d)) =~= sub_views(
                            sub_expressions@,
                        ).push(summary_view(d)));
                    }
                    sub_expressions.push(d);
                },
                Err(e) => {
                    proof {
                        lemma_sub_summaries_fail(store@, subs_m, k as int, e);
                    }
                    return Err(e);
                },
            }
            k += 1;
        }
        proof {
            assert(subs_m.take(n as int) =~= subs_m);
        }
    }
    let resonations = get_links_and_load_type::<UserName>(
        store,
        expression_data.address,
        &LinkMatch::Exactly("resonation".to_owned()),
        &LinkMatch::Any,
    );
    Ok(
        ExpressionData {
            expression: expression_data,
            sub_expressions,
            author_username: author,
            author_profile: profile,
            timestamp,
            channels,
            resonations,
        },
    )
}

} // verus!
