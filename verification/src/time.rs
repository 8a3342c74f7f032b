//! The time bucketizer: deriving calendar buckets from a stored creation
//! timestamp, canonically ordering time-range tags, and routing an
//! expression's buckets into committed time attributes.

use vstd::prelude::*;

use crate::links::{LinkDirection, link_expression, model_link_expression};
use crate::records::{Address, Attribute, AttributeModel, AttributeType, CoreError, Record, RecordModel};
use crate::store::{Store, StoreModel, model_commit};
use crate::strutil::{is_prefix_of, str_has_prefix};

verus! {

/// The four calendar buckets of a creation timestamp.
#[derive(Clone, Debug)]
pub struct TimeBuckets {
    pub year: String,
    pub month: String,
    pub day: String,
    pub hour: String,
}

pub ghost struct TimeBucketsModel {
    pub year: Seq<char>,
    pub month: Seq<char>,
    pub day: Seq<char>,
    pub hour: Seq<char>,
}

impl View for TimeBuckets {
    type V = TimeBucketsModel;

    open spec fn view(&self) -> TimeBucketsModel {
        TimeBucketsModel {
            year: self.year@,
            month: self.month@,
            day: self.day@,
            hour: self.hour@,
        }
    }
}

/// Stored timestamps are canonical ISO-8601-like strings, `YYYY-MM-DDTHH`
/// onwards: the buckets sit at fixed character offsets.
pub open spec fn buckets_of(ts: Seq<char>) -> TimeBucketsModel {
    TimeBucketsModel {
        year: ts.subrange(0, 4),
        month: ts.subrange(5, 7),
        day: ts.subrange(8, 10),
        hour: ts.subrange(11, 13),
    }
}

/// What timestamp derivation returns for an address: the entry must
/// resolve, must carry exactly one revision (multi-revision histories are
/// rejected), and the stored timestamp must reach past the hour offset.
pub open spec fn model_timestamp(m: StoreModel, entry: Address) -> Result<
    TimeBucketsModel,
    CoreError,
> {
    if entry.0 >= m.entries.len() {
        Err(CoreError::EntryNotFound)
    } else if m.revisions[entry.0 as int].len() != 1 {
        Err(CoreError::NotSingleRevision)
    } else if m.revisions[entry.0 as int][0].len() < 13 {
        Err(CoreError::MalformedTimestamp)
    } else {
        Ok(buckets_of(m.revisions[entry.0 as int][0]))
    }
}

/// Derives the calendar buckets of the entry's stored creation timestamp.
pub fn get_entries_timestamp(store: &Store, entry: Address) -> (r: Result<TimeBuckets, CoreError>)
    requires
        store.wf(),
    ensures
        match (r, model_timestamp(store@, entry)) {
            (Ok(tb), Ok(mtb)) => tb@ == mtb,
            (Err(e), Err(me)) => e == me,
            _ => false,
        },
{
    if entry.0 >= store.entries.len() {
        return Err(CoreError::EntryNotFound);
    }
    proof {
        assert(store@.revisions[entry.0 as int] == store.revisions@[entry.0 as int].deep_view());
    }
    let revs = &store.revisions[entry.0];
    if revs.len() != 1 {
        return Err(CoreError::NotSingleRevision);
    }
    let ts = &revs[0];
    proof {
        assert(store.revisions@[entry.0 as int].deep_view()[0] == ts@);
    }
    let s = ts.as_str();
    if s.unicode_len() < 13 {
        return Err(CoreError::MalformedTimestamp);
    }
    let year = s.substring_char(0, 4).to_owned();
    let month = s.substring_char(5, 7).to_owned();
    let day = s.substring_char(8, 10).to_owned();
    let hour = s.substring_char(11, 13).to_owned();
    Ok(TimeBuckets { year, month, day, hour })
}

/// Whether some tag carries this granularity marker as a prefix.
pub open spec fn has_prefix_match(times: Seq<Seq<char>>, marker: Seq<char>) -> bool {
    exists|i: int| 0 <= i < times.len() && is_prefix_of(marker, times[i])
}

/// The first position whose tag carries the marker as a prefix;
/// meaningful when `has_prefix_match(times, marker)`.
pub open spec fn first_prefix_index(times: Seq<Seq<char>>, marker: Seq<char>) -> int
    decreases times.len(),
{
    if times.len() == 0 {
        0
    } else if is_prefix_of(marker, times[0]) {
        0
    } else {
        1 + first_prefix_index(times.drop_first(), marker)
    }
}

pub proof fn lemma_first_prefix_index(times: Seq<Seq<char>>, marker: Seq<char>, i: int)
    requires
        0 <= i < times.len(),
        is_prefix_of(marker, times[i]),
        forall|j: int| 0 <= j < i ==> !is_prefix_of(marker, times[j]),
    ensures
        first_prefix_index(times, marker) == i,
    decreases i,
{
    if i == 0 {
    } else {
        assert(times.drop_first()[i - 1] == times[i]);
        assert forall|j: int| 0 <= j < i - 1 implies !is_prefix_of(
            marker,
            times.drop_first()[j],
        ) by {
            assert(times.drop_first()[j] == times[j + 1]);
        }
        lemma_first_prefix_index(times.drop_first(), marker, i - 1);
    }
}

/// The tag filling one canonical slot: the first tag carrying the marker,
/// or the wildcard when no tag does.
pub open spec fn slot_for(times: Seq<Seq<char>>, marker: Seq<char>) -> Seq<char> {
    if has_prefix_match(times, marker) {
        times[first_prefix_index(times, marker)]
    } else {
        "*"@
    }
}

/// The canonical four-slot ordering of a set of time-range tags: year,
/// month, day, hour, missing granularities as the wildcard.
pub open spec fn canonical_time_order(times: Seq<Seq<char>>) -> Seq<Seq<char>> {
    seq![
        slot_for(times, "time:y>"@),
        slot_for(times, "time:m>"@),
        slot_for(times, "time:d>"@),
        slot_for(times, "time:h>"@),
    ]
}

/// The first tag carrying `marker` as a prefix, or `"*"` when none does.
#[verifier::loop_isolation(false)]
fn find_slot(times: &Vec<String>, marker: &str) -> (out: String)
    ensures
        out@ == slot_for(times.deep_view(), marker@),
{
    let n = times.len();
    let mut i: usize = 0;
    while i < n
        invariant
            i <= n,
            forall|j: int| 0 <= j < i ==> !is_prefix_of(marker@, times.deep_view()[j]),
        decreases n - i,
    {
        if str_has_prefix(times[i].as_str(), marker) {
            proof {
                assert(times.deep_view()[i as int] == times@[i as int]@);
                lemma_first_prefix_index(times.deep_view(), marker@, i as int);
            }
            return times[i].clone();
        }
        i += 1;
    }
    proof {
        assert(!has_prefix_match(times.deep_view(), marker@));
    }
    "*".to_owned()
}

/// Re-orders a set of time-range tags into the fixed year, month, day,
/// hour slots, filling granularities nobody supplied with the wildcard.
pub fn sort_time_vector(times: &Vec<String>) -> (out: Vec<String>)
    ensures
        out.deep_view() == canonical_time_order(times.deep_view()),
{
    let mut out: Vec<String> = Vec::new();
    out.push(find_slot(times, "time:y>"));
    out.push(find_slot(times, "time:m>"));
    out.push(find_slot(times, "time:d>"));
    out.push(find_slot(times, "time:h>"));
    proof {
        assert(out.deep_view() =~= canonical_time_order(times.deep_view()));
    }
    out
}

/// Decides whether no element occurs twice.
#[verifier::loop_isolation(false)]
pub fn has_unique_elements(v: &Vec<Address>) -> (r: bool)
    ensures
        r <==> v@.no_duplicates(),
{
    let n = v.len();
    let mut i: usize = 0;
    while i < n
        invariant
            i <= n,
            forall|p: int, q: int| 0 <= p < q < i ==> v@[p] != v@[q],
        decreases n - i,
    {
        let mut j: usize = 0;
        while j < i
            invariant
                j <= i,
                i < n,
                forall|q: int| 0 <= q < j ==> v@[q] != v@[i as int],
            decreases i - j,
        {
            if v[j] == v[i] {
                return false;
            }
            j += 1;
        }
        i += 1;
    }
    true
}

/// What routing an expression's time buckets does to the model: the four
/// buckets of its single stored revision are committed as year, month,
/// day and hour attributes, each linked to the expression in the given
/// direction; when the buckets cannot be derived nothing changes.
pub open spec fn model_time_to_expression(
    m: StoreModel,
    link_type: Seq<char>,
    tag: Seq<char>,
    direction: LinkDirection,
    expression: Address,
) -> (StoreModel, Result<Seq<Address>, CoreError>) {
    match model_timestamp(m, expression) {
        Ok(tb) => {
            let (m1, a1) = model_commit(
                m,
                RecordModel::Attribute(
                    AttributeModel { value: tb.year, attribute_type: AttributeType::Year },
                ),
            );
            let m1l = model_link_expression(m1, link_type, tag, direction, expression, a1);
            let (m2, a2) = model_commit(
                m1l,
                RecordModel::Attribute(
                    AttributeModel { value: tb.month, attribute_type: AttributeType::Month },
                ),
            );
            let m2l = model_link_expression(m2, link_type, tag, direction, expression, a2);
            let (m3, a3) = model_commit(
                m2l,
                RecordModel::Attribute(
                    AttributeModel { value: tb.day, attribute_type: AttributeType::Day },
                ),
            );
            let m3l = model_link_expression(m3, link_type, tag, direction, expression, a3);
            let (m4, a4) = model_commit(
                m3l,
                RecordModel::Attribute(
                    AttributeModel { value: tb.hour, attribute_type: AttributeType::Hour },
                ),
            );
            let m4l = model_link_expression(m4, link_type, tag, direction, expression, a4);
            (m4l, Ok(seq![a1, a2, a3, a4]))
        },
        Err(e) => (m, Err(e)),
    }
}

/// Commits the expression's four time buckets as attributes and links
/// each to the expression; returns the four attribute addresses in
/// year-to-hour order.
pub fn time_to_expression(
    store: &mut Store,
    link_type: &str,
    tag: &str,
    direction: LinkDirection,
    expression_address: Address,
) -> (r: Result<Vec<Address>, CoreError>)
    requires
        old(store).wf(),
    ensures
        final(store).wf(),
        final(store)@ == model_time_to_expression(
            old(store)@,
            link_type@,
            tag@,
            direction,
            expression_address,
        ).0,
        match (r, model_time_to_expression(
            old(store)@,
            link_type@,
            tag@,
            direction,
            expression_address,
        ).1) {
            (Ok(v), Ok(ms)) => v@ == ms,
            (Err(e), Err(me)) => e == me,
            _ => false,
        },
{
    let tb = match get_entries_timestamp(store, expression_address) {
        Ok(tb) => tb,
        Err(e) => {
            return Err(e);
        },
    };
    let a1 = store.commit(
        Record::Attribute(Attribute { value: tb.year, attribute_type: AttributeType::Year }),
    );
    link_expression(store, link_type, tag, direction, expression_address, a1);
    let a2 = store.commit(
        Record::Attribute(Attribute { value: tb.month, attribute_type: AttributeType::Month }),
    );
    link_expression(store, link_type, tag, direction, expression_address, a2);
    let a3 = store.commit(
        Record::Attribute(Attribute { value: tb.day, attribute_type: AttributeType::Day }),
    );
    link_expression(store, link_type, tag, direction, expression_address, a3);
    let a4 = store.commit(
        Record::Attribute(Attribute { value: tb.hour, attribute_type: AttributeType::Hour }),
    );
    link_expression(store, link_type, tag, direction, expression_address, a4);
    let mut out: Vec<Address> = Vec::new();
    out.push(a1);
    out.push(a2);
    out.push(a3);
    out.push(a4);
    proof {
        assert(out@ =~= seq![a1, a2, a3, a4]);
    }
    Ok(out)
}

} // verus!
