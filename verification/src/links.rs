//! Link traversal: creating edges between expressions in a chosen
//! direction, and best-effort loading of link targets, optionally projected
//! into a specific record shape. Targets that do not resolve, or do not
//! have the requested shape, are dropped silently — read paths prefer
//! robustness over completeness on partially indexed graphs.

use vstd::prelude::*;

use crate::records::{
    Address, Attribute, AttributeModel, Collection, CollectionModel, CoreError, EntryAndAddress,
    ExpressionPost, ExpressionPostModel, Group, GroupModel, Perspective, PerspectiveModel, Record,
    RecordModel, User, UserModel, UserName, UserNameModel, seq_view,
};
use crate::store::{
    LinkMatch, LinkMatchModel, LinkModel, Store, StoreModel, matching_targets, model_link,
};

verus! {

/// Which edges a link request creates between two expressions.
#[derive(Clone, Copy, PartialEq, Eq, Structural, Debug)]
pub enum LinkDirection {
    Forward,
    Reverse,
    Both,
}

/// What linking two expressions does to the model: `reverse` and `both`
/// append the child-to-parent edge, `forward` and `both` the
/// parent-to-child edge; `both` appends the reverse edge first.
pub open spec fn model_link_expression(
    m: StoreModel,
    link_type: Seq<char>,
    tag: Seq<char>,
    direction: LinkDirection,
    parent: Address,
    child: Address,
) -> StoreModel {
    let m1 = if direction is Reverse || direction is Both {
        model_link(m, child, parent, link_type, tag)
    } else {
        m
    };
    if direction is Forward || direction is Both {
        model_link(m1, parent, child, link_type, tag)
    } else {
        m1
    }
}

/// Links two expressions in the given direction, with the given type and
/// tag on every created edge. Neither address is validated.
pub fn link_expression(
    store: &mut Store,
    link_type: &str,
    tag: &str,
    direction: LinkDirection,
    parent_expression: Address,
    child_expression: Address,
)
    ensures
        final(store)@ == model_link_expression(
            old(store)@,
            link_type@,
            tag@,
            direction,
            parent_expression,
            child_expression,
        ),
        old(store).wf() ==> final(store).wf(),
{
    match direction {
        LinkDirection::Reverse | LinkDirection::Both => {
            store.link_entries(child_expression, parent_expression, link_type, tag);
        },
        _ => {},
    }
    match direction {
        LinkDirection::Forward | LinkDirection::Both => {
            store.link_entries(parent_expression, child_expression, link_type, tag);
        },
        _ => {},
    }
}

/// Direction coverage, spelled out: `both` appends exactly the two edges
/// (child to parent first), `forward` exactly the parent-to-child edge,
/// `reverse` exactly the child-to-parent edge; entries and revisions are
/// never touched.
pub proof fn lemma_link_direction_coverage(
    m: StoreModel,
    lt: Seq<char>,
    tag: Seq<char>,
    a: Address,
    b: Address,
)
    ensures
        model_link_expression(m, lt, tag, LinkDirection::Both, a, b).links == m.links.push(
            LinkModel { base: b, target: a, link_type: lt, tag },
        ).push(LinkModel { base: a, target: b, link_type: lt, tag }),
        model_link_expression(m, lt, tag, LinkDirection::Forward, a, b).links == m.links.push(
            LinkModel { base: a, target: b, link_type: lt, tag },
        ),
        model_link_expression(m, lt, tag, LinkDirection::Reverse, a, b).links == m.links.push(
            LinkModel { base: b, target: a, link_type: lt, tag },
        ),
        forall|d: LinkDirection|
            #![all_triggers]
            model_link_expression(m, lt, tag, d, a, b).entries == m.entries
                && model_link_expression(m, lt, tag, d, a, b).revisions == m.revisions,
{
}

/// A record shape that a loaded entry can be projected into.
pub trait FromRecord: View + Sized {
    /// The shapes this projection accepts, and what it extracts from them.
    spec fn spec_project(r: RecordModel) -> Option<Self::V>;

    /// Projects a loaded record, `None` when it has another shape.
    fn try_from_record(r: &Record) -> (out: Option<Self>)
        ensures
            match out {
                Some(v) => Self::spec_project(r@) == Some(v@),
                None => Self::spec_project(r@) is None,
            },
    ;
}

impl FromRecord for Attribute {
    open spec fn spec_project(r: RecordModel) -> Option<AttributeModel> {
        match r {
            RecordModel::Attribute(a) => Some(a),
            _ => None,
        }
    }

    fn try_from_record(r: &Record) -> (out: Option<Attribute>) {
        match r {
            Record::Attribute(a) => Some(a.duplicate()),
            _ => None,
        }
    }
}

impl FromRecord for UserName {
    open spec fn spec_project(r: RecordModel) -> Option<UserNameModel> {
        match r {
            RecordModel::UserName(u) => Some(u),
            _ => None,
        }
    }

    fn try_from_record(r: &Record) -> (out: Option<UserName>) {
        match r {
            Record::UserName(u) => Some(u.duplicate()),
            _ => None,
        }
    }
}

impl FromRecord for User {
    open spec fn spec_project(r: RecordModel) -> Option<UserModel> {
        match r {
            RecordModel::User(u) => Some(u),
            _ => None,
        }
    }

    fn try_from_record(r: &Record) -> (out: Option<User>) {
        match r {
            Record::User(u) => Some(u.duplicate()),
            _ => None,
        }
    }
}

impl FromRecord for ExpressionPost {
    open spec fn spec_project(r: RecordModel) -> Option<ExpressionPostModel> {
        match r {
            RecordModel::ExpressionPost(e) => Some(e),
            _ => None,
        }
    }

    fn try_from_record(r: &Record) -> (out: Option<ExpressionPost>) {
        match r {
            Record::ExpressionPost(e) => Some(e.duplicate()),
            _ => None,
        }
    }
}

impl FromRecord for Collection {
    open spec fn spec_project(r: RecordModel) -> Option<CollectionModel> {
        match r {
            RecordModel::Collection(c) => Some(c),
            _ => None,
        }
    }

    fn try_from_record(r: &Record) -> (out: Option<Collection>) {
        match r {
            Record::Collection(c) => Some(c.duplicate()),
            _ => None,
        }
    }
}

impl FromRecord for Group {
    open spec fn spec_project(r: RecordModel) -> Option<GroupModel> {
        match r {
            RecordModel::Group(g) => Some(g),
            _ => None,
        }
    }

    fn try_from_record(r: &Record) -> (out: Option<Group>) {
        match r {
            Record::Group(g) => Some(g.duplicate()),
            _ => None,
        }
    }
}

impl FromRecord for Perspective {
    open spec fn spec_project(r: RecordModel) -> Option<PerspectiveModel> {
        match r {
            RecordModel::Perspective(p) => Some(p),
            _ => None,
        }
    }

    fn try_from_record(r: &Record) -> (out: Option<Perspective>) {
        match r {
            Record::Perspective(p) => Some(p.duplicate()),
            _ => None,
        }
    }
}

/// The addresses of `addrs` that resolve, each paired with its record, in
/// order; the rest are dropped.
pub open spec fn loaded_targets(m: StoreModel, addrs: Seq<Address>) -> Seq<(Address, RecordModel)>
    decreases addrs.len(),
{
    if addrs.len() == 0 {
        Seq::empty()
    } else {
        let rest = loaded_targets(m, addrs.drop_last());
        let a = addrs.last();
        if a.0 < m.entries.len() {
            rest.push((a, m.entries[a.0 as int]))
        } else {
            rest
        }
    }
}

/// The addresses of `addrs` that resolve to a record of shape `R`, each
/// paired with its projection, in order; the rest are dropped.
pub open spec fn projected_targets<R: FromRecord>(m: StoreModel, addrs: Seq<Address>) -> Seq<
    (Address, R::V),
>
    decreases addrs.len(),
{
    if addrs.len() == 0 {
        Seq::empty()
    } else {
        let rest = projected_targets::<R>(m, addrs.drop_last());
        let a = addrs.last();
        if a.0 < m.entries.len() {
            match R::spec_project(m.entries[a.0 as int]) {
                Some(v) => rest.push((a, v)),
                None => rest,
            }
        } else {
            rest
        }
    }
}

/// Follows the links leaving `base` that pass both filters and loads each
/// target, in the query's order; targets that do not resolve are dropped.
#[verifier::loop_isolation(false)]
pub fn get_links_and_load(
    store: &Store,
    base: Address,
    link_type: &LinkMatch,
    tag: &LinkMatch,
) -> (out: Vec<EntryAndAddress<Record>>)
    ensures
        seq_view(out@) == loaded_targets(
            store@,
            matching_targets(store@.links, base, link_type@, tag@),
        ),
{
    let addrs = store.query_links(base, link_type, tag);
    let mut out: Vec<EntryAndAddress<Record>> = Vec::new();
    let n = addrs.len();
    let mut i: usize = 0;
    proof {
        assert(addrs@.take(0) =~= Seq::empty());
        assert(seq_view(out@) =~= loaded_targets(store@, addrs@.take(0)));
    }
    while i < n
        invariant
            i <= n,
            n == addrs.len(),
            seq_view(out@) == loaded_targets(store@, addrs@.take(i as int)),
        decreases n - i,
    {
        proof {
            assert(addrs@.take(i as int + 1).drop_last() =~= addrs@.take(i as int));
            assert(addrs@.take(i as int + 1).last() == addrs@[i as int]);
        }
        let a = addrs[i];
        match store.get(a) {
            Some(rec) => {
                let e = EntryAndAddress { address: a, entry: rec.duplicate() };
                proof {
                    assert(seq_view(out@.push(e)) =~= seq_view(out@).push(e@));
                }
                out.push(e);
            },
            None => {},
        }
        proof {
            assert(seq_view(out@) =~= loaded_targets(store@, addrs@.take(i as int + 1)));
        }
        i += 1;
    }
    proof {
        assert(addrs@.take(n as int) =~= addrs@);
    }
    out
}

/// As [`get_links_and_load`], but each loaded target is also projected
/// into shape `R`; targets of another shape are dropped.
#[verifier::loop_isolation(false)]
pub fn get_links_and_load_type<R: FromRecord>(
    store: &Store,
    base: Address,
    link_type: &LinkMatch,
    tag: &LinkMatch,
) -> (out: Vec<EntryAndAddress<R>>)
    ensures
        seq_view(out@) == projected_targets::<R>(
            store@,
            matching_targets(store@.links, base, link_type@, tag@),
        ),
{
    let addrs = store.query_links(base, link_type, tag);
    let mut out: Vec<EntryAndAddress<R>> = Vec::new();
    let n = addrs.len();
    let mut i: usize = 0;
    proof {
        assert(addrs@.take(0) =~= Seq::empty());
        assert(seq_view(out@) =~= projected_targets::<R>(store@, addrs@.take(0)));
    }
    while i < n
        invariant
            i <= n,
            n == addrs.len(),
            seq_view(out@) == projected_targets::<R>(store@, addrs@.take(i as int)),
        decreases n - i,
    {
        proof {
            assert(addrs@.take(i as int + 1).drop_last() =~= addrs@.take(i as int));
            assert(addrs@.take(i as int + 1).last() == addrs@[i as int]);
        }
        let a = addrs[i];
        match store.get(a) {
            Some(rec) => {
                match R::try_from_record(rec) {
                    Some(v) => {
                        let e = EntryAndAddress { address: a, entry: v };
                        proof {
                            assert(seq_view(out@.push(e)) =~= seq_view(out@).push(e@));
                        }
                        out.push(e);
                    },
                    None => {},
                }
            },
            None => {},
        }
        proof {
            assert(seq_view(out@) =~= projected_targets::<R>(store@, addrs@.take(i as int + 1)));
        }
        i += 1;
    }
    proof {
        assert(addrs@.take(n as int) =~= addrs@);
    }
    out
}

/// Resolves an address that must hold a perspective record: absence and
/// any other shape are surfaced as errors, never dropped.
pub fn get_and_check_perspective(store: &Store, perspective: Address) -> (r: Result<
    Perspective,
    CoreError,
>)
    ensures
        match r {
            Ok(p) => perspective.0 < store@.entries.len() && store@.entries[perspective.0 as int]
                == RecordModel::Perspective(p@),
            Err(CoreError::EntryNotFound) => perspective.0 >= store@.entries.len(),
            Err(CoreError::NotAPerspective) => perspective.0 < store@.entries.len() && !(
            store@.entries[perspective.0 as int] is Perspective),
            _ => false,
        },
{
    match store.get(perspective) {
        Some(rec) => match rec {
            Record::Perspective(p) => Ok(p.duplicate()),
            _ => Err(CoreError::NotAPerspective),
        },
        None => Err(CoreError::EntryNotFound),
    }
}

} // verus!
