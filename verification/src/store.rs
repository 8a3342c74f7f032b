//! An in-memory model of the two external collaborators of this layer: the
//! content-addressed entry store and the typed link graph. The model keeps
//! their observable behaviour at the boundary: committing identical content
//! yields an identical address, every commit stamps a revision timestamp,
//! links are append-only directed edges and may dangle, and queries return
//! matches in insertion order.

use vstd::prelude::*;

use crate::records::{Address, Record, RecordModel, seq_view};
use crate::strutil::eq_str;

verus! {

/// A directed, typed, tagged edge between two addresses.
#[derive(Clone, Debug)]
pub struct Link {
    pub base: Address,
    pub target: Address,
    pub link_type: String,
    pub tag: String,
}

pub ghost struct LinkModel {
    pub base: Address,
    pub target: Address,
    pub link_type: Seq<char>,
    pub tag: Seq<char>,
}

impl View for Link {
    type V = LinkModel;

    open spec fn view(&self) -> LinkModel {
        LinkModel {
            base: self.base,
            target: self.target,
            link_type: self.link_type@,
            tag: self.tag@,
        }
    }
}

/// A filter of a link query: an exact match on one string, or anything.
#[derive(Clone, Debug)]
pub enum LinkMatch {
    Exactly(String),
    Any,
}

pub ghost enum LinkMatchModel {
    Exactly(Seq<char>),
    Any,
}

impl View for LinkMatch {
    type V = LinkMatchModel;

    open spec fn view(&self) -> LinkMatchModel {
        match self {
            LinkMatch::Exactly(t) => LinkMatchModel::Exactly(t@),
            LinkMatch::Any => LinkMatchModel::Any,
        }
    }
}

/// The state of the modelled collaborators: stored records, their revision
/// timestamps (one per commit of that content), the link graph, and the
/// timestamp that the next commit will be stamped with.
pub struct Store {
    pub entries: Vec<Record>,
    pub revisions: Vec<Vec<String>>,
    pub links: Vec<Link>,
    pub now: String,
}

pub ghost struct StoreModel {
    pub entries: Seq<RecordModel>,
    pub revisions: Seq<Seq<Seq<char>>>,
    pub links: Seq<LinkModel>,
    pub now: Seq<char>,
}

impl View for Store {
    type V = StoreModel;

    open spec fn view(&self) -> StoreModel {
        StoreModel {
            entries: seq_view(self.entries@),
            revisions: self.revisions.deep_view(),
            links: seq_view(self.links@),
            now: self.now@,
        }
    }
}

/// Some stored record has this content.
pub open spec fn model_has(entries: Seq<RecordModel>, r: RecordModel) -> bool {
    exists|i: int| 0 <= i < entries.len() && entries[i] == r
}

/// The first position at which `r` is stored (its address under content
/// addressing); meaningful when `model_has(entries, r)`.
pub open spec fn first_index_of(entries: Seq<RecordModel>, r: RecordModel) -> int
    decreases entries.len(),
{
    if entries.len() == 0 {
        0
    } else if entries[0] == r {
        0
    } else {
        1 + first_index_of(entries.drop_first(), r)
    }
}

pub proof fn lemma_first_index_of(entries: Seq<RecordModel>, r: RecordModel, i: int)
    requires
        0 <= i < entries.len(),
        entries[i] == r,
        forall|j: int| 0 <= j < i ==> entries[j] != r,
    ensures
        first_index_of(entries, r) == i,
    decreases i,
{
    if i == 0 {
    } else {
        assert(entries[0] != r);
        assert(entries.drop_first()[i - 1] == entries[i]);
        assert forall|j: int| 0 <= j < i - 1 implies entries.drop_first()[j] != r by {
            assert(entries.drop_first()[j] == entries[j + 1]);
        }
        lemma_first_index_of(entries.drop_first(), r, i - 1);
    }
}

/// What one commit does to the model: a further revision stamp under the
/// existing address when the content is already stored, a fresh entry with
/// one revision stamp otherwise. Returns the new model and the address.
pub open spec fn model_commit(m: StoreModel, r: RecordModel) -> (StoreModel, Address) {
    if model_has(m.entries, r) {
        let i = first_index_of(m.entries, r);
        (
            StoreModel {
                entries: m.entries,
                revisions: m.revisions.update(i, m.revisions[i].push(m.now)),
                links: m.links,
                now: m.now,
            },
            Address(i as usize),
        )
    } else {
        (
            StoreModel {
                entries: m.entries.push(r),
                revisions: m.revisions.push(seq![m.now]),
                links: m.links,
                now: m.now,
            },
            Address(m.entries.len() as usize),
        )
    }
}

/// What one link creation does to the model: one edge appended.
pub open spec fn model_link(
    m: StoreModel,
    base: Address,
    target: Address,
    link_type: Seq<char>,
    tag: Seq<char>,
) -> StoreModel {
    StoreModel {
        entries: m.entries,
        revisions: m.revisions,
        links: m.links.push(LinkModel { base, target, link_type, tag }),
        now: m.now,
    }
}

pub open spec fn filter_matches(m: LinkMatchModel, s: Seq<char>) -> bool {
    match m {
        LinkMatchModel::Exactly(t) => t == s,
        LinkMatchModel::Any => true,
    }
}

pub open spec fn link_matches(
    l: LinkModel,
    base: Address,
    lt: LinkMatchModel,
    tag: LinkMatchModel,
) -> bool {
    l.base == base && filter_matches(lt, l.link_type) && filter_matches(tag, l.tag)
}

/// The targets of the links leaving `base` that pass both filters, in
/// insertion order.
pub open spec fn matching_targets(
    links: Seq<LinkModel>,
    base: Address,
    lt: LinkMatchModel,
    tag: LinkMatchModel,
) -> Seq<Address>
    decreases links.len(),
{
    if links.len() == 0 {
        Seq::empty()
    } else {
        let rest = matching_targets(links.drop_last(), base, lt, tag);
        if link_matches(links.last(), base, lt, tag) {
            rest.push(links.last().target)
        } else {
            rest
        }
    }
}

/// Committing the same content twice yields the same address both times,
/// and the second commit stores no new entry.
pub proof fn lemma_commit_idempotent(m: StoreModel, r: RecordModel)
    ensures
        ({
            let (m1, a1) = model_commit(m, r);
            let (m2, a2) = model_commit(m1, r);
            a2 == a1 && m2.entries == m1.entries
        }),
{
    if model_has(m.entries, r) {
    } else {
        let n = m.entries.len() as int;
        assert(m.entries.push(r)[n] == r);
        assert(model_has(m.entries.push(r), r));
        assert forall|j: int| 0 <= j < n implies m.entries.push(r)[j] != r by {
            assert(m.entries.push(r)[j] == m.entries[j]);
        }
        lemma_first_index_of(m.entries.push(r), r, n);
    }
}

impl Store {
    /// Entries and revision lists stay in step, every stored entry has at
    /// least one revision stamp, and no two stored records have identical
    /// content: content addressing collapses them.
    pub open spec fn wf(self) -> bool {
        &&& self@.entries.len() == self@.revisions.len()
        &&& forall|i: int, j: int|
            0 <= i < j < self@.entries.len() ==> self@.entries[i] != self@.entries[j]
        &&& forall|i: int| 0 <= i < self@.revisions.len() ==> self@.revisions[i].len() >= 1
    }

    /// An empty store whose next commit will be stamped `now`.
    pub fn new(now: &str) -> (s: Store)
        ensures
            s.wf(),
            s@.entries == Seq::<RecordModel>::empty(),
            s@.revisions == Seq::<Seq<Seq<char>>>::empty(),
            s@.links == Seq::<LinkModel>::empty(),
            s@.now == now@,
    {
        let s = Store {
            entries: Vec::new(),
            revisions: Vec::new(),
            links: Vec::new(),
            now: now.to_owned(),
        };
        proof {
            assert(s@.entries =~= Seq::<RecordModel>::empty());
            assert(s@.revisions =~= Seq::<Seq<Seq<char>>>::empty());
            assert(s@.links =~= Seq::<LinkModel>::empty());
        }
        s
    }

    /// Moves the store's clock: commits from here on are stamped `now`.
    pub fn set_now(&mut self, now: &str)
        ensures
            final(self)@.entries == old(self)@.entries,
            final(self)@.revisions == old(self)@.revisions,
            final(self)@.links == old(self)@.links,
            final(self)@.now == now@,
            old(self).wf() ==> final(self).wf(),
    {
        self.now = now.to_owned();
    }

    /// Content-addressed write. The address only depends on the record's
    /// content; the current clock is stamped as a further revision.
    #[verifier::loop_isolation(false)]
    pub fn commit(&mut self, record: Record) -> (addr: Address)
        requires
            old(self).wf(),
        ensures
            final(self).wf(),
            final(self)@ == model_commit(old(self)@, record@).0,
            addr == model_commit(old(self)@, record@).1,
    {
        let ghost m0 = self@;
        let n = self.entries.len();
        let mut i: usize = 0;
        while i < n
            invariant
                *self == *old(self),
                i <= n,
                n == self.entries.len(),
                forall|j: int| 0 <= j < i ==> self@.entries[j] != record@,
            decreases n - i,
    {
            if record_content_eq_at(self, i, &record) {
                proof {
                    assert(self@.entries[i as int] == record@);
                    lemma_first_index_of(m0.entries, record@, i as int);
                }
                let mut row: Vec<String> = Vec::new();
                self.revisions.set_and_swap(i, &mut row);
                row.push(self.now.clone());
                self.revisions.set(i, row);
                proof {
                    let target = model_commit(m0, record@).0;
                    assert(self@.revisions =~= target.revisions) by {
                        assert(self@.revisions.len() == target.revisions.len());
                        assert forall|k: int|
                            0 <= k < self@.revisions.len() implies self@.revisions[k]
                            == target.revisions[k] by {
                            if k == i as int {
                                assert(self@.revisions[k] =~= m0.revisions[k].push(m0.now));
                            }
                        }
                    }
                    assert(self@ == target);
                }
                return Address(i);
            }
            i += 1;
        }
        proof {
            assert(!model_has(m0.entries, record@));
        }
        let ghost recm = record@;
        self.entries.push(record);
        let mut row: Vec<String> = Vec::new();
        row.push(self.now.clone());
        self.revisions.push(row);
        proof {
            let target = model_commit(m0, recm).0;
            assert(self@.entries =~= m0.entries.push(recm));
            assert(self@.revisions =~= m0.revisions.push(seq![m0.now])) by {
                assert(self@.revisions.len() == m0.revisions.len() + 1);
                assert(self@.revisions[m0.revisions.len() as int] =~= seq![m0.now]);
            }
            assert(self@ == target);
        }
        Address(n)
    }

    /// Loads the record stored under `address`, if any.
    pub fn get(&self, address: Address) -> (r: Option<&Record>)
        ensures
            match r {
                Some(rec) => address.0 < self@.entries.len() && rec@ == self@.entries[address.0 as int],
                None => address.0 >= self@.entries.len(),
            },
    {
        if address.0 < self.entries.len() {
            Some(&self.entries[address.0])
        } else {
            None
        }
    }

    /// Appends one directed, typed, tagged edge. Neither address is checked
    /// to resolve: dangling links are allowed, and duplicate edges pile up.
    pub fn link_entries(&mut self, base: Address, target: Address, link_type: &str, tag: &str)
        ensures
            final(self)@ == model_link(old(self)@, base, target, link_type@, tag@),
            old(self).wf() ==> final(self).wf(),
    {
        let ghost m0 = self@;
        self.links.push(Link {
            base,
            target,
            link_type: link_type.to_owned(),
            tag: tag.to_owned(),
        });
        proof {
            assert(self@.links =~= m0.links.push(
                LinkModel { base, target, link_type: link_type@, tag: tag@ },
            ));
            assert(self@ == model_link(m0, base, target, link_type@, tag@));
        }
    }

    /// The targets of the links leaving `base` that pass both filters, in
    /// insertion order.
    #[verifier::loop_isolation(false)]
    pub fn query_links(&self, base: Address, link_type: &LinkMatch, tag: &LinkMatch) -> (out: Vec<
        Address,
    >)
        ensures
            out@ == matching_targets(self@.links, base, link_type@, tag@),
    {
        let mut out: Vec<Address> = Vec::new();
        let n = self.links.len();
        let mut i: usize = 0;
        proof {
            assert(self@.links.take(0) =~= Seq::empty());
        }
        while i < n
            invariant
                i <= n,
                n == self.links.len(),
                out@ == matching_targets(self@.links.take(i as int), base, link_type@, tag@),
            decreases n - i,
        {
            proof {
                assert(self@.links.take(i as int + 1).drop_last() =~= self@.links.take(i as int));
                assert(self@.links.take(i as int + 1).last() == self@.links[i as int]);
            }
            let l = &self.links[i];
            let type_ok = link_match_test(link_type, &l.link_type);
            let tag_ok = link_match_test(tag, &l.tag);
            if l.base == base && type_ok && tag_ok {
                out.push(l.target);
            }
            i += 1;
        }
        proof {
            assert(self@.links.take(n as int) =~= self@.links);
        }
        out
    }
}

/// Decides whether the record stored at position `i` has the same content
/// as `record`.
fn record_content_eq_at(s: &Store, i: usize, record: &Record) -> (r: bool)
    requires
        i < s.entries@.len(),
    ensures
        r == (s@.entries[i as int] == record@),
{
    crate::records::record_content_eq(&s.entries[i], record)
}

/// Decides whether a link-query filter passes a stored string.
pub fn link_match_test(m: &LinkMatch, s: &String) -> (r: bool)
    ensures
        r == filter_matches(m@, s@),
{
    match m {
        LinkMatch::Exactly(t) => eq_str(t.as_str(), s.as_str()),
        LinkMatch::Any => true,
    }
}

} // verus!
