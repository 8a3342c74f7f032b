//! The attribute indexer. Per-entry indexing links an expression to its
//! own category and subtype attributes, skipping descriptors it does not
//! recognize. Per-context indexing first creates the primary
//! context-to-expression edge and then records which categories, subtypes
//! and time buckets exist within the context; it is strict and fails on a
//! descriptor of unknown type. The asymmetry is deliberate.

use vstd::prelude::*;

use crate::records::{
    Address, Attribute, AttributeModel, AttributeType, CoreError, Record, RecordModel, seq_view,
};
use crate::store::{Store, StoreModel, model_commit, model_link};
use crate::strutil::eq_str;

verus! {

/// One index descriptor: a caller-chosen type ("channel", "type", a time
/// granularity, or "user") and the value to index under.
#[derive(Clone, Debug)]
pub struct IndexDescriptor {
    pub index_type: String,
    pub value: String,
}

pub ghost struct IndexDescriptorModel {
    pub index_type: Seq<char>,
    pub value: Seq<char>,
}

impl View for IndexDescriptor {
    type V = IndexDescriptorModel;

    open spec fn view(&self) -> IndexDescriptorModel {
        IndexDescriptorModel { index_type: self.index_type@, value: self.value@ }
    }
}

/// What one permissive per-entry descriptor does to the model: "channel"
/// and "type" commit an attribute and link it from the expression, under
/// the link types "channels" and "expression_type"; every other
/// descriptor type is skipped.
pub open spec fn apply_one_entry_index(
    m: StoreModel,
    ix: IndexDescriptorModel,
    expression: Address,
) -> StoreModel {
    if ix.index_type == "channel"@ {
        let (m1, a) = model_commit(
            m,
            RecordModel::Attribute(
                AttributeModel { value: ix.value, attribute_type: AttributeType::Channel },
            ),
        );
        model_link(m1, expression, a, "channels"@, ix.value)
    } else if ix.index_type == "type"@ {
        let (m1, a) = model_commit(
            m,
            RecordModel::Attribute(
                AttributeModel { value: ix.value, attribute_type: AttributeType::Type },
            ),
        );
        model_link(m1, expression, a, "expression_type"@, ix.value)
    } else {
        m
    }
}

pub open spec fn apply_entry_indexes(
    m: StoreModel,
    ixs: Seq<IndexDescriptorModel>,
    expression: Address,
) -> StoreModel
    decreases ixs.len(),
{
    if ixs.len() == 0 {
        m
    } else {
        apply_one_entry_index(
            apply_entry_indexes(m, ixs.drop_last(), expression),
            ixs.last(),
            expression,
        )
    }
}

/// Links an expression to its own attributes. Unknown index types are
/// skipped silently: the per-entry path is permissive. The operation
/// itself always succeeds; the `Result` shape mirrors the fallible
/// collaborator boundary it sits on.
#[verifier::loop_isolation(false)]
pub fn create_post_attributes(
    store: &mut Store,
    indexes: &Vec<IndexDescriptor>,
    expression: Address,
) -> (r: Result<(), CoreError>)
    requires
        old(store).wf(),
    ensures
        final(store).wf(),
        final(store)@ == apply_entry_indexes(old(store)@, seq_view(indexes@), expression),
        r is Ok,
{
    let ghost ixs = seq_view(indexes@);
    let n = indexes.len();
    let mut i: usize = 0;
    proof {
        assert(ixs.take(0) =~= Seq::empty());
    }
    while i < n
        invariant
            i <= n,
            n == indexes.len(),
            store.wf(),
            store@ == apply_entry_indexes(old(store)@, ixs.take(i as int), expression),
        decreases n - i,
    {
        proof {
            assert(ixs.take(i as int + 1).drop_last() =~= ixs.take(i as int));
            assert(ixs.take(i as int + 1).last() == ixs[i as int]);
        }
        let ix = &indexes[i];
        if eq_str(ix.index_type.as_str(), "channel") {
            let a = store.commit(
                Record::Attribute(
                    Attribute { value: ix.value.clone(), attribute_type: AttributeType::Channel },
                ),
            );
            store.link_entries(expression, a, "channels", ix.value.as_str());
        } else if eq_str(ix.index_type.as_str(), "type") {
            let a = store.commit(
                Record::Attribute(
                    Attribute { value: ix.value.clone(), attribute_type: AttributeType::Type },
                ),
            );
            store.link_entries(expression, a, "expression_type", ix.value.as_str());
        }
        i += 1;
    }
    proof {
        assert(ixs.take(n as int) =~= ixs);
    }
    Ok(())
}

/// What one strict per-context descriptor does to the model: an attribute
/// of the matching kind is committed and linked from the context —
/// "channel" under link type "channel", "type" under "expression_type",
/// all four time granularities under the shared link type "time". "user"
/// is a no-op. Anything else fails, changing nothing.
pub open spec fn apply_one_context_index(
    m: StoreModel,
    ix: IndexDescriptorModel,
    context: Address,
) -> (StoreModel, Result<(), CoreError>) {
    if ix.index_type == "channel"@ {
        let (m1, a) = model_commit(
            m,
            RecordModel::Attribute(
                AttributeModel { value: ix.value, attribute_type: AttributeType::Channel },
            ),
        );
        (model_link(m1, context, a, "channel"@, ix.value), Ok(()))
    } else if ix.index_type == "type"@ {
        let (m1, a) = model_commit(
            m,
            RecordModel::Attribute(
                AttributeModel { value: ix.value, attribute_type: AttributeType::Type },
            ),
        );
        (model_link(m1, context, a, "expression_type"@, ix.value), Ok(()))
    } else if ix.index_type == "time:y"@ {
        let (m1, a) = model_commit(
            m,
            RecordModel::Attribute(
                AttributeModel { value: ix.value, attribute_type: AttributeType::Year },
            ),
        );
        (model_link(m1, context, a, "time"@, ix.value), Ok(()))
    } else if ix.index_type == "time:m"@ {
        let (m1, a) = model_commit(
            m,
            RecordModel::Attribute(
                AttributeModel { value: ix.value, attribute_type: AttributeType::Month },
            ),
        );
        (model_link(m1, context, a, "time"@, ix.value), Ok(()))
    } else if ix.index_type == "time:d"@ {
        let (m1, a) = model_commit(
            m,
            RecordModel::Attribute(
                AttributeModel { value: ix.value, attribute_type: AttributeType::Day },
            ),
        );
        (model_link(m1, context, a, "time"@, ix.value), Ok(()))
    } else if ix.index_type == "time:h"@ {
        let (m1, a) = model_commit(
            m,
            RecordModel::Attribute(
                AttributeModel { value: ix.value, attribute_type: AttributeType::Hour },
            ),
        );
        (model_link(m1, context, a, "time"@, ix.value), Ok(()))
    } else if ix.index_type == "user"@ {
        (m, Ok(()))
    } else {
        (m, Err(CoreError::UnrecognizedIndexType))
    }
}

/// Applies per-context descriptors left to right, stopping at the first
/// unrecognized one; what the earlier descriptors stored persists.
pub open spec fn apply_context_indexes(
    m: StoreModel,
    ixs: Seq<IndexDescriptorModel>,
    context: Address,
) -> (StoreModel, Result<(), CoreError>)
    decreases ixs.len(),
{
    if ixs.len() == 0 {
        (m, Ok(()))
    } else {
        let (m1, r1) = apply_context_indexes(m, ixs.drop_last(), context);
        if r1 is Ok {
            apply_one_context_index(m1, ixs.last(), context)
        } else {
            (m1, r1)
        }
    }
}

/// A failing descriptor decides the whole strict run: descriptors before
/// it apply, it contributes its error and no change, and nothing after it
/// runs.
pub proof fn lemma_context_indexes_fail(
    m: StoreModel,
    ixs: Seq<IndexDescriptorModel>,
    context: Address,
    i: int,
)
    requires
        0 <= i < ixs.len(),
        apply_context_indexes(m, ixs.take(i), context).1 is Ok,
        apply_one_context_index(
            apply_context_indexes(m, ixs.take(i), context).0,
            ixs[i],
            context,
        ).1 is Err,
    ensures
        apply_context_indexes(m, ixs, context) == apply_one_context_index(
            apply_context_indexes(m, ixs.take(i), context).0,
            ixs[i],
            context,
        ),
    decreases ixs.len(),
{
    if i == ixs.len() - 1 {
        assert(ixs.take(i) =~= ixs.drop_last());
    } else {
        assert(ixs.drop_last().take(i) =~= ixs.take(i));
        assert(ixs.drop_last()[i] == ixs[i]);
        lemma_context_indexes_fail(m, ixs.drop_last(), context, i);
    }
}

/// Creates the primary `context -> expression` index edge under the given
/// link type and tag, then commits and links an attribute for every
/// descriptor. Strict: an unknown descriptor type fails the whole
/// operation with a validation error, though work already done persists —
/// there is no transactional boundary.
#[verifier::loop_isolation(false)]
pub fn create_post_index(
    store: &mut Store,
    indexes: &Vec<IndexDescriptor>,
    context: Address,
    expression: Address,
    index_string: &str,
    link_type: &str,
) -> (r: Result<(), CoreError>)
    requires
        old(store).wf(),
    ensures
        final(store).wf(),
        ({
            let m1 = model_link(old(store)@, context, expression, link_type@, index_string@);
            let (m_end, res) = apply_context_indexes(m1, seq_view(indexes@), context);
            final(store)@ == m_end && r == res
        }),
{
    store.link_entries(context, expression, link_type, index_string);
    let ghost m1 = store@;
    let ghost ixs = seq_view(indexes@);
    let n = indexes.len();
    let mut i: usize = 0;
    proof {
        assert(ixs.take(0) =~= Seq::empty());
    }
    while i < n
        invariant
            i <= n,
            n == indexes.len(),
            store.wf(),
            apply_context_indexes(m1, ixs.take(i as int), context).0 == store@,
            apply_context_indexes(m1, ixs.take(i as int), context).1 is Ok,
        decreases n - i,
    {
        proof {
            assert(ixs.take(i as int + 1).drop_last() =~= ixs.take(i as int));
            assert(ixs.take(i as int + 1).last() == ixs[i as int]);
        }
        let ix = &indexes[i];
        if eq_str(ix.index_type.as_str(), "channel") {
            let a = store.commit(
                Record::Attribute(
                    Attribute { value: ix.value.clone(), attribute_type: AttributeType::Channel },
                ),
            );
            store.link_entries(context, a, "channel", ix.value.as_str());
        } else if eq_str(ix.index_type.as_str(), "type") {
            let a = store.commit(
                Record::Attribute(
                    Attribute { value: ix.value.clone(), attribute_type: AttributeType::Type },
                ),
            );
            store.link_entries(context, a, "expression_type", ix.value.as_str());
        } else if eq_str(ix.index_type.as_str(), "time:y") {
            let a = store.commit(
                Record::Attribute(
                    Attribute { value: ix.value.clone(), attribute_type: AttributeType::Year },
                ),
            );
            store.link_entries(context, a, "time", ix.value.as_str());
        } else if eq_str(ix.index_type.as_str(), "time:m") {
            let a = store.commit(
                Record::Attribute(
                    Attribute { value: ix.value.clone(), attribute_type: AttributeType::Month },
                ),
            );
            store.link_entries(context, a, "time", ix.value.as_str());
        } else if eq_str(ix.index_type.as_str(), "time:d") {
            let a = store.commit(
                Record::Attribute(
                    Attribute { value: ix.value.clone(), attribute_type: AttributeType::Day },
                ),
            );
            store.link_entries(context, a, "time", ix.value.as_str());
        } else if eq_str(ix.index_type.as_str(), "time:h") {
            let a = store.commit(
                Record::Attribute(
                    Attribute { value: ix.value.clone(), attribute_type: AttributeType::Hour },
                ),
            );
            store.link_entries(context, a, "time", ix.value.as_str());
        } else if eq_str(ix.index_type.as_str(), "user") {
            // nothing to index for a user descriptor
        } else {
            proof {
                lemma_context_indexes_fail(m1, ixs, context, i as int);
            }
            return Err(CoreError::UnrecognizedIndexType);
        }
        i += 1;
    }
    proof {
        assert(ixs.take(n as int) =~= ixs);
    }
    Ok(())
}

/// Strict versus permissive, side by side: a descriptor of unknown type
/// fails the per-context path with a validation error and no change,
/// while the per-entry path skips it and changes nothing either.
pub proof fn lemma_strict_vs_permissive(
    m: StoreModel,
    ix: IndexDescriptorModel,
    context: Address,
    expression: Address,
)
    requires
        ix.index_type != "channel"@,
        ix.index_type != "type"@,
        ix.index_type != "time:y"@,
        ix.index_type != "time:m"@,
        ix.index_type != "time:d"@,
        ix.index_type != "time:h"@,
        ix.index_type != "user"@,
    ensures
        apply_one_context_index(m, ix, context).0 == m,
        apply_one_context_index(m, ix, context).1 == Err::<(), CoreError>(
            CoreError::UnrecognizedIndexType,
        ),
        apply_one_entry_index(m, ix, expression) == m,
{
}

} // verus!
