//! Context-scoped authorization: who may write into a collection or a
//! group. A collection admits only its owner. A group admits anyone when
//! public, else its owner and its members. An address holding neither
//! shape yields no result at all — "not applicable" is distinct from
//! "denied".

use vstd::prelude::*;

use crate::records::{
    Address, Collection, CollectionModel, CoreError, Group, GroupModel, Privacy, Record,
    RecordModel,
};
use crate::store::{Store, StoreModel};
use crate::strutil::eq_str;

verus! {

/// The context shape that admitted the actor.
#[derive(Clone, Debug)]
pub enum ContextAuthResult {
    Collection(Collection),
    Group(Group),
}

pub ghost enum ContextAuthResultModel {
    Collection(CollectionModel),
    Group(GroupModel),
}

impl View for ContextAuthResult {
    type V = ContextAuthResultModel;

    open spec fn view(&self) -> ContextAuthResultModel {
        match self {
            ContextAuthResult::Collection(c) => ContextAuthResultModel::Collection(c@),
            ContextAuthResult::Group(g) => ContextAuthResultModel::Group(g@),
        }
    }
}

/// The collection stored at an address, if that is what it holds.
pub open spec fn collection_at(m: StoreModel, a: Address) -> Option<CollectionModel> {
    if a.0 < m.entries.len() {
        match m.entries[a.0 as int] {
            RecordModel::Collection(c) => Some(c),
            _ => None,
        }
    } else {
        None
    }
}

/// The group stored at an address, if that is what it holds.
pub open spec fn group_at(m: StoreModel, a: Address) -> Option<GroupModel> {
    if a.0 < m.entries.len() {
        match m.entries[a.0 as int] {
            RecordModel::Group(g) => Some(g),
            _ => None,
        }
    } else {
        None
    }
}

/// Membership is an edge from the group's address to the member's name
/// record, with link type "auth" and tag "member".
pub open spec fn model_is_group_member(m: StoreModel, context: Address, user: Address) -> bool {
    exists|i: int|
        0 <= i < m.links.len() && m.links[i].base == context && m.links[i].target == user
            && m.links[i].link_type == "auth"@ && m.links[i].tag == "member"@
}

/// Decides group membership by scanning the link graph.
#[verifier::loop_isolation(false)]
pub fn is_group_member(store: &Store, context: Address, username_address: Address) -> (r: bool)
    ensures
        r == model_is_group_member(store@, context, username_address),
{
    let n = store.links.len();
    let mut i: usize = 0;
    while i < n
        invariant
            i <= n,
            forall|j: int|
                0 <= j < i ==> !(store@.links[j].base == context && store@.links[j].target
                    == username_address && store@.links[j].link_type == "auth"@
                    && store@.links[j].tag == "member"@),
        decreases n - i,
    {
        let l = &store.links[i];
        if l.base == context && l.target == username_address && eq_str(l.link_type.as_str(), "auth")
            && eq_str(l.tag.as_str(), "member") {
            proof {
                assert(store@.links[i as int].base == context && store@.links[i as int].target
                    == username_address && store@.links[i as int].link_type == "auth"@
                    && store@.links[i as int].tag == "member"@);
            }
            return true;
        }
        i += 1;
    }
    false
}

/// The authorization rule over the model: a collection admits only its
/// owner; a group admits every actor when public, else its owner and its
/// members; an address holding neither shape yields no result.
pub open spec fn model_context_auth(m: StoreModel, context: Address, user: Address) -> Result<
    Option<ContextAuthResultModel>,
    CoreError,
> {
    match collection_at(m, context) {
        Some(c) => if c.owner == user {
            Ok(Some(ContextAuthResultModel::Collection(c)))
        } else {
            Err(CoreError::NotCollectionOwner)
        },
        None => match group_at(m, context) {
            Some(g) => if g.privacy == Privacy::Public || g.owner == user
                || model_is_group_member(m, context, user) {
                Ok(Some(ContextAuthResultModel::Group(g)))
            } else {
                Err(CoreError::NotGroupMember)
            },
            None => Ok(None),
        },
    }
}

/// Checks whether the actor behind `username_address` may write into the
/// context: the collection/group rule above, with "neither shape" as
/// `Ok(None)` rather than an error.
pub fn run_context_auth(store: &Store, context: Address, username_address: Address) -> (r: Result<
    Option<ContextAuthResult>,
    CoreError,
>)
    ensures
        match (r, model_context_auth(store@, context, username_address)) {
            (Ok(Some(v)), Ok(Some(mv))) => v@ == mv,
            (Ok(None), Ok(None)) => true,
            (Err(e), Err(me)) => e == me,
            _ => false,
        },
{
    match store.get(context) {
        Some(rec) => match rec {
            Record::Collection(c) => {
                if c.owner == username_address {
                    Ok(Some(ContextAuthResult::Collection(c.duplicate())))
                } else {
                    Err(CoreError::NotCollectionOwner)
                }
            },
            Record::Group(g) => {
                let public = g.privacy == Privacy::Public;
                if !public && g.owner != username_address && !is_group_member(
                    store,
                    context,
                    username_address,
                ) {
                    Err(CoreError::NotGroupMember)
                } else {
                    Ok(Some(ContextAuthResult::Group(g.duplicate())))
                }
            },
            _ => Ok(None),
        },
        None => Ok(None),
    }
}

/// The authorization matrix, spelled out: a public group admits every
/// actor; a non-public group admits exactly its owner and its members; a
/// collection admits exactly its owner; an address with neither shape
/// yields no result for every actor.
pub proof fn lemma_authorization_matrix(m: StoreModel, context: Address, actor: Address)
    ensures
        (match collection_at(m, context) {
            Some(c) => {
                &&& (c.owner == actor ==> model_context_auth(m, context, actor) == Ok::<
                    _,
                    CoreError,
                >(Some(ContextAuthResultModel::Collection(c))))
                &&& (c.owner != actor ==> model_context_auth(m, context, actor) == Err::<
                    Option<ContextAuthResultModel>,
                    _,
                >(CoreError::NotCollectionOwner))
            },
            None => true,
        }),
        (match group_at(m, context) {
            Some(g) => {
                &&& (g.privacy == Privacy::Public ==> model_context_auth(m, context, actor)
                    == Ok::<_, CoreError>(Some(ContextAuthResultModel::Group(g))))
                &&& (g.privacy != Privacy::Public && (g.owner == actor || model_is_group_member(
                    m,
                    context,
                    actor,
                )) ==> model_context_auth(m, context, actor) == Ok::<_, CoreError>(
                    Some(ContextAuthResultModel::Group(g)),
                ))
                &&& (g.privacy != Privacy::Public && g.owner != actor && !model_is_group_member(
                    m,
                    context,
                    actor,
                ) ==> model_context_auth(m, context, actor) == Err::<
                    Option<ContextAuthResultModel>,
                    _,
                >(CoreError::NotGroupMember))
            },
            None => true,
        }),
        collection_at(m, context) is None && group_at(m, context) is None
            ==> model_context_auth(m, context, actor) == Ok::<_, CoreError>(
            None::<ContextAuthResultModel>,
        ),
{
}

} // verus!
