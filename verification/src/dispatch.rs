//! The hook dispatcher: an ordered sequence of named, parameterized
//! operation requests is routed to a fixed, closed registry of handlers.
//! Each request's parameter variant must match its operation name; the
//! first mismatch or handler failure aborts the whole sequence, returning
//! no partial results — though store work already done persists, as there
//! is no transactional boundary. The registry is a closed enum, matched
//! exhaustively: an unhandled operation cannot compile.

use vstd::prelude::*;
use vstd::string::StringExecFns;

use crate::indexing::{
    IndexDescriptor, IndexDescriptorModel, apply_context_indexes, create_post_index,
};
use crate::links::{LinkDirection, link_expression, model_link_expression};
use crate::records::{
    Address, CollectionModel, CoreError, Group, GroupModel, HookName, Privacy, Record, RecordModel,
    Collection, seq_view,
};
use crate::store::{Store, StoreModel, model_commit, model_link};
use crate::time::{model_time_to_expression, time_to_expression};

verus! {

/// The parameter payload of one operation request; the active variant
/// must match the request's operation name.
#[derive(Clone, Debug)]
pub enum FunctionParameters {
    TimeToExpression {
        link_type: String,
        tag: String,
        direction: LinkDirection,
        expression_address: Address,
    },
    CreatePack { username_address: Address, first_name: String },
    CreateDen { username_address: Address, first_name: String },
    LinkExpression {
        link_type: String,
        tag: String,
        direction: LinkDirection,
        parent_expression: Address,
        child_expression: Address,
    },
    CreatePostIndex {
        indexes: Vec<IndexDescriptor>,
        context: Address,
        expression: Address,
        index_string: String,
        link_type: String,
    },
}

pub ghost enum FunctionParametersModel {
    TimeToExpression {
        link_type: Seq<char>,
        tag: Seq<char>,
        direction: LinkDirection,
        expression_address: Address,
    },
    CreatePack { username_address: Address, first_name: Seq<char> },
    CreateDen { username_address: Address, first_name: Seq<char> },
    LinkExpression {
        link_type: Seq<char>,
        tag: Seq<char>,
        direction: LinkDirection,
        parent_expression: Address,
        child_expression: Address,
    },
    CreatePostIndex {
        indexes: Seq<IndexDescriptorModel>,
        context: Address,
        expression: Address,
        index_string: Seq<char>,
        link_type: Seq<char>,
    },
}

impl View for FunctionParameters {
    type V = FunctionParametersModel;

    open spec fn view(&self) -> FunctionParametersModel {
        match self {
            FunctionParameters::TimeToExpression { link_type, tag, direction, expression_address } => {
                FunctionParametersModel::TimeToExpression {
                    link_type: link_type@,
                    tag: tag@,
                    direction: *direction,
                    expression_address: *expression_address,
                }
            },
            FunctionParameters::CreatePack { username_address, first_name } => {
                FunctionParametersModel::CreatePack {
                    username_address: *username_address,
                    first_name: first_name@,
                }
            },
            FunctionParameters::CreateDen { username_address, first_name } => {
                FunctionParametersModel::CreateDen {
                    username_address: *username_address,
                    first_name: first_name@,
                }
            },
            FunctionParameters::LinkExpression {
                link_type,
                tag,
                direction,
                parent_expression,
                child_expression,
            } => {
                FunctionParametersModel::LinkExpression {
                    link_type: link_type@,
                    tag: tag@,
                    direction: *direction,
                    parent_expression: *parent_expression,
                    child_expression: *child_expression,
                }
            },
            FunctionParameters::CreatePostIndex {
                indexes,
                context,
                expression,
                index_string,
                link_type,
            } => {
                FunctionParametersModel::CreatePostIndex {
                    indexes: seq_view(indexes@),
                    context: *context,
                    expression: *expression,
                    index_string: index_string@,
                    link_type: link_type@,
                }
            },
        }
    }
}

/// One operation request: a name out of the closed registry and its
/// parameter payload.
#[derive(Clone, Debug)]
pub struct FunctionDescriptor {
    pub name: HookName,
    pub parameters: FunctionParameters,
}

pub ghost struct FunctionDescriptorModel {
    pub name: HookName,
    pub parameters: FunctionParametersModel,
}

impl View for FunctionDescriptor {
    type V = FunctionDescriptorModel;

    open spec fn view(&self) -> FunctionDescriptorModel {
        FunctionDescriptorModel { name: self.name, parameters: self.parameters@ }
    }
}

/// One dispatched result, tagged with the operation that produced it.
#[derive(Clone, Debug)]
pub enum HooksResultTypes {
    TimeToExpression(Vec<Address>),
    CreatePack(Address),
    CreateDen(Vec<Address>),
    LinkExpression,
    CreatePostIndex,
}

pub ghost enum HooksResultModel {
    TimeToExpression(Seq<Address>),
    CreatePack(Address),
    CreateDen(Seq<Address>),
    LinkExpression,
    CreatePostIndex,
}

impl View for HooksResultTypes {
    type V = HooksResultModel;

    open spec fn view(&self) -> HooksResultModel {
        match self {
            HooksResultTypes::TimeToExpression(v) => HooksResultModel::TimeToExpression(v@),
            HooksResultTypes::CreatePack(a) => HooksResultModel::CreatePack(*a),
            HooksResultTypes::CreateDen(v) => HooksResultModel::CreateDen(v@),
            HooksResultTypes::LinkExpression => HooksResultModel::LinkExpression,
            HooksResultTypes::CreatePostIndex => HooksResultModel::CreatePostIndex,
        }
    }
}

/// What pack creation does to the model: one group record named after
/// the user, owned by them, with the shared privacy tier.
pub open spec fn model_create_pack(
    m: StoreModel,
    username_address: Address,
    first_name: Seq<char>,
) -> (StoreModel, Address) {
    model_commit(
        m,
        RecordModel::Group(
            GroupModel {
                name: first_name + "'s Pack"@,
                owner: username_address,
                privacy: Privacy::Shared,
            },
        ),
    )
}

/// Creates the user's pack: a group they own. A collaborator of the
/// dispatcher, modelled directly on the store.
pub fn create_pack(store: &mut Store, username_address: Address, first_name: &str) -> (a: Address)
    requires
        old(store).wf(),
    ensures
        final(store).wf(),
        final(store)@ == model_create_pack(old(store)@, username_address, first_name@).0,
        a == model_create_pack(old(store)@, username_address, first_name@).1,
{
    let name = first_name.to_owned().concat("'s Pack");
    store.commit(Record::Group(Group { name, owner: username_address, privacy: Privacy::Shared }))
}

/// What den creation does to the model: two collections named after the
/// user, both owned by them, private first.
pub open spec fn model_create_den(
    m: StoreModel,
    username_address: Address,
    first_name: Seq<char>,
) -> (StoreModel, Seq<Address>) {
    let (m1, a1) = model_commit(
        m,
        RecordModel::Collection(
            CollectionModel { name: first_name + "'s Private Den"@, owner: username_address },
        ),
    );
    let (m2, a2) = model_commit(
        m1,
        RecordModel::Collection(
            CollectionModel { name: first_name + "'s Shared Den"@, owner: username_address },
        ),
    );
    (m2, seq![a1, a2])
}

/// Creates the user's dens: two collections they own, private first.
/// A collaborator of the dispatcher, modelled directly on the store.
pub fn create_den(store: &mut Store, username_address: Address, first_name: &str) -> (out: Vec<
    Address,
>)
    requires
        old(store).wf(),
    ensures
        final(store).wf(),
        final(store)@ == model_create_den(old(store)@, username_address, first_name@).0,
        out@ == model_create_den(old(store)@, username_address, first_name@).1,
{
    let a1 = store.commit(
        Record::Collection(
            Collection {
                name: first_name.to_owned().concat("'s Private Den"),
                owner: username_address,
            },
        ),
    );
    let a2 = store.commit(
        Record::Collection(
            Collection {
                name: first_name.to_owned().concat("'s Shared Den"),
                owner: username_address,
            },
        ),
    );
    let mut out: Vec<Address> = Vec::new();
    out.push(a1);
    out.push(a2);
    proof {
        assert(out@ =~= seq![a1, a2]);
    }
    out
}

/// What dispatching one request does to the model: a parameter payload of
/// the wrong variant fails with a validation error naming the operation
/// and changes nothing; otherwise the named handler runs.
pub open spec fn hook_step(m: StoreModel, d: FunctionDescriptorModel) -> (
    StoreModel,
    Result<HooksResultModel, CoreError>,
) {
    match d.name {
        HookName::TimeToExpression => match d.parameters {
            FunctionParametersModel::TimeToExpression {
                link_type,
                tag,
                direction,
                expression_address,
            } => {
                let (m2, r) = model_time_to_expression(
                    m,
                    link_type,
                    tag,
                    direction,
                    expression_address,
                );
                match r {
                    Ok(addrs) => (m2, Ok(HooksResultModel::TimeToExpression(addrs))),
                    Err(e) => (m2, Err(e)),
                }
            },
            _ => (m, Err(CoreError::WrongParameterVariant(HookName::TimeToExpression))),
        },
        HookName::CreatePack => match d.parameters {
            FunctionParametersModel::CreatePack { username_address, first_name } => {
                let (m2, a) = model_create_pack(m, username_address, first_name);
                (m2, Ok(HooksResultModel::CreatePack(a)))
            },
            _ => (m, Err(CoreError::WrongParameterVariant(HookName::CreatePack))),
        },
        HookName::CreateDen => match d.parameters {
            FunctionParametersModel::CreateDen { username_address, first_name } => {
                let (m2, addrs) = model_create_den(m, username_address, first_name);
                (m2, Ok(HooksResultModel::CreateDen(addrs)))
            },
            _ => (m, Err(CoreError::WrongParameterVariant(HookName::CreateDen))),
        },
        HookName::LinkExpression => match d.parameters {
            FunctionParametersModel::LinkExpression {
                link_type,
                tag,
                direction,
                parent_expression,
                child_expression,
            } => {
                (
                    model_link_expression(
                        m,
                        link_type,
                        tag,
                        direction,
                        parent_expression,
                        child_expression,
                    ),
                    Ok(HooksResultModel::LinkExpression),
                )
            },
            _ => (m, Err(CoreError::WrongParameterVariant(HookName::LinkExpression))),
        },
        HookName::CreatePostIndex => match d.parameters {
            FunctionParametersModel::CreatePostIndex {
                indexes,
                context,
                expression,
                index_string,
                link_type,
            } => {
                let m1 = model_link(m, context, expression, link_type, index_string);
                let (m2, r) = apply_context_indexes(m1, indexes, context);
                match r {
                    Ok(_) => (m2, Ok(HooksResultModel::CreatePostIndex)),
                    Err(e) => (m2, Err(e)),
                }
            },
            _ => (m, Err(CoreError::WrongParameterVariant(HookName::CreatePostIndex))),
        },
    }
}

/// What dispatching a sequence does to the model: requests run left to
/// right; the first failure carries its store state and error through,
/// and no later request runs.
pub open spec fn run_hooks(m: StoreModel, hooks: Seq<FunctionDescriptorModel>) -> (
    StoreModel,
    Result<Seq<HooksResultModel>, CoreError>,
)
    decreases hooks.len(),
{
    if hooks.len() == 0 {
        (m, Ok(Seq::empty()))
    } else {
        let (m1, r1) = run_hooks(m, hooks.drop_last());
        match r1 {
            Ok(rs) => {
                let (m2, r2) = hook_step(m1, hooks.last());
                match r2 {
                    Ok(one) => (m2, Ok(rs.push(one))),
                    Err(e) => (m2, Err(e)),
                }
            },
            Err(e) => (m1, Err(e)),
        }
    }
}

/// Dispatch stops at its first failure: when the requests before position
/// `i` succeed and request `i` fails with `e`, the whole sequence yields
/// exactly `e`, the store state request `i` left behind, and no results —
/// the requests after `i` never run.
pub proof fn lemma_run_hooks_fail(
    m: StoreModel,
    hooks: Seq<FunctionDescriptorModel>,
    i: int,
    e: CoreError,
)
    requires
        0 <= i < hooks.len(),
        run_hooks(m, hooks.take(i)).1 is Ok,
        hook_step(run_hooks(m, hooks.take(i)).0, hooks[i]).1 == Err::<HooksResultModel, CoreError>(
            e,
        ),
    ensures
        run_hooks(m, hooks).0 == hook_step(run_hooks(m, hooks.take(i)).0, hooks[i]).0,
        run_hooks(m, hooks).1 == Err::<Seq<HooksResultModel>, CoreError>(e),
    decreases hooks.len(),
{
    if i == hooks.len() - 1 {
        assert(hooks.take(i) =~= hooks.drop_last());
    } else {
        assert(hooks.drop_last().take(i) =~= hooks.take(i));
        assert(hooks.drop_last()[i] == hooks[i]);
        lemma_run_hooks_fail(m, hooks.drop_last(), i, e);
    }
}

/// Routes an ordered sequence of operation requests to the fixed handler
/// registry, collecting one tagged result per request in request order.
/// The first parameter mismatch or handler failure aborts the sequence:
/// the error is returned, no partial results are, and requests after the
/// failing one never run.
#[verifier::loop_isolation(false)]
pub fn handle_hooks(store: &mut Store, hooks: Vec<FunctionDescriptor>) -> (r: Result<
    Vec<HooksResultTypes>,
    CoreError,
>)
    requires
        old(store).wf(),
    ensures
        final(store).wf(),
        ({
            let (m_end, res) = run_hooks(old(store)@, seq_view(hooks@));
            final(store)@ == m_end && match (r, res) {
                (Ok(v), Ok(rs)) => seq_view(v@) == rs,
                (Err(e), Err(me)) => e == me,
                _ => false,
            }
        }),
{
    let ghost hs = seq_view(hooks@);
    let mut out: Vec<HooksResultTypes> = Vec::new();
    let n = hooks.len();
    let mut i: usize = 0;
    proof {
        assert(hs.take(0) =~= Seq::empty());
        assert(seq_view(out@) =~= Seq::<HooksResultModel>::empty());
    }
    while i < n
        invariant
            i <= n,
            n == hooks.len(),
            store.wf(),
            run_hooks(old(store)@, hs.take(i as int)).0 == store@,
            run_hooks(old(store)@, hs.take(i as int)).1 == Ok::<Seq<HooksResultModel>, CoreError>(
                seq_view(out@),
            ),
        decreases n - i,
    {
        proof {
            assert(hs.take(i as int + 1).drop_last() =~= hs.take(i as int));
            assert(hs.take(i as int + 1).last() == hs[i as int]);
        }
        let hook = &hooks[i];
        match hook.name {
            HookName::TimeToExpression => {
                match &hook.parameters {
                    FunctionParameters::TimeToExpression {
                        link_type,
                        tag,
                        direction,
                        expression_address,
                    } => {
                        match time_to_expression(
                            store,
                            link_type.as_str(),
                            tag.as_str(),
                            *direction,
                            *expression_address,
                        ) {
                            Ok(addresses) => {
                                let one = HooksResultTypes::TimeToExpression(addresses);
                                proof {
                                    assert(seq_view(out@.push(one)) =~= seq_view(out@).push(one@));
                                }
                                out.push(one);
                            },
                            Err(e) => {
                                proof {
                                    lemma_run_hooks_fail(old(store)@, hs, i as int, e);
                                }
                                return Err(e);
                            },
                        }
                    },
                    _ => {
                        proof {
                            lemma_run_hooks_fail(
                                old(store)@,
                                hs,
                                i as int,
                                CoreError::WrongParameterVariant(HookName::TimeToExpression),
                            );
                        }
                        return Err(CoreError::WrongParameterVariant(HookName::TimeToExpression));
                    },
                }
            },
            HookName::CreatePack => {
                match &hook.parameters {
                    FunctionParameters::CreatePack { username_address, first_name } => {
                        let pack = create_pack(store, *username_address, first_name.as_str());
                        let one = HooksResultTypes::CreatePack(pack);
                        proof {
                            assert(seq_view(out@.push(one)) =~= seq_view(out@).push(one@));
                        }
                        out.push(one);
                    },
                    _ => {
                        proof {
                            lemma_run_hooks_fail(
                                old(store)@,
                                hs,
                                i as int,
                                CoreError::WrongParameterVariant(HookName::CreatePack),
                            );
                        }
                        return Err(CoreError::WrongParameterVariant(HookName::CreatePack));
                    },
                }
            },
            HookName::CreateDen => {
                match &hook.parameters {
                    FunctionParameters::CreateDen { username_address, first_name } => {
                        let dens = create_den(store, *username_address, first_name.as_str());
                        let one = HooksResultTypes::CreateDen(dens);
                        proof {
                            assert(seq_view(out@.push(one)) =~= seq_view(out@).push(one@));
                        }
                        out.push(one);
                    },
                    _ => {
                        proof {
                            lemma_run_hooks_fail(
                                old(store)@,
                                hs,
                                i as int,
                                CoreError::WrongParameterVariant(HookName::CreateDen),
                            );
                        }
                        return Err(CoreError::WrongParameterVariant(HookName::CreateDen));
                    },
                }
            },
            HookName::LinkExpression => {
                match &hook.parameters {
                    FunctionParameters::LinkExpression {
                        link_type,
                        tag,
                        direction,
                        parent_expression,
                        child_expression,
                    } => {
                        link_expression(
                            store,
                            link_type.as_str(),
                            tag.as_str(),
                            *direction,
                            *parent_expression,
                            *child_expression,
                        );
                        let one = HooksResultTypes::LinkExpression;
                        proof {
                            assert(seq_view(out@.push(one)) =~= seq_view(out@).push(one@));
                        }
                        out.push(one);
                    },
                    _ => {
                        proof {
                            lemma_run_hooks_fail(
                                old(store)@,
                                hs,
                                i as int,
                                CoreError::WrongParameterVariant(HookName::LinkExpression),
                            );
                        }
                        return Err(CoreError::WrongParameterVariant(HookName::LinkExpression));
                    },
                }
            },
            HookName::CreatePostIndex => {
                match &hook.parameters {
                    FunctionParameters::CreatePostIndex {
                        indexes,
                        context,
                        expression,
                        index_string,
                        link_type,
                    } => {
                        match create_post_index(
                            store,
                            indexes,
                            *context,
                            *expression,
                            index_string.as_str(),
                            link_type.as_str(),
                        ) {
                            Ok(_) => {
                                let one = HooksResultTypes::CreatePostIndex;
                                proof {
                                    assert(seq_view(out@.push(one)) =~= seq_view(out@).push(one@));
                                }
                                out.push(one);
                            },
                            Err(e) => {
                                proof {
                                    lemma_run_hooks_fail(old(store)@, hs, i as int, e);
                                }
                                return Err(e);
                            },
                        }
                    },
                    _ => {
                        proof {
                            lemma_run_hooks_fail(
                                old(store)@,
                                hs,
                                i as int,
                                CoreError::WrongParameterVariant(HookName::CreatePostIndex),
                            );
                        }
                        return Err(CoreError::WrongParameterVariant(HookName::CreatePostIndex));
                    },
                }
            },
        }
        i += 1;
    }
    proof {
        assert(hs.take(n as int) =~= hs);
    }
    Ok(out)
}

} // verus!
