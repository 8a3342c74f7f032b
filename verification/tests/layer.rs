use junto_core::aggregate::get_expression_attributes;
use junto_core::auth::{run_context_auth, ContextAuthResult};
use junto_core::dispatch::{
    create_den, create_pack, handle_hooks, FunctionDescriptor, FunctionParameters,
    HooksResultTypes,
};
use junto_core::indexing::{create_post_attributes, create_post_index, IndexDescriptor};
use junto_core::links::{
    get_and_check_perspective, get_links_and_load, get_links_and_load_type, link_expression,
    LinkDirection,
};
use junto_core::records::{
    Address, Attribute, AttributeType, Collection, CoreError, EntryAndAddress, ExpressionPost,
    Group, HookName, Perspective, Privacy, Record, User, UserName,
};
use junto_core::store::{LinkMatch, Store};
use junto_core::time::{get_entries_timestamp, has_unique_elements, sort_time_vector};

fn channel_attr(value: &str) -> Record {
    Record::Attribute(Attribute {
        value: value.to_string(),
        attribute_type: AttributeType::Channel,
    })
}

fn post(content: &str) -> Record {
    Record::ExpressionPost(ExpressionPost { content: content.to_string() })
}

fn username(name: &str) -> Record {
    Record::UserName(UserName { username: name.to_string() })
}

#[test]
fn committing_identical_content_yields_one_address() {
    let mut store = Store::new("2024-01-01T00:00:00");
    let a1 = store.commit(channel_attr("music"));
    let a2 = store.commit(channel_attr("music"));
    assert_eq!(a1, a2);
    assert_eq!(store.entries.len(), 1);
    assert_eq!(store.revisions[a1.0].len(), 2);
}

#[test]
fn committing_different_content_yields_fresh_addresses() {
    let mut store = Store::new("2024-01-01T00:00:00");
    let a1 = store.commit(channel_attr("music"));
    let a2 = store.commit(channel_attr("art"));
    let a3 = store.commit(Record::Attribute(Attribute {
        value: "music".to_string(),
        attribute_type: AttributeType::Type,
    }));
    assert_ne!(a1, a2);
    assert_ne!(a1, a3);
    assert_eq!(store.entries.len(), 3);
}

#[test]
fn sort_time_vector_fills_canonical_slots() {
    let times = vec!["time:d>2024-01-01".to_string(), "time:y>2024".to_string()];
    let out = sort_time_vector(&times);
    assert_eq!(
        out,
        vec![
            "time:y>2024".to_string(),
            "*".to_string(),
            "time:d>2024-01-01".to_string(),
            "*".to_string(),
        ]
    );
}

#[test]
fn sort_time_vector_of_nothing_is_all_wildcards() {
    let out = sort_time_vector(&Vec::new());
    assert_eq!(out, vec!["*", "*", "*", "*"]);
}

#[test]
fn sort_time_vector_reorders_a_full_set() {
    let times = vec![
        "time:h>07".to_string(),
        "time:d>05".to_string(),
        "time:m>03".to_string(),
        "time:y>2024".to_string(),
    ];
    let out = sort_time_vector(&times);
    assert_eq!(out, vec!["time:y>2024", "time:m>03", "time:d>05", "time:h>07"]);
}

#[test]
fn entry_indexing_is_permissive_about_unknown_types() {
    let mut store = Store::new("2024-01-01T00:00:00");
    let entry = store.commit(post("hello"));
    let indexes = vec![
        IndexDescriptor { index_type: "bogus".to_string(), value: "x".to_string() },
        IndexDescriptor { index_type: "channel".to_string(), value: "music".to_string() },
    ];
    let r = create_post_attributes(&mut store, &indexes, entry);
    assert!(r.is_ok());
    // the bogus descriptor was skipped, the channel one indexed
    assert_eq!(store.links.len(), 1);
    assert_eq!(store.links[0].base, entry);
    assert_eq!(store.links[0].link_type, "channels");
    assert_eq!(store.links[0].tag, "music");
}

#[test]
fn context_indexing_is_strict_about_unknown_types() {
    let mut store = Store::new("2024-01-01T00:00:00");
    let entry = store.commit(post("hello"));
    let context = store.commit(Record::Collection(Collection {
        name: "den".to_string(),
        owner: Address(7),
    }));
    let indexes = vec![IndexDescriptor { index_type: "bogus".to_string(), value: "x".to_string() }];
    let r = create_post_index(&mut store, &indexes, context, entry, "2024<timestamp>", "time");
    assert_eq!(r, Err(CoreError::UnrecognizedIndexType));
    // the primary context -> entry edge was already created and persists
    assert_eq!(store.links.len(), 1);
    assert_eq!(store.links[0].base, context);
    assert_eq!(store.links[0].target, entry);
}

#[test]
fn context_indexing_links_each_known_descriptor_from_the_context() {
    let mut store = Store::new("2024-01-01T00:00:00");
    let entry = store.commit(post("hello"));
    let context = store.commit(Record::Collection(Collection {
        name: "den".to_string(),
        owner: Address(7),
    }));
    let indexes = vec![
        IndexDescriptor { index_type: "channel".to_string(), value: "music".to_string() },
        IndexDescriptor { index_type: "type".to_string(), value: "note".to_string() },
        IndexDescriptor { index_type: "time:y".to_string(), value: "2024".to_string() },
        IndexDescriptor { index_type: "user".to_string(), value: "ignored".to_string() },
    ];
    let r = create_post_index(&mut store, &indexes, context, entry, "idx", "post");
    assert!(r.is_ok());
    // primary edge + one edge per descriptor but the "user" no-op
    assert_eq!(store.links.len(), 4);
    assert_eq!(store.links[0].link_type, "post");
    assert_eq!(store.links[0].tag, "idx");
    assert_eq!(store.links[1].link_type, "channel");
    assert_eq!(store.links[2].link_type, "expression_type");
    assert_eq!(store.links[3].link_type, "time");
    for l in &store.links[1..] {
        assert_eq!(l.base, context);
    }
}

#[test]
fn linking_both_directions_creates_exactly_two_edges() {
    let mut store = Store::new("2024-01-01T00:00:00");
    let a = Address(1);
    let b = Address(2);
    link_expression(&mut store, "sub_expression", "t", LinkDirection::Both, a, b);
    assert_eq!(store.links.len(), 2);
    assert_eq!(store.links[0].base, b);
    assert_eq!(store.links[0].target, a);
    assert_eq!(store.links[1].base, a);
    assert_eq!(store.links[1].target, b);
    assert_eq!(store.links[0].link_type, store.links[1].link_type);
    assert_eq!(store.links[0].tag, store.links[1].tag);
}

#[test]
fn linking_forward_creates_only_the_forward_edge() {
    let mut store = Store::new("2024-01-01T00:00:00");
    let a = Address(1);
    let b = Address(2);
    link_expression(&mut store, "sub_expression", "t", LinkDirection::Forward, a, b);
    assert_eq!(store.links.len(), 1);
    assert_eq!(store.links[0].base, a);
    assert_eq!(store.links[0].target, b);
}

#[test]
fn linking_reverse_creates_only_the_reverse_edge() {
    let mut store = Store::new("2024-01-01T00:00:00");
    let a = Address(1);
    let b = Address(2);
    link_expression(&mut store, "comment", "t", LinkDirection::Reverse, a, b);
    assert_eq!(store.links.len(), 1);
    assert_eq!(store.links[0].base, b);
    assert_eq!(store.links[0].target, a);
}

#[test]
fn public_groups_admit_everyone() {
    let mut store = Store::new("2024-01-01T00:00:00");
    let owner = store.commit(username("alice"));
    let member = store.commit(username("bob"));
    let stranger = store.commit(username("mallory"));
    let group = store.commit(Record::Group(Group {
        name: "open".to_string(),
        owner,
        privacy: Privacy::Public,
    }));
    store.link_entries(group, member, "auth", "member");
    for actor in [owner, member, stranger] {
        let r = run_context_auth(&store, group, actor);
        assert!(matches!(r, Ok(Some(ContextAuthResult::Group(_)))));
    }
}

#[test]
fn non_public_groups_admit_only_owner_and_members() {
    let mut store = Store::new("2024-01-01T00:00:00");
    let owner = store.commit(username("alice"));
    let member = store.commit(username("bob"));
    let stranger = store.commit(username("mallory"));
    let group = store.commit(Record::Group(Group {
        name: "closed".to_string(),
        owner,
        privacy: Privacy::Private,
    }));
    store.link_entries(group, member, "auth", "member");
    assert!(matches!(run_context_auth(&store, group, owner), Ok(Some(ContextAuthResult::Group(_)))));
    assert!(matches!(
        run_context_auth(&store, group, member),
        Ok(Some(ContextAuthResult::Group(_)))
    ));
    assert_eq!(run_context_auth(&store, group, stranger).err(), Some(CoreError::NotGroupMember));
}

#[test]
fn collections_admit_only_their_owner() {
    let mut store = Store::new("2024-01-01T00:00:00");
    let owner = store.commit(username("alice"));
    let other = store.commit(username("bob"));
    let den = store.commit(Record::Collection(Collection { name: "den".to_string(), owner }));
    // membership elsewhere buys nothing on a collection
    store.link_entries(den, other, "auth", "member");
    assert!(matches!(
        run_context_auth(&store, den, owner),
        Ok(Some(ContextAuthResult::Collection(_)))
    ));
    assert_eq!(run_context_auth(&store, den, other).err(), Some(CoreError::NotCollectionOwner));
}

#[test]
fn unrecognized_contexts_yield_no_result_not_an_error() {
    let mut store = Store::new("2024-01-01T00:00:00");
    let actor = store.commit(username("alice"));
    let attr = store.commit(channel_attr("music"));
    assert!(matches!(run_context_auth(&store, attr, actor), Ok(None)));
    assert!(matches!(run_context_auth(&store, Address(999), actor), Ok(None)));
}

#[test]
fn timestamps_are_cut_at_fixed_offsets() {
    let mut store = Store::new("2024-03-05T07:30:00");
    let entry = store.commit(post("hello"));
    let tb = get_entries_timestamp(&store, entry).unwrap();
    assert_eq!(tb.year, "2024");
    assert_eq!(tb.month, "03");
    assert_eq!(tb.day, "05");
    assert_eq!(tb.hour, "07");
}

#[test]
fn timestamp_derivation_rejects_multiple_revisions() {
    let mut store = Store::new("2024-03-05T07:30:00");
    let entry = store.commit(post("hello"));
    store.set_now("2025-01-01T00:00:00");
    store.commit(post("hello"));
    assert_eq!(get_entries_timestamp(&store, entry).err(), Some(CoreError::NotSingleRevision));
}

#[test]
fn timestamp_derivation_rejects_short_timestamps_and_dangling_addresses() {
    let mut store = Store::new("2024");
    let entry = store.commit(post("hello"));
    assert_eq!(get_entries_timestamp(&store, entry).err(), Some(CoreError::MalformedTimestamp));
    assert_eq!(get_entries_timestamp(&store, Address(42)).err(), Some(CoreError::EntryNotFound));
}

#[test]
fn has_unique_elements_decides_duplication() {
    assert!(has_unique_elements(&vec![]));
    assert!(has_unique_elements(&vec![Address(1), Address(2), Address(3)]));
    assert!(!has_unique_elements(&vec![Address(1), Address(2), Address(1)]));
}

#[test]
fn perspectives_are_shape_checked_on_load() {
    let mut store = Store::new("2024-01-01T00:00:00");
    let p = store.commit(Record::Perspective(Perspective { name: "follows".to_string() }));
    let g = store.commit(Record::Group(Group {
        name: "g".to_string(),
        owner: Address(0),
        privacy: Privacy::Public,
    }));
    assert_eq!(get_and_check_perspective(&store, p).unwrap().name, "follows");
    assert_eq!(get_and_check_perspective(&store, g).err(), Some(CoreError::NotAPerspective));
    assert_eq!(get_and_check_perspective(&store, Address(9)).err(), Some(CoreError::EntryNotFound));
}

#[test]
fn traversal_drops_dangling_targets_silently() {
    let mut store = Store::new("2024-01-01T00:00:00");
    let base = store.commit(post("base"));
    let good = store.commit(username("alice"));
    store.link_entries(base, Address(999), "x", "dangling");
    store.link_entries(base, good, "x", "good");
    let out = get_links_and_load(&store, base, &LinkMatch::Exactly("x".to_string()), &LinkMatch::Any);
    assert_eq!(out.len(), 1);
    assert_eq!(out[0].address, good);
}

#[test]
fn typed_traversal_drops_records_of_the_wrong_shape() {
    let mut store = Store::new("2024-01-01T00:00:00");
    let base = store.commit(post("base"));
    let name = store.commit(username("alice"));
    let attr = store.commit(channel_attr("music"));
    store.link_entries(base, attr, "x", "a");
    store.link_entries(base, name, "x", "b");
    let out: Vec<EntryAndAddress<UserName>> =
        get_links_and_load_type(&store, base, &LinkMatch::Exactly("x".to_string()), &LinkMatch::Any);
    assert_eq!(out.len(), 1);
    assert_eq!(out[0].address, name);
    assert_eq!(out[0].entry.username, "alice");
}

#[test]
fn traversal_filters_by_type_and_tag_in_insertion_order() {
    let mut store = Store::new("2024-01-01T00:00:00");
    let base = store.commit(post("base"));
    let u1 = store.commit(username("alice"));
    let u2 = store.commit(username("bob"));
    store.link_entries(base, u1, "friend", "close");
    store.link_entries(base, u2, "friend", "far");
    store.link_entries(base, u2, "enemy", "close");
    let both = store.query_links(base, &LinkMatch::Exactly("friend".to_string()), &LinkMatch::Any);
    assert_eq!(both, vec![u1, u2]);
    let close = store.query_links(
        base,
        &LinkMatch::Exactly("friend".to_string()),
        &LinkMatch::Exactly("close".to_string()),
    );
    assert_eq!(close, vec![u1]);
    let all = store.query_links(base, &LinkMatch::Any, &LinkMatch::Any);
    assert_eq!(all.len(), 3);
}

#[test]
fn pack_and_den_creation_name_their_contexts_after_the_user() {
    let mut store = Store::new("2024-01-01T00:00:00");
    let user = store.commit(username("alice"));
    let pack = create_pack(&mut store, user, "Alice");
    match &store.entries[pack.0] {
        Record::Group(g) => {
            assert_eq!(g.name, "Alice's Pack");
            assert_eq!(g.owner, user);
            assert_eq!(g.privacy, Privacy::Shared);
        },
        other => panic!("pack is not a group: {:?}", other),
    }
    let dens = create_den(&mut store, user, "Alice");
    assert_eq!(dens.len(), 2);
    match &store.entries[dens[0].0] {
        Record::Collection(c) => {
            assert_eq!(c.name, "Alice's Private Den");
            assert_eq!(c.owner, user);
        },
        other => panic!("den is not a collection: {:?}", other),
    }
    match &store.entries[dens[1].0] {
        Record::Collection(c) => assert_eq!(c.name, "Alice's Shared Den"),
        other => panic!("den is not a collection: {:?}", other),
    }
}

#[test]
fn dispatch_routes_each_request_to_its_handler_in_order() {
    let mut store = Store::new("2024-03-05T07:30:00");
    let user = store.commit(username("alice"));
    let entry = store.commit(post("hello"));
    let hooks = vec![
        FunctionDescriptor {
            name: HookName::TimeToExpression,
            parameters: FunctionParameters::TimeToExpression {
                link_type: "time".to_string(),
                tag: "t".to_string(),
                direction: LinkDirection::Forward,
                expression_address: entry,
            },
        },
        FunctionDescriptor {
            name: HookName::CreatePack,
            parameters: FunctionParameters::CreatePack {
                username_address: user,
                first_name: "Alice".to_string(),
            },
        },
        FunctionDescriptor {
            name: HookName::CreateDen,
            parameters: FunctionParameters::CreateDen {
                username_address: user,
                first_name: "Alice".to_string(),
            },
        },
    ];
    let results = handle_hooks(&mut store, hooks).unwrap();
    assert_eq!(results.len(), 3);
    match &results[0] {
        HooksResultTypes::TimeToExpression(addrs) => {
            assert_eq!(addrs.len(), 4);
            match &store.entries[addrs[0].0] {
                Record::Attribute(a) => {
                    assert_eq!(a.value, "2024");
                    assert_eq!(a.attribute_type, AttributeType::Year);
                },
                other => panic!("not a year attribute: {:?}", other),
            }
        },
        other => panic!("first result has the wrong tag: {:?}", other),
    }
    assert!(matches!(results[1], HooksResultTypes::CreatePack(_)));
    assert!(matches!(&results[2], HooksResultTypes::CreateDen(v) if v.len() == 2));
}

#[test]
fn dispatch_aborts_on_the_first_mismatch_and_returns_no_partial_results() {
    let mut store = Store::new("2024-01-01T00:00:00");
    let a = Address(1);
    let b = Address(2);
    let good_link = FunctionParameters::LinkExpression {
        link_type: "comment".to_string(),
        tag: "t".to_string(),
        direction: LinkDirection::Forward,
        parent_expression: a,
        child_expression: b,
    };
    let hooks = vec![
        FunctionDescriptor { name: HookName::LinkExpression, parameters: good_link.clone() },
        // the name says create_pack, the payload does not
        FunctionDescriptor { name: HookName::CreatePack, parameters: good_link.clone() },
        FunctionDescriptor { name: HookName::LinkExpression, parameters: good_link },
    ];
    let r = handle_hooks(&mut store, hooks);
    assert_eq!(r.err(), Some(CoreError::WrongParameterVariant(HookName::CreatePack)));
    // the first request ran, the third never did
    assert_eq!(store.links.len(), 1);
}

fn aggregation_fixture() -> (Store, Address, ExpressionPost) {
    let mut store = Store::new("2024-03-05T07:30:00");
    let author = store.commit(username("alice"));
    let profile = store.commit(Record::User(User {
        first_name: "Alice".to_string(),
        last_name: "Archer".to_string(),
    }));
    store.link_entries(author, profile, "profile", "p");
    let e1 = store.commit(post("top"));
    let e2 = store.commit(post("middle"));
    let e3 = store.commit(post("bottom"));
    for e in [e1, e2, e3] {
        store.link_entries(e, author, "auth", "owner");
    }
    store.link_entries(e1, e2, "sub_expression", "s");
    store.link_entries(e2, e3, "sub_expression", "s");
    let channel = store.commit(channel_attr("music"));
    store.link_entries(e1, channel, "channels", "music");
    store.link_entries(e1, author, "resonation", "r");
    (store, e1, ExpressionPost { content: "top".to_string() })
}

#[test]
fn aggregation_collects_author_profile_time_channels_and_resonations() {
    let (store, e1, entry) = aggregation_fixture();
    let d = get_expression_attributes(
        &store,
        EntryAndAddress { address: e1, entry },
        false,
    )
    .unwrap();
    assert_eq!(d.author_username.entry.username, "alice");
    assert_eq!(d.author_profile.entry.first_name, "Alice");
    assert_eq!(d.timestamp, "2024-03-05-07");
    assert_eq!(d.channels.len(), 1);
    assert_eq!(d.channels[0].entry.value, "music");
    assert_eq!(d.resonations.len(), 1);
    assert_eq!(d.resonations[0].entry.username, "alice");
    assert_eq!(d.sub_expressions.len(), 0);
}

#[test]
fn aggregation_expands_one_level_of_sub_expressions_and_no_more() {
    let (store, e1, entry) = aggregation_fixture();
    let d = get_expression_attributes(
        &store,
        EntryAndAddress { address: e1, entry },
        true,
    )
    .unwrap();
    // the chain is three deep; only one level is expanded
    assert_eq!(d.sub_expressions.len(), 1);
    assert_eq!(d.sub_expressions[0].expression.entry.content, "middle");
    assert_eq!(d.sub_expressions[0].sub_expressions.len(), 0);
}

#[test]
fn aggregation_requires_exactly_one_author_and_a_profile() {
    let mut store = Store::new("2024-03-05T07:30:00");
    let orphan = store.commit(post("orphan"));
    let r = get_expression_attributes(
        &store,
        EntryAndAddress { address: orphan, entry: ExpressionPost { content: "orphan".to_string() } },
        false,
    );
    assert_eq!(r.err(), Some(CoreError::NoAuthor));

    let author = store.commit(username("alice"));
    store.link_entries(orphan, author, "auth", "owner");
    let r = get_expression_attributes(
        &store,
        EntryAndAddress { address: orphan, entry: ExpressionPost { content: "orphan".to_string() } },
        false,
    );
    assert_eq!(r.err(), Some(CoreError::NoAuthorProfile));
}

#[test]
fn sort_time_vector_takes_the_first_tag_of_a_duplicated_granularity() {
    let times = vec!["time:y>2023".to_string(), "time:y>2024".to_string()];
    let out = sort_time_vector(&times);
    assert_eq!(out, vec!["time:y>2023", "*", "*", "*"]);
}

#[test]
fn dispatch_propagates_a_handler_failure_and_stops() {
    let mut store = Store::new("2024-01-01T00:00:00");
    let a = Address(1);
    let hooks = vec![
        FunctionDescriptor {
            name: HookName::TimeToExpression,
            parameters: FunctionParameters::TimeToExpression {
                link_type: "time".to_string(),
                tag: "t".to_string(),
                direction: LinkDirection::Forward,
                // nothing is stored here, so the handler fails
                expression_address: Address(99),
            },
        },
        FunctionDescriptor {
            name: HookName::LinkExpression,
            parameters: FunctionParameters::LinkExpression {
                link_type: "comment".to_string(),
                tag: "t".to_string(),
                direction: LinkDirection::Forward,
                parent_expression: a,
                child_expression: Address(2),
            },
        },
    ];
    let r = handle_hooks(&mut store, hooks);
    assert_eq!(r.err(), Some(CoreError::EntryNotFound));
    // the second request never ran
    assert_eq!(store.links.len(), 0);
}

#[test]
fn aggregation_propagates_a_failing_sub_expression() {
    let (mut store, e1, entry) = aggregation_fixture();
    // a further sub-entry of the top entry, stored but without an author
    let orphan = store.commit(post("orphan"));
    store.link_entries(e1, orphan, "sub_expression", "s");
    let r = get_expression_attributes(&store, EntryAndAddress { address: e1, entry }, true);
    assert_eq!(r.err(), Some(CoreError::NoAuthor));
}
