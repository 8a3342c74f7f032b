//! The record shapes that the layer stores and reads: attributes, users,
//! expression posts, contexts (collections and groups) and perspectives,
//! together with their mathematical models (string fields abstracted to
//! `Seq<char>`).

use vstd::prelude::*;

verus! {

/// A content-derived identifier of a stored record, also used as a node of
/// the link graph. Under a well-formed store, two equal addresses identify
/// identical content.
#[derive(Clone, Copy, PartialEq, Eq, Structural, Debug)]
pub struct Address(pub usize);

/// The kind of an attribute record used for indexing.
#[derive(Clone, Copy, PartialEq, Eq, Structural, Debug)]
pub enum AttributeType {
    Channel,
    Type,
    Year,
    Month,
    Day,
    Hour,
}

/// Privacy tier of a group context. Authorization only distinguishes
/// `Public` from the rest.
#[derive(Clone, Copy, PartialEq, Eq, Structural, Debug)]
pub enum Privacy {
    Public,
    Shared,
    Private,
}

/// An indexing record: a category ("channel"), an entry subtype, or a
/// calendar time bucket.
#[derive(Clone, Debug)]
pub struct Attribute {
    pub value: String,
    pub attribute_type: AttributeType,
}

pub ghost struct AttributeModel {
    pub value: Seq<char>,
    pub attribute_type: AttributeType,
}

impl View for Attribute {
    type V = AttributeModel;

    open spec fn view(&self) -> AttributeModel {
        AttributeModel { value: self.value@, attribute_type: self.attribute_type }
    }
}

/// A user's name record; the target of authorship and reaction links.
#[derive(Clone, Debug)]
pub struct UserName {
    pub username: String,
}

pub ghost struct UserNameModel {
    pub username: Seq<char>,
}

impl View for UserName {
    type V = UserNameModel;

    open spec fn view(&self) -> UserNameModel {
        UserNameModel { username: self.username@ }
    }
}

/// A user's profile record, reached from a `UserName` by a "profile" link.
#[derive(Clone, Debug)]
pub struct User {
    pub first_name: String,
    pub last_name: String,
}

pub ghost struct UserModel {
    pub first_name: Seq<char>,
    pub last_name: Seq<char>,
}

impl View for User {
    type V = UserModel;

    open spec fn view(&self) -> UserModel {
        UserModel { first_name: self.first_name@, last_name: self.last_name@ }
    }
}

/// An expression entry: the payload that indexing and aggregation revolve
/// around.
#[derive(Clone, Debug)]
pub struct ExpressionPost {
    pub content: String,
}

pub ghost struct ExpressionPostModel {
    pub content: Seq<char>,
}

impl View for ExpressionPost {
    type V = ExpressionPostModel;

    open spec fn view(&self) -> ExpressionPostModel {
        ExpressionPostModel { content: self.content@ }
    }
}

/// A collection context: write access is owner-only, with no privacy tiers.
#[derive(Clone, Debug)]
pub struct Collection {
    pub name: String,
    pub owner: Address,
}

pub ghost struct CollectionModel {
    pub name: Seq<char>,
    pub owner: Address,
}

impl View for Collection {
    type V = CollectionModel;

    open spec fn view(&self) -> CollectionModel {
        CollectionModel { name: self.name@, owner: self.owner }
    }
}

/// A group context: the owner and the members may write, gated by the
/// group's privacy tier.
#[derive(Clone, Debug)]
pub struct Group {
    pub name: String,
    pub owner: Address,
    pub privacy: Privacy,
}

pub ghost struct GroupModel {
    pub name: Seq<char>,
    pub owner: Address,
    pub privacy: Privacy,
}

impl View for Group {
    type V = GroupModel;

    open spec fn view(&self) -> GroupModel {
        GroupModel { name: self.name@, owner: self.owner, privacy: self.privacy }
    }
}

/// A perspective record: a named vantage point that callers resolve and
/// shape-check before use.
#[derive(Clone, Debug)]
pub struct Perspective {
    pub name: String,
}

pub ghost struct PerspectiveModel {
    pub name: Seq<char>,
}

impl View for Perspective {
    type V = PerspectiveModel;

    open spec fn view(&self) -> PerspectiveModel {
        PerspectiveModel { name: self.name@ }
    }
}

/// Any record the store can hold.
#[derive(Clone, Debug)]
pub enum Record {
    Attribute(Attribute),
    UserName(UserName),
    User(User),
    ExpressionPost(ExpressionPost),
    Collection(Collection),
    Group(Group),
    Perspective(Perspective),
}

pub ghost enum RecordModel {
    Attribute(AttributeModel),
    UserName(UserNameModel),
    User(UserModel),
    ExpressionPost(ExpressionPostModel),
    Collection(CollectionModel),
    Group(GroupModel),
    Perspective(PerspectiveModel),
}

impl View for Record {
    type V = RecordModel;

    open spec fn view(&self) -> RecordModel {
        match self {
            Record::Attribute(a) => RecordModel::Attribute(a@),
            Record::UserName(u) => RecordModel::UserName(u@),
            Record::User(u) => RecordModel::User(u@),
            Record::ExpressionPost(e) => RecordModel::ExpressionPost(e@),
            Record::Collection(c) => RecordModel::Collection(c@),
            Record::Group(g) => RecordModel::Group(g@),
            Record::Perspective(p) => RecordModel::Perspective(p@),
        }
    }
}

/// The view of a sequence of viewable values, element by element.
pub open spec fn seq_view<T: View>(s: Seq<T>) -> Seq<T::V> {
    Seq::new(s.len(), |i: int| s[i]@)
}

/// Decides whether two records have identical content, which is the
/// equality the content-addressed store deduplicates by.
pub fn record_content_eq(a: &Record, b: &Record) -> (r: bool)
    ensures
        r == (a@ == b@),
{
    match (a, b) {
        (Record::Attribute(x), Record::Attribute(y)) => {
            x.value == y.value && x.attribute_type == y.attribute_type
        },
        (Record::UserName(x), Record::UserName(y)) => x.username == y.username,
        (Record::User(x), Record::User(y)) => {
            x.first_name == y.first_name && x.last_name == y.last_name
        },
        (Record::ExpressionPost(x), Record::ExpressionPost(y)) => x.content == y.content,
        (Record::Collection(x), Record::Collection(y)) => {
            x.name == y.name && x.owner == y.owner
        },
        (Record::Group(x), Record::Group(y)) => {
            x.name == y.name && x.owner == y.owner && x.privacy == y.privacy
        },
        (Record::Perspective(x), Record::Perspective(y)) => x.name == y.name,
        _ => false,
    }
}

impl Record {
    /// A copy of this record with identical content.
    pub fn duplicate(&self) -> (r: Record)
        ensures
            r == *self,
    {
        match self {
            Record::Attribute(a) => Record::Attribute(a.duplicate()),
            Record::UserName(u) => Record::UserName(u.duplicate()),
            Record::User(u) => Record::User(u.duplicate()),
            Record::ExpressionPost(e) => Record::ExpressionPost(e.duplicate()),
            Record::Collection(c) => Record::Collection(c.duplicate()),
            Record::Group(g) => Record::Group(g.duplicate()),
            Record::Perspective(p) => Record::Perspective(p.duplicate()),
        }
    }
}

impl Attribute {
    pub fn duplicate(&self) -> (r: Attribute)
        ensures
            r == *self,
    {
        Attribute { value: self.value.clone(), attribute_type: self.attribute_type }
    }
}

impl UserName {
    pub fn duplicate(&self) -> (r: UserName)
        ensures
            r == *self,
    {
        UserName { username: self.username.clone() }
    }
}

impl User {
    pub fn duplicate(&self) -> (r: User)
        ensures
            r == *self,
    {
        User { first_name: self.first_name.clone(), last_name: self.last_name.clone() }
    }
}

impl ExpressionPost {
    pub fn duplicate(&self) -> (r: ExpressionPost)
        ensures
            r == *self,
    {
        ExpressionPost { content: self.content.clone() }
    }
}

impl Collection {
    pub fn duplicate(&self) -> (r: Collection)
        ensures
            r == *self,
    {
        Collection { name: self.name.clone(), owner: self.owner }
    }
}

impl Group {
    pub fn duplicate(&self) -> (r: Group)
        ensures
            r == *self,
    {
        Group { name: self.name.clone(), owner: self.owner, privacy: self.privacy }
    }
}

impl Perspective {
    pub fn duplicate(&self) -> (r: Perspective)
        ensures
            r == *self,
    {
        Perspective { name: self.name.clone() }
    }
}

/// A loaded record paired with the address it was loaded from.
#[derive(Clone, Debug)]
pub struct EntryAndAddress<T> {
    pub address: Address,
    pub entry: T,
}

impl<T: View> View for EntryAndAddress<T> {
    type V = (Address, T::V);

    open spec fn view(&self) -> (Address, T::V) {
        (self.address, self.entry@)
    }
}

/// The errors of this layer. Shape mismatches on direct loads are surfaced;
/// traversal drops are not errors at all.
#[derive(Clone, Copy, PartialEq, Eq, Structural, Debug)]
pub enum CoreError {
    /// A strict indexing path met an index descriptor of an unknown type.
    UnrecognizedIndexType,
    /// A dispatched operation's parameters do not match its name.
    WrongParameterVariant(HookName),
    /// The actor does not own the collection it tries to write into.
    NotCollectionOwner,
    /// The actor is neither owner nor member of a non-public group.
    NotGroupMember,
    /// No record is stored under the given address.
    EntryNotFound,
    /// The record under the given address is not a perspective.
    NotAPerspective,
    /// Timestamp derivation needs exactly one stored revision.
    NotSingleRevision,
    /// The stored timestamp is too short to carry the calendar buckets.
    MalformedTimestamp,
    /// Aggregation expects exactly one authorship link on an entry.
    NoAuthor,
    /// Aggregation found no profile behind the author's name record.
    NoAuthorProfile,
}

/// The names of the operations the hook dispatcher can route.
#[derive(Clone, Copy, PartialEq, Eq, Structural, Debug)]
pub enum HookName {
    TimeToExpression,
    CreatePack,
    CreateDen,
    LinkExpression,
    CreatePostIndex,
}

} // verus!
