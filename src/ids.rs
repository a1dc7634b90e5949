//! Typed identifiers: a UUID text tagged with the kind of entity it names.
use vstd::prelude::*;
use crate::auth::random_uuid_text;
use crate::errors::DomainError;
use core::marker::PhantomData;

verus! {

/// The text that `str::trim` leaves: leading and trailing white space removed.
pub uninterp spec fn trimmed(s: Seq<char>) -> Seq<char>;

/// Relies on `str::trim`, which drops leading and trailing white space; an
/// empty text stays empty.
#[verifier::external_body]
fn trim_text(s: &str) -> (r: &str)
    ensures
        r@ == trimmed(s@),
        s@.len() == 0 ==> r@.len() == 0,
{
    s.trim()
}

/// Whether `uuid::Uuid::parse_str` accepts a text.
pub uninterp spec fn parses_as_uuid(s: Seq<char>) -> bool;

/// Relies on `uuid::Uuid::parse_str`: whether the text is a UUID in one of the
/// forms that crate reads.
#[verifier::external_body]
fn uuid_text_is_valid(s: &str) -> (r: bool)
    ensures
        r == parses_as_uuid(s@),
{
    uuid::Uuid::parse_str(s).is_ok()
}

/// An identifier of an entity of kind `T`.
#[verifier::reject_recursive_types(T)]
pub struct Id<T> {
    value: String,
    _marker: PhantomData<T>,
}

impl<T> Id<T> {
    pub closed spec fn text(&self) -> Seq<char> {
        self.value@
    }

    /// A fresh random identifier.
    pub fn generate() -> (r: Self)
        ensures
            parses_as_uuid(r.text()),
            r.text().len() == 36,
    {
        Id { value: random_uuid_text(), _marker: PhantomData }
    }

    /// An identifier read from its text; refused where the text is blank or
    /// is no UUID.
    pub fn from_string(value: String) -> (r: Result<Self, DomainError>)
        ensures
            r is Ok <==> trimmed(value@).len() != 0 && parses_as_uuid(value@),
            value@.len() == 0 ==> r is Err,
            r is Ok ==> r->Ok_0.text() == value@,
            r is Err ==> r->Err_0 is InvalidId,
    {
        if trim_text(value.as_str()).is_empty() {
            return Err(DomainError::InvalidId("ID不能为空".to_string()));
        }
        if !uuid_text_is_valid(value.as_str()) {
            return Err(DomainError::InvalidId("无效的ID格式".to_string()));
        }
        Ok(Id { value, _marker: PhantomData })
    }

    pub fn value(&self) -> (r: &str)
        ensures
            r@ == self.text(),
    {
        self.value.as_str()
    }

    pub fn to_string(&self) -> (r: String)
        ensures
            r@ == self.text(),
    {
        self.value.clone()
    }
}

impl<T> Clone for Id<T> {
    fn clone(&self) -> (r: Self)
        ensures
            r.text() == self.text(),
    {
        Id { value: self.value.clone(), _marker: PhantomData }
    }
}

impl<T> PartialEq for Id<T> {
    fn eq(&self, other: &Id<T>) -> (r: bool)
        ensures
            r == (self.text() == other.text()),
    {
        self.value.eq(&other.value)
    }
}

impl<T> vstd::std_specs::cmp::PartialEqSpecImpl for Id<T> {
    open spec fn obeys_eq_spec() -> bool {
        true
    }

    open spec fn eq_spec(&self, other: &Id<T>) -> bool {
        self.text() == other.text()
    }
}

impl<T> Eq for Id<T> {
}

impl<T> Default for Id<T> {
    fn default() -> (r: Self) {
        Self::generate()
    }
}

pub struct UserEntity;

pub struct ProductEntity;

pub struct CategoryEntity;

pub struct OrderEntity;

pub struct RoleEntity;

pub struct ConfigurationEntity;

pub type UserId = Id<UserEntity>;

pub type ProductId = Id<ProductEntity>;

pub type CategoryId = Id<CategoryEntity>;

pub type OrderId = Id<OrderEntity>;

pub type RoleId = Id<RoleEntity>;

pub type ConfigurationId = Id<ConfigurationEntity>;

/// Something with an identity; two entities are the same when their ids are.
pub trait Entity<T> {
    spec fn spec_id(&self) -> Seq<char>;

    fn id(&self) -> (r: &Id<T>)
        ensures
            r.text() == self.spec_id(),
    ;
}

/// Whether two entities carry the same id.
pub fn same_entity<T, E: Entity<T>>(a: &E, b: &E) -> (r: bool)
    ensures
        r == (a.spec_id() == b.spec_id()),
{
    a.id().eq(b.id())
}

/// The identity part that entities embed.
#[verifier::reject_recursive_types(T)]
pub struct EntityBase<T> {
    pub id: Id<T>,
}

impl<T> EntityBase<T> {
    pub fn new(id: Id<T>) -> (r: Self)
        ensures
            r.id.text() == id.text(),
    {
        EntityBase { id }
    }
}

impl<T> Entity<T> for EntityBase<T> {
    open spec fn spec_id(&self) -> Seq<char> {
        self.id.text()
    }

    fn id(&self) -> (r: &Id<T>) {
        &self.id
    }
}

} // verus!
