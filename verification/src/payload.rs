//! Type identity and type-erased storage.
//!
//! A faceted object keeps values of several types in one table. Each such
//! type has a tag of its own, and a value of any of them can be stored as an
//! [`Erased`] value and recovered from it under its own type only.

use vstd::prelude::*;
use crate::account::AccountFacet;
use crate::audit::AuditFacet;
use crate::employee::Employee;
use crate::permission::PermissionFacet;

verus! {

/// The identity of a payload type. Two types never share a tag.
#[derive(Clone, Copy, Debug, PartialEq, Eq, Structural)]
pub enum TypeTag {
    Employee,
    Account,
    Audit,
    Permission,
}

impl TypeTag {
    /// The name of the type, as text.
    pub open spec fn name_text(self) -> Seq<char> {
        match self {
            TypeTag::Employee => "Employee"@,
            TypeTag::Account => "AccountFacet"@,
            TypeTag::Audit => "AuditFacet"@,
            TypeTag::Permission => "PermissionFacet"@,
        }
    }

    /// The name of the type.
    pub fn name(&self) -> (name: &'static str)
        ensures
            name@ == self.name_text(),
    {
        match self {
            TypeTag::Employee => "Employee",
            TypeTag::Account => "AccountFacet",
            TypeTag::Audit => "AuditFacet",
            TypeTag::Permission => "PermissionFacet",
        }
    }
}

/// A value of one of the payload types, stored without its static type.
#[derive(Debug)]
pub enum Erased {
    Employee(Employee),
    Account(AccountFacet),
    Audit(AuditFacet),
    Permission(PermissionFacet),
}

impl Erased {
    /// The tag of the type of the stored value.
    pub open spec fn tag_of(self) -> TypeTag {
        match self {
            Erased::Employee(_) => TypeTag::Employee,
            Erased::Account(_) => TypeTag::Account,
            Erased::Audit(_) => TypeTag::Audit,
            Erased::Permission(_) => TypeTag::Permission,
        }
    }

    /// The tag of the type of the stored value.
    pub fn tag(&self) -> (tag: TypeTag)
        ensures
            tag == self.tag_of(),
    {
        match self {
            Erased::Employee(_) => TypeTag::Employee,
            Erased::Account(_) => TypeTag::Account,
            Erased::Audit(_) => TypeTag::Audit,
            Erased::Permission(_) => TypeTag::Permission,
        }
    }
}

/// A type whose values can be stored as [`Erased`] values and recovered.
///
/// The tag is the type's identity: an erased value gives a value of this
/// type back exactly when it carries this type's tag, and then the very
/// value that was stored.
pub trait Payload: Sized {
    /// The tag of this type.
    spec fn type_tag() -> TypeTag;

    /// The value, stored without its type.
    spec fn erased(self) -> Erased;

    /// The value of this type that `slot` holds, if it holds one.
    spec fn held(slot: Erased) -> Option<Self>;

    /// Storing a value keeps it, under the tag of its type.
    proof fn lemma_erased(value: Self)
        ensures
            value.erased().tag_of() == Self::type_tag(),
            Self::held(value.erased()) == Some(value),
    ;

    /// A slot holds a value of this type exactly when it carries the type's
    /// tag, and the slot is then that value stored.
    proof fn lemma_held(slot: Erased)
        ensures
            Self::held(slot) is Some <==> slot.tag_of() == Self::type_tag(),
            Self::held(slot) matches Some(value) ==> value.erased() == slot,
    ;

    /// The tag of this type.
    fn tag() -> (tag: TypeTag)
        ensures
            tag == Self::type_tag(),
    ;

    /// Stores the value without its type.
    fn erase(self) -> (slot: Erased)
        ensures
            slot == self.erased(),
    ;

    /// The value of this type in `slot`, if it holds one.
    fn downcast_ref(slot: &Erased) -> (value: Option<&Self>)
        ensures
            match value {
                Some(value) => Self::held(*slot) == Some(*value),
                None => Self::held(*slot) is None,
            },
    ;

    /// The value of this type in `slot`, if it holds one, for changing in
    /// place: the slot then holds what the value is changed to.
    fn downcast_mut(slot: &mut Erased) -> (value: Option<&mut Self>)
        ensures
            match value {
                Some(value) => Self::held(*old(slot)) == Some(*value)
                    && *final(slot) == (*final(value)).erased(),
                None => Self::held(*old(slot)) is None && *final(slot) == *old(slot),
            },
    ;
}

/// A payload type whose values can be attached to an object as facets.
pub trait Facet: Payload {

}

impl Payload for Employee {
    open spec fn type_tag() -> TypeTag {
        TypeTag::Employee
    }

    open spec fn erased(self) -> Erased {
        Erased::Employee(self)
    }

    open spec fn held(slot: Erased) -> Option<Self> {
        match slot {
            Erased::Employee(value) => Some(value),
            _ => None,
        }
    }

    proof fn lemma_erased(value: Self) {
    }

    proof fn lemma_held(slot: Erased) {
    }

    fn tag() -> (tag: TypeTag) {
        TypeTag::Employee
    }

    fn erase(self) -> (slot: Erased) {
        Erased::Employee(self)
    }

    fn downcast_ref(slot: &Erased) -> (value: Option<&Self>) {
        match slot {
            Erased::Employee(value) => Some(value),
            _ => None,
        }
    }

    fn downcast_mut(slot: &mut Erased) -> (value: Option<&mut Self>) {
        match slot {
            Erased::Employee(value) => Some(value),
            _ => None,
        }
    }
}

impl Payload for AccountFacet {
    open spec fn type_tag() -> TypeTag {
        TypeTag::Account
    }

    open spec fn erased(self) -> Erased {
        Erased::Account(self)
    }

    open spec fn held(slot: Erased) -> Option<Self> {
        match slot {
            Erased::Account(value) => Some(value),
            _ => None,
        }
    }

    proof fn lemma_erased(value: Self) {
    }

    proof fn lemma_held(slot: Erased) {
    }

    fn tag() -> (tag: TypeTag) {
        TypeTag::Account
    }

    fn erase(self) -> (slot: Erased) {
        Erased::Account(self)
    }

    fn downcast_ref(slot: &Erased) -> (value: Option<&Self>) {
        match slot {
            Erased::Account(value) => Some(value),
            _ => None,
        }
    }

    fn downcast_mut(slot: &mut Erased) -> (value: Option<&mut Self>) {
        match slot {
            Erased::Account(value) => Some(value),
            _ => None,
        }
    }
}

impl Facet for AccountFacet {

}

impl Payload for AuditFacet {
    open spec fn type_tag() -> TypeTag {
        TypeTag::Audit
    }

    open spec fn erased(self) -> Erased {
        Erased::Audit(self)
    }

    open spec fn held(slot: Erased) -> Option<Self> {
        match slot {
            Erased::Audit(value) => Some(value),
            _ => None,
        }
    }

    proof fn lemma_erased(value: Self) {
    }

    proof fn lemma_held(slot: Erased) {
    }

    fn tag() -> (tag: TypeTag) {
        TypeTag::Audit
    }

    fn erase(self) -> (slot: Erased) {
        Erased::Audit(self)
    }

    fn downcast_ref(slot: &Erased) -> (value: Option<&Self>) {
        match slot {
            Erased::Audit(value) => Some(value),
            _ => None,
        }
    }

    fn downcast_mut(slot: &mut Erased) -> (value: Option<&mut Self>) {
        match slot {
            Erased::Audit(value) => Some(value),
            _ => None,
        }
    }
}

impl Facet for AuditFacet {

}

impl Payload for PermissionFacet {
    open spec fn type_tag() -> TypeTag {
        TypeTag::Permission
    }

    open spec fn erased(self) -> Erased {
        Erased::Permission(self)
    }

    open spec fn held(slot: Erased) -> Option<Self> {
        match slot {
            Erased::Permission(value) => Some(value),
            _ => None,
        }
    }

    proof fn lemma_erased(value: Self) {
    }

    proof fn lemma_held(slot: Erased) {
    }

    fn tag() -> (tag: TypeTag) {
        TypeTag::Permission
    }

    fn erase(self) -> (slot: Erased) {
        Erased::Permission(self)
    }

    fn downcast_ref(slot: &Erased) -> (value: Option<&Self>) {
        match slot {
            Erased::Permission(value) => Some(value),
            _ => None,
        }
    }

    fn downcast_mut(slot: &mut Erased) -> (value: Option<&mut Self>) {
        match slot {
            Erased::Permission(value) => Some(value),
            _ => None,
        }
    }
}

impl Facet for PermissionFacet {

}

} // verus!
