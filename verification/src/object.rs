//! The faceted object: a core payload and a registry of facets, at most one
//! of each type.

use vstd::prelude::*;
use crate::error::FacetError;
use crate::keyed::distinct_keys;
use crate::keyed::keyed;
use crate::keyed::lemma_keyed_absent;
use crate::keyed::lemma_keyed_by_key;
use crate::keyed::lemma_keyed_present;
use crate::keyed::lemma_keyed_push;
use crate::keyed::lemma_keyed_update;
use crate::payload::Erased;
use crate::payload::Facet;
use crate::payload::Payload;
use crate::payload::TypeTag;

verus! {

/// What a faceted object holds: the core payload, and the facets by the tag
/// of their type.
#[verifier::ext_equal]
pub struct ObjectView {
    pub core: Erased,
    pub facets: Map<TypeTag, Erased>,
}

impl ObjectView {
    /// Each facet stands under the tag of its own type.
    pub open spec fn well_formed(self) -> bool {
        forall|tag: TypeTag| #[trigger]
            self.facets.dom().contains(tag) ==> self.facets[tag].tag_of() == tag
    }

    /// Whether a facet of the type with this tag is attached.
    pub open spec fn has(self, tag: TypeTag) -> bool {
        self.facets.dom().contains(tag)
    }

    /// The attached facet of type `F`, if there is one.
    pub open spec fn facet<F: Payload>(self) -> Option<F> {
        if self.has(F::type_tag()) {
            F::held(self.facets[F::type_tag()])
        } else {
            None
        }
    }

    /// The object with `slot` under the tag of its type, in place of what
    /// stood there.
    pub open spec fn with_slot(self, slot: Erased) -> ObjectView {
        ObjectView { core: self.core, facets: self.facets.insert(slot.tag_of(), slot) }
    }

    /// The object without the facet of the type with this tag.
    pub open spec fn without_facet(self, tag: TypeTag) -> ObjectView {
        ObjectView { core: self.core, facets: self.facets.remove(tag) }
    }

    /// What attaching a facet of the type with this tag returns.
    pub open spec fn attach_result(self, tag: TypeTag) -> Result<(), FacetError> {
        if self.has(tag) {
            Err(FacetError::AlreadyAttached(tag))
        } else {
            Ok(())
        }
    }

    /// The object after an attempt to attach `slot`: unchanged where a facet
    /// of that type is attached already.
    pub open spec fn attached(self, slot: Erased) -> ObjectView {
        if self.has(slot.tag_of()) {
            self
        } else {
            self.with_slot(slot)
        }
    }
}

/// An object made of a core payload, fixed when the object is made, and of
/// facets that are attached to it later.
pub struct FacetedObject {
    facets: Vec<Erased>,
    core_object: Erased,
}

spec fn tag_key() -> spec_fn(Erased) -> TypeTag {
    |slot: Erased| slot.tag_of()
}

fn find(slots: &Vec<Erased>, tag: TypeTag) -> (found: Option<usize>)
    ensures
        match found {
            Some(i) => i < slots.len() && slots[i as int].tag_of() == tag,
            None => forall|i: int| 0 <= i < slots.len() ==> slots[i].tag_of() != tag,
        },
{
    let mut i: usize = 0;
    while i < slots.len()
        invariant
            i <= slots.len(),
            forall|k: int| 0 <= k < i ==> slots[k].tag_of() != tag,
        decreases slots.len() - i,
    {
        if slots[i].tag() == tag {
            return Some(i);
        }
        i = i + 1;
    }
    None
}

impl View for FacetedObject {
    type V = ObjectView;

    closed spec fn view(&self) -> ObjectView {
        ObjectView { core: self.core_object, facets: keyed(self.facets@, tag_key()) }
    }
}

impl FacetedObject {
    /// No two facets of the object have the same type.
    #[verifier::type_invariant]
    spec fn at_most_one_per_type(&self) -> bool {
        distinct_keys(self.facets@, tag_key())
    }

    /// Whatever an object holds, each of its facets stands under the tag of
    /// its own type.
    pub proof fn lemma_view_well_formed(self)
        ensures
            self@.well_formed(),
    {
        lemma_keyed_by_key(self.facets@, tag_key());
    }

    /// An object around `core`, with no facet attached.
    pub fn new<T: Payload>(core: T) -> (object: Self)
        ensures
            object@.core == core.erased(),
            object@.facets == Map::<TypeTag, Erased>::empty(),
    {
        Self { facets: Vec::new(), core_object: core.erase() }
    }

    /// Attaches `facet`, unless a facet of its type is attached already: the
    /// object then stays as it is, and the call fails.
    pub fn attach_facet<F: Facet>(&mut self, facet: F) -> (result: Result<(), FacetError>)
        ensures
            result == old(self)@.attach_result(F::type_tag()),
            final(self)@ == old(self)@.attached(facet.erased()),
    {
        proof {
            use_type_invariant(&*self);
            F::lemma_erased(facet);
        }
        let tag = F::tag();
        match find(&self.facets, tag) {
            Some(i) => {
                proof {
                    lemma_keyed_present(self.facets@, tag_key(), i as int);
                }
                Err(FacetError::AlreadyAttached(tag))
            },
            None => {
                let mut slots: Vec<Erased> = Vec::new();
                std::mem::swap(&mut slots, &mut self.facets);
                let slot = facet.erase();
                proof {
                    lemma_keyed_absent(slots@, tag_key(), tag);
                    lemma_keyed_push(slots@, tag_key(), slot);
                }
                slots.push(slot);
                self.facets = slots;
                Ok(())
            },
        }
    }

    /// Calls `operation` on the attached facet of type `F` and returns what
    /// it returns. Where no such facet is attached, `operation` is not
    /// called and the call fails.
    pub fn with_facet<F: Facet, R>(
        &self,
        operation: impl FnOnce(&F) -> R,
    ) -> (result: Result<R, FacetError>)
        requires
            self@.facet::<F>() matches Some(facet) ==> call_requires(operation, (&facet,)),
        ensures
            match result {
                Ok(value) => self@.facet::<F>() matches Some(facet)
                    && call_ensures(operation, (&facet,), value),
                Err(error) => self@.facet::<F>() is None
                    && error == FacetError::FacetNotFound(F::type_tag()),
            },
    {
        proof {
            use_type_invariant(self);
        }
        let tag = F::tag();
        match find(&self.facets, tag) {
            Some(i) => {
                proof {
                    lemma_keyed_present(self.facets@, tag_key(), i as int);
                    F::lemma_held(self.facets@[i as int]);
                }
                match F::downcast_ref(&self.facets[i]) {
                    Some(facet) => Ok(operation(facet)),
                    None => Err(FacetError::InternalInconsistency(tag)),
                }
            },
            None => {
                proof {
                    lemma_keyed_absent(self.facets@, tag_key(), tag);
                }
                Err(FacetError::FacetNotFound(tag))
            },
        }
    }

    /// Calls `operation` on the attached facet of type `F`, which it may
    /// change, and returns what it returns. No other facet changes, nor the
    /// core. Where no facet of type `F` is attached, `operation` is not
    /// called, nothing changes and the call fails.
    pub fn with_facet_mut<F: Facet, R>(
        &mut self,
        operation: impl FnOnce(&mut F) -> R,
    ) -> (result: Result<R, FacetError>)
        requires
            forall|facet: &mut F|
                old(self)@.facet::<F>() == Some(*facet) ==> call_requires(operation, (facet,)),
        ensures
            match result {
                Ok(value) => exists|facet: &mut F|
                    {
                        &&& old(self)@.facet::<F>() == Some(*facet)
                        &&& call_ensures(operation, (facet,), value)
                        &&& final(self)@ == old(self)@.with_slot((*final(facet)).erased())
                    },
                Err(error) => {
                    &&& old(self)@.facet::<F>() is None
                    &&& error == FacetError::FacetNotFound(F::type_tag())
                    &&& final(self)@ == old(self)@
                },
            },
    {
        proof {
            use_type_invariant(&*self);
        }
        let tag = F::tag();
        match find(&self.facets, tag) {
            Some(i) => {
                let mut slots: Vec<Erased> = Vec::new();
                std::mem::swap(&mut slots, &mut self.facets);
                let ghost before = slots@;
                proof {
                    lemma_keyed_present(before, tag_key(), i as int);
                    F::lemma_held(before[i as int]);
                }
                let result = match F::downcast_mut(&mut slots[i]) {
                    Some(facet) => {
                        proof {
                            F::lemma_erased(*final(facet));
                        }
                        Ok(operation(facet))
                    },
                    None => Err(FacetError::InternalInconsistency(tag)),
                };
                proof {
                    lemma_keyed_update(before, tag_key(), i as int, slots@[i as int]);
                }
                self.facets = slots;
                result
            },
            None => {
                proof {
                    lemma_keyed_absent(self.facets@, tag_key(), tag);
                }
                Err(FacetError::FacetNotFound(tag))
            },
        }
    }

    /// Whether a facet of type `F` is attached.
    pub fn has_facet<F: Facet>(&self) -> (attached: bool)
        ensures
            attached == self@.has(F::type_tag()),
            attached == (self@.facet::<F>() is Some),
    {
        proof {
            use_type_invariant(self);
        }
        match find(&self.facets, F::tag()) {
            Some(i) => {
                proof {
                    lemma_keyed_present(self.facets@, tag_key(), i as int);
                    F::lemma_held(self.facets@[i as int]);
                }
                true
            },
            None => {
                proof {
                    lemma_keyed_absent(self.facets@, tag_key(), F::type_tag());
                }
                false
            },
        }
    }

    /// The core payload, where it is of type `T`.
    pub fn get_core<T: Payload>(&self) -> (core: Option<&T>)
        ensures
            match core {
                Some(core) => T::held(self@.core) == Some(*core),
                None => T::held(self@.core) is None,
            },
    {
        T::downcast_ref(&self.core_object)
    }
}

} // verus!
