//! Laws of the registry and of the guarded operation, stated over the views
//! that the contracts of the functions use.

use vstd::prelude::*;
use crate::account::after_deposits;
use crate::account::AccountFacet;
use crate::audit::AuditFacet;
use crate::error::FacetError;
use crate::error::LedgerError;
use crate::error::OperationError;
use crate::object::ObjectView;
use crate::operations::authorized;
use crate::operations::completes;
use crate::payload::Facet;
use crate::payload::Payload;
use crate::payload::TypeTag;

verus! {

/// Two reports say the same: the same text, or the same error.
pub open spec fn same_report(
    one: Result<String, OperationError>,
    other: Result<String, OperationError>,
) -> bool {
    match (one, other) {
        (Ok(text), Ok(other_text)) => text@ == other_text@,
        (Err(error), Err(other_error)) => error == other_error,
        _ => false,
    }
}

/// A facet type is attached at most once. Attaching to an object without a
/// facet of the type succeeds and attaches the given facet. Whatever the
/// object held, a second attempt then fails with `AlreadyAttached` and
/// leaves the object, and so the facet attached first, as it was.
pub proof fn law_attach_once<F: Facet>(object: ObjectView, first: F, second: F)
    ensures
        !object.has(F::type_tag()) ==> {
            &&& object.attach_result(F::type_tag()) == Ok::<(), FacetError>(())
            &&& object.attached(first.erased()).facet::<F>() == Some(first)
        },
        ({
            let once = object.attached(first.erased());
            &&& once.attach_result(F::type_tag()) == Err::<(), FacetError>(
                FacetError::AlreadyAttached(F::type_tag()),
            )
            &&& once.attached(second.erased()) == once
        }),
{
    F::lemma_erased(first);
    F::lemma_erased(second);
}

/// Once attached, a facet stays: an attempt to attach another facet,
/// of the same type or of another, neither removes nor replaces it.
pub proof fn law_attached_facets_stay<F: Facet, G: Facet>(object: ObjectView, other: G)
    requires
        object.has(F::type_tag()),
    ensures
        object.attached(other.erased()).has(F::type_tag()),
        object.attached(other.erased()).facet::<F>() == object.facet::<F>(),
{
    G::lemma_erased(other);
}

/// In an object whose facets stand under their own tags, a facet of type `F`
/// is found exactly when the tag of `F` is taken.
pub proof fn law_lookup_by_tag<F: Facet>(object: ObjectView)
    requires
        object.well_formed(),
    ensures
        object.facet::<F>() is Some <==> object.has(F::type_tag()),
{
    if object.has(F::type_tag()) {
        F::lemma_held(object.facets[F::type_tag()]);
    }
}

/// A stored value is recovered under its own type and under no other: asked
/// for a type with another tag, the slot gives nothing.
pub proof fn law_typed_recovery<T: Payload, U: Payload>(value: T)
    ensures
        T::held(value.erased()) == Some(value),
        U::type_tag() != T::type_tag() ==> U::held(value.erased()) is None,
{
    T::lemma_erased(value);
    U::lemma_held(value.erased());
}

/// No deposit is lost: `times` deposits of `amount` in a row, one after the
/// other, raise the balance by `times` times `amount`, as long as the
/// balance can hold the sum.
pub proof fn law_deposits_add_up(balance: int, amount: int, times: nat)
    requires
        0 <= balance,
        0 < amount,
        balance + times * amount <= i64::MAX,
    ensures
        after_deposits(balance, amount, times) == balance + times * amount,
    decreases times,
{
    if times > 0 {
        let earlier = (times - 1) as nat;
        assert(times * amount == earlier * amount + amount) by (nonlinear_arith)
            requires
                times == earlier + 1,
        ;
        assert(0 <= earlier * amount) by (nonlinear_arith)
            requires
                0 <= earlier,
                0 < amount,
        ;
        law_deposits_add_up(balance, amount, earlier);
    }
}

/// The audit facet has no say in a guarded operation. Take the audit facet
/// away from an object: the operation is authorized as before, finds the
/// same account, and for the same outcome of the mutation reports the same
/// and leaves the same object, but for the audit facet.
pub proof fn law_logging_is_best_effort(
    before: ObjectView,
    account: AccountFacet,
    outcome: Result<i64, LedgerError>,
    logged_result: Result<String, OperationError>,
    logged_after: ObjectView,
    silent_result: Result<String, OperationError>,
    silent_after: ObjectView,
)
    requires
        completes(before, account, outcome, logged_result, logged_after),
        completes(
            before.without_facet(TypeTag::Audit),
            account,
            outcome,
            silent_result,
            silent_after,
        ),
    ensures
        authorized(before.without_facet(TypeTag::Audit)) == authorized(before),
        before.without_facet(TypeTag::Audit).facet::<AccountFacet>() == before.facet::<
            AccountFacet,
        >(),
        same_report(logged_result, silent_result),
        silent_after == logged_after.without_facet(TypeTag::Audit),
{
    AccountFacet::lemma_erased(account);
    let executed = before.with_slot(account.erased());
    if outcome is Ok && executed.facet::<AuditFacet>() is Some {
        let extended = choose|extended: AuditFacet|
            logged_after == executed.with_slot(#[trigger] extended.erased());
        AuditFacet::lemma_erased(extended);
    }
}

} // verus!
