//! What holds of a registry over several operations.
//!
//! Two types are told apart by their tokens. A law that speaks of two types
//! asks that their tokens differ, which `same_type` decides for any two
//! given types. A law that says which values a lookup returns says so for
//! an encodable type.

use crate::dependency_provider::{factory_codes, DependencyProvider};
use crate::encoding::{encodable, lemma_code_among};
use crate::provider_table::{no_slots, type_token};
use vstd::prelude::*;

verus! {

/// One change to a registry, as it shows in the registry's description.
pub enum Step {
    /// A registration for the type with this token, of a factory that may
    /// return the values with these codes.
    Register { token: int, codes: Set<int> },
    /// The removal of the registration for the type with this token.
    Unregister { token: int },
}

impl Step {
    /// The token of the type that the step is about.
    pub open spec fn token(self) -> int {
        match self {
            Step::Register { token, codes } => token,
            Step::Unregister { token } => token,
        }
    }

    /// The description of a registry after the step, from the one before.
    pub open spec fn apply(self, slots: Map<int, Set<int>>) -> Map<int, Set<int>> {
        match self {
            Step::Register { token, codes } => slots.insert(token, codes),
            Step::Unregister { token } => slots.remove(token),
        }
    }
}

/// The step that registering `f` for `T` is.
pub open spec fn register_step<T, F: Fn() -> T>(f: F) -> Step {
    Step::Register { token: type_token::<T>(), codes: factory_codes(f) }
}

/// The step that removing the registration for `T` is.
pub open spec fn unregister_step<T>() -> Step {
    Step::Unregister { token: type_token::<T>() }
}

/// The description of a registry after `steps`, taken in order, from the
/// one before them.
pub open spec fn after_steps(start: Map<int, Set<int>>, steps: Seq<Step>) -> Map<int, Set<int>>
    decreases steps.len(),
{
    if steps.len() == 0 {
        start
    } else {
        steps.last().apply(after_steps(start, steps.drop_last()))
    }
}

/// The last of `steps` that is about the type with the token `token`, if
/// any is.
pub open spec fn last_step_about(steps: Seq<Step>, token: int) -> Option<Step>
    decreases steps.len(),
{
    if steps.len() == 0 {
        None
    } else if steps.last().token() == token {
        Some(steps.last())
    } else {
        last_step_about(steps.drop_last(), token)
    }
}

/// A registry that holds nothing has a provider function for no type, and a
/// lookup in it finds nothing.
pub proof fn lemma_empty_provides_nothing<T>(provider: DependencyProvider, found: Option<T>)
    requires
        provider@ == no_slots(),
    ensures
        !provider.provides::<T>(),
        provider.supplies(found) <==> found.is_none(),
{
}

/// A registration and a removal are the steps of their names.
pub proof fn lemma_operations_are_steps<T, F: Fn() -> T>(
    before: DependencyProvider,
    f: F,
    after: DependencyProvider,
)
    ensures
        before.registers(f, after) <==> after@ == register_step::<T, F>(f).apply(before@),
        before.unregisters::<T>(after) <==> after@ == unregister_step::<T>().apply(before@),
{
}

/// After a registration for `T`, the type has a provider function, and a
/// lookup may find every value that the registered factory may return. For
/// an encodable type it finds a value, and no other than those.
pub proof fn lemma_registered_is_found<T, F: Fn() -> T>(
    before: DependencyProvider,
    f: F,
    after: DependencyProvider,
    found: Option<T>,
)
    requires
        before.registers(f, after),
    ensures
        after.provides::<T>(),
        !after.supplies(None::<T>),
        found.is_some() && call_ensures(f, (), found.unwrap()) ==> after.supplies(found),
        encodable::<T>() && after.supplies(found) ==> found.is_some() && call_ensures(
            f,
            (),
            found.unwrap(),
        ),
{
    if found.is_some() {
        lemma_code_among(|value: T| call_ensures(f, (), value), found.unwrap());
    }
}

/// Of two registrations for one type the later one counts. The registry is
/// as if the first had never been made: a lookup finds what the second
/// factory may return, whatever the first would have returned.
pub proof fn lemma_last_registration_wins<T, F1: Fn() -> T, F2: Fn() -> T>(
    start: DependencyProvider,
    f1: F1,
    between: DependencyProvider,
    f2: F2,
    end: DependencyProvider,
    found: Option<T>,
)
    requires
        start.registers(f1, between),
        between.registers(f2, end),
    ensures
        start.registers(f2, end),
        found.is_some() && call_ensures(f2, (), found.unwrap()) ==> end.supplies(found),
        encodable::<T>() && end.supplies(found) ==> found.is_some() && call_ensures(
            f2,
            (),
            found.unwrap(),
        ),
{
    assert(end@ =~= start@.insert(type_token::<T>(), factory_codes(f2)));
    lemma_registered_is_found(start, f2, end, found);
}

/// A registration for `T` changes nothing for another type `U`: whether `U`
/// has a provider function, what that function may return, and what a
/// lookup of `U` may return all stay as they were. So a type that was never
/// registered is not found, however many others are.
pub proof fn lemma_registration_keeps_other_types<T, U, F: Fn() -> T>(
    before: DependencyProvider,
    f: F,
    after: DependencyProvider,
    found: Option<U>,
)
    requires
        before.registers(f, after),
        type_token::<U>() != type_token::<T>(),
    ensures
        after.provides::<U>() == before.provides::<U>(),
        after.provides::<U>() ==> after@[type_token::<U>()] == before@[type_token::<U>()],
        after.supplies(found) == before.supplies(found),
{
}

/// Registrations for two types can be made in either order: the registry is
/// the same.
pub proof fn lemma_registrations_commute<T, U, F: Fn() -> T, G: Fn() -> U>(
    start: DependencyProvider,
    f: F,
    g: G,
    first_f: DependencyProvider,
    f_then_g: DependencyProvider,
    first_g: DependencyProvider,
    g_then_f: DependencyProvider,
)
    requires
        type_token::<U>() != type_token::<T>(),
        start.registers(f, first_f),
        first_f.registers(g, f_then_g),
        start.registers(g, first_g),
        first_g.registers(f, g_then_f),
    ensures
        f_then_g@ == g_then_f@,
{
    assert(f_then_g@ =~= g_then_f@);
}

/// After the registration for `T` was removed, `T` has no provider function
/// and a lookup of `T` finds nothing.
pub proof fn lemma_unregistered_is_absent<T>(
    before: DependencyProvider,
    after: DependencyProvider,
    found: Option<T>,
)
    requires
        before.unregisters::<T>(after),
    ensures
        !after.provides::<T>(),
        after.supplies(found) <==> found.is_none(),
{
}

/// Removing the registration of a type that has none changes nothing.
pub proof fn lemma_unregister_absent_changes_nothing<T>(
    before: DependencyProvider,
    after: DependencyProvider,
)
    requires
        !before.provides::<T>(),
        before.unregisters::<T>(after),
    ensures
        after@ == before@,
{
    assert(after@ =~= before@);
}

/// Removing a registration twice is the same as removing it once.
pub proof fn lemma_unregister_twice_is_once<T>(
    before: DependencyProvider,
    once: DependencyProvider,
    twice: DependencyProvider,
)
    requires
        before.unregisters::<T>(once),
        once.unregisters::<T>(twice),
    ensures
        twice@ == once@,
        before.unregisters::<T>(twice),
{
    assert(twice@ =~= once@);
}

/// Removing the registration for `T` changes nothing for another type `U`:
/// whether `U` has a provider function, what that function may return, and
/// what a lookup of `U` may return all stay as they were.
pub proof fn lemma_unregister_keeps_other_types<T, U>(
    before: DependencyProvider,
    after: DependencyProvider,
    found: Option<U>,
)
    requires
        before.unregisters::<T>(after),
        type_token::<U>() != type_token::<T>(),
    ensures
        after.provides::<U>() == before.provides::<U>(),
        after.provides::<U>() ==> after@[type_token::<U>()] == before@[type_token::<U>()],
        after.supplies(found) == before.supplies(found),
{
}

/// After any number of registrations and removals, what a registry holds
/// for a type is decided by the last step that was about that type, however
/// many steps were about others. If it was a registration, the type has the
/// provider function registered then. If it was a removal, the type has
/// none. If no step was about the type, the type is as it was at the start.
pub proof fn lemma_last_step_decides(start: Map<int, Set<int>>, steps: Seq<Step>, token: int)
    ensures
        match last_step_about(steps, token) {
            Some(Step::Register { token: registered, codes }) => {
                &&& after_steps(start, steps).contains_key(token)
                &&& after_steps(start, steps)[token] == codes
            },
            Some(Step::Unregister { token: removed }) => !after_steps(start, steps).contains_key(
                token,
            ),
            None => {
                &&& after_steps(start, steps).contains_key(token) == start.contains_key(token)
                &&& start.contains_key(token) ==> after_steps(start, steps)[token] == start[token]
            },
        },
    decreases steps.len(),
{
    if steps.len() > 0 {
        lemma_last_step_decides(start, steps.drop_last(), token);
    }
}

/// A type that no step registers is not found after the steps in a registry
/// that held nothing, however many other types were registered.
pub proof fn lemma_never_registered_is_absent<T>(
    steps: Seq<Step>,
    provider: DependencyProvider,
    found: Option<T>,
)
    requires
        provider@ == after_steps(no_slots(), steps),
        forall|i: int| 0 <= i < steps.len() ==> (#[trigger] steps[i]).token() != type_token::<T>(),
    ensures
        !provider.provides::<T>(),
        provider.supplies(found) <==> found.is_none(),
{
    lemma_no_step_about(steps, type_token::<T>());
    lemma_last_step_decides(no_slots(), steps, type_token::<T>());
}

/// Where no step is about a token, there is no last step about it.
proof fn lemma_no_step_about(steps: Seq<Step>, token: int)
    requires
        forall|i: int| 0 <= i < steps.len() ==> (#[trigger] steps[i]).token() != token,
    ensures
        last_step_about(steps, token).is_none(),
    decreases steps.len(),
{
    if steps.len() > 0 {
        lemma_no_step_about(steps.drop_last(), token);
    }
}

} // verus!
