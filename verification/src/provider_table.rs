//! The table that holds one provider function for each dependency type.
//!
//! The table is a `typemap::ShareMap`. Its type is out of Verus's reach, so
//! it is kept in a struct that Verus does not look into, and everything
//! known of it is what the contracts of the functions in this file say.
//! None of them is proved: each states what the method it calls does.
//!
//! The table is described as a map from integers to sets of integers. A key
//! is the token of a type that has a provider function. The value under it
//! is the set of the codes of the values which that provider function may
//! return.

use crate::encoding::codes_of;
use crate::provider_function::ProviderFunction;
use core::any::TypeId;
use core::marker::PhantomData;
use vstd::prelude::*;

verus! {

/// The key under which the provider function for `T` is kept.
struct Dependency<T: 'static>(PhantomData<T>);

impl<T: 'static> typemap::Key for Dependency<T> {
    type Value = ProviderFunction<T>;
}

/// Carries the token of `T`. No value of it is ever made.
struct TypeTag<T> {
    token: int,
    marker: PhantomData<T>,
}

/// The integer that stands for the type `T` wherever a table is described:
/// the identity that Rust gives to the type, read as an integer.
///
/// It is left unspecified. One type has one token, and whether two types
/// have the same is known only from `types_equal`.
pub closed spec fn type_token<T>() -> int {
    arbitrary::<TypeTag<T>>().token
}

/// The codes of the values that `provider` may return.
pub open spec fn yield_codes<T>(provider: ProviderFunction<T>) -> Set<int> {
    codes_of(|value: T| provider.yields(value))
}

/// A table with at most one provider function for each type: a
/// `typemap::ShareMap`, which Verus does not look into.
#[verifier::external_body]
pub struct ProviderTable {
    map: typemap::ShareMap,
}

/// What a table holds: under the token of each type that has a provider
/// function, the codes of the values which that function may return.
pub uninterp spec fn slots(table: ProviderTable) -> Map<int, Set<int>>;

/// The table's contents when it holds nothing.
pub open spec fn no_slots() -> Map<int, Set<int>> {
    Map::empty()
}

/// Compares `core::any::TypeId::of` of the two types: two types have the
/// same token exactly when they are the same type.
#[verifier::external_body]
pub(crate) fn types_equal<T: 'static, U: 'static>() -> (same: bool)
    ensures
        same == (type_token::<T>() == type_token::<U>()),
{
    TypeId::of::<T>() == TypeId::of::<U>()
}

/// Calls `typemap::TypeMap::custom`, which makes a table that holds nothing.
#[verifier::external_body]
pub(crate) fn table_new() -> (table: ProviderTable)
    ensures
        slots(table) == no_slots(),
{
    ProviderTable { map: typemap::TypeMap::custom() }
}

/// Calls `typemap::TypeMap::insert` and drops what it returns. Afterwards
/// the slot of `T` holds `provider`, whether or not it held anything before,
/// and every other slot is as it was.
#[verifier::external_body]
pub(crate) fn table_insert<T: 'static>(table: &mut ProviderTable, provider: ProviderFunction<T>)
    ensures
        slots(*final(table)) == slots(*old(table)).insert(type_token::<T>(), yield_codes(provider)),
{
    table.map.insert::<Dependency<T>>(provider);
}

/// Calls `typemap::TypeMap::remove` and drops what it returns. Afterwards
/// the slot of `T` is empty, whether or not it held anything before, and
/// every other slot is as it was.
#[verifier::external_body]
pub(crate) fn table_remove<T: 'static>(table: &mut ProviderTable)
    ensures
        slots(*final(table)) == slots(*old(table)).remove(type_token::<T>()),
{
    table.map.remove::<Dependency<T>>();
}

/// Calls `typemap::TypeMap::get`, which returns the provider function in
/// the slot of `T` if that slot holds one, and nothing if it is empty. The
/// one it returns is the one that was put in last: it may return the values
/// whose codes the slot holds.
#[verifier::external_body]
pub(crate) fn table_get<T: 'static>(table: &ProviderTable) -> (found: Option<&ProviderFunction<T>>)
    ensures
        found.is_some() == slots(*table).contains_key(type_token::<T>()),
        found.is_some() ==> yield_codes(*found.unwrap()) == slots(*table)[type_token::<T>()],
{
    table.map.get::<Dependency<T>>()
}

} // verus!
