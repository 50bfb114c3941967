//! The registry: one provider function for each dependency type.

use crate::encoding::{codes_of, lemma_code_among, lemma_same_codes, value_code};
use crate::provider_function::ProviderFunction;
use crate::provider_table::{
    no_slots, slots, table_get, table_insert, table_new, table_remove, type_token, types_equal,
    yield_codes, ProviderTable,
};
use vstd::prelude::*;

verus! {

/// Whether `T` and `U` are the same type. Two types are told apart in the
/// description of a registry by their tokens, and this is how a caller
/// learns whether the tokens of two given types differ.
pub fn same_type<T: 'static, U: 'static>() -> (same: bool)
    ensures
        same == (type_token::<T>() == type_token::<U>()),
{
    types_equal::<T, U>()
}

/// The codes of the values that the factory `f` may return.
pub open spec fn factory_codes<T, F: Fn() -> T>(f: F) -> Set<int> {
    codes_of(|value: T| call_ensures(f, (), value))
}

/// A provider for dependencies.
///
/// A provider function can be registered for each dependency type. A type
/// has at most one: registering again replaces what was there.
pub struct DependencyProvider {
    providers: ProviderTable,
}

impl View for DependencyProvider {
    type V = Map<int, Set<int>>;

    /// Under the token of each registered type, the codes of the values
    /// that its provider function may return.
    closed spec fn view(&self) -> Map<int, Set<int>> {
        slots(self.providers)
    }
}

impl DependencyProvider {
    /// Whether a provider function is registered for `T`.
    pub open spec fn provides<T>(&self) -> bool {
        self@.contains_key(type_token::<T>())
    }

    /// Whether a provider function is registered for `T` and the code of
    /// `value` is the code of a value that it may return. For an encodable
    /// type that is to say that it may return `value`.
    pub open spec fn may_yield<T>(&self, value: T) -> bool {
        self.provides::<T>() && self@[type_token::<T>()].contains(value_code(value))
    }

    /// Whether `after` is this registry with `f` registered for `T`: the
    /// slot of `T` holds what `f` may return, and every other slot is as it
    /// was.
    pub open spec fn registers<T, F: Fn() -> T>(&self, f: F, after: Self) -> bool {
        after@ == self@.insert(type_token::<T>(), factory_codes(f))
    }

    /// Whether `after` is this registry without a provider function for `T`,
    /// and with every other slot as it was.
    pub open spec fn unregisters<T>(&self, after: Self) -> bool {
        after@ == self@.remove(type_token::<T>())
    }

    /// Whether `found` is what a lookup of `T` may return: nothing where no
    /// provider function is registered for `T`, and else a value that the
    /// registered one may return.
    pub open spec fn supplies<T>(&self, found: Option<T>) -> bool {
        match found {
            Some(value) => self.may_yield(value),
            None => !self.provides::<T>(),
        }
    }

    /// Creates a registry without any registered provider function.
    pub fn new() -> (provider: Self)
        ensures
            provider@ == no_slots(),
    {
        DependencyProvider { providers: table_new() }
    }

    /// Registers `f` as the provider function for its return type `T`.
    ///
    /// The registry is taken and handed back, so that registrations can be
    /// chained. Registering a type again is allowed: the function registered
    /// last is the one that is used.
    ///
    /// `f` must be a factory that may be invoked at any time.
    pub fn register<T, F>(self, f: F) -> (after: Self) where
        F: Fn() -> T + 'static + Send + Sync,
        T: 'static,

        requires
            call_requires(f, ()),
        ensures
            self.registers(f, after),
    {
        let mut after = self;
        let provider = ProviderFunction::new(f);
        proof {
            lemma_same_codes(
                |value: T| provider.yields(value),
                |value: T| call_ensures(f, (), value),
            );
        }
        table_insert::<T>(&mut after.providers, provider);
        after
    }

    /// Registers the type's `Default` implementation as the provider function
    /// for `T`.
    pub fn register_default<T>(self) -> (after: Self) where T: Default + 'static
        ensures
            self.registers(T::default, after),
    {
        self.register(T::default)
    }

    /// Removes the provider function registered for `T`, if there is one.
    /// Every other registration stays.
    pub fn unregister<T>(&mut self) where T: 'static
        ensures
            old(self).unregisters::<T>(*final(self)),
    {
        table_remove::<T>(&mut self.providers);
    }

    /// Makes an instance of `T` by calling the provider function registered
    /// for it. Returns `None` if none is registered.
    pub fn get<T>(&self) -> (found: Option<T>) where T: 'static
        ensures
            self.supplies(found),
    {
        match table_get::<T>(&self.providers) {
            Some(provider) => {
                let value = provider.call();
                proof {
                    lemma_code_among(|other: T| provider.yields(other), value);
                }
                Some(value)
            },
            None => None,
        }
    }
}

impl Default for DependencyProvider {
    fn default() -> (provider: Self)
        ensures
            provider@ == no_slots(),
    {
        Self::new()
    }
}

} // verus!
