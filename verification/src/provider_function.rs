//! A zero-argument factory behind one type, whatever closure it was made of.

use vstd::prelude::*;

verus! {

/// What a stored factory can do, with the closure's own type erased.
///
/// Every closure that takes nothing, returns a `T` and may be shared between
/// threads is a factory, and its contract is the closure's contract.
trait Factory<T>: Send + Sync {
    /// Whether the factory may be invoked.
    spec fn ready(&self) -> bool;

    /// Whether `value` is a value that an invocation may return.
    spec fn produces(&self, value: T) -> bool;

    fn produce(&self) -> (value: T)
        requires
            self.ready(),
        ensures
            self.produces(value),
    ;
}

impl<T, F: Fn() -> T + Send + Sync> Factory<T> for F {
    spec fn ready(&self) -> bool {
        call_requires(*self, ())
    }

    spec fn produces(&self, value: T) -> bool {
        call_ensures(*self, (), value)
    }

    fn produce(&self) -> (value: T) {
        self()
    }
}

/// A factory for values of type `T`.
///
/// It is made once and never changes. It may be invoked any number of times,
/// and every invocation runs the factory again: nothing is cached.
#[verifier::reject_recursive_types(T)]
pub struct ProviderFunction<T>(Box<dyn Factory<T>>);

impl<T> ProviderFunction<T> {
    /// A provider function can always be invoked.
    #[verifier::type_invariant]
    spec fn can_be_invoked(&self) -> bool {
        self.0.ready()
    }

    /// Whether `value` is a value that an invocation of this factory may
    /// return.
    pub closed spec fn yields(&self, value: T) -> bool {
        self.0.produces(value)
    }

    /// Whether this provider function returns exactly what `f` returns.
    pub open spec fn wraps<F: Fn() -> T>(&self, f: F) -> bool {
        forall|value: T| #[trigger] self.yields(value) <==> call_ensures(f, (), value)
    }

    /// Wraps the factory `f`.
    pub fn new<F>(f: F) -> (provider: Self) where F: Fn() -> T + 'static + Send + Sync
        requires
            call_requires(f, ()),
        ensures
            provider.wraps(f),
    {
        ProviderFunction(Box::new(f))
    }

    /// Runs the factory and returns the value it made.
    pub fn call(&self) -> (value: T)
        ensures
            self.yields(value),
    {
        proof {
            use_type_invariant(self);
        }
        self.0.produce()
    }
}

} // verus!
