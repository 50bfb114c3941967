//! The state of a registry that a whole program shares: empty until a
//! provider is installed, and from then on holding the one installed last.
//!
//! The holder is a plain value. Whoever shares it between threads puts it
//! behind a lock, takes the lock for writing around `init` and for reading
//! around the lookups.

use crate::dependency_provider::DependencyProvider;
use vstd::prelude::*;

verus! {

/// What is wrong in a program that asks the holder for a dependency it
/// cannot give. Neither is a condition to recover from: the program is
/// wired wrongly.
#[derive(Debug, Clone, Copy, PartialEq, Eq, Structural)]
pub enum UsageFault {
    /// No provider was ever installed.
    NotInitialized,
    /// A provider is installed, and it has no provider function for the
    /// type that was asked for.
    NotRegistered,
}

impl UsageFault {
    /// The words of the fault, as `message` returns them.
    pub open spec fn message_text(self) -> Seq<char> {
        match self {
            UsageFault::NotInitialized => {
                "tried to use global dependency provider without calling init()"@
            },
            UsageFault::NotRegistered => "No provider function registered for dependency"@,
        }
    }

    /// The words with which a program that meets the fault stops. To those
    /// of a missing registration the caller adds the name of the type.
    pub fn message(self) -> (text: &'static str)
        ensures
            text@ == self.message_text(),
    {
        match self {
            UsageFault::NotInitialized => {
                "tried to use global dependency provider without calling init()"
            },
            UsageFault::NotRegistered => "No provider function registered for dependency",
        }
    }
}

/// The holder of the provider that a program shares.
pub struct GlobalRegistry {
    installed: Option<DependencyProvider>,
}

impl GlobalRegistry {
    /// The provider that is installed, if one is.
    pub closed spec fn current(&self) -> Option<DependencyProvider> {
        self.installed
    }

    /// The holder as it is before any provider was installed.
    pub fn new() -> (registry: Self)
        ensures
            registry.current().is_none(),
    {
        GlobalRegistry { installed: None }
    }

    /// Whether a provider was installed.
    pub fn is_initialized(&self) -> (initialized: bool)
        ensures
            initialized == self.current().is_some(),
    {
        self.installed.is_some()
    }
}

/// Installs `provider`. A provider that was installed before is dropped as a
/// whole: nothing of it is merged into the new one.
pub fn init(registry: &mut GlobalRegistry, provider: DependencyProvider)
    ensures
        final(registry).current() == Some(provider),
{
    registry.installed = Some(provider);
}

/// Makes an instance of `T` with the installed provider. Returns `None` if
/// that provider has no provider function for `T`.
///
/// A provider must have been installed: to ask before `init` is a fault of
/// the program, not a case that this function answers. `try_get_dependency`
/// is for the caller who cannot know.
pub fn get_dependency<T: 'static>(registry: &GlobalRegistry) -> (found: Option<T>)
    requires
        registry.current().is_some(),
    ensures
        registry.current().unwrap().supplies(found),
{
    match &registry.installed {
        Some(provider) => provider.get::<T>(),
        None => None,
    }
}

/// Makes an instance of `T` with the installed provider, or says that none
/// is installed. With a provider installed the answer is that of
/// `get_dependency`.
pub fn try_get_dependency<T: 'static>(registry: &GlobalRegistry) -> (answer: Result<
    Option<T>,
    UsageFault,
>)
    ensures
        answer.is_ok() == registry.current().is_some(),
        answer matches Ok(found) ==> registry.current().unwrap().supplies(found),
        answer matches Err(fault) ==> fault == UsageFault::NotInitialized,
{
    if registry.is_initialized() {
        Ok(get_dependency::<T>(registry))
    } else {
        Err(UsageFault::NotInitialized)
    }
}

/// Makes an instance of `T` with the installed provider, for a caller to
/// whom the dependency is not optional: that no provider is installed, and
/// that the installed one has no provider function for `T`, are the two
/// faults it tells apart.
pub fn inject<T: 'static>(registry: &GlobalRegistry) -> (answer: Result<T, UsageFault>)
    ensures
        answer.is_ok() == (registry.current().is_some()
            && registry.current().unwrap().provides::<T>()),
        answer matches Ok(value) ==> registry.current().unwrap().may_yield(value),
        answer matches Err(fault) ==> (fault == UsageFault::NotInitialized)
            == registry.current().is_none(),
{
    match try_get_dependency::<T>(registry) {
        Ok(Some(value)) => Ok(value),
        Ok(None) => Err(UsageFault::NotRegistered),
        Err(fault) => Err(fault),
    }
}

} // verus!
