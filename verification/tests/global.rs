use dependency_provider::global_provider::{
    get_dependency, init, try_get_dependency, GlobalRegistry, UsageFault,
};
use dependency_provider::DependencyProvider;

#[derive(Debug, Eq, PartialEq)]
struct A;

#[derive(Debug, Eq, PartialEq)]
struct B(i32);

#[derive(Debug, Eq, PartialEq)]
struct C;

fn checked_get<T: 'static>(registry: &GlobalRegistry) -> Option<T> {
    match try_get_dependency::<T>(registry) {
        Ok(found) => found,
        Err(fault) => panic!("{}", fault.message()),
    }
}

fn checked_inject<T: 'static>(registry: &GlobalRegistry) -> T {
    match dependency_provider::global_provider::inject::<T>(registry) {
        Ok(value) => value,
        Err(fault) => panic!("{}", fault.message()),
    }
}

#[test]
fn global_provider() {
    let mut registry = GlobalRegistry::new();
    init(&mut registry, DependencyProvider::new().register(|| A).register(|| B(0)));

    let a = checked_get::<A>(&registry);
    assert_eq!(Some(A), a);
    let b = checked_get::<B>(&registry);
    assert_eq!(Some(B(0)), b);
    let c = checked_get::<C>(&registry);
    assert_eq!(None, c);
}

#[test]
#[should_panic]
fn without_init() {
    let registry = GlobalRegistry::new();
    let _a = checked_get::<A>(&registry);
}

#[test]
fn without_register() {
    let mut registry = GlobalRegistry::new();
    init(&mut registry, DependencyProvider::new());
    let a = checked_get::<A>(&registry);
    assert_eq!(None, a);
}

#[test]
fn inject() {
    let mut registry = GlobalRegistry::new();
    init(&mut registry, DependencyProvider::new().register(|| A));
    let a: A = checked_inject::<A>(&registry);
    assert_eq!(A, a);
}

#[test]
fn inject_mut() {
    let mut registry = GlobalRegistry::new();
    init(&mut registry, DependencyProvider::new().register(|| A));
    let mut a: A = checked_inject::<A>(&registry);
    assert_eq!(A, a);
    a = A; // must be mut
    assert_eq!(A, a); // must be read
}

#[test]
#[should_panic]
fn inject_without_init() {
    let registry = GlobalRegistry::new();
    let _a: A = checked_inject::<A>(&registry);
}

#[test]
#[should_panic]
fn inject_without_register() {
    let mut registry = GlobalRegistry::new();
    init(&mut registry, DependencyProvider::new());
    let _a: A = checked_inject::<A>(&registry);
}

#[test]
fn new_registry_is_not_initialized() {
    let registry = GlobalRegistry::new();
    assert!(!registry.is_initialized());
}

#[test]
fn init_marks_initialized() {
    let mut registry = GlobalRegistry::new();
    init(&mut registry, DependencyProvider::new());
    assert!(registry.is_initialized());
}

#[test]
fn init_again_replaces_wholesale() {
    let mut registry = GlobalRegistry::new();
    init(&mut registry, DependencyProvider::new().register(|| A).register(|| B(0)));
    assert_eq!(Some(A), get_dependency::<A>(&registry));
    assert_eq!(Some(B(0)), get_dependency::<B>(&registry));
    init(&mut registry, DependencyProvider::new().register(|| B(42)));
    assert!(registry.is_initialized());
    assert_eq!(None, get_dependency::<A>(&registry));
    assert_eq!(Some(B(42)), get_dependency::<B>(&registry));
    init(&mut registry, DependencyProvider::new());
    assert!(registry.is_initialized());
    assert_eq!(None, get_dependency::<B>(&registry));
}

#[test]
fn try_get_dependency_before_init_is_a_fault() {
    let registry = GlobalRegistry::new();
    assert_eq!(Err(UsageFault::NotInitialized), try_get_dependency::<A>(&registry));
    assert_eq!(Err(UsageFault::NotInitialized), try_get_dependency::<B>(&registry));
}

#[test]
fn try_get_dependency_after_init_answers() {
    let mut registry = GlobalRegistry::new();
    init(&mut registry, DependencyProvider::new().register(|| B(3)));
    assert_eq!(Ok(Some(B(3))), try_get_dependency::<B>(&registry));
    assert_eq!(Ok(None), try_get_dependency::<A>(&registry));
}

#[test]
fn inject_tells_the_two_faults_apart() {
    let mut registry = GlobalRegistry::new();
    assert_eq!(
        Err(UsageFault::NotInitialized),
        dependency_provider::global_provider::inject::<A>(&registry)
    );
    init(&mut registry, DependencyProvider::new());
    assert_eq!(
        Err(UsageFault::NotRegistered),
        dependency_provider::global_provider::inject::<A>(&registry)
    );
    init(&mut registry, DependencyProvider::new().register(|| B(1)));
    assert_eq!(
        Err(UsageFault::NotRegistered),
        dependency_provider::global_provider::inject::<A>(&registry)
    );
    assert_eq!(Ok(B(1)), dependency_provider::global_provider::inject::<B>(&registry));
}

#[test]
fn inject_yields_registered_value() {
    let mut registry = GlobalRegistry::new();
    init(&mut registry, DependencyProvider::new().register(|| B(5)).register(|| A));
    let b: B = checked_inject::<B>(&registry);
    assert_eq!(B(5), b);
    let mut a: A = checked_inject::<A>(&registry);
    assert_eq!(A, a);
    a = A;
    assert_eq!(A, a);
}

#[test]
fn fault_messages() {
    assert_eq!(
        "tried to use global dependency provider without calling init()",
        UsageFault::NotInitialized.message()
    );
    assert_eq!(
        "No provider function registered for dependency",
        UsageFault::NotRegistered.message()
    );
}
