//! Values written as integers.
//!
//! A registry is described by plain values: for each registered type, the
//! set of integers that stand for the values its factory may return. The
//! integer of a value is its code. Where the values of a type can be told
//! apart by integers at all, their codes tell them apart, and the set of
//! codes says exactly which values the factory may return. For a type with
//! more values than there are integers the codes of two values may be the
//! same, and the set says less.

use vstd::prelude::*;

verus! {

/// Whether `code` gives two different values two different integers.
pub open spec fn injective<T>(code: spec_fn(T) -> int) -> bool {
    forall|a: T, b: T| #[trigger] code(a) == #[trigger] code(b) ==> a == b
}

/// Whether the values of `T` can be told apart by integers.
pub open spec fn encodable<T>() -> bool {
    exists|code: spec_fn(T) -> int| injective(code)
}

/// The code of `value`: an integer that stands for it. Two values of an
/// encodable type have two codes.
pub open spec fn value_code<T>(value: T) -> int {
    (choose|code: spec_fn(T) -> int| injective(code))(value)
}

/// The codes of the values that `holds` is true of.
pub open spec fn codes_of<T>(holds: spec_fn(T) -> bool) -> Set<int> {
    Set::new(|code: int| exists|value: T| #[trigger] holds(value) && value_code(value) == code)
}

/// Two conditions that are true of the same values have the same codes.
pub proof fn lemma_same_codes<T>(one: spec_fn(T) -> bool, other: spec_fn(T) -> bool)
    requires
        forall|value: T| #[trigger] one(value) == other(value),
    ensures
        codes_of(one) == codes_of(other),
{
    assert(one =~= other);
}

/// A type is encodable as soon as one way of writing its values as integers
/// is shown that keeps them apart.
pub proof fn lemma_encodable_by<T>(code: spec_fn(T) -> int)
    requires
        injective(code),
    ensures
        encodable::<T>(),
{
}

/// The codes of an encodable type keep its values apart.
pub proof fn lemma_codes_keep_apart<T>(a: T, b: T)
    requires
        encodable::<T>(),
        value_code(a) == value_code(b),
    ensures
        a == b,
{
    let code = choose|code: spec_fn(T) -> int| injective(code);
    assert(code(a) == code(b));
}

/// The codes of an encodable type keep all its values apart.
pub proof fn lemma_codes_injective<T>()
    requires
        encodable::<T>(),
    ensures
        forall|a: T, b: T| #[trigger] value_code(a) == #[trigger] value_code(b) ==> a == b,
{
    assert forall|a: T, b: T| #[trigger] value_code(a) == #[trigger] value_code(b) implies a
        == b by {
        lemma_codes_keep_apart(a, b);
    }
}

/// For an encodable type, the code of a value is among the codes of the
/// values that `holds` is true of exactly when `holds` is true of it. For
/// any type it is among them when `holds` is true of it.
pub proof fn lemma_code_among<T>(holds: spec_fn(T) -> bool, value: T)
    ensures
        holds(value) ==> codes_of(holds).contains(value_code(value)),
        encodable::<T>() && codes_of(holds).contains(value_code(value)) ==> holds(value),
{
    if encodable::<T>() && codes_of(holds).contains(value_code(value)) {
        let other = choose|other: T| #[trigger]
            holds(other) && value_code(other) == value_code(value);
        lemma_codes_keep_apart(other, value);
    }
}

} // verus!
