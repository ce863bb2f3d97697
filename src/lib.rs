//! Conversion of an [`Option`] into an [`Either`]: a present value goes to the
//! right, and a fallback, given directly or made by a producer, goes to the left.
//!
//! Which side holds the present value carries no meaning of its own: the
//! conversion generalizes `Option::unwrap_or` to a fallback of another type.
use either::Either;
use vstd::prelude::*;

verus! {

/// `Either` with its two variants visible to contracts: `Left` holds an `L`,
/// `Right` holds an `R`.
#[verifier::external_type_specification]
#[verifier::reject_recursive_types(L)]
#[verifier::reject_recursive_types(R)]
pub struct ExEither<L, R>(Either<L, R>);

/// The eager conversion of `o` with fallback `l`: `Right` of the present value,
/// or `Left(l)` when there is none.
pub open spec fn either_or_spec<L, R>(o: Option<R>, l: L) -> Either<L, R> {
    match o {
        Some(v) => Either::Right(v),
        None => Either::Left(l),
    }
}

/// `r` is a possible outcome of the lazy conversion of `o` with producer `f`:
/// `Right` of the present value, or `Left` of a value that `f` may return.
pub open spec fn either_or_else_outcome<L, R, F: FnOnce() -> L>(
    o: Option<R>,
    f: F,
    r: Either<L, R>,
) -> bool {
    match o {
        Some(v) => r == Either::<L, R>::Right(v),
        None => r matches Either::Left(l) && f.ensures((), l),
    }
}

/// Conversion into [`Either`]: the value held goes to `Right`, a fallback to
/// `Left`.
pub trait OptionEitherOr {
    /// The type that goes to [`Either::Right`].
    type R;

    /// The optional value that `self` stands for.
    spec fn as_option(&self) -> Option<Self::R>;

    /// `Right` of the value held, or `Left` of what `f` returns when there is
    /// none. `f` is called only when there is no value, so it need be callable
    /// only then.
    fn either_or_else<F: FnOnce() -> L, L>(self, f: F) -> (r: Either<L, Self::R>)
        requires
            self.as_option() is None ==> f.requires(()),
        ensures
            either_or_else_outcome(self.as_option(), f, r),
    ;

    /// `Right` of the value held, or `Left(l)` when there is none.
    fn either_or<L>(self, l: L) -> (r: Either<L, Self::R>)
        where
            Self: Sized,
        ensures
            r == either_or_spec(self.as_option(), l),
    {
        let ghost fallback = l;
        self.either_or_else(move || -> (k: L)
            ensures
                k == fallback,
            { l })
    }
}

impl<T> OptionEitherOr for Option<T> {
    type R = T;

    open spec fn as_option(&self) -> Option<T> {
        *self
    }

    fn either_or_else<F: FnOnce() -> L, L>(self, f: F) -> (r: Either<L, T>) {
        match self {
            Some(v) => Either::Right(v),
            None => Either::Left(f()),
        }
    }
}

/// The lazy conversion has one outcome wherever its producer does: two calls
/// with equal inputs and a producer with at most one result give equal results.
pub proof fn lemma_either_or_else_deterministic<L, R, F: FnOnce() -> L>(o: Option<R>, f: F)
    requires
        forall|a: L, b: L| f.ensures((), a) && f.ensures((), b) ==> a == b,
    ensures
        forall|r1: Either<L, R>, r2: Either<L, R>|
            either_or_else_outcome(o, f, r1) && either_or_else_outcome(o, f, r2) ==> r1 == r2,
{
}

/// The eager conversion is a function of its inputs: two calls with equal
/// inputs give equal results.
pub proof fn lemma_either_or_deterministic<L, R>(o1: Option<R>, l1: L, o2: Option<R>, l2: L)
    requires
        o1 == o2,
        l1 == l2,
    ensures
        either_or_spec(o1, l1) == either_or_spec(o2, l2),
{
}

/// The eager conversion is the lazy one with a producer that returns the
/// fallback: with such a producer the lazy conversion has the eager result as
/// its only outcome.
pub proof fn lemma_either_or_is_lazy_with_constant<L, R, F: FnOnce() -> L>(o: Option<R>, l: L, f: F)
    requires
        f.ensures((), l),
        forall|k: L| f.ensures((), k) ==> k == l,
    ensures
        forall|r: Either<L, R>| either_or_else_outcome(o, f, r) <==> r == either_or_spec(o, l),
{
}

} // verus!
