use vstd::prelude::*;

verus! {

/// The capability set of a fallible value, re-exposed under slang names.
///
/// Each method forwards to the standard operation named in its doc comment,
/// with an identical contract stated over `res_model`, the fallible value
/// that the receiver stands for.
pub trait GenZResult {
    type Inner;

    type ErrorType;

    /// The fallible value that `self` stands for, as contracts see it.
    spec fn res_model(&self) -> Result<Self::Inner, Self::ErrorType>;

    /// Returns `true` if the result is `Ok`, as `Result::is_ok` does.
    fn no_cap(&self) -> (r: bool)
        ensures
            r == (self.res_model() is Ok),
    ;

    /// Returns `true` if the result is `Ok` and the value inside matches a
    /// predicate, as `Result::is_ok_and` does. Consumes the result.
    fn no_cap_and<F: FnOnce(Self::Inner) -> bool>(self, f: F) -> (r: bool)
        requires
            self.res_model() matches Ok(v) ==> call_requires(f, (v,)),
        ensures
            self.res_model() matches Ok(v) ==> call_ensures(f, (v,), r),
            self.res_model() is Err ==> r == false,
    ;

    /// Returns `true` if the result is `Err`, as `Result::is_err` does.
    fn cap(&self) -> (r: bool)
        ensures
            r == (self.res_model() is Err),
    ;

    /// Returns `true` if the result is `Err` and the error inside matches a
    /// predicate, as `Result::is_err_and` does. Consumes the result.
    fn cap_and<F: FnOnce(Self::ErrorType) -> bool>(self, f: F) -> (r: bool)
        requires
            self.res_model() matches Err(e) ==> call_requires(f, (e,)),
        ensures
            self.res_model() matches Err(e) ==> call_ensures(f, (e,), r),
            self.res_model() is Ok ==> r == false,
    ;

    /// Converts the result into an optional success value, discarding the
    /// error if any, as `Result::ok` does.
    fn bet(self) -> (r: Option<Self::Inner>)
        ensures
            self.res_model() matches Ok(v) ==> r == Some(v),
            self.res_model() is Err ==> r is None,
    ;

    /// Maps `Result<T, E>` to `Result<U, E>` by applying a function to a
    /// contained `Ok` value, leaving an `Err` value untouched, as
    /// `Result::map` does.
    fn glow_up<U, F: FnOnce(Self::Inner) -> U>(self, op: F) -> (r: Result<U, Self::ErrorType>)
        requires
            self.res_model() matches Ok(v) ==> call_requires(op, (v,)),
        ensures
            self.res_model() matches Ok(v) ==> (r matches Ok(u) && call_ensures(op, (v,), u)),
            self.res_model() matches Err(e) ==> r == Err::<U, Self::ErrorType>(e),
    ;

    /// Returns the provided default (if `Err`) or applies a function to the
    /// contained value (if `Ok`), as `Result::map_or` does. The default is
    /// evaluated eagerly by the caller; prefer `glow_up_or_else` for the
    /// result of a function call.
    fn glow_up_or<U, F: FnOnce(Self::Inner) -> U>(self, default: U, f: F) -> (r: U)
        requires
            self.res_model() matches Ok(v) ==> call_requires(f, (v,)),
        ensures
            self.res_model() matches Ok(v) ==> call_ensures(f, (v,), r),
            self.res_model() is Err ==> r == default,
    ;

    /// Maps `Result<T, E>` to `U` by applying the fallback function to a
    /// contained `Err` value, or the main function to a contained `Ok` value,
    /// as `Result::map_or_else` does.
    fn glow_up_or_else<U, D: FnOnce(Self::ErrorType) -> U, F: FnOnce(Self::Inner) -> U>(
        self,
        default: D,
        f: F,
    ) -> (r: U)
        requires
            self.res_model() matches Err(e) ==> call_requires(default, (e,)),
            self.res_model() matches Ok(v) ==> call_requires(f, (v,)),
        ensures
            self.res_model() matches Ok(v) ==> call_ensures(f, (v,), r),
            self.res_model() matches Err(e) ==> call_ensures(default, (e,), r),
    ;

    /// Maps `Result<T, E>` to `Result<T, F>` by applying a function to a
    /// contained `Err` value, leaving an `Ok` value untouched, as
    /// `Result::map_err` does.
    fn vibe_check<F, O: FnOnce(Self::ErrorType) -> F>(self, op: O) -> (r: Result<Self::Inner, F>)
        requires
            self.res_model() matches Err(e) ==> call_requires(op, (e,)),
        ensures
            self.res_model() matches Ok(v) ==> r == Ok::<Self::Inner, F>(v),
            self.res_model() matches Err(e) ==> (r matches Err(x) && call_ensures(op, (e,), x)),
    ;

    /// Returns the contained `Ok` value, as `Result::expect` does.
    ///
    /// `Result::expect` panics on `Err` with a message built from `msg` and
    /// the error value, so a failed receiver is ruled out.
    fn based(self, msg: &str) -> (r: Self::Inner) where Self::ErrorType: core::fmt::Debug
        requires
            self.res_model() is Ok,
        ensures
            self.res_model() == Ok::<Self::Inner, Self::ErrorType>(r),
    ;

    /// Returns the contained `Ok` value, as `Result::unwrap` does.
    ///
    /// `Result::unwrap` panics on `Err` with a message built from the error
    /// value, so a failed receiver is ruled out.
    fn on_god(self) -> (r: Self::Inner) where Self::ErrorType: core::fmt::Debug
        requires
            self.res_model() is Ok,
        ensures
            self.res_model() == Ok::<Self::Inner, Self::ErrorType>(r),
    ;

    /// Returns the contained `Ok` value or the type's default value, as
    /// `Result::unwrap_or_default` does.
    fn on_god_or_basic(self) -> (r: Self::Inner) where Self::Inner: core::default::Default
        ensures
            self.res_model() matches Ok(v) ==> r == v,
            self.res_model() is Err ==> call_ensures(
                <Self::Inner as core::default::Default>::default,
                (),
                r,
            ),
    ;

    /// Returns the contained `Err` value, as `Result::expect_err` does.
    ///
    /// `Result::expect_err` panics on `Ok` with a message built from `msg`
    /// and the success value, so a successful receiver is ruled out.
    fn out_of_pocket(self, msg: &str) -> (r: Self::ErrorType) where Self::Inner: core::fmt::Debug
        requires
            self.res_model() is Err,
        ensures
            self.res_model() == Err::<Self::Inner, Self::ErrorType>(r),
    ;

    /// Returns the contained `Err` value, as `Result::unwrap_err` does.
    ///
    /// `Result::unwrap_err` panics on `Ok` with a message built from the
    /// success value, so a successful receiver is ruled out.
    fn big_yikes(self) -> (r: Self::ErrorType) where Self::Inner: core::fmt::Debug
        requires
            self.res_model() is Err,
        ensures
            self.res_model() == Err::<Self::Inner, Self::ErrorType>(r),
    ;

    /// Returns the contained `Ok` value or the provided default, as
    /// `Result::unwrap_or` does. The default is evaluated eagerly by the
    /// caller; prefer `on_god_or_else` for the result of a function call.
    fn on_god_or(self, default: Self::Inner) -> (r: Self::Inner)
        ensures
            self.res_model() matches Ok(v) ==> r == v,
            self.res_model() is Err ==> r == default,
    ;

    /// Returns the contained `Ok` value or computes it from the error with a
    /// closure, as `Result::unwrap_or_else` does.
    fn on_god_or_else<F: FnOnce(Self::ErrorType) -> Self::Inner>(self, op: F) -> (r: Self::Inner)
        requires
            self.res_model() matches Err(e) ==> call_requires(op, (e,)),
        ensures
            self.res_model() matches Ok(v) ==> r == v,
            self.res_model() matches Err(e) ==> call_ensures(op, (e,), r),
    ;
}

impl<T, E> GenZResult for Result<T, E> {
    type Inner = T;

    type ErrorType = E;

    open spec fn res_model(&self) -> Result<T, E> {
        *self
    }

    fn no_cap(&self) -> (r: bool)
        ensures
            r == (*self is Ok),
    {
        self.is_ok()
    }

    fn no_cap_and<F: FnOnce(T) -> bool>(self, f: F) -> (r: bool)
        ensures
            self matches Ok(v) ==> call_ensures(f, (v,), r),
            self is Err ==> r == false,
    {
        match self {
            Ok(v) => f(v),
            Err(_) => false,
        }
    }

    fn cap(&self) -> (r: bool)
        ensures
            r == (*self is Err),
    {
        self.is_err()
    }

    fn cap_and<F: FnOnce(E) -> bool>(self, f: F) -> (r: bool)
        ensures
            self matches Err(e) ==> call_ensures(f, (e,), r),
            self is Ok ==> r == false,
    {
        match self {
            Ok(_) => false,
            Err(e) => f(e),
        }
    }

    fn bet(self) -> (r: Option<T>)
        ensures
            self matches Ok(v) ==> r == Some(v),
            self is Err ==> r is None,
    {
        self.ok()
    }

    fn glow_up<U, F: FnOnce(T) -> U>(self, op: F) -> (r: Result<U, E>)
        ensures
            self matches Ok(v) ==> (r matches Ok(u) && call_ensures(op, (v,), u)),
            self matches Err(e) ==> r == Err::<U, E>(e),
    {
        self.map(op)
    }

    fn glow_up_or<U, F: FnOnce(T) -> U>(self, default: U, f: F) -> (r: U)
        ensures
            self matches Ok(v) ==> call_ensures(f, (v,), r),
            self is Err ==> r == default,
    {
        match self {
            Ok(v) => f(v),
            Err(_) => default,
        }
    }

    fn glow_up_or_else<U, D: FnOnce(E) -> U, F: FnOnce(T) -> U>(self, default: D, f: F) -> (r: U)
        ensures
            self matches Ok(v) ==> call_ensures(f, (v,), r),
            self matches Err(e) ==> call_ensures(default, (e,), r),
    {
        match self {
            Ok(v) => f(v),
            Err(e) => default(e),
        }
    }

    fn vibe_check<F, O: FnOnce(E) -> F>(self, op: O) -> (r: Result<T, F>)
        ensures
            self matches Ok(v) ==> r == Ok::<T, F>(v),
            self matches Err(e) ==> (r matches Err(x) && call_ensures(op, (e,), x)),
    {
        self.map_err(op)
    }

    fn based(self, msg: &str) -> (r: T) where E: core::fmt::Debug
        ensures
            self == Ok::<T, E>(r),
    {
        self.expect(msg)
    }

    fn on_god(self) -> (r: T) where E: core::fmt::Debug
        ensures
            self == Ok::<T, E>(r),
    {
        self.unwrap()
    }

    fn on_god_or_basic(self) -> (r: T) where T: core::default::Default
        ensures
            self matches Ok(v) ==> r == v,
            self is Err ==> call_ensures(<T as core::default::Default>::default, (), r),
    {
        self.ok().unwrap_or_default()
    }

    fn out_of_pocket(self, msg: &str) -> (r: E) where T: core::fmt::Debug
        ensures
            self == Err::<T, E>(r),
    {
        self.err().expect(msg)
    }

    fn big_yikes(self) -> (r: E) where T: core::fmt::Debug
        ensures
            self == Err::<T, E>(r),
    {
        self.unwrap_err()
    }

    fn on_god_or(self, default: T) -> (r: T)
        ensures
            self matches Ok(v) ==> r == v,
            self is Err ==> r == default,
    {
        match self {
            Ok(v) => v,
            Err(_) => default,
        }
    }

    fn on_god_or_else<F: FnOnce(E) -> T>(self, op: F) -> (r: T)
        ensures
            self matches Ok(v) ==> r == v,
            self matches Err(e) ==> call_ensures(op, (e,), r),
    {
        match self {
            Ok(v) => v,
            Err(e) => op(e),
        }
    }
}

/// Success and failure are exact opposites: every fallible value answers
/// the success check with the negation of the failure check.
pub proof fn lemma_success_failure_opposed<X: GenZResult>(x: X)
    ensures
        (x.res_model() is Ok) <==> !(x.res_model() is Err),
{
}

} // verus!
