use vstd::prelude::*;

verus! {

/// The capability set of an optional value, re-exposed under slang names.
///
/// Each method forwards to the standard operation named in its doc comment,
/// with an identical contract stated over `opt_model`, the optional value
/// that the receiver stands for.
pub trait GenZOption {
    type Inner;

    /// The optional value that `self` stands for, as contracts see it.
    spec fn opt_model(&self) -> Option<Self::Inner>;

    /// Returns `true` if the option is a `Some` value, as `Option::is_some` does.
    fn no_cap(&self) -> (r: bool)
        ensures
            r == (self.opt_model() is Some),
    ;

    /// Returns `true` if the option is a `Some` whose value matches a
    /// predicate, as `Option::is_some_and` does. Consumes the option.
    fn no_cap_and<F: FnOnce(Self::Inner) -> bool>(self, f: F) -> (r: bool)
        requires
            self.opt_model() matches Some(v) ==> call_requires(f, (v,)),
        ensures
            self.opt_model() matches Some(v) ==> call_ensures(f, (v,), r),
            self.opt_model() is None ==> r == false,
    ;

    /// Returns `true` if the option is a `None` value, as `Option::is_none` does.
    fn cap(&self) -> (r: bool)
        ensures
            r == (self.opt_model() is None),
    ;

    /// Maps `Option<T>` to `Option<U>` by applying a function to a contained
    /// value (if present) or keeping `None` (if absent), as `Option::map` does.
    fn glow_up<U, F: FnOnce(Self::Inner) -> U>(self, op: F) -> (r: Option<U>)
        requires
            self.opt_model() matches Some(v) ==> call_requires(op, (v,)),
        ensures
            self.opt_model() matches Some(v) ==> (r matches Some(u) && call_ensures(
                op,
                (v,),
                u,
            )),
            self.opt_model() is None ==> r is None,
    ;

    /// Returns the provided default (if absent) or applies a function to the
    /// contained value (if present), as `Option::map_or` does. The default is
    /// evaluated eagerly by the caller; prefer `glow_up_or_else` for the
    /// result of a function call.
    fn glow_up_or<U, F: FnOnce(Self::Inner) -> U>(self, default: U, f: F) -> (r: U)
        requires
            self.opt_model() matches Some(v) ==> call_requires(f, (v,)),
        ensures
            self.opt_model() matches Some(v) ==> call_ensures(f, (v,), r),
            self.opt_model() is None ==> r == default,
    ;

    /// Computes a default function result (if absent) or applies a different
    /// function to the contained value (if present), as `Option::map_or_else`
    /// does. The default closure only runs on the absent path.
    fn glow_up_or_else<U, D: FnOnce() -> U, F: FnOnce(Self::Inner) -> U>(
        self,
        default: D,
        f: F,
    ) -> (r: U)
        requires
            self.opt_model() is None ==> call_requires(default, ()),
            self.opt_model() matches Some(v) ==> call_requires(f, (v,)),
        ensures
            self.opt_model() matches Some(v) ==> call_ensures(f, (v,), r),
            self.opt_model() is None ==> call_ensures(default, (), r),
    ;

    /// Transforms the option into a fallible value, mapping `Some(v)` to
    /// `Ok(v)` and `None` to `Err(err)`, as `Option::ok_or` does. The error is
    /// evaluated eagerly by the caller; prefer `bet_or_else` for the result of
    /// a function call.
    fn bet_or<E>(self, err: E) -> (r: Result<Self::Inner, E>)
        ensures
            self.opt_model() matches Some(v) ==> r == Ok::<Self::Inner, E>(v),
            self.opt_model() is None ==> r == Err::<Self::Inner, E>(err),
    ;

    /// Transforms the option into a fallible value, mapping `Some(v)` to
    /// `Ok(v)` and `None` to `Err(err())`, as `Option::ok_or_else` does. The
    /// error closure only runs on the absent path.
    fn bet_or_else<E, F: FnOnce() -> E>(self, err: F) -> (r: Result<Self::Inner, E>)
        requires
            self.opt_model() is None ==> call_requires(err, ()),
        ensures
            self.opt_model() matches Some(v) ==> r == Ok::<Self::Inner, E>(v),
            self.opt_model() is None ==> (r matches Err(e) && call_ensures(err, (), e)),
    ;

    /// Returns the contained `Some` value, as `Option::expect` does.
    ///
    /// `Option::expect` panics on `None` with the message given by `msg`, so
    /// an absent receiver is ruled out.
    fn based(self, msg: &str) -> (r: Self::Inner)
        requires
            self.opt_model() is Some,
        ensures
            self.opt_model() == Some(r),
    ;

    /// Returns the contained `Some` value, as `Option::unwrap` does.
    ///
    /// `Option::unwrap` panics on `None`, so an absent receiver is ruled out.
    fn on_god(self) -> (r: Self::Inner)
        requires
            self.opt_model() is Some,
        ensures
            self.opt_model() == Some(r),
    ;

    /// Returns the contained `Some` value or the provided default, as
    /// `Option::unwrap_or` does. The default is evaluated eagerly by the caller.
    fn on_god_or(self, default: Self::Inner) -> (r: Self::Inner)
        ensures
            self.opt_model() matches Some(v) ==> r == v,
            self.opt_model() is None ==> r == default,
    ;

    /// Returns the contained `Some` value or computes it from a closure, as
    /// `Option::unwrap_or_else` does. The closure only runs on the absent path.
    fn on_god_or_else<F: FnOnce() -> Self::Inner>(self, f: F) -> (r: Self::Inner)
        requires
            self.opt_model() is None ==> call_requires(f, ()),
        ensures
            self.opt_model() matches Some(v) ==> r == v,
            self.opt_model() is None ==> call_ensures(f, (), r),
    ;

    /// Returns the contained `Some` value or the type's default value, as
    /// `Option::unwrap_or_default` does.
    fn on_god_or_basic(self) -> (r: Self::Inner) where Self::Inner: core::default::Default
        ensures
            self.opt_model() matches Some(v) ==> r == v,
            self.opt_model() is None ==> call_ensures(
                <Self::Inner as core::default::Default>::default,
                (),
                r,
            ),
    ;
}

impl<T> GenZOption for Option<T> {
    type Inner = T;

    open spec fn opt_model(&self) -> Option<T> {
        *self
    }

    fn no_cap(&self) -> (r: bool)
        ensures
            r == (*self is Some),
    {
        self.is_some()
    }

    fn no_cap_and<F: FnOnce(T) -> bool>(self, f: F) -> (r: bool)
        ensures
            self matches Some(v) ==> call_ensures(f, (v,), r),
            self is None ==> r == false,
    {
        match self {
            Some(v) => f(v),
            None => false,
        }
    }

    fn cap(&self) -> (r: bool)
        ensures
            r == (*self is None),
    {
        self.is_none()
    }

    fn glow_up<U, F: FnOnce(T) -> U>(self, op: F) -> (r: Option<U>)
        ensures
            self matches Some(v) ==> (r matches Some(u) && call_ensures(op, (v,), u)),
            self is None ==> r is None,
    {
        self.map(op)
    }

    fn glow_up_or<U, F: FnOnce(T) -> U>(self, default: U, f: F) -> (r: U)
        ensures
            self matches Some(v) ==> call_ensures(f, (v,), r),
            self is None ==> r == default,
    {
        match self {
            Some(v) => f(v),
            None => default,
        }
    }

    fn glow_up_or_else<U, D: FnOnce() -> U, F: FnOnce(T) -> U>(self, default: D, f: F) -> (r: U)
        ensures
            self matches Some(v) ==> call_ensures(f, (v,), r),
            self is None ==> call_ensures(default, (), r),
    {
        match self {
            Some(v) => f(v),
            None => default(),
        }
    }

    fn bet_or<E>(self, err: E) -> (r: Result<T, E>)
        ensures
            self matches Some(v) ==> r == Ok::<T, E>(v),
            self is None ==> r == Err::<T, E>(err),
    {
        self.ok_or(err)
    }

    fn bet_or_else<E, F: FnOnce() -> E>(self, err: F) -> (r: Result<T, E>)
        ensures
            self matches Some(v) ==> r == Ok::<T, E>(v),
            self is None ==> (r matches Err(e) && call_ensures(err, (), e)),
    {
        self.ok_or_else(err)
    }

    fn based(self, msg: &str) -> (r: T)
        ensures
            self == Some(r),
    {
        self.expect(msg)
    }

    fn on_god(self) -> (r: T)
        ensures
            self == Some(r),
    {
        self.unwrap()
    }

    fn on_god_or(self, default: T) -> (r: T)
        ensures
            self matches Some(v) ==> r == v,
            self is None ==> r == default,
    {
        self.unwrap_or(default)
    }

    fn on_god_or_else<F: FnOnce() -> T>(self, f: F) -> (r: T)
        ensures
            self matches Some(v) ==> r == v,
            self is None ==> call_ensures(f, (), r),
    {
        self.unwrap_or_else(f)
    }

    fn on_god_or_basic(self) -> (r: T) where T: core::default::Default
        ensures
            self matches Some(v) ==> r == v,
            self is None ==> call_ensures(<T as core::default::Default>::default, (), r),
    {
        self.unwrap_or_default()
    }
}

/// Presence and absence are exact opposites: every optional value answers
/// the presence check with the negation of the absence check.
pub proof fn lemma_presence_absence_opposed<X: GenZOption>(x: X)
    ensures
        (x.opt_model() is Some) <==> !(x.opt_model() is None),
{
}

/// Collapsing one level of nesting in a doubly-optional value.
pub open spec fn flattened<T>(x: Option<Option<T>>) -> Option<T> {
    match x {
        Some(inner) => inner,
        None => None,
    }
}

/// Flattening removes exactly one nesting level, and is idempotent once the
/// outer payload is no longer nested: a present inner value survives, a
/// present-but-empty inner level and an absent outer level both collapse to
/// absent, and re-wrapping a flattened value flattens back to itself.
pub proof fn lemma_flatten_one_level<T>(x: Option<Option<T>>, v: T)
    ensures
        flattened(Some(Some(v))) == Some(v),
        flattened(Some(None::<T>)) == None::<T>,
        flattened(None::<Option<T>>) == None::<T>,
        flattened(Some(flattened(x))) == flattened(x),
{
}

/// The extra capability of a doubly-nested optional value: collapsing one
/// level of nesting, under a slang name.
pub trait GenZNestedOption: GenZOption {
    type InnerInner;

    /// The doubly-optional value that `self` stands for, as contracts see it.
    spec fn nested_model(&self) -> Option<Option<Self::InnerInner>>;

    /// Converts from `Option<Option<T>>` to `Option<T>`, as `Option::flatten`
    /// does. Flattening only removes one level of nesting at a time.
    fn on_a_stack(self) -> (r: Option<Self::InnerInner>)
        ensures
            r == flattened(self.nested_model()),
    ;
}

impl<T> GenZNestedOption for Option<Option<T>> {
    type InnerInner = T;

    open spec fn nested_model(&self) -> Option<Option<T>> {
        *self
    }

    fn on_a_stack(self) -> (r: Option<T>)
        ensures
            r == flattened(self),
    {
        match self {
            Some(inner) => inner,
            None => None,
        }
    }
}

} // verus!
