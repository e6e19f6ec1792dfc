use vstd::prelude::*;

verus! {

/// A configuration value that is either chosen automatically or given.
#[derive(Clone, Copy, Debug)]
pub enum Auto<T> {
    Auto,
    Value(T),
}

impl<T> Auto<T> {
    /// The given value, or the result of `f` when the value is chosen automatically.
    pub fn unwrap_or_else<F: FnOnce() -> T>(self, f: F) -> (r: T)
        requires
            self is Auto ==> f.requires(()),
        ensures
            match self {
                Auto::Value(x) => r == x,
                Auto::Auto => f.ensures((), r),
            },
    {
        match self {
            Auto::Value(x) => x,
            Auto::Auto => f(),
        }
    }

    /// Whether a value is given and satisfies `f`.
    pub fn is_value_and(self, f: impl FnOnce(T) -> bool) -> (r: bool)
        requires
            self matches Auto::Value(x) ==> f.requires((x,)),
        ensures
            match self {
                Auto::Auto => !r,
                Auto::Value(x) => f.ensures((x,), r),
            },
    {
        match self {
            Auto::Auto => false,
            Auto::Value(x) => f(x),
        }
    }
}

impl<T> Default for Auto<T> {
    fn default() -> (r: Self)
        ensures
            r is Auto,
    {
        Auto::Auto
    }
}

impl<T> From<T> for Auto<T> {
    fn from(val: T) -> Auto<T> {
        Auto::Value(val)
    }
}

impl<T> vstd::std_specs::convert::FromSpecImpl<T> for Auto<T> {
    open spec fn obeys_from_spec() -> bool {
        true
    }

    open spec fn from_spec(v: T) -> Auto<T> {
        Auto::Value(v)
    }
}

/// A given value is returned whatever the fallback, and no automatic value satisfies a
/// predicate.
pub proof fn lemma_auto_value<T>(x: T)
    ensures
        (Auto::Value(x)) is Value,
        (Auto::<T>::Auto) !is Value,
{
}

} // verus!
