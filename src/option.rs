use crate::iterator::Iter;
use crate::result::StaticResult;
use vstd::prelude::*;

verus! {

/// What `a.and(b)` gives on ordinary options: `b` where `a` holds a value, nothing otherwise.
pub open spec fn option_and<T, U>(a: Option<T>, b: Option<U>) -> Option<U> {
    match a {
        Some(_) => b,
        None => None,
    }
}

/// What `a.or(b)` gives on ordinary options: `a` where it holds a value, `b` otherwise.
pub open spec fn option_or<T>(a: Option<T>, b: Option<T>) -> Option<T> {
    match a {
        Some(_) => a,
        None => b,
    }
}

/// What `x.transpose()` gives on an ordinary option of a result.
pub open spec fn option_transpose<T, E>(x: Option<Result<T, E>>) -> Result<Option<T>, E> {
    match x {
        Some(Ok(v)) => Ok(Some(v)),
        Some(Err(e)) => Err(e),
        None => Ok(None),
    }
}

/// The value of `o` seen through a shared borrow.
pub open spec fn borrowed<'a, T>(o: Option<T>) -> Option<&'a T> {
    match o {
        Some(v) => Some(&v),
        None => None,
    }
}

/// A mutable borrow of the value inside `o`, which must hold one.
fn present_mut<T>(o: &mut Option<T>) -> (r: &mut T)
    requires
        *old(o) is Some,
    ensures
        *r == old(o)->Some_0,
        *final(o) == Some(*final(r)),
    no_unwind
{
    match o {
        Some(v) => v,
        None => unreached(),
    }
}

/// An optional value whose presence is fixed by the type parameter `IS_SOME`.
///
/// A `StaticOption<T, true>` always holds a `T` and a `StaticOption<T, false>` never does,
/// so the accessors that need a value exist only on the `true` form. The view is the
/// ordinary `Option<T>` that the value stands for.
#[derive(Copy, Debug, PartialEq, Eq, PartialOrd, Ord, Hash)]
pub struct StaticOption<T, const IS_SOME: bool> {
    value: Option<T>,
}

impl<T, const IS_SOME: bool> View for StaticOption<T, IS_SOME> {
    type V = Option<T>;

    closed spec fn view(&self) -> Option<T> {
        self.value
    }
}

impl<T> StaticOption<T, true> {
    /// An option holding `value`.
    pub fn some(value: T) -> (r: Self)
        ensures
            r@ == Some(value),
    {
        StaticOption::new_some(value)
    }

    /// Takes the value out; the `true` tag guarantees that there is one.
    pub fn into_inner(self) -> (r: T)
        ensures
            self@ == Some(r),
    {
        self.inner()
    }

    /// A shared borrow of the value inside.
    pub fn inner_ref(&self) -> (r: &T)
        ensures
            self@ == Some(*r),
    {
        self.as_inner()
    }

    /// A mutable borrow of the value inside.
    pub fn inner_mut(&mut self) -> (r: &mut T)
        ensures
            old(self)@ == Some(*r),
            final(self)@ == Some(*final(r)),
    {
        self.as_inner_mut()
    }

    /// Disposes of `self` and returns `option_b`.
    pub fn and<U, const IS_SOME_B: bool>(self, option_b: StaticOption<U, IS_SOME_B>) -> (r:
        StaticOption<U, IS_SOME_B>)
        ensures
            r@ == option_and(self@, option_b@),
            r@ == option_b@,
    {
        proof {
            use_type_invariant(&self);
        }
        self.drop();
        option_b
    }

    /// Hands the value to `mapper` and returns what it gives.
    pub fn and_then<U, F, const IS_SOME_B: bool>(self, mapper: F) -> (r: StaticOption<U, IS_SOME_B>) where
        F: FnOnce(T) -> StaticOption<U, IS_SOME_B>,

        requires
            mapper.requires((self@->Some_0,)),
        ensures
            mapper.ensures((self@->Some_0,), r),
    {
        proof {
            use_type_invariant(&self);
        }
        mapper(self.into_inner())
    }

    /// Returns `self`, disposing of `option_b`.
    pub fn or<const IS_SOME_B: bool>(self, option_b: StaticOption<T, IS_SOME_B>) -> (r: Self)
        ensures
            r@ == option_or(self@, option_b@),
            r@ == self@,
    {
        proof {
            use_type_invariant(&self);
        }
        option_b.drop();
        self
    }

    /// Returns `self`; `_fallback` is not called.
    pub fn or_else<F, const IS_SOME_B: bool>(self, _fallback: F) -> (r: Self) where
        F: FnOnce() -> StaticOption<T, IS_SOME_B>,

        ensures
            r@ == self@,
    {
        self
    }

    /// Puts `value` in place of the current value and returns a mutable borrow of it.
    pub fn insert(&mut self, value: T) -> (r: &mut T)
        ensures
            *r == value,
            final(self)@ == Some(*final(r)),
    {
        let slot = self.as_inner_mut();
        *slot = value;
        slot
    }

    /// Puts `value` in place of the current value and returns the previous one.
    pub fn replace(&mut self, value: T) -> (r: StaticOption<T, true>)
        ensures
            r@ == old(self)@,
            final(self)@ == Some(value),
    {
        let mut previous = value;
        std::mem::swap(self.as_inner_mut(), &mut previous);
        StaticOption::some(previous)
    }
}

impl<T> StaticOption<T, false> {
    /// An option holding nothing.
    pub fn none() -> (r: Self)
        ensures
            r@ == None::<T>,
    {
        StaticOption::new_none()
    }

    /// Disposes of `option_b` and returns an empty option.
    pub fn and<U, const IS_SOME_B: bool>(self, option_b: StaticOption<U, IS_SOME_B>) -> (r:
        StaticOption<U, false>)
        ensures
            r@ == option_and(self@, option_b@),
            r@ == None::<U>,
    {
        proof {
            use_type_invariant(&self);
        }
        option_b.drop();
        StaticOption::none()
    }

    /// Returns an empty option; `_mapper` is not called.
    pub fn and_then<U, F, const IS_SOME_B: bool>(self, _mapper: F) -> (r: StaticOption<U, false>) where
        F: FnOnce(T) -> StaticOption<U, IS_SOME_B>,

        ensures
            r@ == None::<U>,
    {
        StaticOption::none()
    }

    /// Returns `option_b`.
    pub fn or<const IS_SOME_B: bool>(self, option_b: StaticOption<T, IS_SOME_B>) -> (r:
        StaticOption<T, IS_SOME_B>)
        ensures
            r@ == option_or(self@, option_b@),
            r@ == option_b@,
    {
        proof {
            use_type_invariant(&self);
        }
        option_b
    }

    /// Calls `fallback` and returns what it gives.
    pub fn or_else<F, const IS_SOME_B: bool>(self, fallback: F) -> (r: StaticOption<T, IS_SOME_B>) where
        F: FnOnce() -> StaticOption<T, IS_SOME_B>,

        requires
            fallback.requires(()),
        ensures
            fallback.ensures((), r),
    {
        fallback()
    }
}

impl<'a, T, const IS_SOME: bool> StaticOption<&'a T, IS_SOME> {
    /// An option holding a copy of the borrowed value.
    pub fn copied(self) -> (r: StaticOption<T, IS_SOME>) where T: Copy
        ensures
            r@ == (match self@ {
                Some(v) => Some(*v),
                None => None,
            }),
    {
        proof {
            use_type_invariant(&self);
        }
        if IS_SOME {
            StaticOption::new_some(*self.inner())
        } else {
            StaticOption::new_none()
        }
    }

    /// An option holding a clone of the borrowed value.
    pub fn cloned(self) -> (r: StaticOption<T, IS_SOME>) where T: Clone
        ensures
            self@ is None ==> r@ is None,
            self@ is Some ==> r@ is Some && cloned(*self@->Some_0, r@->Some_0),
    {
        proof {
            use_type_invariant(&self);
        }
        if IS_SOME {
            StaticOption::new_some(self.inner().clone())
        } else {
            StaticOption::new_none()
        }
    }
}

impl<T, const IS_SOME: bool> StaticOption<StaticOption<T, IS_SOME>, true> {
    /// The option held inside.
    pub fn flatten(self) -> (r: StaticOption<T, IS_SOME>)
        ensures
            self@ == Some(r),
    {
        self.into_inner()
    }
}

impl<T, const IS_SOME: bool> StaticOption<StaticOption<T, IS_SOME>, false> {
    /// An empty option.
    pub fn flatten(self) -> (r: StaticOption<T, false>)
        ensures
            r@ == None::<T>,
    {
        StaticOption::none()
    }
}

impl<T, E, const IS_OK: bool, const IS_SOME: bool> StaticOption<StaticResult<T, E, IS_OK>, IS_SOME> {
    /// The option of a result, seen as an ordinary option of an ordinary result.
    pub open spec fn nested_view(&self) -> Option<Result<T, E>> {
        match self@ {
            Some(res) => Some(res@),
            None => None,
        }
    }
}

impl<T, E, const IS_OK: bool> StaticOption<StaticResult<T, E, IS_OK>, true> {
    /// Turns a present result into a result whose success value is a present option.
    pub fn transpose(self) -> (r: StaticResult<StaticOption<T, true>, E, IS_OK>)
        ensures
            r.nested_view() == option_transpose(self.nested_view()),
    {
        let res = self.into_inner();
        if IS_OK {
            StaticResult::create_ok(StaticOption::new_some(res.inner_ok()))
        } else {
            StaticResult::create_err(res.inner_error())
        }
    }
}

impl<T, E, const IS_OK: bool> StaticOption<StaticResult<T, E, IS_OK>, false> {
    /// Turns an empty option into a successful result holding an empty option.
    pub fn transpose(self) -> (r: StaticResult<StaticOption<T, false>, E, true>)
        ensures
            r.nested_view() == option_transpose(self.nested_view()),
    {
        proof {
            use_type_invariant(&self);
        }
        StaticResult::new_ok(StaticOption::none())
    }
}

impl<T, const IS_SOME: bool> StaticOption<T, IS_SOME> {
    #[verifier::type_invariant]
    spec fn tag_agrees(&self) -> bool {
        self.value.is_some() == IS_SOME
    }

    /// Whether the option holds a value; this is the tag.
    pub fn is_some(&self) -> (r: bool)
        ensures
            r == IS_SOME,
            r == self@ is Some,
    {
        proof {
            use_type_invariant(self);
        }
        IS_SOME
    }

    /// Whether the option holds nothing; this is the negated tag.
    pub fn is_none(&self) -> (r: bool)
        ensures
            r == !IS_SOME,
            r == self@ is None,
    {
        proof {
            use_type_invariant(self);
        }
        !IS_SOME
    }

    /// An option holding a shared borrow of the value, if any.
    pub fn as_ref(&self) -> (r: StaticOption<&T, IS_SOME>)
        ensures
            r@ == borrowed(self@),
    {
        proof {
            use_type_invariant(self);
        }
        if IS_SOME {
            StaticOption::new_some(self.as_inner())
        } else {
            StaticOption::new_none()
        }
    }

    /// An option holding a mutable borrow of the value, if any.
    pub fn as_mut(&mut self) -> (r: StaticOption<&mut T, IS_SOME>)
        ensures
            old(self)@ is Some ==> r@ is Some && *r@->Some_0 == old(self)@->Some_0 && final(self)@
                == Some(*final(r@->Some_0)),
            old(self)@ is None ==> r@ is None && final(self)@ is None,
    {
        proof {
            use_type_invariant(&*self);
        }
        if IS_SOME {
            StaticOption::new_some(self.as_inner_mut())
        } else {
            StaticOption::new_none()
        }
    }

    /// A result holding the value as success, or `error` as failure where there is none.
    pub fn ok_or<E>(self, error: E) -> (r: StaticResult<T, E, IS_SOME>)
        ensures
            r@ == (match self@ {
                Some(v) => Ok(v),
                None => Err(error),
            }),
    {
        proof {
            use_type_invariant(&self);
        }
        if IS_SOME {
            StaticResult::create_ok(self.inner())
        } else {
            StaticResult::create_err(error)
        }
    }

    /// A result holding the value as success, or what `error` gives as failure where there is none.
    pub fn ok_or_else<E, F>(self, error: F) -> (r: StaticResult<T, E, IS_SOME>) where
        F: FnOnce() -> E,

        requires
            self@ is None ==> error.requires(()),
        ensures
            self@ is Some ==> r@ == Ok::<T, E>(self@->Some_0),
            self@ is None ==> r@ is Err && error.ensures((), r@->Err_0),
    {
        proof {
            use_type_invariant(&self);
        }
        if IS_SOME {
            StaticResult::create_ok(self.inner())
        } else {
            StaticResult::create_err(error())
        }
    }

    /// The value, or `T::default()` where there is none.
    pub fn unwrap_or_default(self) -> (r: T) where T: Default
        ensures
            self@ is Some ==> self@ == Some(r),
            self@ is None ==> T::default.ensures((), r),
    {
        proof {
            use_type_invariant(&self);
        }
        if IS_SOME {
            self.inner()
        } else {
            T::default()
        }
    }

    /// The value; only a present option can be taken apart this way.
    pub fn expect(self, _message: &str) -> (r: T)
        requires
            IS_SOME,
        ensures
            self@ == Some(r),
    {
        self.inner()
    }

    /// The value; only a present option can be taken apart this way.
    pub fn unwrap(self) -> (r: T)
        requires
            IS_SOME,
        ensures
            self@ == Some(r),
    {
        self.inner()
    }

    /// The value, or `default` where there is none.
    pub fn unwrap_or(self, default: T) -> (r: T)
        ensures
            r == (match self@ {
                Some(v) => v,
                None => default,
            }),
    {
        proof {
            use_type_invariant(&self);
        }
        if IS_SOME {
            self.inner()
        } else {
            default
        }
    }

    /// The value, or what `function` gives where there is none.
    pub fn unwrap_or_else<F>(self, function: F) -> (r: T) where F: FnOnce() -> T
        requires
            self@ is None ==> function.requires(()),
        ensures
            self@ is Some ==> self@ == Some(r),
            self@ is None ==> function.ensures((), r),
    {
        proof {
            use_type_invariant(&self);
        }
        if IS_SOME {
            self.inner()
        } else {
            function()
        }
    }

    /// An option holding the dereferenced value, if any.
    pub fn as_deref(&self) -> (r: StaticOption<&<T as std::ops::Deref>::Target, IS_SOME>) where
        T: std::ops::Deref,

        ensures
            self@ is None ==> r@ is None,
            self@ is Some ==> r@ is Some && call_ensures(
                T::deref,
                (&self@->Some_0,),
                r@->Some_0,
            ),
    {
        proof {
            use_type_invariant(self);
        }
        if IS_SOME {
            StaticOption::new_some(self.as_inner().deref())
        } else {
            StaticOption::new_none()
        }
    }

    /// An option holding the mutably dereferenced value, if any.
    pub fn as_deref_mut(&mut self) -> (r: StaticOption<&mut <T as std::ops::Deref>::Target, IS_SOME>) where
        T: std::ops::DerefMut,

        ensures
            r@ is Some <==> old(self)@ is Some,
            old(self)@ is Some ==> final(self)@ is Some,
            old(self)@ is None ==> final(self)@ is None,
    {
        proof {
            use_type_invariant(&*self);
        }
        if IS_SOME {
            StaticOption::new_some(self.as_inner_mut().deref_mut())
        } else {
            StaticOption::new_none()
        }
    }

    /// An option holding what `mapper` makes of the value, if any.
    pub fn map<U, F>(self, mapper: F) -> (r: StaticOption<U, IS_SOME>) where F: FnOnce(T) -> U
        requires
            self@ is Some ==> mapper.requires((self@->Some_0,)),
        ensures
            self@ is Some ==> r@ is Some && mapper.ensures((self@->Some_0,), r@->Some_0),
            self@ is None ==> r@ is None,
    {
        proof {
            use_type_invariant(&self);
        }
        if IS_SOME {
            StaticOption::new_some(mapper(self.inner()))
        } else {
            StaticOption::new_none()
        }
    }

    /// What `mapper` makes of the value, or `default` where there is none.
    pub fn map_or<U, F>(self, default: U, mapper: F) -> (r: U) where F: FnOnce(T) -> U
        requires
            self@ is Some ==> mapper.requires((self@->Some_0,)),
        ensures
            self@ is Some ==> mapper.ensures((self@->Some_0,), r),
            self@ is None ==> r == default,
    {
        proof {
            use_type_invariant(&self);
        }
        if IS_SOME {
            mapper(self.inner())
        } else {
            default
        }
    }

    /// What `mapper` makes of the value, or what `default` gives where there is none.
    pub fn map_or_else<U, D, F>(self, default: D, mapper: F) -> (r: U) where
        F: FnOnce(T) -> U,
        D: FnOnce() -> U,

        requires
            self@ is Some ==> mapper.requires((self@->Some_0,)),
            self@ is None ==> default.requires(()),
        ensures
            self@ is Some ==> mapper.ensures((self@->Some_0,), r),
            self@ is None ==> default.ensures((), r),
    {
        proof {
            use_type_invariant(&self);
        }
        if IS_SOME {
            mapper(self.inner())
        } else {
            default()
        }
    }

    /// A producer of a shared borrow of the value, if any.
    pub fn iter(&self) -> (r: Iter<&T>)
        ensures
            r@ == borrowed(self@),
    {
        self.as_ref().into_iter()
    }

    /// A producer of a mutable borrow of the value, if any.
    pub fn iter_mut(&mut self) -> (r: Iter<&mut T>)
        ensures
            old(self)@ is Some ==> r@ is Some && *r@->Some_0 == old(self)@->Some_0 && final(self)@
                == Some(*final(r@->Some_0)),
            old(self)@ is None ==> r@ is None && final(self)@ is None,
    {
        self.as_mut().into_iter()
    }

    /// A producer of the value, if any.
    pub fn into_iter(self) -> (r: Iter<T>)
        ensures
            r@ == self@,
    {
        Iter::new(self.into_option())
    }

    /// Disposes of the option, together with the value it holds, if any.
    pub fn drop(self) {
    }

    /// The ordinary option holding the same value; only the tag is lost.
    pub fn into_option(self) -> (r: Option<T>)
        ensures
            r == self@,
            r is Some == IS_SOME,
    {
        proof {
            use_type_invariant(&self);
        }
        if IS_SOME {
            Some(self.inner())
        } else {
            None
        }
    }

    /// An ordinary option holding a shared borrow of the value, if any.
    pub fn as_option(&self) -> (r: Option<&T>)
        ensures
            r == borrowed(self@),
    {
        proof {
            use_type_invariant(self);
        }
        if IS_SOME {
            Some(self.as_inner())
        } else {
            None
        }
    }

    /// An ordinary option holding a mutable borrow of the value, if any.
    pub fn as_mut_option(&mut self) -> (r: Option<&mut T>)
        ensures
            old(self)@ is Some ==> r is Some && *r->Some_0 == old(self)@->Some_0 && final(self)@
                == Some(*final(r->Some_0)),
            old(self)@ is None ==> r is None && final(self)@ is None,
    {
        proof {
            use_type_invariant(&*self);
        }
        if IS_SOME {
            Some(self.as_inner_mut())
        } else {
            None
        }
    }

    /// Like `some`, for code where the tag is a parameter known to be `true`.
    pub(crate) fn new_some(value: T) -> (r: Self)
        requires
            IS_SOME,
        ensures
            r@ == Some(value),
    {
        StaticOption { value: Some(value) }
    }

    /// Like `none`, for code where the tag is a parameter known to be `false`.
    pub(crate) fn new_none() -> (r: Self)
        requires
            !IS_SOME,
        ensures
            r@ == None::<T>,
    {
        StaticOption { value: None }
    }

    /// Like `into_inner`, for code where the tag is a parameter known to be `true`.
    pub(crate) fn inner(self) -> (r: T)
        requires
            IS_SOME,
        ensures
            self@ == Some(r),
    {
        proof {
            use_type_invariant(&self);
        }
        self.value.unwrap()
    }

    /// Like `inner_ref`, for code where the tag is a parameter known to be `true`.
    pub(crate) fn as_inner(&self) -> (r: &T)
        requires
            IS_SOME,
        ensures
            self@ == Some(*r),
    {
        proof {
            use_type_invariant(self);
        }
        self.value.as_ref().unwrap()
    }

    /// Like `inner_mut`, for code where the tag is a parameter known to be `true`.
    pub(crate) fn as_inner_mut(&mut self) -> (r: &mut T)
        requires
            IS_SOME,
        ensures
            old(self)@ == Some(*r),
            final(self)@ == Some(*final(r)),
    {
        proof {
            use_type_invariant(&*self);
        }
        present_mut(&mut self.value)
    }
}

impl<T> Default for StaticOption<T, false> {
    fn default() -> (r: Self)
        ensures
            r@ == None::<T>,
    {
        StaticOption::new_none()
    }
}

impl<T: Clone, const IS_SOME: bool> Clone for StaticOption<T, IS_SOME> {
    fn clone(&self) -> (r: Self)
        ensures
            self@ is None ==> r@ is None,
            self@ is Some ==> r@ is Some && cloned(self@->Some_0, r@->Some_0),
    {
        self.as_ref().cloned()
    }
}

impl<T, const IS_SOME: bool> From<StaticOption<T, IS_SOME>> for Option<T> {
    fn from(static_option: StaticOption<T, IS_SOME>) -> Option<T> {
        static_option.into_option()
    }
}

impl<T, const IS_SOME: bool> vstd::std_specs::convert::FromSpecImpl<StaticOption<T, IS_SOME>> for Option<T> {
    open spec fn obeys_from_spec() -> bool {
        true
    }

    open spec fn from_spec(v: StaticOption<T, IS_SOME>) -> Option<T> {
        v@
    }
}

impl<'a, T, const IS_SOME: bool> From<&'a StaticOption<T, IS_SOME>> for Option<&'a T> {
    fn from(static_option: &'a StaticOption<T, IS_SOME>) -> Option<&'a T> {
        static_option.as_option()
    }
}

impl<'a, T, const IS_SOME: bool> vstd::std_specs::convert::FromSpecImpl<&'a StaticOption<T, IS_SOME>> for Option<&'a T> {
    open spec fn obeys_from_spec() -> bool {
        true
    }

    open spec fn from_spec(v: &'a StaticOption<T, IS_SOME>) -> Option<&'a T> {
        borrowed(v@)
    }
}

impl<'a, T, const IS_SOME: bool> From<&'a StaticOption<T, IS_SOME>> for StaticOption<&'a T, IS_SOME> {
    fn from(static_option: &'a StaticOption<T, IS_SOME>) -> (r: StaticOption<&'a T, IS_SOME>)
        ensures
            r@ == borrowed(static_option@),
    {
        static_option.as_ref()
    }
}

impl<'a, T, const IS_SOME: bool> vstd::std_specs::convert::FromSpecImpl<&'a StaticOption<T, IS_SOME>> for StaticOption<&'a T, IS_SOME> {
    open spec fn obeys_from_spec() -> bool {
        true
    }

    closed spec fn from_spec(v: &'a StaticOption<T, IS_SOME>) -> StaticOption<&'a T, IS_SOME> {
        StaticOption { value: borrowed(v@) }
    }
}

impl<T> From<T> for StaticOption<T, true> {
    fn from(value: T) -> (r: StaticOption<T, true>)
        ensures
            r@ == Some(value),
    {
        StaticOption::some(value)
    }
}

impl<T> vstd::std_specs::convert::FromSpecImpl<T> for StaticOption<T, true> {
    open spec fn obeys_from_spec() -> bool {
        true
    }

    closed spec fn from_spec(v: T) -> StaticOption<T, true> {
        StaticOption { value: Some(v) }
    }
}

impl<'a, T, const IS_SOME: bool> From<&'a mut StaticOption<T, IS_SOME>> for Option<&'a mut T> {
    fn from(static_option: &'a mut StaticOption<T, IS_SOME>) -> (r: Option<&'a mut T>)
        ensures
            old(static_option)@ is Some ==> r is Some && *r->Some_0 == old(static_option)@->Some_0
                && final(static_option)@ == Some(*final(r->Some_0)),
            old(static_option)@ is None ==> r is None && final(static_option)@ is None,
    {
        static_option.as_mut_option()
    }
}

impl<'a, T, const IS_SOME: bool> vstd::std_specs::convert::FromSpecImpl<&'a mut StaticOption<T, IS_SOME>> for Option<&'a mut T> {
    /// The borrow's value after the call is not a function of the argument alone, so the
    /// conversion is described by its own `ensures` instead.
    open spec fn obeys_from_spec() -> bool {
        false
    }

    open spec fn from_spec(v: &'a mut StaticOption<T, IS_SOME>) -> Option<&'a mut T> {
        arbitrary()
    }
}

impl<'a, T, const IS_SOME: bool> From<&'a mut StaticOption<T, IS_SOME>> for StaticOption<&'a mut T, IS_SOME> {
    fn from(static_option: &'a mut StaticOption<T, IS_SOME>) -> (r: StaticOption<&'a mut T, IS_SOME>)
        ensures
            old(static_option)@ is Some ==> r@ is Some && *r@->Some_0 == old(static_option)@->Some_0
                && final(static_option)@ == Some(*final(r@->Some_0)),
            old(static_option)@ is None ==> r@ is None && final(static_option)@ is None,
    {
        static_option.as_mut()
    }
}

impl<'a, T, const IS_SOME: bool> vstd::std_specs::convert::FromSpecImpl<&'a mut StaticOption<T, IS_SOME>> for StaticOption<&'a mut T, IS_SOME> {
    /// The borrow's value after the call is not a function of the argument alone, so the
    /// conversion is described by its own `ensures` instead.
    open spec fn obeys_from_spec() -> bool {
        false
    }

    open spec fn from_spec(v: &'a mut StaticOption<T, IS_SOME>) -> StaticOption<&'a mut T, IS_SOME> {
        arbitrary()
    }
}

} // verus!
