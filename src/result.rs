use crate::iterator::Iter;
use crate::option::StaticOption;
use vstd::prelude::*;

verus! {

/// What `a.and(b)` gives on ordinary results: `b` where `a` is a success, `a`'s failure otherwise.
pub open spec fn result_and<T, U, E>(a: Result<T, E>, b: Result<U, E>) -> Result<U, E> {
    match a {
        Ok(_) => b,
        Err(e) => Err(e),
    }
}

/// What `a.or(b)` gives on ordinary results: `a`'s success where it is one, `b` otherwise.
pub open spec fn result_or<T, E, F>(a: Result<T, E>, b: Result<T, F>) -> Result<T, F> {
    match a {
        Ok(v) => Ok(v),
        Err(_) => b,
    }
}

/// What `x.transpose()` gives on an ordinary result of an option.
pub open spec fn result_transpose<T, E>(x: Result<Option<T>, E>) -> Option<Result<T, E>> {
    match x {
        Ok(Some(v)) => Some(Ok(v)),
        Ok(None) => None,
        Err(e) => Some(Err(e)),
    }
}

/// The success value or the failure of `x`, seen through shared borrows.
pub open spec fn borrowed_result<T, E>(x: Result<T, E>) -> Result<&'static T, &'static E> {
    match x {
        Ok(v) => Ok(&v),
        Err(e) => Err(&e),
    }
}

/// A mutable borrow of the failure inside `x`, which must hold one.
fn failure_mut<T, E>(x: &mut Result<T, E>) -> (r: &mut E)
    requires
        *old(x) is Err,
    ensures
        *r == old(x)->Err_0,
        *final(x) == Err::<T, E>(*final(r)),
    no_unwind
{
    match x {
        Ok(_) => unreached(),
        Err(e) => e,
    }
}

/// A mutable borrow of the success value inside `x`, which must hold one.
fn success_mut<T, E>(x: &mut Result<T, E>) -> (r: &mut T)
    requires
        *old(x) is Ok,
    ensures
        *r == old(x)->Ok_0,
        *final(x) == Ok::<T, E>(*final(r)),
    no_unwind
{
    match x {
        Ok(v) => v,
        Err(_) => unreached(),
    }
}

/// A result whose outcome is fixed by the type parameter `IS_OK`.
///
/// A `StaticResult<T, E, true>` always holds a success value of type `T` and a
/// `StaticResult<T, E, false>` always holds a failure of type `E`, so the accessors of each
/// side exist only on the matching form. The view is the ordinary `Result<T, E>` that the
/// value stands for.
#[derive(Copy, Debug, PartialEq, Eq, PartialOrd, Ord, Hash)]
pub struct StaticResult<T, E, const IS_OK: bool> {
    value: Result<T, E>,
}

impl<T, E, const IS_OK: bool> View for StaticResult<T, E, IS_OK> {
    type V = Result<T, E>;

    closed spec fn view(&self) -> Result<T, E> {
        self.value
    }
}

impl<T, E> StaticResult<T, E, true> {
    /// A result holding the success value `ok`.
    pub fn new_ok(ok: T) -> (r: StaticResult<T, E, true>)
        ensures
            r@ == Ok::<T, E>(ok),
    {
        StaticResult::create_ok(ok)
    }

    /// Disposes of `self` and returns `res`.
    pub fn and<U, const IS_OK_B: bool>(self, res: StaticResult<U, E, IS_OK_B>) -> (r: StaticResult<
        U,
        E,
        IS_OK_B,
    >)
        ensures
            r@ == result_and(self@, res@),
            r@ == res@,
    {
        proof {
            use_type_invariant(&self);
        }
        self.drop();
        res
    }

    /// Hands the success value to `op` and returns what it gives.
    pub fn and_then<U, F, const IS_OK_B: bool>(self, op: F) -> (r: StaticResult<U, E, IS_OK_B>) where
        F: FnOnce(T) -> StaticResult<U, E, IS_OK_B>,

        requires
            op.requires((self@->Ok_0,)),
        ensures
            op.ensures((self@->Ok_0,), r),
    {
        proof {
            use_type_invariant(&self);
        }
        op(self.into_ok())
    }

    /// A success holding `self`'s value, disposing of `res`.
    pub fn or<F, const IS_OK_B: bool>(self, res: StaticResult<T, F, IS_OK_B>) -> (r: StaticResult<
        T,
        F,
        true,
    >)
        ensures
            r@ == result_or(self@, res@),
            r@ == Ok::<T, F>(self@->Ok_0),
    {
        proof {
            use_type_invariant(&self);
        }
        res.drop();
        StaticResult::new_ok(self.into_ok())
    }

    /// A success holding `self`'s value; `_op` is not called.
    pub fn or_else<F, O, const IS_OK_B: bool>(self, _op: O) -> (r: StaticResult<T, F, true>) where
        O: FnOnce(E) -> StaticResult<T, F, IS_OK_B>,

        ensures
            r@ == Ok::<T, F>(self@->Ok_0),
    {
        proof {
            use_type_invariant(&self);
        }
        StaticResult::new_ok(self.into_ok())
    }

    /// An empty option; the success value is disposed of.
    pub fn err(self) -> (r: StaticOption<E, false>)
        ensures
            r@ == None::<E>,
    {
        self.drop();
        StaticOption::none()
    }

    /// Takes the success value out; the `true` tag guarantees that there is one.
    pub fn into_ok(self) -> (r: T)
        ensures
            self@ == Ok::<T, E>(r),
    {
        self.inner_ok()
    }

    /// A shared borrow of the success value.
    pub fn ok_ref(&self) -> (r: &T)
        ensures
            self@ == Ok::<T, E>(*r),
    {
        self.as_ok()
    }

    /// A mutable borrow of the success value.
    pub fn ok_mut(&mut self) -> (r: &mut T)
        ensures
            old(self)@ == Ok::<T, E>(*r),
            final(self)@ == Ok::<T, E>(*final(r)),
    {
        self.as_ok_mut()
    }
}

impl<T, E, const IS_SOME: bool, const IS_OK: bool> StaticResult<StaticOption<T, IS_SOME>, E, IS_OK> {
    /// The result of an option, seen as an ordinary result of an ordinary option.
    pub open spec fn nested_view(&self) -> Result<Option<T>, E> {
        match self@ {
            Ok(opt) => Ok(opt@),
            Err(e) => Err(e),
        }
    }
}

impl<T, E, const IS_SOME: bool> StaticResult<StaticOption<T, IS_SOME>, E, true> {
    /// Turns a success holding an option into an option of a success.
    pub fn transpose(self) -> (r: StaticOption<StaticResult<T, E, true>, IS_SOME>)
        ensures
            r.nested_view() == result_transpose(self.nested_view()),
    {
        self.into_ok().map(StaticResult::<T, E, true>::new_ok)
    }
}

impl<T, E, const IS_SOME: bool> StaticResult<StaticOption<T, IS_SOME>, E, false> {
    /// Turns a failure into a present option of that failure.
    pub fn transpose(self) -> (r: StaticOption<StaticResult<T, E, false>, true>)
        ensures
            r.nested_view() == result_transpose(self.nested_view()),
    {
        StaticOption::some(StaticResult::new_err(self.into_err()))
    }
}

impl<T, E> StaticResult<T, E, false> {
    /// A result holding the failure `error`.
    pub fn new_err(error: E) -> (r: StaticResult<T, E, false>)
        ensures
            r@ == Err::<T, E>(error),
    {
        StaticResult::create_err(error)
    }

    /// A failure holding `self`'s failure, disposing of `res`.
    pub fn and<U, const IS_OK_B: bool>(self, res: StaticResult<U, E, IS_OK_B>) -> (r: StaticResult<
        U,
        E,
        false,
    >)
        ensures
            r@ == result_and(self@, res@),
            r@ == Err::<U, E>(self@->Err_0),
    {
        proof {
            use_type_invariant(&self);
        }
        res.drop();
        StaticResult::new_err(self.into_err())
    }

    /// A failure holding `self`'s failure; `_op` is not called.
    pub fn and_then<U, F, const IS_OK_B: bool>(self, _op: F) -> (r: StaticResult<U, E, false>) where
        F: FnOnce(T) -> StaticResult<U, E, IS_OK_B>,

        ensures
            r@ == Err::<U, E>(self@->Err_0),
    {
        proof {
            use_type_invariant(&self);
        }
        StaticResult::new_err(self.into_err())
    }

    /// Disposes of `self` and returns `res`.
    pub fn or<F, const IS_OK_B: bool>(self, res: StaticResult<T, F, IS_OK_B>) -> (r: StaticResult<
        T,
        F,
        IS_OK_B,
    >)
        ensures
            r@ == result_or(self@, res@),
            r@ == res@,
    {
        proof {
            use_type_invariant(&self);
        }
        self.drop();
        res
    }

    /// Hands the failure to `op` and returns what it gives.
    pub fn or_else<F, O, const IS_OK_B: bool>(self, op: O) -> (r: StaticResult<T, F, IS_OK_B>) where
        O: FnOnce(E) -> StaticResult<T, F, IS_OK_B>,

        requires
            op.requires((self@->Err_0,)),
        ensures
            op.ensures((self@->Err_0,), r),
    {
        proof {
            use_type_invariant(&self);
        }
        op(self.into_err())
    }

    /// A present option holding the failure.
    pub fn err(self) -> (r: StaticOption<E, true>)
        ensures
            r@ == Some(self@->Err_0),
    {
        proof {
            use_type_invariant(&self);
        }
        StaticOption::some(self.into_err())
    }

    /// Takes the failure out; the `false` tag guarantees that there is one.
    pub fn into_err(self) -> (r: E)
        ensures
            self@ == Err::<T, E>(r),
    {
        self.inner_error()
    }

    /// A shared borrow of the failure.
    pub fn err_ref(&self) -> (r: &E)
        ensures
            self@ == Err::<T, E>(*r),
    {
        self.as_error()
    }

    /// A mutable borrow of the failure.
    pub fn err_mut(&mut self) -> (r: &mut E)
        ensures
            old(self)@ == Err::<T, E>(*r),
            final(self)@ == Err::<T, E>(*final(r)),
    {
        self.as_error_mut()
    }
}

impl<T, E, const IS_OK: bool> StaticResult<T, E, IS_OK> {
    #[verifier::type_invariant]
    spec fn tag_agrees(&self) -> bool {
        self.value.is_ok() == IS_OK
    }

    /// Whether the result is a success; this is the tag.
    pub fn is_ok(&self) -> (r: bool)
        ensures
            r == IS_OK,
            r == self@ is Ok,
    {
        proof {
            use_type_invariant(self);
        }
        IS_OK
    }

    /// Whether the result is a failure; this is the negated tag.
    pub fn is_err(&self) -> (r: bool)
        ensures
            r == !IS_OK,
            r == self@ is Err,
    {
        proof {
            use_type_invariant(self);
        }
        !IS_OK
    }

    /// An option holding the success value, if any; a failure is disposed of.
    pub fn ok(self) -> (r: StaticOption<T, IS_OK>)
        ensures
            r@ == (match self@ {
                Ok(v) => Some(v),
                Err(_) => None,
            }),
    {
        proof {
            use_type_invariant(&self);
        }
        if IS_OK {
            StaticOption::new_some(self.inner_ok())
        } else {
            self.drop();
            StaticOption::new_none()
        }
    }

    /// A result holding shared borrows of the success value or the failure.
    pub fn as_ref(&self) -> (r: StaticResult<&T, &E, IS_OK>)
        ensures
            r@ == borrowed_result(self@),
    {
        proof {
            use_type_invariant(self);
        }
        if IS_OK {
            StaticResult::create_ok(self.as_ok())
        } else {
            StaticResult::create_err(self.as_error())
        }
    }

    /// A result holding mutable borrows of the success value or the failure.
    pub fn as_mut(&mut self) -> (r: StaticResult<&mut T, &mut E, IS_OK>)
        ensures
            old(self)@ is Ok ==> r@ is Ok && *r@->Ok_0 == old(self)@->Ok_0 && final(self)@ == Ok::<
                T,
                E,
            >(*final(r@->Ok_0)),
            old(self)@ is Err ==> r@ is Err && *r@->Err_0 == old(self)@->Err_0 && final(self)@
                == Err::<T, E>(*final(r@->Err_0)),
    {
        proof {
            use_type_invariant(&*self);
        }
        if IS_OK {
            StaticResult::create_ok(self.as_ok_mut())
        } else {
            StaticResult::create_err(self.as_error_mut())
        }
    }

    /// A result holding what `mapper` makes of the failure, if it is one.
    pub fn map_err<F, O>(self, mapper: O) -> (r: StaticResult<T, F, IS_OK>) where O: FnOnce(E) -> F
        requires
            self@ is Err ==> mapper.requires((self@->Err_0,)),
        ensures
            self@ is Ok ==> r@ == Ok::<T, F>(self@->Ok_0),
            self@ is Err ==> r@ is Err && mapper.ensures((self@->Err_0,), r@->Err_0),
    {
        proof {
            use_type_invariant(&self);
        }
        if IS_OK {
            StaticResult::create_ok(self.inner_ok())
        } else {
            StaticResult::create_err(mapper(self.inner_error()))
        }
    }

    /// A result holding the dereferenced success value or a borrow of the failure.
    pub fn as_deref(&self) -> (r: StaticResult<&<T as std::ops::Deref>::Target, &E, IS_OK>) where
        T: std::ops::Deref,

        ensures
            self@ is Ok ==> r@ is Ok && call_ensures(T::deref, (&self@->Ok_0,), r@->Ok_0),
            self@ is Err ==> r@ is Err && *r@->Err_0 == self@->Err_0,
    {
        proof {
            use_type_invariant(self);
        }
        if IS_OK {
            StaticResult::create_ok(self.as_ok().deref())
        } else {
            StaticResult::create_err(self.as_error())
        }
    }

    /// A result holding the mutably dereferenced success value or a mutable borrow of the failure.
    pub fn as_deref_mut(&mut self) -> (r: StaticResult<
        &mut <T as std::ops::Deref>::Target,
        &mut E,
        IS_OK,
    >) where T: std::ops::DerefMut
        ensures
            r@ is Ok <==> old(self)@ is Ok,
            old(self)@ is Ok ==> final(self)@ is Ok,
            old(self)@ is Err ==> *r@->Err_0 == old(self)@->Err_0 && final(self)@ == Err::<T, E>(
                *final(r@->Err_0),
            ),
    {
        proof {
            use_type_invariant(&*self);
        }
        if IS_OK {
            StaticResult::create_ok(self.as_ok_mut().deref_mut())
        } else {
            StaticResult::create_err(self.as_error_mut())
        }
    }

    /// A result holding what `mapper` makes of the success value, if it is one.
    pub fn map<U, F>(self, mapper: F) -> (r: StaticResult<U, E, IS_OK>) where F: FnOnce(T) -> U
        requires
            self@ is Ok ==> mapper.requires((self@->Ok_0,)),
        ensures
            self@ is Ok ==> r@ is Ok && mapper.ensures((self@->Ok_0,), r@->Ok_0),
            self@ is Err ==> r@ == Err::<U, E>(self@->Err_0),
    {
        proof {
            use_type_invariant(&self);
        }
        if IS_OK {
            StaticResult::create_ok(mapper(self.inner_ok()))
        } else {
            StaticResult::create_err(self.inner_error())
        }
    }

    /// What `mapper` makes of the success value, or `default` for a failure, which is disposed of.
    pub fn map_or<U, F>(self, default: U, mapper: F) -> (r: U) where F: FnOnce(T) -> U
        requires
            self@ is Ok ==> mapper.requires((self@->Ok_0,)),
        ensures
            self@ is Ok ==> mapper.ensures((self@->Ok_0,), r),
            self@ is Err ==> r == default,
    {
        proof {
            use_type_invariant(&self);
        }
        if IS_OK {
            mapper(self.inner_ok())
        } else {
            self.drop();
            default
        }
    }

    /// What `mapper` makes of the success value, or what `default` makes of the failure.
    pub fn map_or_else<U, D, F>(self, default: D, mapper: F) -> (r: U) where
        F: FnOnce(T) -> U,
        D: FnOnce(E) -> U,

        requires
            self@ is Ok ==> mapper.requires((self@->Ok_0,)),
            self@ is Err ==> default.requires((self@->Err_0,)),
        ensures
            self@ is Ok ==> mapper.ensures((self@->Ok_0,), r),
            self@ is Err ==> default.ensures((self@->Err_0,), r),
    {
        proof {
            use_type_invariant(&self);
        }
        if IS_OK {
            mapper(self.inner_ok())
        } else {
            default(self.inner_error())
        }
    }

    /// A producer of a shared borrow of the success value, if any.
    pub fn iter(&self) -> (r: Iter<&T>)
        ensures
            r@ == (match self@ {
                Ok(v) => Some(&v),
                Err(_) => None,
            }),
    {
        self.as_ref().ok().into_iter()
    }

    /// A producer of a mutable borrow of the success value, if any.
    pub fn iter_mut(&mut self) -> (r: Iter<&mut T>)
        ensures
            old(self)@ is Ok ==> r@ is Some && *r@->Some_0 == old(self)@->Ok_0 && final(self)@
                == Ok::<T, E>(*final(r@->Some_0)),
            old(self)@ is Err ==> r@ is None && final(self)@ == old(self)@,
    {
        proof {
            use_type_invariant(&*self);
        }
        if IS_OK {
            Iter::new(Some(self.as_ok_mut()))
        } else {
            Iter::new(None)
        }
    }

    /// A producer of the success value, if any; a failure is disposed of.
    pub fn into_iter(self) -> (r: Iter<T>)
        ensures
            r@ == (match self@ {
                Ok(v) => Some(v),
                Err(_) => None,
            }),
    {
        self.ok().into_iter()
    }

    /// The success value, or `default` for a failure, which is disposed of.
    pub fn unwrap_or(self, default: T) -> (r: T)
        ensures
            r == (match self@ {
                Ok(v) => v,
                Err(_) => default,
            }),
    {
        proof {
            use_type_invariant(&self);
        }
        if IS_OK {
            self.inner_ok()
        } else {
            self.drop();
            default
        }
    }

    /// The success value, or what `default` makes of the failure.
    pub fn unwrap_or_else<F>(self, default: F) -> (r: T) where F: FnOnce(E) -> T
        requires
            self@ is Err ==> default.requires((self@->Err_0,)),
        ensures
            self@ is Ok ==> self@ == Ok::<T, E>(r),
            self@ is Err ==> default.ensures((self@->Err_0,), r),
    {
        proof {
            use_type_invariant(&self);
        }
        if IS_OK {
            self.inner_ok()
        } else {
            default(self.inner_error())
        }
    }

    /// The success value; only a success can be taken apart this way.
    pub fn expect(self, _message: &str) -> (r: T) where E: std::fmt::Debug
        requires
            IS_OK,
        ensures
            self@ == Ok::<T, E>(r),
    {
        self.inner_ok()
    }

    /// The success value; only a success can be taken apart this way.
    pub fn unwrap(self) -> (r: T) where E: std::fmt::Debug
        requires
            IS_OK,
        ensures
            self@ == Ok::<T, E>(r),
    {
        self.inner_ok()
    }

    /// The failure; only a failure can be taken apart this way.
    pub fn expect_err(self, _message: &str) -> (r: E) where T: std::fmt::Debug
        requires
            !IS_OK,
        ensures
            self@ == Err::<T, E>(r),
    {
        self.inner_error()
    }

    /// The failure; only a failure can be taken apart this way.
    pub fn unwrap_err(self) -> (r: E) where T: std::fmt::Debug
        requires
            !IS_OK,
        ensures
            self@ == Err::<T, E>(r),
    {
        self.inner_error()
    }

    /// The success value, or `T::default()` for a failure, which is disposed of.
    pub fn unwrap_or_default(self) -> (r: T) where T: Default
        ensures
            self@ is Ok ==> self@ == Ok::<T, E>(r),
            self@ is Err ==> T::default.ensures((), r),
    {
        proof {
            use_type_invariant(&self);
        }
        if IS_OK {
            self.inner_ok()
        } else {
            self.drop();
            T::default()
        }
    }

    /// Disposes of the result, together with the success value or the failure it holds.
    pub fn drop(self) {
    }

    /// The ordinary result holding the same success value or failure; only the tag is lost.
    pub fn into_result(self) -> (r: Result<T, E>)
        ensures
            r == self@,
            r is Ok == IS_OK,
    {
        proof {
            use_type_invariant(&self);
        }
        if IS_OK {
            Ok(self.inner_ok())
        } else {
            Err(self.inner_error())
        }
    }

    /// An ordinary result holding shared borrows of the success value or the failure.
    pub fn as_result(&self) -> (r: Result<&T, &E>)
        ensures
            r == borrowed_result(self@),
    {
        proof {
            use_type_invariant(self);
        }
        if IS_OK {
            Ok(self.as_ok())
        } else {
            Err(self.as_error())
        }
    }

    /// An ordinary result holding mutable borrows of the success value or the failure.
    pub fn as_mut_result(&mut self) -> (r: Result<&mut T, &mut E>)
        ensures
            old(self)@ is Ok ==> r is Ok && *r->Ok_0 == old(self)@->Ok_0 && final(self)@ == Ok::<
                T,
                E,
            >(*final(r->Ok_0)),
            old(self)@ is Err ==> r is Err && *r->Err_0 == old(self)@->Err_0 && final(self)@
                == Err::<T, E>(*final(r->Err_0)),
    {
        proof {
            use_type_invariant(&*self);
        }
        if IS_OK {
            Ok(self.as_ok_mut())
        } else {
            Err(self.as_error_mut())
        }
    }

    /// Like `new_ok`, for code where the tag is a parameter known to be `true`.
    pub(crate) fn create_ok(ok: T) -> (r: Self)
        requires
            IS_OK,
        ensures
            r@ == Ok::<T, E>(ok),
    {
        StaticResult { value: Ok(ok) }
    }

    /// Like `new_err`, for code where the tag is a parameter known to be `false`.
    pub(crate) fn create_err(error: E) -> (r: Self)
        requires
            !IS_OK,
        ensures
            r@ == Err::<T, E>(error),
    {
        StaticResult { value: Err(error) }
    }

    /// Like `into_ok`, for code where the tag is a parameter known to be `true`.
    pub(crate) fn inner_ok(self) -> (r: T)
        requires
            IS_OK,
        ensures
            self@ == Ok::<T, E>(r),
    {
        proof {
            use_type_invariant(&self);
        }
        match self.value {
            Ok(v) => v,
            Err(_) => unreached(),
        }
    }

    /// Like `ok_ref`, for code where the tag is a parameter known to be `true`.
    pub(crate) fn as_ok(&self) -> (r: &T)
        requires
            IS_OK,
        ensures
            self@ == Ok::<T, E>(*r),
    {
        proof {
            use_type_invariant(self);
        }
        match &self.value {
            Ok(v) => v,
            Err(_) => unreached(),
        }
    }

    /// Like `ok_mut`, for code where the tag is a parameter known to be `true`.
    pub(crate) fn as_ok_mut(&mut self) -> (r: &mut T)
        requires
            IS_OK,
        ensures
            old(self)@ == Ok::<T, E>(*r),
            final(self)@ == Ok::<T, E>(*final(r)),
    {
        proof {
            use_type_invariant(&*self);
        }
        success_mut(&mut self.value)
    }

    /// Like `into_err`, for code where the tag is a parameter known to be `false`.
    pub(crate) fn inner_error(self) -> (r: E)
        requires
            !IS_OK,
        ensures
            self@ == Err::<T, E>(r),
    {
        proof {
            use_type_invariant(&self);
        }
        match self.value {
            Ok(_) => unreached(),
            Err(e) => e,
        }
    }

    /// Like `err_ref`, for code where the tag is a parameter known to be `false`.
    pub(crate) fn as_error(&self) -> (r: &E)
        requires
            !IS_OK,
        ensures
            self@ == Err::<T, E>(*r),
    {
        proof {
            use_type_invariant(self);
        }
        match &self.value {
            Ok(_) => unreached(),
            Err(e) => e,
        }
    }

    /// Like `err_mut`, for code where the tag is a parameter known to be `false`.
    pub(crate) fn as_error_mut(&mut self) -> (r: &mut E)
        requires
            !IS_OK,
        ensures
            old(self)@ == Err::<T, E>(*r),
            final(self)@ == Err::<T, E>(*final(r)),
    {
        proof {
            use_type_invariant(&*self);
        }
        failure_mut(&mut self.value)
    }
}

impl<T: Clone, E: Clone, const IS_OK: bool> Clone for StaticResult<T, E, IS_OK> {
    fn clone(&self) -> (r: Self)
        ensures
            self@ is Ok ==> r@ is Ok && cloned(self@->Ok_0, r@->Ok_0),
            self@ is Err ==> r@ is Err && cloned(self@->Err_0, r@->Err_0),
    {
        proof {
            use_type_invariant(self);
        }
        if IS_OK {
            StaticResult::create_ok(self.as_ok().clone())
        } else {
            StaticResult::create_err(self.as_error().clone())
        }
    }
}

impl<T, E, const IS_OK: bool> From<StaticResult<T, E, IS_OK>> for Result<T, E> {
    fn from(static_result: StaticResult<T, E, IS_OK>) -> Result<T, E> {
        static_result.into_result()
    }
}

impl<T, E, const IS_OK: bool> vstd::std_specs::convert::FromSpecImpl<StaticResult<T, E, IS_OK>> for Result<T, E> {
    open spec fn obeys_from_spec() -> bool {
        true
    }

    open spec fn from_spec(v: StaticResult<T, E, IS_OK>) -> Result<T, E> {
        v@
    }
}

} // verus!
