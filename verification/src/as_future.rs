//! The conversion shim: a pair of mutually exclusive capability traits that
//! present a uniform "convert to an awaitable value" interface over both
//! already-asynchronous values and plain values, plus the minimal
//! immediately-ready wrapper that plain values are converted into.

use vstd::prelude::*;

verus! {

/// A minimal suspension-point object: it stores one value and is ready on its
/// first poll, which yields the stored value and leaves the wrapper empty.
/// Polling it a second time is a contract violation, so `poll_once` requires a
/// still-filled wrapper.
pub struct Ready<T>(Option<T>);

impl<T> Ready<T> {
    /// The value still held by the wrapper: `Some` until the first poll,
    /// `None` afterwards.
    pub closed spec fn value(self) -> Option<T> {
        self.0
    }

    /// Whether the wrapper still holds its value, that is, has not yet been
    /// polled to completion.
    pub fn is_pending(&self) -> (r: bool)
        ensures
            r == (self.value() is Some),
    {
        self.0.is_some()
    }

    /// Resolve the wrapper: yield the stored value and leave the wrapper
    /// empty. This is the whole behaviour of the wrapper's single poll; a
    /// second poll is excluded by the precondition.
    pub fn poll_once(&mut self) -> (r: T)
        requires
            old(self).value() is Some,
        ensures
            r == old(self).value()->0,
            final(self).value() is None,
    {
        let taken = self.0.take();
        match taken {
            Some(t) => t,
            None => unreached(),
        }
    }
}

/// Wrap a plain value as an immediately-ready suspension point.
pub fn ready<T>(t: T) -> (r: Ready<T>)
    ensures
        r.value() == Some(t),
{
    Ready(Some(t))
}

/// The self-suspension capability: a value that is already awaitable converts
/// to itself, an identity conversion with zero overhead.
pub trait FutureAsFuture: Sized {
    fn as_future(self) -> (r: Self)
        ensures
            r == self;
}

/// The immediate-wrap capability: any plain (non-awaitable) value converts to
/// an immediately-ready wrapper that stores it.
pub trait NonFutureAsFuture: Sized {
    fn as_future(self) -> (r: Ready<Self>)
        ensures
            r.value() == Some(self);
}

impl<T> FutureAsFuture for Ready<T> {
    fn as_future(self) -> (r: Self)
        ensures
            r == self,
    {
        self
    }
}

impl NonFutureAsFuture for u8 {
    fn as_future(self) -> (r: Ready<Self>)
        ensures
            r.value() == Some(self),
    {
        ready(self)
    }
}

impl NonFutureAsFuture for u16 {
    fn as_future(self) -> (r: Ready<Self>)
        ensures
            r.value() == Some(self),
    {
        ready(self)
    }
}

impl NonFutureAsFuture for u32 {
    fn as_future(self) -> (r: Ready<Self>)
        ensures
            r.value() == Some(self),
    {
        ready(self)
    }
}

impl NonFutureAsFuture for u64 {
    fn as_future(self) -> (r: Ready<Self>)
        ensures
            r.value() == Some(self),
    {
        ready(self)
    }
}

impl NonFutureAsFuture for usize {
    fn as_future(self) -> (r: Ready<Self>)
        ensures
            r.value() == Some(self),
    {
        ready(self)
    }
}

impl NonFutureAsFuture for i8 {
    fn as_future(self) -> (r: Ready<Self>)
        ensures
            r.value() == Some(self),
    {
        ready(self)
    }
}

impl NonFutureAsFuture for i16 {
    fn as_future(self) -> (r: Ready<Self>)
        ensures
            r.value() == Some(self),
    {
        ready(self)
    }
}

impl NonFutureAsFuture for i32 {
    fn as_future(self) -> (r: Ready<Self>)
        ensures
            r.value() == Some(self),
    {
        ready(self)
    }
}

impl NonFutureAsFuture for i64 {
    fn as_future(self) -> (r: Ready<Self>)
        ensures
            r.value() == Some(self),
    {
        ready(self)
    }
}

impl NonFutureAsFuture for isize {
    fn as_future(self) -> (r: Ready<Self>)
        ensures
            r.value() == Some(self),
    {
        ready(self)
    }
}

impl NonFutureAsFuture for bool {
    fn as_future(self) -> (r: Ready<Self>)
        ensures
            r.value() == Some(self),
    {
        ready(self)
    }
}

impl NonFutureAsFuture for char {
    fn as_future(self) -> (r: Ready<Self>)
        ensures
            r.value() == Some(self),
    {
        ready(self)
    }
}

impl NonFutureAsFuture for () {
    fn as_future(self) -> (r: Ready<Self>)
        ensures
            r.value() == Some(self),
    {
        ready(self)
    }
}

impl NonFutureAsFuture for String {
    fn as_future(self) -> (r: Ready<Self>)
        ensures
            r.value() == Some(self),
    {
        ready(self)
    }
}

/// Relies on std::io::BufReader only as an opaque type, so that the wrapper
/// type the standard library wraps readers in can be registered for the
/// immediate-wrap capability like any other plain value.
#[verifier::external_type_specification]
#[verifier::external_body]
#[verifier::reject_recursive_types(R)]
pub struct ExBufReader<R: ?Sized>(std::io::BufReader<R>);

impl<R> NonFutureAsFuture for std::io::BufReader<R> {
    fn as_future(self) -> (r: Ready<Self>)
        ensures
            r.value() == Some(self),
    {
        ready(self)
    }
}

impl<T> NonFutureAsFuture for Option<T> {
    fn as_future(self) -> (r: Ready<Self>)
        ensures
            r.value() == Some(self),
    {
        ready(self)
    }
}

impl<T, E> NonFutureAsFuture for Result<T, E> {
    fn as_future(self) -> (r: Ready<Self>)
        ensures
            r.value() == Some(self),
    {
        ready(self)
    }
}

} // verus!
