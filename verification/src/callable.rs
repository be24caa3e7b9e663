use core::future::{ready, Future, Ready};
use vstd::future::FutureAdditionalSpecFns;
use vstd::prelude::*;

verus! {

/// Marks a type as a fixed argument list.
pub trait Tuple {

}

impl Tuple for () {

}

/// Invocation through a shared reference.
pub trait Callable<Args: Tuple = ()> {
    type Output;

    /// The results that a call on `self` with `args` may produce.
    open spec fn call_spec(&self, args: Args, out: Self::Output) -> bool {
        true
    }

    fn call_fn(&self, args: Args) -> (out: Self::Output)
        ensures
            self.call_spec(args, out),
    ;

    /// The same call, handed back as a future that is already resolved.
    fn call_fn_async(&self, args: Args) -> (fut: Ready<Self::Output>)
        ensures
            self.call_spec(args, fut@),
    {
        ready(self.call_fn(args))
    }
}

/// Invocation through an exclusive reference.
pub trait CallableMut<Args: Tuple = ()> {
    type Output;

    /// The results and final receivers that a call on `self` with `args` may produce.
    open spec fn call_mut_spec(&self, args: Args, after: &Self, out: Self::Output) -> bool {
        true
    }

    fn call_fn_mut(&mut self, args: Args) -> (out: Self::Output)
        ensures
            old(self).call_mut_spec(args, final(self), out),
    ;

    /// The same call, handed back as a future that is already resolved.
    fn call_fn_async_mut(&mut self, args: Args) -> (fut: Ready<Self::Output>)
        ensures
            old(self).call_mut_spec(args, final(self), fut@),
    {
        ready(self.call_fn_mut(args))
    }
}

impl<T, Args: Tuple> CallableMut<Args> for T where T: Callable<Args> {
    type Output = T::Output;

    open spec fn call_mut_spec(&self, args: Args, after: &Self, out: Self::Output) -> bool {
        *after == *self && self.call_spec(args, out)
    }

    fn call_fn_mut(&mut self, args: Args) -> (out: Self::Output) {
        self.call_fn(args)
    }
}

/// Invocation that consumes the receiver.
pub trait CallableOnce<Args: Tuple = ()> {
    type Output;

    /// The results that the one call on `self` with `args` may produce.
    open spec fn call_once_spec(self, args: Args, out: Self::Output) -> bool where Self: Sized {
        true
    }

    fn call_fn_once(self, args: Args) -> (out: Self::Output) where Self: Sized
        ensures
            self.call_once_spec(args, out),
    ;

    /// The same call, handed back as a future that is already resolved.
    fn call_fn_async_once(self, args: Args) -> (fut: Ready<Self::Output>) where Self: Sized
        ensures
            self.call_once_spec(args, fut@),
    {
        ready(self.call_fn_once(args))
    }
}

impl<T, Args: Tuple> CallableOnce<Args> for T where T: CallableMut<Args> {
    type Output = T::Output;

    open spec fn call_once_spec(self, args: Args, out: Self::Output) -> bool {
        exists|after: T| self.call_mut_spec(args, &after, out)
    }

    fn call_fn_once(self, args: Args) -> (out: Self::Output) {
        let mut receiver = self;
        receiver.call_fn_mut(args)
    }
}

/// A call through the derived exclusive-reference interface leaves the receiver as it was
/// and produces exactly the results of the by-reference call on the same arguments.
pub proof fn derived_mut_call_is_reference_call<T: Callable<Args>, Args: Tuple>(
    receiver: T,
    args: Args,
    after: T,
    out: <T as Callable<Args>>::Output,
)
    ensures
        <T as CallableMut<Args>>::call_mut_spec(&receiver, args, &after, out) <==> (after
            == receiver && receiver.call_spec(args, out)),
{
}

/// A call through the derived consuming interface produces exactly the results of the
/// by-reference call on the same arguments.
pub proof fn derived_once_call_is_reference_call<T: Callable<Args>, Args: Tuple>(
    receiver: T,
    args: Args,
    out: <T as Callable<Args>>::Output,
)
    ensures
        <T as CallableOnce<Args>>::call_once_spec(receiver, args, out) <==> receiver.call_spec(
            args,
            out,
        ),
{
    if receiver.call_spec(args, out) {
        assert(<T as CallableMut<Args>>::call_mut_spec(&receiver, args, &receiver, out));
    }
}

/// Invocation through a shared reference that hands back a pending computation.
pub trait AsyncCallable<Args: Tuple = ()> {
    type Output;

    type Future: Future<Output = Self::Output>;

    /// The results that the future of a call on `self` with `args` may resolve to.
    open spec fn call_async_spec(&self, args: Args, out: Self::Output) -> bool {
        true
    }

    fn call_fn_async(&self, args: Args) -> (fut: Self::Future)
        ensures
            self.call_async_spec(args, fut@),
    ;
}

/// Invocation through an exclusive reference that hands back a pending computation.
pub trait AsyncCallableMut<Args: Tuple = ()> {
    type Output;

    type Future: Future<Output = Self::Output>;

    /// The results that the future of a call on `self` with `args` may resolve to, each
    /// with the receiver that the call leaves behind.
    open spec fn call_async_mut_spec(&self, args: Args, after: &Self, out: Self::Output) -> bool {
        true
    }

    fn call_fn_async_mut(&mut self, args: Args) -> (fut: Self::Future)
        ensures
            old(self).call_async_mut_spec(args, final(self), fut@),
    ;
}

impl<T, Args: Tuple> AsyncCallableMut<Args> for T where T: AsyncCallable<Args> {
    type Output = T::Output;

    type Future = T::Future;

    open spec fn call_async_mut_spec(&self, args: Args, after: &Self, out: Self::Output) -> bool {
        *after == *self && self.call_async_spec(args, out)
    }

    fn call_fn_async_mut(&mut self, args: Args) -> (fut: Self::Future) {
        self.call_fn_async(args)
    }
}

/// Invocation that consumes the receiver and hands back a pending computation.
pub trait AsyncCallableOnce<Args: Tuple = ()> {
    type Output;

    type Future: Future<Output = Self::Output>;

    /// The results that the future of the one call on `self` with `args` may resolve to.
    open spec fn call_async_once_spec(self, args: Args, out: Self::Output) -> bool where Self: Sized {
        true
    }

    fn call_fn_async_once(self, args: Args) -> (fut: Self::Future) where Self: Sized
        ensures
            self.call_async_once_spec(args, fut@),
    ;
}

impl<T, Args: Tuple> AsyncCallableOnce<Args> for T where T: AsyncCallableMut<Args> {
    type Output = T::Output;

    type Future = T::Future;

    open spec fn call_async_once_spec(self, args: Args, out: Self::Output) -> bool {
        exists|after: T| self.call_async_mut_spec(args, &after, out)
    }

    fn call_fn_async_once(self, args: Args) -> (fut: Self::Future) {
        let mut receiver = self;
        receiver.call_fn_async_mut(args)
    }
}

/// A call through the derived exclusive-reference interface of the asynchronous tier leaves
/// the receiver as it was, and its future resolves to exactly the results of the future
/// of the by-reference call on the same arguments.
pub proof fn derived_async_mut_call_is_reference_call<T: AsyncCallable<Args>, Args: Tuple>(
    receiver: T,
    args: Args,
    after: T,
    out: <T as AsyncCallable<Args>>::Output,
)
    ensures
        <T as AsyncCallableMut<Args>>::call_async_mut_spec(&receiver, args, &after, out) <==> (
        after == receiver && receiver.call_async_spec(args, out)),
{
}

/// The future of a call through the derived consuming interface of the asynchronous tier
/// resolves to exactly the results of the future of the by-reference call on the same
/// arguments.
pub proof fn derived_async_once_call_is_reference_call<T: AsyncCallable<Args>, Args: Tuple>(
    receiver: T,
    args: Args,
    out: <T as AsyncCallable<Args>>::Output,
)
    ensures
        <T as AsyncCallableOnce<Args>>::call_async_once_spec(receiver, args, out)
            <==> receiver.call_async_spec(args, out),
{
    if receiver.call_async_spec(args, out) {
        assert(<T as AsyncCallableMut<Args>>::call_async_mut_spec(
            &receiver,
            args,
            &receiver,
            out,
        ));
    }
}

} // verus!
