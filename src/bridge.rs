use crate::queue::{after_receive, after_send, Queue, RawQueue};
use embassy_sync::channel::{TryReceiveError, TrySendError};
use vstd::prelude::*;

verus! {

/// The two queues that the cores share: `tx` carries values from the
/// primary core to the secondary one, `rx` carries them back.
///
/// Used by `&mut`, each operation below is exact. Once shared by
/// `&'static`, as `spawn` does, each core reaches its ends of the queues
/// through the handles and no exclusive use can follow.
#[verifier::reject_recursive_types(T)]
#[verifier::reject_recursive_types(U)]
pub struct State<T, U, const N: usize, const M: usize> {
    tx: Queue<T, N>,
    rx: Queue<U, M>,
}

impl<T, U, const N: usize, const M: usize> State<T, U, N, M> {
    /// What waits to go from the primary core to the secondary one.
    pub closed spec fn forward(&self) -> Seq<T> {
        self.tx@
    }

    /// What waits to go from the secondary core to the primary one.
    pub closed spec fn backward(&self) -> Seq<U> {
        self.rx@
    }

    /// The channel that carries values from the primary core.
    pub closed spec fn forward_channel(&self) -> RawQueue<T, N> {
        self.tx.raw()
    }

    /// The channel that carries values back to the primary core.
    pub closed spec fn backward_channel(&self) -> RawQueue<U, M> {
        self.rx.raw()
    }

    pub fn new() -> (r: Self)
        ensures
            r.forward() == Seq::<T>::empty(),
            r.backward() == Seq::<U>::empty(),
    {
        State { tx: Queue::new(), rx: Queue::new() }
    }

    /// The primary core's non-blocking send towards the secondary core.
    pub fn try_send(&mut self, item: T) -> (r: Result<(), TrySendError<T>>)
        ensures
            final(self).forward() == after_send(old(self).forward(), item, N as nat),
            final(self).backward() == old(self).backward(),
            old(self).forward().len() < N ==> r is Ok,
            old(self).forward().len() >= N ==> r is Err && r->Err_0 == TrySendError::Full(item),
    {
        self.tx.try_send(item)
    }

    /// The primary core's non-blocking receive from the secondary core.
    pub fn try_receive(&mut self) -> (r: Result<U, TryReceiveError>)
        ensures
            final(self).backward() == after_receive(old(self).backward()),
            final(self).forward() == old(self).forward(),
            old(self).backward().len() > 0 ==> r is Ok && r->Ok_0 == old(self).backward()[0],
            old(self).backward().len() == 0 ==> r is Err && r->Err_0 == TryReceiveError::Empty,
    {
        self.rx.try_receive()
    }

    /// The secondary core's non-blocking send towards the primary core.
    pub fn secondary_send(&mut self, item: U) -> (r: Result<(), TrySendError<U>>)
        ensures
            final(self).backward() == after_send(old(self).backward(), item, M as nat),
            final(self).forward() == old(self).forward(),
            old(self).backward().len() < M ==> r is Ok,
            old(self).backward().len() >= M ==> r is Err && r->Err_0 == TrySendError::Full(item),
    {
        self.rx.try_send(item)
    }

    /// The secondary core's non-blocking receive from the primary core.
    pub fn secondary_receive(&mut self) -> (r: Result<T, TryReceiveError>)
        ensures
            final(self).forward() == after_receive(old(self).forward()),
            final(self).backward() == old(self).backward(),
            old(self).forward().len() > 0 ==> r is Ok && r->Ok_0 == old(self).forward()[0],
            old(self).forward().len() == 0 ==> r is Err && r->Err_0 == TryReceiveError::Empty,
    {
        self.tx.try_receive()
    }

    /// The forward channel, shared for good between the cores.
    pub fn forward_queue(&'static self) -> (r: &'static RawQueue<T, N>)
        ensures
            *r == self.forward_channel(),
    {
        self.tx.shared()
    }

    /// The backward channel, shared for good between the cores.
    pub fn backward_queue(&'static self) -> (r: &'static RawQueue<U, M>)
        ensures
            *r == self.backward_channel(),
    {
        self.rx.shared()
    }

    /// The secondary core's end of the bridge: it sends on the backward
    /// channel and receives from the forward one.
    pub fn bidi_channel(&'static self) -> (r: BidiChannel<'static, T, U, N, M>)
        ensures
            r.sends_on() == self.backward_channel(),
            r.receives_from() == self.forward_channel(),
    {
        BidiChannel { tx: self.rx.shared(), rx: self.tx.shared() }
    }
}

impl<T, U, const N: usize, const M: usize> Default for State<T, U, N, M> {
    fn default() -> (r: Self)
        ensures
            r.forward() == Seq::<T>::empty(),
            r.backward() == Seq::<U>::empty(),
    {
        Self::new()
    }
}

/// The secondary core's handle: non-blocking send towards the primary
/// core and non-blocking receive from it, while the primary core uses the
/// other ends of the same channels.
#[verifier::reject_recursive_types(T)]
#[verifier::reject_recursive_types(U)]
pub struct BidiChannel<'a, T, U, const N: usize, const M: usize> {
    tx: &'a RawQueue<U, M>,
    rx: &'a RawQueue<T, N>,
}

impl<'a, T, U, const N: usize, const M: usize> BidiChannel<'a, T, U, N, M> {
    /// The channel that `send` writes to.
    pub closed spec fn sends_on(&self) -> RawQueue<U, M> {
        *self.tx
    }

    /// The channel that `receive` reads from.
    pub closed spec fn receives_from(&self) -> RawQueue<T, N> {
        *self.rx
    }

    /// Sends `item` to the primary core if its channel has room; else
    /// hands `item` back inside `Full`. Never blocks.
    pub fn send(&self, item: U) -> (r: Result<(), TrySendError<U>>)
        ensures
            r is Ok || r->Err_0 == TrySendError::Full(item),
    {
        self.tx.try_send(item)
    }

    /// Takes the oldest value that the primary core sent, or `Empty`.
    /// Never blocks.
    pub fn receive(&self) -> (r: Result<T, TryReceiveError>)
        ensures
            r is Ok || r->Err_0 == TryReceiveError::Empty,
    {
        self.rx.try_receive()
    }
}

} // verus!
