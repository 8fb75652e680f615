use embassy_sync::blocking_mutex::raw::CriticalSectionRawMutex;
use embassy_sync::channel::{Channel, TryReceiveError, TrySendError};
use vstd::prelude::*;

verus! {

#[verifier::external_type_specification]
pub struct ExTrySendError<V>(TrySendError<V>);

#[verifier::external_type_specification]
pub struct ExTryReceiveError(TryReceiveError);

/// What a queue of capacity `cap` holds after a non-blocking send of
/// `item`: the item at the tail if there was room, else the same contents.
pub open spec fn after_send<V>(q: Seq<V>, item: V, cap: nat) -> Seq<V> {
    if q.len() < cap {
        q.push(item)
    } else {
        q
    }
}

/// What a queue holds after a non-blocking receive: all but the head.
pub open spec fn after_receive<V>(q: Seq<V>) -> Seq<V> {
    if q.len() > 0 {
        q.drop_first()
    } else {
        q
    }
}

/// What a queue of capacity `cap` holds after sending each of `items` in turn.
pub open spec fn after_sends<V>(q: Seq<V>, items: Seq<V>, cap: nat) -> Seq<V>
    decreases items.len(),
{
    if items.len() == 0 {
        q
    } else {
        after_sends(after_send(q, items[0], cap), items.drop_first(), cap)
    }
}

/// The values that `n` non-blocking receives take off a queue holding `q`.
pub open spec fn received<V>(q: Seq<V>, n: nat) -> Seq<V>
    decreases n,
{
    if n == 0 || q.len() == 0 {
        Seq::empty()
    } else {
        seq![q[0]] + received(q.drop_first(), (n - 1) as nat)
    }
}

/// Sending values into a queue with room for all of them appends them in
/// order.
pub proof fn lemma_sends_append<V>(q: Seq<V>, items: Seq<V>, cap: nat)
    requires
        q.len() + items.len() <= cap,
    ensures
        after_sends(q, items, cap) == q + items,
    decreases items.len(),
{
    if items.len() > 0 {
        lemma_sends_append(q.push(items[0]), items.drop_first(), cap);
        assert(q.push(items[0]) + items.drop_first() =~= q + items);
    }
}

/// Receiving as many times as a queue holds values takes all of them off,
/// oldest first.
pub proof fn lemma_receive_all<V>(q: Seq<V>)
    ensures
        received(q, q.len()) == q,
    decreases q.len(),
{
    if q.len() > 0 {
        lemma_receive_all(q.drop_first());
        assert(seq![q[0]] + q.drop_first() =~= q);
    }
}

/// First in, first out: sending values into an empty queue with room for
/// all of them, then receiving as many times, gives back the same values
/// in the same order.
pub proof fn lemma_fifo<V>(items: Seq<V>, cap: nat)
    requires
        items.len() <= cap,
    ensures
        received(after_sends(Seq::empty(), items, cap), items.len()) == items,
{
    lemma_sends_append(Seq::empty(), items, cap);
    assert(Seq::<V>::empty() + items =~= items);
    lemma_receive_all(items);
}

/// No send or receive takes a queue past its capacity.
pub proof fn lemma_length_bounded<V>(q: Seq<V>, item: V, cap: nat)
    requires
        q.len() <= cap,
    ensures
        after_send(q, item, cap).len() <= cap,
        after_receive(q).len() <= cap,
{
}

/// embassy-sync's `Channel` of capacity `C`: a fixed-size buffer, locked by
/// a critical section that excludes both cores at once.
///
/// Reached only through `&'static` references once shared, so that no
/// exclusive use of the owning `Queue` can follow a shared one.
#[verifier::external_body]
#[verifier::reject_recursive_types(V)]
pub struct RawQueue<V, const C: usize> {
    pub channel: Channel<CriticalSectionRawMutex, V, C>,
}

impl<V, const C: usize> RawQueue<V, C> {
    /// Relies on embassy_sync's `Channel::try_send`, used through a shared
    /// reference: a message that does not fit comes back unchanged inside
    /// `Full`.
    #[verifier::external_body]
    pub(crate) fn try_send(&self, message: V) -> (r: Result<(), TrySendError<V>>)
        ensures
            r is Ok || r->Err_0 == TrySendError::Full(message),
    {
        self.channel.try_send(message)
    }

    /// Relies on embassy_sync's `Channel::try_receive`, used through a
    /// shared reference: a message, or `Empty`.
    #[verifier::external_body]
    pub(crate) fn try_receive(&self) -> (r: Result<V, TryReceiveError>)
        ensures
            r is Ok || r->Err_0 == TryReceiveError::Empty,
    {
        self.channel.try_receive()
    }
}

/// A bounded first-in first-out queue of capacity `C`, with what it holds
/// as its view. The view follows the channel while the queue is used by
/// `&mut`, that is before it is shared between the cores.
#[verifier::reject_recursive_types(V)]
pub struct Queue<V, const C: usize> {
    raw: RawQueue<V, C>,
    model: Ghost<Seq<V>>,
}

impl<V, const C: usize> View for Queue<V, C> {
    type V = Seq<V>;

    closed spec fn view(&self) -> Seq<V> {
        self.model@
    }
}

impl<V, const C: usize> Queue<V, C> {
    /// The channel itself, for use from both cores.
    pub closed spec fn raw(&self) -> RawQueue<V, C> {
        self.raw
    }

    /// Relies on embassy_sync's `Channel::new`: an empty channel.
    #[verifier::external_body]
    pub(crate) fn new() -> (r: Self)
        ensures
            r@ == Seq::<V>::empty(),
    {
        Queue { raw: RawQueue { channel: Channel::new() }, model: Ghost(Seq::empty()) }
    }

    /// Relies on embassy_sync's `Channel::try_send` under exclusive use: the
    /// message goes to the tail if fewer than `C` are held, else it comes
    /// back unchanged inside `Full` and the queue is left as it was.
    #[verifier::external_body]
    pub(crate) fn try_send(&mut self, message: V) -> (r: Result<(), TrySendError<V>>)
        ensures
            final(self)@ == after_send(old(self)@, message, C as nat),
            old(self)@.len() < C ==> r is Ok,
            old(self)@.len() >= C ==> r is Err && r->Err_0 == TrySendError::Full(message),
    {
        self.raw.channel.try_send(message)
    }

    /// Relies on embassy_sync's `Channel::try_receive` under exclusive use:
    /// the head comes off if there is one, else `Empty` and the queue is
    /// left as it was.
    #[verifier::external_body]
    pub(crate) fn try_receive(&mut self) -> (r: Result<V, TryReceiveError>)
        ensures
            final(self)@ == after_receive(old(self)@),
            old(self)@.len() > 0 ==> r is Ok && r->Ok_0 == old(self)@[0],
            old(self)@.len() == 0 ==> r is Err && r->Err_0 == TryReceiveError::Empty,
    {
        self.raw.channel.try_receive()
    }

    /// The channel, shared for good: no exclusive use can follow.
    pub fn shared(&'static self) -> (r: &'static RawQueue<V, C>)
        ensures
            *r == self.raw(),
    {
        &self.raw
    }
}

} // verus!
