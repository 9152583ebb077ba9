//! The single-item slot, its producer-side handle, and the two-phase
//! suspension object that forces one yield per sent item.

use vstd::prelude::*;

verus! {

/// Two-phase suspension object returned by [`Sender::send`].
///
/// The producer must await it before doing anything else: its first poll
/// flips it to completed and reports not-ready, which suspends the producer
/// and hands control back to the driver; the second poll reports ready and
/// lets the producer continue. This is what turns every `send` into an
/// observable yield point.
#[must_use]
pub struct SenderFuture {
    is_ready: bool,
}

impl SenderFuture {
    /// Whether the first poll has already happened, so that the next poll
    /// reports ready.
    pub closed spec fn completed(self) -> bool {
        self.is_ready
    }

    /// A fresh handshake object, not yet polled.
    pub fn new() -> (fut: SenderFuture)
        ensures
            !fut.completed(),
    {
        SenderFuture { is_ready: false }
    }

    /// One inspection of the handshake. The first poll reports not-ready
    /// (`false`) and completes the object; every later poll reports ready
    /// (`true`).
    pub fn poll(&mut self) -> (ready: bool)
        ensures
            ready == old(self).completed(),
            final(self).completed(),
    {
        if self.is_ready {
            true
        } else {
            self.is_ready = true;
            false
        }
    }
}

/// Producer-side handle to the single-item slot.
///
/// The slot holds at most one item: the one `send` stored since the driver's
/// last [`Sender::take`]. The `E` parameter only ties the handle to the
/// producer's declared failure type; no error value is ever stored here.
pub struct Sender<I, E> {
    slot: Option<I>,
    marker: core::marker::PhantomData<E>,
}

impl<I, E> Sender<I, E> {
    /// What the slot currently holds.
    pub closed spec fn slot(self) -> Option<I> {
        self.slot
    }

    /// A sender whose slot initially holds `item_opt` (normally `None`).
    pub fn new(item_opt: Option<I>) -> (s: Sender<I, E>)
        ensures
            s.slot() == item_opt,
    {
        Sender { slot: item_opt, marker: core::marker::PhantomData }
    }

    /// Store one item for the driver to collect and return the handshake
    /// object the producer must await before doing anything else.
    ///
    /// The slot is overwritten unconditionally: a second `send` before the
    /// driver has collected the first item silently discards the first
    /// value. That is this library's documented choice for a malformed
    /// producer; it is not detected or reported.
    pub fn send(&mut self, item: I) -> (fut: SenderFuture)
        ensures
            final(self).slot() == Some(item),
            !fut.completed(),
    {
        self.slot = Some(item);
        SenderFuture::new()
    }

    /// Driver-side: remove and return the current item, leaving the slot
    /// empty.
    pub fn take(&mut self) -> (r: Option<I>)
        ensures
            r == old(self).slot(),
            final(self).slot() is None,
    {
        self.slot.take()
    }
}

} // verus!
