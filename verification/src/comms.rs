//! Cross-task hand-off primitives: a single-slot overwrite signal carrying
//! the pump target intensity, and a bounded FIFO queue carrying filtered
//! samples toward the upload path.
//!
//! Both wrap an `embassy_sync` primitive whose methods mutate through
//! `&self` (interior mutability), which no contract on the foreign type
//! itself could express; each is therefore held in a private field of an
//! opaque struct, its contents are named by an uninterpreted spec
//! function, and every operation the logic needs is a trusted wrapper
//! taking `&mut self`.

use vstd::prelude::*;

use embassy_sync::blocking_mutex::raw::NoopRawMutex;
use embassy_sync::channel::Channel;
use embassy_sync::signal::Signal;

verus! {

/// Capacity of the filtered-sample upload queue.
pub const UPLOAD_QUEUE_CAPACITY: usize = 64;

/// A single-slot, overwrite-on-write value cell for the pump target
/// intensity. It holds at most one pending value; a write replaces any
/// value not yet observed, so a slow consumer sees only the most recent
/// write.
#[verifier::external_body]
pub struct PumpSignal {
    inner: Signal<NoopRawMutex, u8>,
}

/// The value currently stored in the signal slot, if any.
pub uninterp spec fn signal_content(s: PumpSignal) -> Option<u8>;

impl PumpSignal {
    /// Relies on `embassy_sync::signal::Signal::new`: a fresh signal
    /// holds no value.
    #[verifier::external_body]
    pub fn new() -> (s: Self)
        ensures
            signal_content(s) is None,
    {
        PumpSignal { inner: Signal::new() }
    }

    /// Relies on `embassy_sync::signal::Signal::signal`: the written
    /// value replaces whatever was stored, so after the call the slot
    /// holds exactly this value, whatever it held before.
    #[verifier::external_body]
    pub fn write(&mut self, value: u8)
        ensures
            signal_content(*final(self)) == Some(value),
    {
        self.inner.signal(value);
    }

    /// Relies on `embassy_sync::signal::Signal::try_take`: returns the
    /// stored value and empties the slot, or returns `None` if the slot
    /// was empty.
    #[verifier::external_body]
    pub fn take(&mut self) -> (r: Option<u8>)
        ensures
            r == signal_content(*old(self)),
            signal_content(*final(self)) is None,
    {
        self.inner.try_take()
    }
}

/// A bounded FIFO queue of filtered samples, each carried as a pair of
/// fixed-point values `(moisture, temperature)` (see
/// [`crate::soil_estimator::FilteredMessurement`]). Non-blocking sends
/// fail when all slots are taken; successfully enqueued items keep their
/// order.
#[verifier::external_body]
pub struct UploadQueue {
    inner: Channel<NoopRawMutex, (u64, u64), 64>,
}

/// The items currently queued, oldest first.
pub uninterp spec fn queue_contents(q: UploadQueue) -> Seq<(u64, u64)>;

impl UploadQueue {
    /// Relies on `embassy_sync::channel::Channel::new`: a fresh channel
    /// is empty.
    #[verifier::external_body]
    pub fn new() -> (q: Self)
        ensures
            queue_contents(q) == Seq::<(u64, u64)>::empty(),
    {
        UploadQueue { inner: Channel::new() }
    }

    /// Relies on `embassy_sync::channel::Channel::try_send`: enqueues at
    /// the back when a slot is free, and fails without waiting or
    /// changing the queue when all 64 slots are taken.
    #[verifier::external_body]
    pub fn try_send(&mut self, item: (u64, u64)) -> (accepted: bool)
        ensures
            queue_contents(*old(self)).len() < UPLOAD_QUEUE_CAPACITY ==> accepted
                && queue_contents(*final(self)) == queue_contents(*old(self)).push(item),
            queue_contents(*old(self)).len() >= UPLOAD_QUEUE_CAPACITY ==> !accepted
                && queue_contents(*final(self)) == queue_contents(*old(self)),
    {
        self.inner.try_send(item).is_ok()
    }

    /// Relies on `embassy_sync::channel::Channel::try_receive`: dequeues
    /// the oldest item, or fails without waiting when the queue is empty.
    #[verifier::external_body]
    pub fn try_receive(&mut self) -> (r: Option<(u64, u64)>)
        ensures
            queue_contents(*old(self)).len() > 0 ==> r == Some(
                queue_contents(*old(self))[0],
            ) && queue_contents(*final(self)) == queue_contents(*old(self)).drop_first(),
            queue_contents(*old(self)).len() == 0 ==> r is None && queue_contents(
                *final(self),
            ) == queue_contents(*old(self)),
    {
        self.inner.try_receive().ok()
    }

    /// Relies on `embassy_sync::channel::Channel::len`: the number of
    /// queued items.
    #[verifier::external_body]
    pub fn len(&self) -> (n: usize)
        ensures
            n == queue_contents(*self).len(),
    {
        self.inner.len()
    }
}

} // verus!
