use vstd::prelude::*;

verus! {

/// The state of a one-value handoff cell.
#[derive(Debug)]
pub enum Slot<T> {
    /// No value has been written yet.
    Pending,
    /// The producer wrote this value and nobody has read it.
    Ready(T),
    /// The value was read; the cell will never hold another.
    Consumed,
}

/// The state a cell is in after a write of `value`: only the first write lands.
pub open spec fn after_send<T>(s: Slot<T>, value: T) -> Slot<T> {
    match s {
        Slot::Pending => Slot::Ready(value),
        _ => s,
    }
}

/// The state a cell is in after a read: a ready value is handed out once.
pub open spec fn after_take<T>(s: Slot<T>) -> Slot<T> {
    match s {
        Slot::Ready(_) => Slot::Consumed,
        _ => s,
    }
}

/// A single-producer, single-consumer cell that carries exactly one value
/// from a completing task to whoever awaits it.
pub struct ResultChannel<T> {
    slot: Slot<T>,
}

impl<T> View for ResultChannel<T> {
    type V = Slot<T>;

    closed spec fn view(&self) -> Slot<T> {
        self.slot
    }
}

impl<T> ResultChannel<T> {
    /// A fresh, empty cell.
    pub fn new() -> (r: Self)
        ensures
            r@ == Slot::<T>::Pending,
    {
        ResultChannel { slot: Slot::Pending }
    }

    /// Writes `value`. The first write fills the cell; any later write is
    /// discarded and leaves the cell as it was.
    pub fn send(&mut self, value: T) -> (accepted: bool)
        ensures
            accepted == (old(self)@ is Pending),
            final(self)@ == after_send(old(self)@, value),
    {
        if let Slot::Pending = self.slot {
            self.slot = Slot::Ready(value);
            true
        } else {
            false
        }
    }

    /// Whether a value is waiting to be read.
    pub fn is_ready(&self) -> (r: bool)
        ensures
            r == (self@ is Ready),
    {
        if let Slot::Ready(_) = self.slot {
            true
        } else {
            false
        }
    }

    /// Reads the cell. A ready value is handed out and the cell becomes
    /// `Consumed`; a pending or consumed cell is reported as it is and left alone,
    /// so a second read is seen as `Consumed` rather than hanging.
    pub fn take(&mut self) -> (r: Slot<T>)
        ensures
            r == old(self)@,
            final(self)@ == after_take(old(self)@),
    {
        let mut out = Slot::Consumed;
        std::mem::swap(&mut self.slot, &mut out);
        if let Slot::Pending = out {
            self.slot = Slot::Pending;
        }
        out
    }
}

/// A cell is filled by its first write alone, and the value written is read
/// back exactly once: the read after it finds the cell consumed, and no later
/// write refills it.
pub proof fn lemma_single_resolution<T>(first: T, second: T)
    ensures
        after_send(Slot::Pending, first) == Slot::Ready(first),
        after_send(after_send(Slot::Pending, first), second) == Slot::Ready(first),
        after_take(after_send(Slot::Pending, first)) == Slot::<T>::Consumed,
        after_send(after_take(after_send(Slot::Pending, first)), second)
            == Slot::<T>::Consumed,
{
}

} // verus!
