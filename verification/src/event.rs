use crate::address::Key;
use vstd::prelude::*;

verus! {

/// A state transition as contracts see it.
pub enum EventView {
    AccountInitialized { address: Seq<u8>, owner: Seq<u8> },
    TransferApplied { from: Seq<u8>, to: Seq<u8>, sequence_from: u64, sequence_to: u64 },
}

/// A state transition, told to outside observers. A transfer is told without
/// its amount.
#[derive(Clone, Copy, Debug, PartialEq, Eq)]
pub enum Event {
    AccountInitialized { address: Key, owner: Key },
    TransferApplied { from: Key, to: Key, sequence_from: u64, sequence_to: u64 },
}

impl View for Event {
    type V = EventView;

    open spec fn view(&self) -> EventView {
        match *self {
            Event::AccountInitialized { address, owner } => EventView::AccountInitialized {
                address: address@,
                owner: owner@,
            },
            Event::TransferApplied {
                from,
                to,
                sequence_from,
                sequence_to,
            } => EventView::TransferApplied { from: from@, to: to@, sequence_from, sequence_to },
        }
    }
}

/// An append-only sink for events with room for a fixed number of them. It
/// takes what it has room for and drops the rest: a sink that is full tells
/// so and changes nothing, and no operation on the ledger depends on it.
pub struct AuditLog {
    entries: Vec<Event>,
    capacity: usize,
}

impl View for AuditLog {
    type V = Seq<EventView>;

    closed spec fn view(&self) -> Seq<EventView> {
        Seq::new(self.entries@.len(), |i: int| self.entries@[i]@)
    }
}

impl AuditLog {
    /// The number of events that the sink has room for.
    pub closed spec fn limit(&self) -> nat {
        self.capacity as nat
    }

    /// An empty sink with room for `capacity` events.
    pub fn new(capacity: usize) -> (log: AuditLog)
        ensures
            log@ == Seq::<EventView>::empty(),
            log.limit() == capacity,
    {
        let log = AuditLog { entries: Vec::new(), capacity };
        assert(log@ =~= Seq::<EventView>::empty());
        log
    }

    /// The number of events recorded so far.
    pub fn len(&self) -> (n: usize)
        ensures
            n == self@.len(),
    {
        self.entries.len()
    }

    /// The event recorded at place `index`, counted from zero.
    pub fn get(&self, index: usize) -> (r: Option<Event>)
        ensures
            match r {
                Some(event) => index < self@.len() && event@ == self@[index as int],
                None => index >= self@.len(),
            },
    {
        if index < self.entries.len() {
            Some(self.entries[index])
        } else {
            None
        }
    }

    /// Appends `event` where there is room and tells whether it did. What was
    /// recorded before stays as it was.
    pub fn record(&mut self, event: Event) -> (stored: bool)
        ensures
            final(self).limit() == old(self).limit(),
            stored == (old(self)@.len() < old(self).limit()),
            stored ==> final(self)@ == old(self)@.push(event@),
            !stored ==> final(self)@ == old(self)@,
    {
        if self.entries.len() < self.capacity {
            self.entries.push(event);
            assert(self@ =~= old(self)@.push(event@));
            true
        } else {
            false
        }
    }
}

} // verus!
