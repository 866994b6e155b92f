use notify::Event;
use std::sync::mpsc::Receiver;
use std::sync::mpsc::TryRecvError;
use vstd::prelude::*;
use vstd::slice::slice_subrange;

verus! {

/// `notify::Event`: one change notification. The log carries it through and never
/// looks inside.
#[verifier::external_type_specification]
#[verifier::external_body]
pub struct ExEvent(notify::Event);

/// `notify::Error`: what the watcher reports in place of a notification, or when a
/// command fails. It is carried through and never looked into.
#[verifier::external_type_specification]
#[verifier::external_body]
pub struct ExError(notify::Error);

/// `std::sync::mpsc::TryRecvError`: why a receive without waiting gave no message.
#[verifier::external_type_specification]
#[verifier::external_body]
pub struct ExTryRecvError(std::sync::mpsc::TryRecvError);

/// `std::sync::mpsc::Receiver`: the receiving end of the channel that the watcher
/// feeds.
#[verifier::external_type_specification]
#[verifier::external_body]
#[verifier::reject_recursive_types(T)]
pub struct ExReceiver<T>(std::sync::mpsc::Receiver<T>);

/// `Receiver::try_recv` takes the next queued message without waiting, or says
/// that there is none. What comes back depends on what the sender has queued by
/// then, so nothing is claimed of it.
pub assume_specification<T>[ std::sync::mpsc::Receiver::<T>::try_recv ](
    rx: &Receiver<T>,
) -> (received: Result<T, TryRecvError>)
;

/// The log after one non-blocking receive gave `received`: a well-formed
/// notification is appended; a malformed one, an empty channel and a closed
/// channel leave the log as it is.
pub open spec fn recorded(
    log: Seq<Event>,
    received: Result<Result<Event, notify::Error>, TryRecvError>,
) -> Seq<Event> {
    match received {
        Ok(Ok(event)) => log.push(event),
        _ => log,
    }
}

/// The change notifications received so far, oldest first. Nothing is ever removed.
#[derive(Debug)]
pub struct EventLog {
    events: Vec<Event>,
}

impl View for EventLog {
    type V = Seq<Event>;

    closed spec fn view(&self) -> Seq<Event> {
        self.events@
    }
}

impl EventLog {
    /// An empty log.
    pub fn new() -> (log: EventLog)
        ensures
            log@ == Seq::<Event>::empty(),
    {
        EventLog { events: Vec::new() }
    }

    /// Number of notifications in the log.
    pub fn len(&self) -> (n: usize)
        ensures
            n == self@.len(),
    {
        self.events.len()
    }

    /// The notification of row `index`, if there is such a row.
    pub fn get(&self, index: usize) -> (event: Option<&Event>)
        ensures
            event is Some <==> index < self@.len(),
            event matches Some(e) ==> *e == self@[index as int],
    {
        if index < self.events.len() {
            Some(&self.events[index])
        } else {
            None
        }
    }

    /// The notifications of rows `start` to `end`, `end` excluded, for a view that
    /// shows only part of the log. Nothing unless `start <= end <= len`.
    pub fn rows(&self, start: usize, end: usize) -> (rows: Option<&[Event]>)
        ensures
            rows is Some <==> start <= end <= self@.len(),
            rows matches Some(r) ==> r@ == self@.subrange(start as int, end as int),
    {
        if start <= end && end <= self.events.len() {
            Some(slice_subrange(self.events.as_slice(), start, end))
        } else {
            None
        }
    }

    /// Takes what one non-blocking receive gave. A well-formed notification is
    /// appended; anything else, an empty channel included, leaves the log unchanged.
    pub fn record(&mut self, received: Result<Result<Event, notify::Error>, TryRecvError>)
        ensures
            final(self)@ == recorded(old(self)@, received),
            received is Err ==> final(self)@ == old(self)@,
            received matches Ok(Err(_)) ==> final(self)@ == old(self)@,
            received matches Ok(Ok(event)) ==> final(self)@ == old(self)@.push(event),
    {
        if let Ok(Ok(event)) = received {
            self.events.push(event);
        }
    }

    /// Receives at most one queued notification from `rx`, without waiting, and
    /// records it. Whatever the channel gives, the earlier rows stay as they are
    /// and at most one row is added.
    pub fn poll(&mut self, rx: &Receiver<Result<Event, notify::Error>>)
        ensures
            final(self)@ == old(self)@ || (final(self)@.len() == old(self)@.len() + 1
                && final(self)@.drop_last() == old(self)@),
    {
        let received = rx.try_recv();
        let ghost given = received;
        self.record(received);
        proof {
            if let Ok(Ok(event)) = given {
                assert(old(self)@.push(event).drop_last() =~= old(self)@);
            }
        }
    }
}

/// A receive that gave no well-formed notification leaves the log as it was, so
/// polling an empty channel any number of times changes nothing.
pub proof fn lemma_nothing_received_changes_nothing(
    log: Seq<Event>,
    received: Result<Result<Event, notify::Error>, TryRecvError>,
)
    requires
        !(received matches Ok(Ok(_))),
    ensures
        recorded(log, received) == log,
        recorded(recorded(log, received), received) == log,
{
}

/// The log only grows: whatever a receive gave, the rows that were there stay
/// where they were.
pub proof fn lemma_log_append_only(
    log: Seq<Event>,
    received: Result<Result<Event, notify::Error>, TryRecvError>,
)
    ensures
        log.len() <= recorded(log, received).len() <= log.len() + 1,
        recorded(log, received).take(log.len() as int) == log,
{
    assert(recorded(log, received).take(log.len() as int) =~= log);
}

} // verus!
