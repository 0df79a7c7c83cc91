//! The worker that keeps the catalog's size current: many requests become few counts, and a
//! cancelled worker counts no more.
use vstd::prelude::*;

verus! {

/// What came of one refresh.
#[derive(Debug, Clone, Copy, PartialEq, Eq, Structural)]
pub enum RefreshOutcome {
    /// A count was made; it may have failed.
    Ran,
    /// The worker was cancelled before a count came to its end.
    Cancelled,
}

/// The worker and what it waits for. At most one request is kept while the worker is busy.
#[derive(Debug, Clone, Copy, PartialEq, Eq, Structural)]
pub struct Refresher {
    /// A request is waiting.
    pub requested: bool,
    /// A count is in flight.
    pub counting: bool,
    /// The worker is to stop.
    pub cancelled: bool,
    /// How many counts were begun.
    pub runs: u64,
    /// The size that was last counted.
    pub size: Option<u64>,
}

impl Refresher {
    /// A worker that was asked nothing yet.
    pub open spec fn fresh() -> Refresher {
        Refresher { requested: false, counting: false, cancelled: false, runs: 0, size: None }
    }

    /// After a request.
    pub open spec fn after_request(self) -> Refresher {
        Refresher { requested: true, ..self }
    }

    /// After a cancellation.
    pub open spec fn after_cancel(self) -> Refresher {
        Refresher { cancelled: true, ..self }
    }

    /// A count can begin: nothing is in flight, and the worker is not to stop.
    pub open spec fn free(self) -> bool {
        !self.counting && !self.cancelled
    }

    /// After a count was to begin, whether or not one was requested.
    pub open spec fn after_begin(self) -> Refresher {
        if self.free() {
            Refresher {
                counting: true,
                runs: if self.runs < u64::MAX {
                    (self.runs + 1) as u64
                } else {
                    u64::MAX
                },
                ..self
            }
        } else {
            self
        }
    }

    /// After the worker woke: it takes a request and begins the count that was asked for.
    pub open spec fn after_wake(self) -> Refresher {
        if self.requested && self.free() {
            Refresher { requested: false, ..self.after_begin() }
        } else {
            self
        }
    }

    /// After a count came to its end. A cancelled worker does not look at it, and one that
    /// failed leaves the size as it was.
    pub open spec fn after_count(self, counted: Result<u64, String>) -> Refresher {
        Refresher {
            counting: false,
            size: if self.cancelled {
                self.size
            } else {
                match counted {
                    Ok(n) => Some(n),
                    Err(_) => self.size,
                }
            },
            ..self
        }
    }

    /// Makes a worker that was asked nothing yet.
    pub fn new() -> (r: Self)
        ensures
            r == Self::fresh(),
    {
        Refresher { requested: false, counting: false, cancelled: false, runs: 0, size: None }
    }

    /// Asks for a refresh.
    pub fn request_catalog_size_refresh(&mut self)
        ensures
            *final(self) == old(self).after_request(),
    {
        self.requested = true;
    }

    /// Tells the worker to stop.
    pub fn cancel(&mut self)
        ensures
            *final(self) == old(self).after_cancel(),
    {
        self.cancelled = true;
    }

    /// Begins a count, whether or not one was requested, and says whether it did: not where the
    /// worker was cancelled or is counting already.
    pub fn begin_refresh(&mut self) -> (r: bool)
        ensures
            r == old(self).free(),
            *final(self) == old(self).after_begin(),
    {
        if !self.counting && !self.cancelled {
            self.counting = true;
            if self.runs < u64::MAX {
                self.runs = self.runs + 1;
            }
            true
        } else {
            false
        }
    }

    /// Wakes the worker, and says whether it begins a count.
    pub fn wake(&mut self) -> (r: bool)
        ensures
            r == (old(self).requested && old(self).free()),
            *final(self) == old(self).after_wake(),
    {
        if self.requested && self.begin_refresh() {
            self.requested = false;
            true
        } else {
            false
        }
    }

    /// Takes the end of a count, or of waiting for one that a cancelled worker did not begin. A
    /// count that failed is no failure of the refresh.
    pub fn counted(&mut self, counted: Result<u64, String>) -> (r: RefreshOutcome)
        requires
            old(self).counting || old(self).cancelled,
        ensures
            r == (if old(self).cancelled {
                RefreshOutcome::Cancelled
            } else {
                RefreshOutcome::Ran
            }),
            *final(self) == old(self).after_count(counted),
    {
        self.counting = false;
        if self.cancelled {
            RefreshOutcome::Cancelled
        } else {
            if let Ok(n) = counted {
                self.size = Some(n);
            }
            RefreshOutcome::Ran
        }
    }
}

/// Something that happens to the worker.
pub enum RefreshEvent {
    Request,
    Cancel,
    /// A count is to begin without a request.
    Begin,
    Wake,
    Counted(Result<u64, String>),
}

/// The worker after one event.
pub open spec fn refresh_stepped(w: Refresher, e: RefreshEvent) -> Refresher {
    match e {
        RefreshEvent::Request => w.after_request(),
        RefreshEvent::Cancel => w.after_cancel(),
        RefreshEvent::Begin => w.after_begin(),
        RefreshEvent::Wake => w.after_wake(),
        RefreshEvent::Counted(n) => w.after_count(n),
    }
}

/// The worker after a series of events.
pub open spec fn refreshed(w: Refresher, events: Seq<RefreshEvent>) -> Refresher
    decreases events.len(),
{
    if events.len() == 0 {
        w
    } else {
        refresh_stepped(refreshed(w, events.drop_last()), events.last())
    }
}

/// How often a count is asked for among some events, by a request or directly.
pub open spec fn asked_for(events: Seq<RefreshEvent>) -> nat
    decreases events.len(),
{
    if events.len() == 0 {
        0
    } else {
        asked_for(events.drop_last()) + if events.last() is Request || events.last() is Begin {
            1nat
        } else {
            0nat
        }
    }
}

/// A burst of requests, however long, leaves the worker as one request does.
pub proof fn law_a_burst_is_one_request(w: Refresher, events: Seq<RefreshEvent>)
    requires
        events.len() > 0,
        forall|i: int| 0 <= i < events.len() ==> #[trigger] events[i] is Request,
    ensures
        refreshed(w, events) == w.after_request(),
    decreases events.len(),
{
    let earlier = events.drop_last();
    if earlier.len() > 0 {
        assert forall|i: int| 0 <= i < earlier.len() implies #[trigger] earlier[i] is Request by {
            assert(earlier[i] == events[i]);
        }
        law_a_burst_is_one_request(w, earlier);
    } else {
        assert(refreshed(w, earlier) == w);
    }
    assert(events[events.len() - 1] is Request);
}

/// No more counts are begun than were asked for; where nothing new is asked for, at most one.
pub proof fn law_counts_are_asked_for(w: Refresher, events: Seq<RefreshEvent>)
    ensures
        ({
            let after = refreshed(w, events);
            let waiting = |s: Refresher| if s.requested { 1int } else { 0int };
            &&& w.runs <= after.runs
            &&& after.runs + waiting(after) <= w.runs + waiting(w) + asked_for(events)
        }),
        asked_for(events) == 0 ==> refreshed(w, events).runs <= w.runs + 1,
    decreases events.len(),
{
    if events.len() > 0 {
        law_counts_are_asked_for(w, events.drop_last());
    }
}

/// A worker that was cancelled begins no count, whatever it is asked, and keeps the size it had.
pub proof fn law_a_cancelled_worker_counts_no_more(w: Refresher, events: Seq<RefreshEvent>)
    requires
        w.cancelled,
    ensures
        refreshed(w, events).cancelled,
        refreshed(w, events).runs == w.runs,
        refreshed(w, events).size == w.size,
    decreases events.len(),
{
    if events.len() > 0 {
        law_a_cancelled_worker_counts_no_more(w, events.drop_last());
    }
}

/// A count begins whenever the worker is free, and is then one run more; nothing else changes. A
/// worker that is not free stays as it is.
pub proof fn law_counts_begin_when_the_worker_is_free(w: Refresher)
    ensures
        w.free() <==> !w.counting && !w.cancelled,
        !w.free() ==> w.after_begin() == w,
        w.free() ==> {
            let after = w.after_begin();
            &&& after.counting
            &&& !after.cancelled
            &&& after.requested == w.requested
            &&& after.size == w.size
            &&& w.runs < u64::MAX ==> after.runs == w.runs + 1
            &&& w.runs == u64::MAX ==> after.runs == w.runs
        },
{
}

/// A request is not lost: it waits until the worker is free and wakes, which then counts for it
/// and takes it. A worker that wakes without one does nothing.
pub proof fn law_requests_are_not_lost(w: Refresher, counted: Result<u64, String>)
    ensures
        w.after_request().requested,
        w.after_request().counting == w.counting,
        w.after_request().cancelled == w.cancelled,
        w.after_request().runs == w.runs,
        w.after_request().size == w.size,
        w.after_count(counted).requested == w.requested,
        w.after_begin().requested == w.requested,
        w.after_cancel().requested == w.requested,
        w.requested && w.free() ==> {
            let after = w.after_wake();
            &&& after.counting
            &&& !after.requested
            &&& after.size == w.size
            &&& w.runs < u64::MAX ==> after.runs == w.runs + 1
        },
        !(w.requested && w.free()) ==> w.after_wake() == w,
{
}

/// The size is that of the last count that succeeded, unless the worker was cancelled before it
/// came; the worker is free again after every count, and counts no run twice.
pub proof fn law_size_is_the_last_count(w: Refresher, counted: Result<u64, String>)
    ensures
        ({
            let after = w.after_count(counted);
            &&& !after.counting
            &&& after.cancelled == w.cancelled
            &&& after.runs == w.runs
            &&& !w.cancelled && counted is Ok ==> after.size == Some(counted->Ok_0)
            &&& w.cancelled || counted is Err ==> after.size == w.size
        }),
{
}

/// A cancellation stops the worker and changes nothing else; a fresh worker has nothing to do.
pub proof fn law_cancelling_changes_nothing_else(w: Refresher)
    ensures
        w.after_cancel().cancelled,
        w.after_cancel().counting == w.counting,
        w.after_cancel().runs == w.runs,
        w.after_cancel().size == w.size,
        !Refresher::fresh().requested,
        Refresher::fresh().free(),
        Refresher::fresh().runs == 0,
        Refresher::fresh().size is None,
{
}

} // verus!
