//! What a dashboard shows in the course of many calls: the listing of the last opening, once, and
//! nothing after it was closed.
use crate::channel::{came_back, ends_of_one};
use crate::dashboard::{opened, polled, puts, PickerUpdate, SessionDashboard, LISTING_CAPACITY};
use crate::listing::Listing;
use vstd::prelude::*;

verus! {

/// A call on a dashboard, as far as it matters for what is awaited and shown.
pub enum Call {
    /// `open`, which gave out this end of its channel.
    Open(flume::Sender<Listing>),
    /// `await_listing` with this receiver.
    AwaitListing(flume::Receiver<Listing>),
    /// `tick` or `try_resolve`, which told the list to show this.
    Poll(Option<PickerUpdate>),
    /// `resolve` with a listing from elsewhere.
    Resolve,
    /// `close`.
    Close,
    /// A call that leaves alone what is awaited: a key press, or `take_flash`.
    Other,
}

impl Call {
    /// From this call on another listing is awaited.
    pub open spec fn awaits_anew(self) -> bool {
        self is Open || self is AwaitListing
    }

    /// This call takes the dashboard from `before` to `after`.
    pub open spec fn leads(self, before: SessionDashboard, after: SessionDashboard) -> bool {
        match self {
            Call::Open(tx) => opened(before, after, tx),
            Call::AwaitListing(rx) => after.pending_rx == Some(rx),
            Call::Poll(update) => polled(before, after, update),
            Call::Resolve | Call::Close => after.pending_rx is None,
            Call::Other => after.pending_rx == before.pending_rx,
        }
    }
}

/// Each of `calls` takes the dashboard from one of `states` to the next.
pub open spec fn is_run(states: Seq<SessionDashboard>, calls: Seq<Call>) -> bool {
    &&& states.len() == calls.len() + 1
    &&& forall|k: int|
        0 <= k < calls.len() ==> (#[trigger] calls[k]).leads(states[k], states[k + 1])
}

/// No other listing is awaited from any call after `j` and before `k`.
pub open spec fn none_anew(calls: Seq<Call>, j: int, k: int) -> bool {
    forall|m: int| j < m < k ==> !(#[trigger] calls[m]).awaits_anew()
}

/// `update` shows a listing that can come out at `rx`.
pub open spec fn came_out(rx: flume::Receiver<Listing>, update: PickerUpdate) -> bool {
    exists|listing: Listing|
        #![trigger puts(listing, update)]
        came_back(rx, Some(listing)) && puts(listing, update)
}

/// `update` shows a listing that can come out of the channel into which `tx` sends.
pub open spec fn came_through(tx: flume::Sender<Listing>, update: PickerUpdate) -> bool {
    exists|rx: flume::Receiver<Listing>|
        #![trigger ends_of_one(LISTING_CAPACITY, tx, rx)]
        ends_of_one(LISTING_CAPACITY, tx, rx) && came_out(rx, update)
}

/// What a poll shows came out at the receiver that was awaited.
proof fn lemma_shown_was_awaited(
    before: SessionDashboard,
    after: SessionDashboard,
    update: PickerUpdate,
)
    requires
        polled(before, after, Some(update)),
    ensures
        before.pending_rx is Some,
        came_out(before.pending_rx->0, update),
        after.pending_rx is None,
{
    let rx = before.pending_rx->0;
    let arrived = choose|arrived: Option<Listing>|
        #![trigger came_back(rx, arrived)]
        came_back(rx, arrived) && crate::dashboard::takes_in(arrived, before, after, Some(update));
    assert(puts(arrived->0, update));
}

/// Where nothing is awaited, and nothing is awaited anew, nothing comes to be awaited.
proof fn lemma_still_nothing(states: Seq<SessionDashboard>, calls: Seq<Call>, j: int, k: int)
    requires
        is_run(states, calls),
        0 <= j < k <= calls.len(),
        none_anew(calls, j, k),
        states[j + 1].pending_rx is None,
    ensures
        states[k].pending_rx is None,
    decreases k - j,
{
    if k > j + 1 {
        lemma_still_nothing(states, calls, j, k - 1);
        let call = calls[k - 1];
        assert(call.leads(states[k - 1], states[k]));
        assert(!call.awaits_anew());
    }
}

/// What is awaited is what was awaited after an earlier call, if nothing was awaited anew since; and
/// in between nothing was closed and nothing shown.
proof fn lemma_still_the_same(states: Seq<SessionDashboard>, calls: Seq<Call>, j: int, k: int)
    requires
        is_run(states, calls),
        0 <= j < k <= calls.len(),
        none_anew(calls, j, k),
        states[k].pending_rx is Some,
    ensures
        states[k].pending_rx == states[j + 1].pending_rx,
        forall|m: int| j < m < k ==> #[trigger] calls[m] is Other || calls[m] == Call::Poll(None),
    decreases k - j,
{
    if k > j + 1 {
        let call = calls[k - 1];
        assert(call.leads(states[k - 1], states[k]));
        assert(!call.awaits_anew());
        if let Call::Poll(Some(update)) = call {
            lemma_shown_was_awaited(states[k - 1], states[k], update);
        }
        assert(call is Other || call == Call::Poll(None));
        assert(states[k - 1].pending_rx == states[k].pending_rx);
        lemma_still_the_same(states, calls, j, k - 1);
    }
}

/// After an opening only the listing of that opening is shown, whatever was opened before: as long as
/// nothing is awaited anew, whatever a poll shows came through the channel of that opening, which
/// was not closed meanwhile and had shown nothing yet.
pub proof fn law_only_the_last_opening_is_shown(
    states: Seq<SessionDashboard>,
    calls: Seq<Call>,
    j: int,
    k: int,
    tx: flume::Sender<Listing>,
    update: PickerUpdate,
)
    requires
        is_run(states, calls),
        0 <= j < k < calls.len(),
        calls[j] == Call::Open(tx),
        none_anew(calls, j, k),
        calls[k] == Call::Poll(Some(update)),
    ensures
        came_through(tx, update),
        forall|m: int| j < m < k ==> #[trigger] calls[m] is Other || calls[m] == Call::Poll(None),
{
    assert(calls[k].leads(states[k], states[k + 1]));
    assert(calls[j].leads(states[j], states[j + 1]));
    lemma_shown_was_awaited(states[k], states[k + 1], update);
    lemma_still_the_same(states, calls, j, k);
    assert(ends_of_one(LISTING_CAPACITY, tx, states[k].pending_rx->0));
}

/// A closed dashboard shows nothing, however often it is polled, and stays as it is, until it is
/// opened again.
pub proof fn law_a_closed_dashboard_shows_nothing(
    states: Seq<SessionDashboard>,
    calls: Seq<Call>,
    j: int,
    k: int,
    update: Option<PickerUpdate>,
)
    requires
        is_run(states, calls),
        0 <= j < k < calls.len(),
        calls[j] is Close,
        none_anew(calls, j, k),
        calls[k] == Call::Poll(update),
    ensures
        update is None,
        states[k + 1] == states[k],
{
    assert(calls[j].leads(states[j], states[j + 1]));
    assert(calls[k].leads(states[k], states[k + 1]));
    lemma_still_nothing(states, calls, j, k);
}

/// A listing is taken in at most once: between two polls that show something, a listing was awaited
/// anew.
pub proof fn law_a_listing_is_shown_once(
    states: Seq<SessionDashboard>,
    calls: Seq<Call>,
    j: int,
    k: int,
    first: PickerUpdate,
    second: PickerUpdate,
)
    requires
        is_run(states, calls),
        0 <= j < k < calls.len(),
        calls[j] == Call::Poll(Some(first)),
        calls[k] == Call::Poll(Some(second)),
    ensures
        exists|m: int| j < m < k && (#[trigger] calls[m]).awaits_anew(),
{
    assert(calls[j].leads(states[j], states[j + 1]));
    assert(calls[k].leads(states[k], states[k + 1]));
    lemma_shown_was_awaited(states[j], states[j + 1], first);
    lemma_shown_was_awaited(states[k], states[k + 1], second);
    if none_anew(calls, j, k) {
        lemma_still_nothing(states, calls, j, k);
    }
}

} // verus!
