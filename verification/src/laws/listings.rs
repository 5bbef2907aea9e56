//! What the dashboard does with the listings that arrive, and with its own state.
use crate::channel::{came_back, ends_of_one};
use crate::dashboard::{PickerUpdate, SessionDashboard};
use crate::listing::{DashboardEntry, Listing};
use vstd::prelude::*;

verus! {

/// A dashboard starts out empty: nothing is asked, awaited or to be told.
pub proof fn law_a_new_dashboard_is_empty(d: SessionDashboard)
    requires
        call_ensures(SessionDashboard::new, (), d),
    ensures
        d.confirming is None && d.pending_rx is None && d.flash is None,
{
}

/// A listing with entries is shown as it is, with no text in its place.
pub proof fn law_entries_are_shown_as_listed(
    d: &mut SessionDashboard,
    entries: Vec<DashboardEntry>,
    update: PickerUpdate,
)
    requires
        call_ensures(SessionDashboard::resolve, (d, Ok(entries)), update),
    ensures
        update.items@ == entries@,
        entries@.len() > 0 ==> update.error_text is None,
{
}

/// The note that there are no sessions is shown exactly for a successful listing without an entry.
pub proof fn law_the_note_marks_an_empty_listing(
    d: &mut SessionDashboard,
    entries: Vec<DashboardEntry>,
    update: PickerUpdate,
)
    requires
        call_ensures(SessionDashboard::resolve, (d, Ok(entries)), update),
    ensures
        update.error_text is Some <==> entries@ =~= Seq::<DashboardEntry>::empty(),
        update.error_text matches Some(text) ==> text@ == "No sessions yet in this directory"@,
{
}

/// A failed listing shows no entry, and the very reason that came with it.
pub proof fn law_failures_show_their_reason(
    d: &mut SessionDashboard,
    reason: String,
    update: PickerUpdate,
)
    requires
        call_ensures(SessionDashboard::resolve, (d, Err(reason)), update),
    ensures
        update.items@.len() == 0,
        update.error_text matches Some(text) && text@ == reason@,
{
}

/// Taking in a listing, of whatever kind, ends the waiting and touches nothing else.
pub proof fn law_taking_in_ends_the_waiting(
    d: &mut SessionDashboard,
    listing: Listing,
    update: PickerUpdate,
)
    requires
        call_ensures(SessionDashboard::resolve, (d, listing), update),
    ensures
        final(d).pending_rx is None,
        final(d).confirming == old(d).confirming,
        final(d).flash == old(d).flash,
{
}

/// A poll shows something only if a listing was awaited: then one that came out at the awaited
/// receiver, with its entries and no text, with the note where it has none, or with the reason of its
/// failure. The waiting is then over, and nothing else has changed.
pub proof fn law_polls_show_what_arrived(
    d: &mut SessionDashboard,
    update: PickerUpdate,
)
    requires
        call_ensures(SessionDashboard::tick, (d,), Some(update)) || call_ensures(
            SessionDashboard::try_resolve,
            (d,),
            Some(update),
        ),
    ensures
        old(d).pending_rx matches Some(rx) && exists|listing: Listing|
            #![trigger came_back(rx, Some(listing))]
            came_back(rx, Some(listing)) && match listing {
                Ok(entries) => {
                    &&& update.items@ == entries@
                    &&& update.error_text is None <==> entries@.len() > 0
                    &&& update.error_text matches Some(text) ==> text@
                        == "No sessions yet in this directory"@
                },
                Err(reason) => {
                    &&& update.items@.len() == 0
                    &&& update.error_text matches Some(text) && text@ == reason@
                },
            },
        final(d).pending_rx is None,
        final(d).confirming == old(d).confirming,
        final(d).flash == old(d).flash,
{
    let rx = old(d).pending_rx->0;
    let arrived = choose|arrived: Option<Listing>|
        #![trigger came_back(rx, arrived)]
        came_back(rx, arrived) && crate::dashboard::takes_in(
            arrived,
            *old(d),
            *final(d),
            Some(update),
        );
    assert(came_back(rx, Some(arrived->0)));
}

/// A poll that shows nothing changes nothing. It shows nothing only where nothing was awaited, or
/// where nothing came out at the awaited receiver; and where nothing was awaited it shows nothing.
pub proof fn law_polls_in_vain_change_nothing(
    d: &mut SessionDashboard,
    update: Option<PickerUpdate>,
)
    requires
        call_ensures(SessionDashboard::tick, (d,), update) || call_ensures(
            SessionDashboard::try_resolve,
            (d,),
            update,
        ),
    ensures
        update is None ==> *final(d) == *old(d),
        update is None ==> (old(d).pending_rx matches Some(rx) ==> came_back(rx, None)),
        old(d).pending_rx is None ==> update is None,
{
}

/// An opening gives out one end of a channel that holds one listing, waits at the other end whatever
/// was awaited before, and touches nothing else.
pub proof fn law_an_opening_waits_at_its_own_channel(
    d: &mut SessionDashboard,
    r: (&'static str, flume::Sender<Listing>),
)
    requires
        call_ensures(SessionDashboard::open, (d,), r),
    ensures
        r.0@ == " Agents "@,
        final(d).pending_rx matches Some(rx) && ends_of_one(1, r.1, rx),
        final(d).confirming == old(d).confirming,
        final(d).flash == old(d).flash,
{
}

/// Whoever waits for a listing at a receiver waits there and nowhere else, and nothing else changes.
pub proof fn law_waiting_is_at_one_receiver(
    d: &mut SessionDashboard,
    rx: flume::Receiver<Listing>,
    title: &'static str,
)
    requires
        call_ensures(SessionDashboard::await_listing, (d, rx), title),
    ensures
        title@ == " Agents "@,
        final(d).pending_rx == Some(rx),
        final(d).confirming == old(d).confirming,
        final(d).flash == old(d).flash,
{
}

/// Closing ends the waiting and touches nothing else; what was asked stays asked.
pub proof fn law_closing_ends_the_waiting(d: &mut SessionDashboard, r: ())
    requires
        call_ensures(SessionDashboard::close, (d,), r),
    ensures
        final(d).pending_rx is None,
        final(d).confirming == old(d).confirming,
        final(d).flash == old(d).flash,
{
}

/// The message for the user is handed out once: the first call gives it, the second gives nothing,
/// and nothing else changes.
pub proof fn law_the_message_is_handed_out_once(
    d: &mut SessionDashboard,
    first: Option<String>,
    e: &mut SessionDashboard,
    second: Option<String>,
)
    requires
        call_ensures(SessionDashboard::take_flash, (d,), first),
        call_ensures(SessionDashboard::take_flash, (e,), second),
        *old(e) == *final(d),
    ensures
        first == old(d).flash,
        second is None,
        final(d).confirming == old(d).confirming,
        final(d).pending_rx == old(d).pending_rx,
{
}

} // verus!
