//! What stands on the board, and in which order.
use crate::listing::{
    board_entries, board_of, board_order_of, entry_from_summary, list_entries, precedes, shows, Aged,
    DashboardEntry, Listing,
};
use crate::removal::is_kept;
use crate::sessions::{section_label, section_rank, SessionStatus, SessionSummary};
use vstd::prelude::*;

verus! {

/// A session that never recorded a status is idle.
pub proof fn law_sessions_start_idle(status: SessionStatus)
    requires
        call_ensures(<SessionStatus as Default>::default, (), status),
    ensures
        status == SessionStatus::Idle,
{
}

/// Sessions that need input rank before all others, then those at work; the others rank alike.
pub proof fn law_ranks_go_by_need(a: SessionStatus, rank_a: u8, b: SessionStatus, rank_b: u8)
    requires
        call_ensures(section_rank, (a,), rank_a),
        call_ensures(section_rank, (b,), rank_b),
    ensures
        a is NeedsInput && !(b is NeedsInput) ==> rank_a < rank_b,
        a is Working && !(b is NeedsInput) && !(b is Working) ==> rank_a < rank_b,
        !(a is NeedsInput) && !(a is Working) && !(b is NeedsInput) && !(b is Working) ==> rank_a
            == rank_b,
        a == b ==> rank_a == rank_b,
        rank_a <= 2,
{
}

/// There are three headings: one for the sessions that need input, one for those at work, and one for
/// all others.
pub proof fn law_headings_tell_the_need(status: SessionStatus, label: &'static str)
    requires
        call_ensures(section_label, (status,), label),
    ensures
        status is NeedsInput ==> label@ == "Needs input"@,
        status is Working ==> label@ == "Working"@,
        !(status is NeedsInput) && !(status is Working) ==> label@ == "Completed"@,
{
}

/// A line bears its session's id and title as they are, the heading of its status, and a spinner
/// exactly while the session is at work.
pub proof fn law_lines_bear_their_session(s: SessionSummary, age: String, entry: DashboardEntry)
    requires
        call_ensures(entry_from_summary, (s, age), entry),
    ensures
        entry.id@ == s.id@,
        entry.title@ == s.title@,
        s.status is NeedsInput ==> entry.section@ == "Needs input"@,
        s.status is Working ==> entry.section@ == "Working"@,
        !(s.status is NeedsInput) && !(s.status is Working) ==> entry.section@ == "Completed"@,
        entry.spinning <==> s.status is Working,
{
}

/// Without a summary, or with an empty one, a line's detail is the age alone.
pub proof fn law_without_a_summary_the_age_stands_alone(
    s: SessionSummary,
    age: String,
    entry: DashboardEntry,
)
    requires
        call_ensures(entry_from_summary, (s, age), entry),
        s.summary matches Some(text) ==> text@.len() == 0,
    ensures
        entry.detail@ == age@,
{
}

/// With a summary, however long or short, a line's detail begins with it and ends with the age, and
/// between them stands a dot with two spaces on either side.
pub proof fn law_summaries_stand_before_the_age(
    s: SessionSummary,
    text: String,
    age: String,
    entry: DashboardEntry,
)
    requires
        call_ensures(entry_from_summary, (s, age), entry),
        s.summary == Some(text),
        text@.len() > 0,
    ensures
        entry.detail@.len() == text@.len() + 5 + age@.len(),
        entry.detail@.take(text@.len() as int) == text@,
        entry.detail@.subrange(text@.len() as int, (text@.len() + 5) as int) == seq![' ', ' ', '·', ' ', ' '],
        entry.detail@.skip((text@.len() + 5) as int) == age@,
{
    reveal_strlit("  ·  ");
    assert(entry.detail@ == text@ + "  ·  "@ + age@);
    assert(entry.detail@.take(text@.len() as int) =~= text@);
    assert(entry.detail@.subrange(text@.len() as int, (text@.len() + 5) as int) =~= seq![
        ' ',
        ' ',
        '·',
        ' ',
        ' ',
    ]);
    assert(entry.detail@.skip((text@.len() + 5) as int) =~= age@);
}

/// A line hands out what it bears.
pub proof fn law_lines_hand_out_what_they_bear(
    entry: DashboardEntry,
    label: &str,
    detail: Option<&str>,
    section: Option<&str>,
    spinning: bool,
)
    requires
        call_ensures(DashboardEntry::label, (&entry,), label),
        call_ensures(DashboardEntry::detail, (&entry,), detail),
        call_ensures(DashboardEntry::section, (&entry,), section),
        call_ensures(DashboardEntry::is_spinning, (&entry,), spinning),
    ensures
        label@ == entry.title@,
        detail matches Some(text) && text@ == entry.detail@,
        section matches Some(text) && text@ == entry.section@,
        spinning == entry.spinning,
{
}

/// A board has one line for each session, which bears that session's id, title, heading, spinner and
/// detail. No session that needs input stands below one that does not, and no session at work below
/// one that is neither. Of two in the same section the one that changed later stands first, and of two
/// that changed at once the one that was listed first.
pub proof fn law_the_board_goes_by_need_and_time(listed: Seq<Aged>, entries: Seq<DashboardEntry>) -> (order:
    Seq<int>)
    requires
        board_of(listed, entries),
    ensures
        entries.len() == listed.len(),
        order.len() == listed.len(),
        forall|k: int| 0 <= k < order.len() ==> 0 <= #[trigger] order[k] < listed.len(),
        forall|k: int, l: int|
            0 <= k < l < order.len() ==> #[trigger] order[k] != #[trigger] order[l],
        forall|k: int|
            #![trigger entries[k]]
            0 <= k < entries.len() ==> {
                let (s, age) = listed[order[k]];
                &&& entries[k].id@ == s.id@
                &&& entries[k].title@ == s.title@
                &&& entries[k].spinning <==> s.status is Working
                &&& s.status is NeedsInput ==> entries[k].section@ == "Needs input"@
                &&& s.status is Working ==> entries[k].section@ == "Working"@
                &&& !(s.status is NeedsInput || s.status is Working) ==> entries[k].section@
                    == "Completed"@
                &&& entries[k].detail@ == match s.summary {
                    Some(text) => if text@.len() == 0 {
                        age@
                    } else {
                        text@ + "  ·  "@ + age@
                    },
                    None => age@,
                }
            },
        forall|k: int, l: int|
            #![trigger order[k], order[l]]
            0 <= k < l < order.len() ==> {
                let upper = listed[order[k]].0;
                let lower = listed[order[l]].0;
                &&& lower.status is NeedsInput ==> upper.status is NeedsInput
                &&& lower.status is Working ==> upper.status is NeedsInput || upper.status is Working
                &&& (upper.status is NeedsInput <==> lower.status is NeedsInput) && (
                upper.status is Working <==> lower.status is Working) ==> {
                    ||| upper.updated_at > lower.updated_at
                    ||| upper.updated_at == lower.updated_at && order[k] < order[l]
                }
            },
{
    let order = board_order_of(listed, entries);
    assert forall|k: int|
        #![trigger entries[k]]
        0 <= k < entries.len() implies shows(
        entries[k],
        listed[order[k]].0,
        listed[order[k]].1@,
    ) by {}
    assert forall|k: int, l: int| #![trigger order[k], order[l]] 0 <= k < l < order.len() implies precedes(
        listed,
        order[k],
        order[l],
    ) by {}
    order
}

/// Listing sessions gives their board.
pub proof fn law_listing_gives_the_board(
    listed: Vec<Aged>,
    entries: Vec<DashboardEntry>,
    listing: Listing,
)
    requires
        call_ensures(board_entries, (listed,), entries),
        call_ensures(list_entries, (Ok(listed),), listing),
    ensures
        board_of(listed@, entries@),
        listing matches Ok(shown) && board_of(listed@, shown@),
{
}

/// A failure to list is passed on, with its reason whole at the end.
pub proof fn law_failing_to_list_tells_why(reason: String, listing: Listing)
    requires
        call_ensures(list_entries, (Err(reason),), listing),
    ensures
        listing matches Err(text) && text@ == "Failed to list sessions: "@ + reason@,
{
}

/// A line is taken off the board exactly when it is the removed session's.
pub proof fn law_only_the_removed_session_goes(entry: DashboardEntry, removed: String, kept: bool)
    requires
        call_ensures(is_kept, (&entry, &removed), kept),
    ensures
        kept ==> entry.id@ != removed@,
        !kept ==> entry.id@ == removed@,
{
}

} // verus!
