//! From the stored sessions to the entries of the board, in the order in which they are shown.
use crate::sessions::{label_of, rank_of, section_label, section_rank, SessionStatus, SessionSummary};
use vstd::prelude::*;

verus! {

/// Stands between a session's summary and its age.
pub const DETAIL_SEPARATOR: &'static str = "  ·  ";

/// Stands before the reason when the sessions could not be listed.
pub const LIST_FAILED: &'static str = "Failed to list sessions: ";

/// One line of the board.
#[derive(Debug)]
pub struct DashboardEntry {
    pub id: String,
    pub title: String,
    pub detail: String,
    pub section: &'static str,
    pub spinning: bool,
}

impl DashboardEntry {
    /// What the line shows first.
    pub fn label(&self) -> (r: &str)
        ensures
            r@ == self.title@,
    {
        self.title.as_str()
    }

    /// What the line shows after the label; an entry always has a detail.
    pub fn detail(&self) -> (r: Option<&str>)
        ensures
            r is Some,
            r->0@ == self.detail@,
    {
        Some(self.detail.as_str())
    }

    /// The heading under which the line stands; an entry always has one.
    pub fn section(&self) -> (r: Option<&str>)
        ensures
            r is Some,
            r->0@ == self.section@,
    {
        Some(self.section)
    }

    /// Whether the line shows a spinner.
    pub fn is_spinning(&self) -> (r: bool)
        ensures
            r == self.spinning,
    {
        self.spinning
    }
}

/// The detail of an entry: the age of the session, after its summary where there is one to show.
pub open spec fn detail_text(summary: Option<Seq<char>>, age: Seq<char>) -> Seq<char> {
    match summary {
        Some(text) if text.len() > 0 => text + DETAIL_SEPARATOR@ + age,
        _ => age,
    }
}

/// The text of an optional string.
pub open spec fn text_of(s: Option<String>) -> Option<Seq<char>> {
    match s {
        Some(s) => Some(s@),
        None => None,
    }
}

/// `entry` is the line for session `s` of the given age.
pub open spec fn shows(entry: DashboardEntry, s: SessionSummary, age: Seq<char>) -> bool {
    &&& entry.id == s.id
    &&& entry.title == s.title
    &&& entry.detail@ == detail_text(text_of(s.summary), age)
    &&& entry.section@ == label_of(s.status)
    &&& entry.spinning == (s.status == SessionStatus::Working)
}

/// The line for session `s`, whose age reads `age`.
pub fn entry_from_summary(s: SessionSummary, age: String) -> (entry: DashboardEntry)
    ensures
        shows(entry, s, age@),
{
    let SessionSummary { id, title, updated_at: _, status, summary } = s;
    let detail = match summary {
        Some(text) => {
            if text.as_str().is_empty() {
                age
            } else {
                text.concat(DETAIL_SEPARATOR).concat(age.as_str())
            }
        },
        None => age,
    };
    DashboardEntry {
        id,
        title,
        detail,
        section: section_label(status),
        spinning: status == SessionStatus::Working,
    }
}

/// `a` must stand above `b`: its section comes first, or they share a section and `a` changed later.
pub open spec fn above(a: SessionSummary, b: SessionSummary) -> bool {
    ||| rank_of(a.status) < rank_of(b.status)
    ||| rank_of(a.status) == rank_of(b.status) && a.updated_at > b.updated_at
}

/// Whether `a` must stand above `b`.
fn stands_above(a: &SessionSummary, b: &SessionSummary) -> (r: bool)
    ensures
        r == above(*a, *b),
{
    let rank_a: u8 = section_rank(a.status);
    let rank_b: u8 = section_rank(b.status);
    rank_a < rank_b || (rank_a == rank_b && a.updated_at > b.updated_at)
}

/// A session with its age.
pub type Aged = (SessionSummary, String);

/// Session `i` of `listed` comes before session `j`: it must stand above it, or neither must stand
/// above the other and it was listed first.
pub open spec fn precedes(listed: Seq<Aged>, i: int, j: int) -> bool {
    ||| above(listed[i].0, listed[j].0)
    ||| !above(listed[j].0, listed[i].0) && i < j
}

/// `order` names each of the first `n` positions once.
pub open spec fn is_permutation(order: Seq<int>, n: nat) -> bool {
    &&& order.len() == n
    &&& forall|k: int| 0 <= k < n ==> 0 <= #[trigger] order[k] < n
    &&& order.no_duplicates()
}

/// `order` gives the positions of all sessions of `listed` in the order in which the board shows
/// them.
pub open spec fn board_order(listed: Seq<Aged>, order: Seq<int>) -> bool {
    &&& is_permutation(order, listed.len())
    &&& forall|k: int, l: int| 0 <= k < l < order.len() ==> precedes(listed, order[k], order[l])
}

/// `entries` are the lines for the sessions of `listed`, each once, in board order.
pub open spec fn board_of(listed: Seq<Aged>, entries: Seq<DashboardEntry>) -> bool {
    exists|order: Seq<int>|
        #![trigger board_order(listed, order)]
        {
            &&& board_order(listed, order)
            &&& entries.len() == order.len()
            &&& forall|k: int|
                0 <= k < order.len() ==> shows(
                    #[trigger] entries[k],
                    listed[order[k]].0,
                    listed[order[k]].1@,
                )
        }
}

/// The items of `listed` at the positions that `order` gives.
pub open spec fn arranged<A>(listed: Seq<A>, order: Seq<int>) -> Seq<A> {
    Seq::new(order.len(), |k: int| listed[order[k]])
}

/// `order` gives the positions from `from` on in board order.
spec fn tail_order(listed: Seq<Aged>, order: Seq<int>, from: int) -> bool {
    &&& order.len() == listed.len() - from
    &&& forall|k: int| 0 <= k < order.len() ==> from <= #[trigger] order[k] < listed.len()
    &&& order.no_duplicates()
    &&& forall|k: int, l: int| 0 <= k < l < order.len() ==> precedes(listed, order[k], order[l])
}

/// Where `x` belongs among `sorted`: below every session that must stand above it, and above the
/// others.
fn place_for(sorted: &Vec<Aged>, x: &Aged, listed: Ghost<Seq<Aged>>, order: Ghost<Seq<int>>) -> (at:
    usize)
    requires
        sorted@ == arranged(listed@, order@),
        forall|k: int, l: int|
            0 <= k < l < order@.len() ==> precedes(listed@, order@[k], order@[l]),
    ensures
        at <= sorted.len(),
        forall|k: int| 0 <= k < at ==> above(#[trigger] sorted@[k].0, x.0),
        forall|k: int| at <= k < sorted.len() ==> !above(#[trigger] sorted@[k].0, x.0),
{
    let mut low: usize = 0;
    let mut high: usize = sorted.len();
    while low < high
        invariant
            low <= high <= sorted.len(),
            sorted@ == arranged(listed@, order@),
            forall|k: int, l: int|
                0 <= k < l < order@.len() ==> precedes(listed@, order@[k], order@[l]),
            forall|k: int| 0 <= k < low ==> above(#[trigger] sorted@[k].0, x.0),
            forall|k: int| high <= k < sorted.len() ==> !above(#[trigger] sorted@[k].0, x.0),
        decreases high - low,
    {
        let mid: usize = low + (high - low) / 2;
        if stands_above(&sorted[mid].0, &x.0) {
            assert forall|k: int| 0 <= k < mid + 1 implies above(#[trigger] sorted@[k].0, x.0) by {
                if k < mid {
                    assert(precedes(listed@, order@[k], order@[mid as int]));
                }
            }
            low = mid + 1;
        } else {
            assert forall|k: int| mid <= k < sorted.len() implies !above(
                #[trigger] sorted@[k].0,
                x.0,
            ) by {
                if mid < k {
                    assert(precedes(listed@, order@[mid as int], order@[k]));
                }
            }
            high = mid;
        }
    }
    low
}

/// The sessions in board order: by section, then the one that changed last first, then as listed.
fn sort_for_board(listed: Vec<Aged>) -> (sorted: Vec<Aged>)
    ensures
        exists|order: Seq<int>|
            #![trigger board_order(listed@, order)]
            board_order(listed@, order) && sorted@ == arranged(listed@, order),
{
    let ghost all = listed@;
    let ghost mut order: Seq<int> = Seq::empty();
    let mut rest = listed;
    let mut sorted: Vec<Aged> = Vec::new();
    assert(rest@ == all.take(all.len() as int));
    while rest.len() > 0
        invariant
            rest.len() <= all.len(),
            rest@ == all.take(rest.len() as int),
            tail_order(all, order, rest.len() as int),
            sorted@ == arranged(all, order),
        decreases rest.len(),
    {
        let ghost before = order;
        let ghost from = rest.len() - 1;
        match rest.pop() {
            Some(x) => {
                let at: usize = place_for(&sorted, &x, Ghost(all), Ghost(order));
                let ghost placed = sorted@;
                sorted.insert(at, x);
                proof {
                    assert forall|k: int| 0 <= k < before.len() implies all[#[trigger] before[k]]
                        == placed[k] by {}
                    order = before.insert(at as int, from);
                    lemma_insert_keeps_order(all, before, from, at as int);
                    assert(sorted@ =~= arranged(all, order));
                }
            },
            None => {},
        }
    }
    proof {
        assert(board_order(all, order));
    }
    sorted
}

/// Putting position `from` at place `at` keeps the positions from `from` on in board order.
proof fn lemma_insert_keeps_order(listed: Seq<Aged>, order: Seq<int>, from: int, at: int)
    requires
        0 <= from < listed.len(),
        tail_order(listed, order, from + 1),
        0 <= at <= order.len(),
        forall|k: int| 0 <= k < at ==> above(listed[#[trigger] order[k]].0, listed[from].0),
        forall|k: int|
            at <= k < order.len() ==> !above(listed[#[trigger] order[k]].0, listed[from].0),
    ensures
        tail_order(listed, order.insert(at, from), from),
{
    let next = order.insert(at, from);
    assert forall|k: int, l: int| 0 <= k < l < next.len() implies precedes(
        listed,
        next[k],
        next[l],
    ) by {
        let k0 = if k < at { k } else { k - 1 };
        let l0 = if l < at { l } else { l - 1 };
        if k != at && l != at {
            assert(precedes(listed, order[k0], order[l0]));
        }
    }
}

/// The lines of the board for the sessions of `listed`.
pub fn board_entries(listed: Vec<Aged>) -> (entries: Vec<DashboardEntry>)
    ensures
        board_of(listed@, entries@),
{
    let ghost all = listed@;
    let sorted = sort_for_board(listed);
    let ghost order = choose|order: Seq<int>|
        #![trigger board_order(all, order)]
        board_order(all, order) && sorted@ == arranged(all, order);
    let ghost placed = sorted@;
    let mut entries: Vec<DashboardEntry> = Vec::new();
    for aged in it: sorted.into_iter()
        invariant
            it.seq() == placed,
            placed == arranged(all, order),
            board_order(all, order),
            entries.len() == it.index(),
            forall|k: int|
                0 <= k < entries.len() ==> shows(
                    #[trigger] entries@[k],
                    all[order[k]].0,
                    all[order[k]].1@,
                ),
    {
        assert(aged == placed[it.index() as int]);
        entries.push(entry_from_summary(aged.0, aged.1));
    }
    assert(board_order(all, order));
    entries
}

/// What listing the sessions comes to: the lines of the board, or why there are none.
pub type Listing = Result<Vec<DashboardEntry>, String>;

/// The board for what the storage answered: the sessions with their ages, or the reason why they
/// could not be listed.
pub fn list_entries(answer: Result<Vec<Aged>, String>) -> (listing: Listing)
    ensures
        match answer {
            Ok(listed) => listing is Ok && board_of(listed@, listing->Ok_0@),
            Err(reason) => listing is Err && listing->Err_0@ == LIST_FAILED@ + reason@,
        },
{
    match answer {
        Ok(listed) => Ok(board_entries(listed)),
        Err(reason) => Err(LIST_FAILED.to_owned().concat(reason.as_str())),
    }
}

/// A permutation of the first `n` positions names every one of them.
proof fn lemma_permutation_hits(order: Seq<int>, n: nat, i: int) -> (k: int)
    requires
        is_permutation(order, n),
        0 <= i < n,
    ensures
        0 <= k < n,
        order[k] == i,
{
    let hit = order.to_set();
    let range = vstd::set_lib::set_int_range(0, n as int);
    vstd::set_lib::lemma_int_range(0, n as int);
    order.unique_seq_to_set();
    assert(hit.subset_of(range));
    vstd::set_lib::lemma_subset_equality(hit, range);
    assert(hit.contains(i));
    choose|k: int| 0 <= k < n && order[k] == i
}

/// The board order is determined by the sessions: there is no other way to arrange them.
pub proof fn law_board_order_is_unique(listed: Seq<Aged>, one: Seq<int>, other: Seq<int>)
    requires
        board_order(listed, one),
        board_order(listed, other),
    ensures
        one == other,
{
    assert forall|k: int| 0 <= k < one.len() implies one[k] == other[k] by {
        lemma_same_place(listed, one, other, k);
    }
    assert(one =~= other);
}

proof fn lemma_same_place(listed: Seq<Aged>, one: Seq<int>, other: Seq<int>, k: int)
    requires
        board_order(listed, one),
        board_order(listed, other),
        0 <= k < one.len(),
    ensures
        one[k] == other[k],
    decreases k,
{
    assert forall|l: int| 0 <= l < k implies one[l] == other[l] by {
        lemma_same_place(listed, one, other, l);
    }
    if one[k] != other[k] {
        let n = listed.len();
        let there = lemma_permutation_hits(other, n, one[k]);
        let here = lemma_permutation_hits(one, n, other[k]);
        assert(k < there) by {
            if there < k {
                assert(one[there] == other[there]);
            }
        }
        assert(k < here) by {
            if here < k {
                assert(one[here] == other[here]);
            }
        }
        assert(precedes(listed, other[k], other[there]));
        assert(precedes(listed, one[k], one[here]));
    }
}

/// The lines of the board are determined by the sessions and their ages.
pub proof fn law_board_is_unique(
    listed: Seq<Aged>,
    one: Seq<DashboardEntry>,
    other: Seq<DashboardEntry>,
)
    requires
        board_of(listed, one),
        board_of(listed, other),
    ensures
        one.len() == other.len(),
        forall|k: int|
            #![trigger one[k]]
            #![trigger other[k]]
            0 <= k < one.len() ==> {
                &&& one[k].id == other[k].id
                &&& one[k].title == other[k].title
                &&& one[k].detail@ == other[k].detail@
                &&& one[k].section@ == other[k].section@
                &&& one[k].spinning == other[k].spinning
            },
{
    let a = board_order_of(listed, one);
    let b = board_order_of(listed, other);
    law_board_order_is_unique(listed, a, b);
}

/// The order behind a board.
pub(crate) open spec fn board_order_of(listed: Seq<Aged>, entries: Seq<DashboardEntry>) -> Seq<int> {
    choose|order: Seq<int>|
        #![trigger board_order(listed, order)]
        {
            &&& board_order(listed, order)
            &&& entries.len() == order.len()
            &&& forall|k: int|
                0 <= k < order.len() ==> shows(
                    #[trigger] entries[k],
                    listed[order[k]].0,
                    listed[order[k]].1@,
                )
        }
}

/// Arranging items by a permutation neither loses nor repeats one.
pub(crate) proof fn lemma_arranged_multiset<A>(listed: Seq<A>, order: Seq<int>)
    requires
        is_permutation(order, listed.len()),
    ensures
        arranged(listed, order).to_multiset() == listed.to_multiset(),
    decreases listed.len(),
{
    broadcast use vstd::seq_lib::group_to_multiset_ensures;

    let n = listed.len();
    if n == 0 {
        assert(arranged(listed, order) =~= listed);
    } else {
        let k = lemma_permutation_hits(order, n, n - 1);
        let fewer = listed.drop_last();
        let rest = order.remove(k);
        assert forall|l: int| 0 <= l < rest.len() implies 0 <= #[trigger] rest[l] < n - 1 by {
            let l0 = if l < k { l } else { l + 1 };
            assert(rest[l] == order[l0]);
        }
        assert(rest.no_duplicates()) by {
            assert forall|i: int, j: int|
                0 <= i < rest.len() && 0 <= j < rest.len() && i != j implies rest[i] != rest[j] by {
                let i0 = if i < k { i } else { i + 1 };
                let j0 = if j < k { j } else { j + 1 };
                assert(rest[i] == order[i0] && rest[j] == order[j0]);
            }
        }
        lemma_arranged_multiset(fewer, rest);
        let all = arranged(listed, order);
        assert(all.remove(k) =~= arranged(fewer, rest));
        assert(all =~= all.remove(k).insert(k, all[k]));
        assert(listed =~= fewer.push(listed.last()));
        assert(all[k] == listed.last());
    }
}

/// One of the lines is for the session `aged`.
pub open spec fn has_line_for(entries: Seq<DashboardEntry>, aged: Aged) -> bool {
    exists|k: int| 0 <= k < entries.len() && shows(#[trigger] entries[k], aged.0, aged.1@)
}

/// The board shows every listed session exactly once, and nothing else.
pub proof fn law_board_shows_every_session_once(listed: Seq<Aged>, entries: Seq<DashboardEntry>)
    requires
        board_of(listed, entries),
    ensures
        entries.map_values(|e: DashboardEntry| e.id).to_multiset() == listed.map_values(
            |aged: Aged| aged.0.id,
        ).to_multiset(),
        forall|i: int| 0 <= i < listed.len() ==> has_line_for(entries, #[trigger] listed[i]),
{
    let order = board_order_of(listed, entries);
    let ids = listed.map_values(|aged: Aged| aged.0.id);
    assert(entries.map_values(|e: DashboardEntry| e.id) =~= arranged(ids, order));
    lemma_arranged_multiset(ids, order);
    assert forall|i: int| 0 <= i < listed.len() implies has_line_for(entries, #[trigger] listed[i]) by {
        let k = lemma_permutation_hits(order, listed.len(), i);
        assert(shows(entries[k], listed[order[k]].0, listed[order[k]].1@));
    }
}

/// Place of a heading on the board.
pub open spec fn section_place(heading: Seq<char>) -> int {
    if heading == label_of(SessionStatus::NeedsInput) {
        0
    } else if heading == label_of(SessionStatus::Working) {
        1
    } else {
        2
    }
}

/// The board runs through its sections in their order: sessions that need input, then those at
/// work, then the rest. So the lines under one heading stand together.
pub proof fn law_sections_stand_in_order(listed: Seq<Aged>, entries: Seq<DashboardEntry>)
    requires
        board_of(listed, entries),
    ensures
        forall|k: int, l: int|
            0 <= k < l < entries.len() ==> section_place(#[trigger] entries[k].section@)
                <= section_place(#[trigger] entries[l].section@),
        forall|j: int, k: int, l: int|
            0 <= j < k < l < entries.len() && #[trigger] entries[j].section@
                == #[trigger] entries[l].section@ ==> #[trigger] entries[k].section@
                == entries[j].section@,
{
    let order = board_order_of(listed, entries);
    assert forall|k: int| 0 <= k < entries.len() implies section_place(
        #[trigger] entries[k].section@,
    ) == rank_of(listed[order[k]].0.status) by {
        let status = listed[order[k]].0.status;
        assert(shows(entries[k], listed[order[k]].0, listed[order[k]].1@));
        crate::sessions::law_rank_and_label_agree(status, SessionStatus::NeedsInput);
        crate::sessions::law_rank_and_label_agree(status, SessionStatus::Working);
    }
    assert forall|k: int, l: int| 0 <= k < l < entries.len() implies section_place(
        #[trigger] entries[k].section@,
    ) <= section_place(#[trigger] entries[l].section@) by {
        assert(precedes(listed, order[k], order[l]));
    }
    assert forall|j: int, k: int, l: int|
        0 <= j < k < l < entries.len() && #[trigger] entries[j].section@
            == #[trigger] entries[l].section@ implies #[trigger] entries[k].section@
        == entries[j].section@ by {
        assert(section_place(entries[j].section@) <= section_place(entries[k].section@));
        assert(section_place(entries[k].section@) <= section_place(entries[l].section@));
        assert(shows(entries[j], listed[order[j]].0, listed[order[j]].1@));
        assert(shows(entries[k], listed[order[k]].0, listed[order[k]].1@));
        crate::sessions::law_rank_and_label_agree(
            listed[order[j]].0.status,
            listed[order[k]].0.status,
        );
    }
}

/// Within a section the session that changed last stands first, and sessions that changed at the
/// same time keep the order in which they were listed.
pub proof fn law_newest_first_within_a_section(listed: Seq<Aged>, order: Seq<int>, k: int, l: int)
    requires
        board_order(listed, order),
        0 <= k < l < order.len(),
        rank_of(listed[order[k]].0.status) == rank_of(listed[order[l]].0.status),
    ensures
        listed[order[k]].0.updated_at >= listed[order[l]].0.updated_at,
        listed[order[k]].0.updated_at == listed[order[l]].0.updated_at ==> order[k] < order[l],
{
    assert(precedes(listed, order[k], order[l]));
}

/// Sessions that are listed in board order are shown as they are listed.
pub proof fn law_arranging_twice_changes_nothing(
    listed: Seq<Aged>,
    order: Seq<int>,
    again: Seq<int>,
)
    requires
        board_order(listed, order),
        board_order(arranged(listed, order), again),
    ensures
        arranged(arranged(listed, order), again) == arranged(listed, order),
{
    let shown = arranged(listed, order);
    let same = Seq::new(shown.len(), |k: int| k);
    assert(board_order(shown, same)) by {
        assert forall|k: int, l: int| 0 <= k < l < same.len() implies precedes(
            shown,
            same[k],
            same[l],
        ) by {
            assert(precedes(listed, order[k], order[l]));
        }
    }
    law_board_order_is_unique(shown, same, again);
    assert(arranged(shown, again) =~= shown);
}

/// A line shows a spinner exactly when it stands under the heading of the sessions at work.
pub proof fn law_spinner_marks_the_working_section(
    entry: DashboardEntry,
    s: SessionSummary,
    age: Seq<char>,
)
    requires
        shows(entry, s, age),
    ensures
        entry.spinning <==> entry.section@ == label_of(SessionStatus::Working),
{
    crate::sessions::law_rank_and_label_agree(s.status, SessionStatus::Working);
}

} // verus!
