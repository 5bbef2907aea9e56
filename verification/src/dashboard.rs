//! What the multi-session dashboard does with keys, listings and its own state. The list widget
//! that shows the board is driven from outside: the dashboard is told what the widget shows, and
//! answers with what to do.
use crate::channel::{came_back, ends_of_one, look_for_listing, new_channel};
use crate::keys::{delete_key, is_delete_key, is_open_key, open_key, KeyEvent};
use crate::listing::{text_of, DashboardEntry, Listing};
use vstd::prelude::*;

verus! {

/// Title of the list.
pub const TITLE: &'static str = " Agents ";

/// Shown in place of an empty list.
pub const NO_SESSIONS_MSG: &'static str = "No sessions yet in this directory";

/// How many listings the channel of one opening holds.
pub const LISTING_CAPACITY: usize = 1;

/// What a key press comes to.
#[derive(Debug, PartialEq, Eq)]
pub enum DashboardAction {
    /// The key was used up; nothing else follows.
    Consumed,
    /// Open the session with this id.
    Open(String),
    /// Ask the user to press the delete key again.
    ConfirmDelete,
    /// Delete the session with this id.
    Delete(String),
    /// The list was left; there is nothing to do.
    Nothing,
}

/// What a key press comes to, with its text as characters.
pub enum ActionView {
    Consumed,
    Open(Seq<char>),
    ConfirmDelete,
    Delete(Seq<char>),
    Nothing,
}

impl View for DashboardAction {
    type V = ActionView;

    open spec fn view(&self) -> ActionView {
        match self {
            DashboardAction::Consumed => ActionView::Consumed,
            DashboardAction::Open(id) => ActionView::Open(id@),
            DashboardAction::ConfirmDelete => ActionView::ConfirmDelete,
            DashboardAction::Delete(id) => ActionView::Delete(id@),
            DashboardAction::Nothing => ActionView::Nothing,
        }
    }
}

/// What the list widget shows when a key is pressed.
pub struct PickerView {
    /// Id of the highlighted entry, if there is one.
    pub selected: Option<String>,
    /// The widget's count of its own changes.
    pub generation: u64,
}

/// What the list widget shows, with its text as characters.
pub struct Shown {
    pub selected: Option<Seq<char>>,
    pub generation: u64,
}

impl View for PickerView {
    type V = Shown;

    open spec fn view(&self) -> Shown {
        Shown { selected: text_of(self.selected), generation: self.generation }
    }
}

/// What the list widget made of a key that the dashboard left to it.
pub enum PickerAction {
    /// The widget used the key.
    Consumed,
    /// The user chose the entry at this place.
    Select(usize, DashboardEntry),
    /// The user left the list.
    Close,
    /// The user switched an entry on or off.
    Toggle,
}

/// What the list widget is to show: these items, and this text in their place where there is one.
pub struct PickerUpdate {
    pub items: Vec<DashboardEntry>,
    pub error_text: Option<String>,
}

/// The session whose deletion was asked for, and what the widget's count was then.
pub type Confirming = Option<(Seq<char>, u64)>;

/// A press of the delete key: what is asked for afterwards, and what the press comes to. The first
/// press on an entry asks for confirmation; a press on the entry that was asked for last deletes
/// it, unless the widget has changed since.
pub open spec fn delete_step(confirming: Confirming, shown: Shown) -> (Confirming, ActionView) {
    match shown.selected {
        None => (confirming, ActionView::Consumed),
        Some(id) => if confirming == Some((id, shown.generation)) {
            (confirming, ActionView::Delete(id))
        } else {
            (Some((id, shown.generation)), ActionView::ConfirmDelete)
        },
    }
}

/// A press of the open key.
pub open spec fn open_step(shown: Shown) -> ActionView {
    match shown.selected {
        None => ActionView::Consumed,
        Some(id) => ActionView::Open(id),
    }
}

/// A key press: what is asked for afterwards, and what the press comes to; `None` where the key is
/// left to the list widget.
pub open spec fn key_step(confirming: Confirming, key: KeyEvent, shown: Shown) -> (
    Confirming,
    Option<ActionView>,
) {
    if delete_key(key) {
        let (next, action) = delete_step(confirming, shown);
        (next, Some(action))
    } else if open_key(key) {
        (confirming, Some(open_step(shown)))
    } else {
        (confirming, None)
    }
}

/// What a key comes to that the list widget has handled.
pub open spec fn picker_step(action: PickerAction) -> ActionView {
    match action {
        PickerAction::Select(_, entry) => ActionView::Open(entry.id@),
        PickerAction::Close => ActionView::Nothing,
        PickerAction::Consumed | PickerAction::Toggle => ActionView::Consumed,
    }
}

/// What a listing puts on the list: its entries, a note where there are none, or the reason why it
/// failed.
pub open spec fn puts(listing: Listing, update: PickerUpdate) -> bool {
    match listing {
        Ok(entries) => {
            &&& update.items == entries
            &&& text_of(update.error_text) == if entries@.len() == 0 {
                Some(NO_SESSIONS_MSG@)
            } else {
                None
            }
        },
        Err(reason) => update.items@.len() == 0 && update.error_text == Some(reason),
    }
}

/// Full-screen overview of the sessions of one directory, grouped by what they need.
pub struct SessionDashboard {
    /// The entry for which the delete key was pressed last, with the widget's count at that time.
    pub confirming: Option<(String, u64)>,
    /// Where the listing that was asked for will arrive.
    pub pending_rx: Option<flume::Receiver<Listing>>,
    /// A message for the user.
    pub flash: Option<String>,
}

impl SessionDashboard {
    /// The deletion that was asked for.
    pub open spec fn asked(self) -> Confirming {
        match self.confirming {
            Some((id, generation)) => Some((id@, generation)),
            None => None,
        }
    }

    /// A dashboard that was never opened.
    pub fn new() -> (r: Self)
        ensures
            r.confirming is None,
            r.pending_rx is None,
            r.flash is None,
    {
        SessionDashboard { confirming: None, pending_rx: None, flash: None }
    }

    /// Starts an opening: makes a channel and waits at one end of it, and nowhere else. Returns the
    /// title under which the list shows that it is loading, and the other end, into which the listing
    /// is to be sent.
    pub fn open(&mut self) -> (r: (&'static str, flume::Sender<Listing>))
        ensures
            r.0@ == TITLE@,
            opened(*old(self), *final(self), r.1),
    {
        let (tx, rx) = new_channel(LISTING_CAPACITY);
        let title = self.await_listing(rx);
        (title, tx)
    }

    /// Waits for the listing that will arrive at `rx`, and for no other; returns the title under
    /// which the list shows that it is loading.
    pub fn await_listing(&mut self, rx: flume::Receiver<Listing>) -> (title: &'static str)
        ensures
            title@ == TITLE@,
            final(self).pending_rx == Some(rx),
            final(self).confirming == old(self).confirming,
            final(self).flash == old(self).flash,
    {
        self.pending_rx = Some(rx);
        TITLE
    }

    /// Looks once whether the awaited listing has arrived, and takes it in if so.
    pub fn try_resolve(&mut self) -> (update: Option<PickerUpdate>)
        ensures
            polled(*old(self), *final(self), update),
    {
        let rx = match self.pending_rx.take() {
            Some(rx) => rx,
            None => {
                return None;
            },
        };
        match look_for_listing(rx) {
            Ok(listing) => Some(self.resolve(listing)),
            Err(back) => {
                self.pending_rx = Some(back);
                None
            },
        }
    }

    /// Takes in a listing that has arrived: nothing is awaited any more, and the list is to show
    /// what came.
    pub fn resolve(&mut self, listing: Listing) -> (update: PickerUpdate)
        ensures
            puts(listing, update),
            final(self).pending_rx is None,
            final(self).confirming == old(self).confirming,
            final(self).flash == old(self).flash,
    {
        self.pending_rx = None;
        match listing {
            Ok(entries) => {
                let error_text = if entries.is_empty() {
                    Some(NO_SESSIONS_MSG.to_owned())
                } else {
                    None
                };
                PickerUpdate { items: entries, error_text }
            },
            Err(reason) => PickerUpdate { items: Vec::new(), error_text: Some(reason) },
        }
    }

    /// Hands out the message for the user, once.
    pub fn take_flash(&mut self) -> (flash: Option<String>)
        ensures
            flash == old(self).flash,
            final(self).flash is None,
            final(self).confirming == old(self).confirming,
            final(self).pending_rx == old(self).pending_rx,
    {
        self.flash.take()
    }

    /// Ends an opening: a listing that is still under way is not awaited any more.
    pub fn close(&mut self)
        ensures
            final(self).pending_rx is None,
            final(self).confirming == old(self).confirming,
            final(self).flash == old(self).flash,
    {
        self.pending_rx = None;
    }

    /// One step of the clock: looks for the awaited listing.
    pub fn tick(&mut self) -> (update: Option<PickerUpdate>)
        ensures
            polled(*old(self), *final(self), update),
    {
        self.try_resolve()
    }

    /// What a key press comes to while the list shows `shown`; `None` where the key is left to the
    /// list widget.
    pub fn handle_key(&mut self, key: &KeyEvent, shown: &PickerView) -> (action: Option<
        DashboardAction,
    >)
        ensures
            (final(self).asked(), action_view(action)) == key_step(old(self).asked(), *key, shown@),
            final(self).pending_rx == old(self).pending_rx,
            final(self).flash == old(self).flash,
    {
        if is_delete_key(key) {
            return Some(self.handle_delete_key(shown));
        }
        if is_open_key(key) {
            return Some(
                match &shown.selected {
                    Some(id) => DashboardAction::Open(id.clone()),
                    None => DashboardAction::Consumed,
                },
            );
        }
        None
    }

    /// What a press of the delete key comes to while the list shows `shown`.
    pub fn handle_delete_key(&mut self, shown: &PickerView) -> (action: DashboardAction)
        ensures
            (final(self).asked(), action@) == delete_step(old(self).asked(), shown@),
            final(self).pending_rx == old(self).pending_rx,
            final(self).flash == old(self).flash,
    {
        let id = match &shown.selected {
            Some(id) => id.clone(),
            None => {
                return DashboardAction::Consumed;
            },
        };
        let confirmed = match &self.confirming {
            Some((asked, generation)) => *asked == id && *generation == shown.generation,
            None => false,
        };
        if confirmed {
            return DashboardAction::Delete(id);
        }
        self.confirming = Some((id, shown.generation));
        DashboardAction::ConfirmDelete
    }
}

/// What an opening comes to that gives out `tx`: the listing is awaited at the other end of that
/// channel, whatever was awaited before.
pub open spec fn opened(
    before: SessionDashboard,
    after: SessionDashboard,
    tx: flume::Sender<Listing>,
) -> bool {
    &&& after.pending_rx is Some
    &&& ends_of_one(LISTING_CAPACITY, tx, after.pending_rx->0)
    &&& after.confirming == before.confirming
    &&& after.flash == before.flash
}

/// What a look for the awaited listing comes to, where it came back with `arrived`: without a
/// listing nothing changes and nothing is to be shown; a listing is no longer awaited, and is what
/// the list is to show.
pub open spec fn takes_in(
    arrived: Option<Listing>,
    before: SessionDashboard,
    after: SessionDashboard,
    update: Option<PickerUpdate>,
) -> bool {
    match arrived {
        None => update is None && after == before,
        Some(listing) => {
            &&& update is Some
            &&& puts(listing, update->0)
            &&& after.pending_rx is None
            &&& after.confirming == before.confirming
            &&& after.flash == before.flash
        },
    }
}

/// What one look for the awaited listing comes to: where none is awaited nothing happens, and else
/// something that the look can come back with is taken in.
pub open spec fn polled(
    before: SessionDashboard,
    after: SessionDashboard,
    update: Option<PickerUpdate>,
) -> bool {
    match before.pending_rx {
        None => takes_in(None, before, after, update),
        Some(rx) => exists|arrived: Option<Listing>|
            #![trigger came_back(rx, arrived)]
            came_back(rx, arrived) && takes_in(arrived, before, after, update),
    }
}

/// What a handled key press comes to, with its text as characters.
pub open spec fn action_view(action: Option<DashboardAction>) -> Option<ActionView> {
    match action {
        Some(action) => Some(action@),
        None => None,
    }
}

/// What a key comes to that the list widget has handled.
pub fn picker_outcome(action: PickerAction) -> (r: DashboardAction)
    ensures
        r@ == picker_step(action),
{
    match action {
        PickerAction::Consumed => DashboardAction::Consumed,
        PickerAction::Select(_, entry) => DashboardAction::Open(entry.id),
        PickerAction::Close => DashboardAction::Nothing,
        PickerAction::Toggle => DashboardAction::Consumed,
    }
}

/// The hints under the list: the keys, and what each does. `delete_label` names the delete key.
pub fn footer_hints<'a>(delete_label: &'a str) -> (hints: [(&'a str, &'a str); 3])
    ensures
        hints@[0].0@ == "↑/↓"@ && hints@[0].1@ == "navigate"@,
        hints@[1].0@ == "→/Enter"@ && hints@[1].1@ == "open"@,
        hints@[2].0@ == delete_label@ && hints@[2].1@ == "delete"@,
{
    [("↑/↓", "navigate"), ("→/Enter", "open"), (delete_label, "delete")]
}

/// A key press, and what the list widget showed.
pub type Press = (KeyEvent, Shown);

/// The deletion that is asked for after the presses of `history` on a new dashboard.
pub open spec fn asked_after(history: Seq<Press>) -> Confirming
    decreases history.len(),
{
    if history.len() == 0 {
        None
    } else {
        key_step(asked_after(history.drop_last()), history.last().0, history.last().1).0
    }
}

/// What press `k` of `history` comes to on a new dashboard.
pub open spec fn outcome_at(history: Seq<Press>, k: int) -> Option<ActionView> {
    key_step(asked_after(history.take(k)), history[k].0, history[k].1).1
}

/// Press `j` of `history` asked to confirm the deletion of `id` while the widget's count was
/// `generation`, and no press from there to `k` asked to confirm another one.
pub open spec fn asked_at(history: Seq<Press>, j: int, k: int, id: Seq<char>, generation: u64) -> bool {
    &&& 0 <= j < k
    &&& outcome_at(history, j) == Some(ActionView::ConfirmDelete)
    &&& history[j].1 == (Shown { selected: Some(id), generation })
    &&& forall|m: int|
        j < m < k ==> #[trigger] outcome_at(history, m) != Some(ActionView::ConfirmDelete)
}

/// What is asked for was asked for by a press.
proof fn lemma_asked_by_a_press(history: Seq<Press>, k: int) -> (j: int)
    requires
        0 <= k <= history.len(),
        asked_after(history.take(k)) is Some,
    ensures
        ({
            let (id, generation) = asked_after(history.take(k))->0;
            asked_at(history, j, k, id, generation)
        }),
    decreases k,
{
    let now = history.take(k);
    assert(k > 0);
    assert(now.drop_last() =~= history.take(k - 1));
    assert(now.last() == history[k - 1]);
    if outcome_at(history, k - 1) == Some(ActionView::ConfirmDelete) {
        k - 1
    } else {
        assert(asked_after(now) == asked_after(history.take(k - 1)));
        let j = lemma_asked_by_a_press(history, k - 1);
        let (id, generation) = asked_after(now)->0;
        assert(asked_at(history, j, k - 1, id, generation));
        assert forall|m: int| j < m < k implies #[trigger] outcome_at(history, m) != Some(
            ActionView::ConfirmDelete,
        ) by {}
        j
    }
}

/// A session is deleted only after an earlier press asked to confirm the deletion of that very
/// session, with the list unchanged since and no other deletion asked for in between.
pub proof fn law_delete_was_confirmed(history: Seq<Press>, k: int, id: Seq<char>)
    requires
        0 <= k < history.len(),
        outcome_at(history, k) == Some(ActionView::Delete(id)),
    ensures
        history[k].1.selected == Some(id),
        exists|j: int| asked_at(history, j, k, id, history[k].1.generation),
{
    assert(asked_after(history.take(k)) == Some((id, history[k].1.generation)));
    let j = lemma_asked_by_a_press(history, k);
    assert(asked_at(history, j, k, id, history[k].1.generation));
}

/// Pressing the delete key twice on the same entry of an unchanged list deletes the session,
/// whatever was asked for before.
pub proof fn law_second_press_deletes(
    confirming: Confirming,
    key: KeyEvent,
    shown: Shown,
    id: Seq<char>,
)
    requires
        delete_key(key),
        shown.selected == Some(id),
    ensures
        key_step(key_step(confirming, key, shown).0, key, shown).1 == Some(ActionView::Delete(id)),
        confirming != Some((id, shown.generation)) ==> key_step(confirming, key, shown).1 == Some(
            ActionView::ConfirmDelete,
        ),
{
}

/// A delete press on another entry, or after the list has changed, never deletes: it asks anew.
pub proof fn law_a_changed_list_asks_anew(
    confirming: Confirming,
    key: KeyEvent,
    before: Shown,
    after: Shown,
)
    requires
        delete_key(key),
        before.selected is Some,
        after.selected is Some,
        before != after,
    ensures
        key_step(key_step(confirming, key, before).0, key, after).1 == Some(
            ActionView::ConfirmDelete,
        ),
{
}

/// Only a delete press changes which deletion is asked for.
pub proof fn law_other_keys_keep_what_is_asked(confirming: Confirming, key: KeyEvent, shown: Shown)
    requires
        !delete_key(key),
    ensures
        key_step(confirming, key, shown).0 == confirming,
{
}

/// A press opens or deletes the highlighted session and no other, and with nothing highlighted it
/// opens and deletes nothing.
pub proof fn law_only_the_highlighted_session(confirming: Confirming, key: KeyEvent, shown: Shown)
    ensures
        key_step(confirming, key, shown).1 matches Some(ActionView::Open(id)) ==> shown.selected
            == Some(id),
        key_step(confirming, key, shown).1 matches Some(ActionView::Delete(id)) ==> shown.selected
            == Some(id),
        shown.selected is None ==> key_step(confirming, key, shown).0 == confirming,
{
}

} // verus!
