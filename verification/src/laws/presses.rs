//! What key presses come to.
use crate::dashboard::{
    footer_hints, picker_outcome, DashboardAction, PickerAction, PickerView, SessionDashboard,
};
use crate::keys::{is_delete_key, is_open_key, KeyCode, KeyEvent};
use crate::listing::DashboardEntry;
use vstd::prelude::*;

verus! {

/// Control is among the held keys.
pub open spec fn control_held(key: KeyEvent) -> bool {
    key.modifiers & 0b0000_0010 != 0
}

/// Alt is among the held keys.
pub open spec fn alt_held(key: KeyEvent) -> bool {
    key.modifiers & 0b0000_0100 != 0
}

/// Both ask about the same session at the same count of the widget, or about none.
pub open spec fn same_question(a: Option<(String, u64)>, b: Option<(String, u64)>) -> bool {
    match (a, b) {
        (Some((id, generation)), Some((other, count))) => id@ == other@ && generation == count,
        (None, None) => true,
        _ => false,
    }
}

proof fn lemma_single_flags(modifiers: u8)
    ensures
        modifiers & 0b0000_0010 == 0b0000_0010 <==> modifiers & 0b0000_0010 != 0,
        modifiers & 0b0000_0100 == 0b0000_0100 <==> modifiers & 0b0000_0100 != 0,
{
    assert(modifiers & 0b0000_0010 == 0b0000_0010 <==> modifiers & 0b0000_0010 != 0) by (bit_vector);
    assert(modifiers & 0b0000_0100 == 0b0000_0100 <==> modifiers & 0b0000_0100 != 0) by (bit_vector);
}

/// A press is taken for the delete key only if the key is `x`, Control is held and Alt is not, and
/// every such press is, whatever else is held.
pub proof fn law_control_x_is_the_delete_key(key: KeyEvent, is_delete: bool)
    requires
        call_ensures(is_delete_key, (&key,), is_delete),
    ensures
        is_delete ==> key.code == KeyCode::Char('x') && control_held(key) && !alt_held(key),
        !is_delete ==> key.code != KeyCode::Char('x') || !control_held(key) || alt_held(key),
{
    lemma_single_flags(key.modifiers);
}

/// A press is taken for the open key only if the key is the right arrow and nothing is held, and
/// every such press is.
pub proof fn law_the_bare_right_arrow_is_the_open_key(key: KeyEvent, is_open: bool)
    requires
        call_ensures(is_open_key, (&key,), is_open),
    ensures
        is_open ==> key.code == KeyCode::Right && key.modifiers == 0,
        !is_open ==> key.code != KeyCode::Right || key.modifiers != 0,
{
}

/// Only Control and `x` without Alt ever asks to delete or deletes. With a session highlighted every
/// such press does the one or the other, and with none it is used up.
pub proof fn law_only_control_x_deletes(
    d: &mut SessionDashboard,
    key: KeyEvent,
    shown: PickerView,
    action: Option<DashboardAction>,
)
    requires
        call_ensures(SessionDashboard::handle_key, (d, &key, &shown), action),
    ensures
        action matches Some(DashboardAction::ConfirmDelete) ==> key.code == KeyCode::Char('x')
            && control_held(key) && !alt_held(key),
        action matches Some(DashboardAction::Delete(_)) ==> key.code == KeyCode::Char('x')
            && control_held(key) && !alt_held(key),
        key.code == KeyCode::Char('x') && control_held(key) && !alt_held(key) ==> match shown.selected {
            Some(_) => action matches Some(DashboardAction::ConfirmDelete) || action matches Some(
                DashboardAction::Delete(_),
            ),
            None => action matches Some(DashboardAction::Consumed),
        },
{
    lemma_single_flags(key.modifiers);
}

/// Only the right arrow with nothing held opens a session without the list's help. With a session
/// highlighted every such press opens that session, and with none it is used up.
pub proof fn law_only_the_bare_right_arrow_opens(
    d: &mut SessionDashboard,
    key: KeyEvent,
    shown: PickerView,
    action: Option<DashboardAction>,
)
    requires
        call_ensures(SessionDashboard::handle_key, (d, &key, &shown), action),
    ensures
        action matches Some(DashboardAction::Open(id)) ==> {
            &&& key.code == KeyCode::Right
            &&& key.modifiers == 0
            &&& shown.selected matches Some(selected) && selected@ == id@
        },
        key.code == KeyCode::Right && key.modifiers == 0 ==> match shown.selected {
            Some(selected) => action matches Some(DashboardAction::Open(id)) && id@ == selected@,
            None => action matches Some(DashboardAction::Consumed),
        },
{
}

/// Every other press is left to the list widget: every other character, every other key, and these
/// keys with other modifiers. No press ever comes to leaving the list by itself.
pub proof fn law_other_presses_are_left_to_the_list(
    d: &mut SessionDashboard,
    key: KeyEvent,
    shown: PickerView,
    action: Option<DashboardAction>,
)
    requires
        call_ensures(SessionDashboard::handle_key, (d, &key, &shown), action),
    ensures
        key.code is Other ==> action is None,
        key.code matches KeyCode::Char(c) ==> c != 'x' ==> action is None,
        key.code is Char && (!control_held(key) || alt_held(key)) ==> action is None,
        key.code is Right && key.modifiers != 0 ==> action is None,
        !(action matches Some(DashboardAction::Nothing)),
        action is None ==> same_question(final(d).confirming, old(d).confirming),
{
    lemma_single_flags(key.modifiers);
}

/// Held keys other than Control and Alt make no difference to what a character comes to, nor to what
/// is asked for afterwards.
pub proof fn law_other_modifiers_do_not_matter(
    d: &mut SessionDashboard,
    key: KeyEvent,
    action: Option<DashboardAction>,
    e: &mut SessionDashboard,
    other: KeyEvent,
    outcome: Option<DashboardAction>,
    shown: PickerView,
)
    requires
        call_ensures(SessionDashboard::handle_key, (d, &key, &shown), action),
        call_ensures(SessionDashboard::handle_key, (e, &other, &shown), outcome),
        *old(d) == *old(e),
        key.code is Char && other.code == key.code,
        control_held(other) == control_held(key),
        alt_held(other) == alt_held(key),
    ensures
        action is None <==> outcome is None,
        action matches Some(DashboardAction::ConfirmDelete) <==> outcome matches Some(
            DashboardAction::ConfirmDelete,
        ),
        action matches Some(DashboardAction::Delete(_)) <==> outcome matches Some(
            DashboardAction::Delete(_),
        ),
        same_question(final(d).confirming, final(e).confirming),
{
    lemma_single_flags(key.modifiers);
    lemma_single_flags(other.modifiers);
}

/// A key press touches neither the awaited listing nor the message for the user.
pub proof fn law_presses_leave_the_listing_alone(
    d: &mut SessionDashboard,
    key: KeyEvent,
    shown: PickerView,
    action: Option<DashboardAction>,
)
    requires
        call_ensures(SessionDashboard::handle_key, (d, &key, &shown), action),
    ensures
        final(d).pending_rx == old(d).pending_rx,
        final(d).flash == old(d).flash,
{
}

/// A delete press on a highlighted session deletes that session exactly when that session was asked
/// about and the widget's count is the one of then; it leaves the question standing. Otherwise it
/// asks, about that session and with that count.
pub proof fn law_delete_needs_the_same_question(
    d: &mut SessionDashboard,
    shown: PickerView,
    action: DashboardAction,
)
    requires
        call_ensures(SessionDashboard::handle_delete_key, (d, &shown), action),
    ensures
        shown.selected matches Some(selected) ==> {
            let now = Some((selected, shown.generation));
            if same_question(old(d).confirming, now) {
                action matches DashboardAction::Delete(id) && id@ == selected@
            } else {
                action matches DashboardAction::ConfirmDelete
            }
        },
        shown.selected matches Some(selected) ==> same_question(
            final(d).confirming,
            Some((selected, shown.generation)),
        ),
        shown.selected is None ==> action matches DashboardAction::Consumed,
        shown.selected is None ==> same_question(final(d).confirming, old(d).confirming),
        final(d).pending_rx == old(d).pending_rx,
        final(d).flash == old(d).flash,
{
}

/// The same for a press that reaches the dashboard as a key.
pub proof fn law_a_delete_press_needs_the_same_question(
    d: &mut SessionDashboard,
    key: KeyEvent,
    shown: PickerView,
    selected: String,
    action: Option<DashboardAction>,
)
    requires
        call_ensures(SessionDashboard::handle_key, (d, &key, &shown), action),
        key.code == KeyCode::Char('x') && control_held(key) && !alt_held(key),
        shown.selected == Some(selected),
    ensures
        same_question(old(d).confirming, Some((selected, shown.generation))) <==> action matches Some(
            DashboardAction::Delete(_),
        ),
        action matches Some(DashboardAction::Delete(id)) ==> id@ == selected@,
        same_question(final(d).confirming, Some((selected, shown.generation))),
{
    lemma_single_flags(key.modifiers);
}

/// Two delete presses in a row on the same entry of an unchanged list delete it, whatever was asked
/// before and however the second press holds other modifiers.
pub proof fn law_two_presses_delete(
    d: &mut SessionDashboard,
    key: KeyEvent,
    first: Option<DashboardAction>,
    e: &mut SessionDashboard,
    again: KeyEvent,
    second: Option<DashboardAction>,
    shown: PickerView,
    selected: String,
)
    requires
        call_ensures(SessionDashboard::handle_key, (d, &key, &shown), first),
        call_ensures(SessionDashboard::handle_key, (e, &again, &shown), second),
        *old(e) == *final(d),
        key.code == KeyCode::Char('x') && control_held(key) && !alt_held(key),
        again.code == KeyCode::Char('x') && control_held(again) && !alt_held(again),
        shown.selected == Some(selected),
    ensures
        second matches Some(DashboardAction::Delete(id)) && id@ == selected@,
        old(d).confirming is None ==> first matches Some(DashboardAction::ConfirmDelete),
{
    lemma_single_flags(key.modifiers);
    lemma_single_flags(again.modifiers);
}

/// Two delete presses in a row on different entries, or with the list changed in between, delete
/// nothing the second time: the second press asks anew.
pub proof fn law_a_change_in_between_asks_anew(
    d: &mut SessionDashboard,
    shown: PickerView,
    selected: String,
    first: DashboardAction,
    e: &mut SessionDashboard,
    later: PickerView,
    other: String,
    second: DashboardAction,
)
    requires
        call_ensures(SessionDashboard::handle_delete_key, (d, &shown), first),
        call_ensures(SessionDashboard::handle_delete_key, (e, &later), second),
        *old(e) == *final(d),
        shown.selected == Some(selected),
        later.selected == Some(other),
        other@ != selected@ || later.generation != shown.generation,
    ensures
        second matches DashboardAction::ConfirmDelete,
{
}

/// A selection in the list opens the selected session, at whatever place of the list it stands.
pub proof fn law_a_selection_opens_its_session(
    at: usize,
    entry: DashboardEntry,
    action: DashboardAction,
)
    requires
        call_ensures(picker_outcome, (PickerAction::Select(at, entry),), action),
    ensures
        action matches DashboardAction::Open(id) && id@ == entry.id@,
{
}

/// Only a selection opens a session, leaving the list comes to nothing and nothing else does, and the
/// list by itself never deletes or asks to.
pub proof fn law_what_the_list_comes_to(handled: PickerAction, action: DashboardAction)
    requires
        call_ensures(picker_outcome, (handled,), action),
    ensures
        action is Open <==> handled is Select,
        action is Nothing <==> handled is Close,
        action is Consumed <==> handled is Consumed || handled is Toggle,
        !(action is Delete) && !(action is ConfirmDelete),
{
}

/// The footer names the three keys, the delete key by whatever name it is given.
pub proof fn law_the_footer_names_the_keys<'a>(
    delete_label: &'a str,
    hints: [(&'a str, &'a str); 3],
)
    requires
        call_ensures(footer_hints, (delete_label,), hints),
    ensures
        hints@[0].1@ == "navigate"@ && hints@[0].0@ == "↑/↓"@,
        hints@[1].1@ == "open"@ && hints@[1].0@ == "→/Enter"@,
        hints@[2].1@ == "delete"@ && hints@[2].0@ == delete_label@,
{
}

} // verus!
