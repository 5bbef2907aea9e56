use crossterm::event::KeyModifiers;
use maki_core::dashboard::{
    footer_hints, picker_outcome, DashboardAction, PickerAction, PickerView, SessionDashboard,
    LISTING_CAPACITY, NO_SESSIONS_MSG, TITLE,
};
use maki_core::keys::{is_delete_key, is_open_key, KeyCode, KeyEvent, ALT, CONTROL};
use maki_core::listing::{
    board_entries, entry_from_summary, list_entries, DashboardEntry, LIST_FAILED,
};
use maki_core::removal::is_kept;
use maki_core::sessions::{
    section_label, section_rank, SessionStatus, SessionSummary, SECTION_COMPLETED,
    SECTION_NEEDS_INPUT, SECTION_WORKING,
};

fn session(id: &str, status: SessionStatus, updated_at: u64) -> SessionSummary {
    SessionSummary {
        id: id.to_string(),
        title: format!("title of {}", id),
        updated_at,
        status,
        summary: None,
    }
}

fn listed(sessions: Vec<SessionSummary>) -> Vec<(SessionSummary, String)> {
    sessions.into_iter().map(|s| (s, "5m ago".to_string())).collect()
}

fn ids(entries: &[DashboardEntry]) -> Vec<&str> {
    entries.iter().map(|e| e.id.as_str()).collect()
}

fn shown(id: &str, generation: u64) -> PickerView {
    PickerView { selected: Some(id.to_string()), generation }
}

fn nothing_shown() -> PickerView {
    PickerView { selected: None, generation: 0 }
}

fn key(code: KeyCode, modifiers: KeyModifiers) -> KeyEvent {
    KeyEvent { code, modifiers: modifiers.bits() }
}

fn delete() -> KeyEvent {
    key(KeyCode::Char('x'), KeyModifiers::CONTROL)
}

#[test]
fn status_orders_into_sections() {
    assert_eq!(section_rank(SessionStatus::NeedsInput), 0);
    assert_eq!(section_rank(SessionStatus::Working), 1);
    assert_eq!(section_rank(SessionStatus::Completed), 2);
    assert_eq!(section_rank(SessionStatus::Idle), 2);
    assert_eq!(section_rank(SessionStatus::Error), 2);
}

#[test]
fn status_maps_to_section_label() {
    assert_eq!(section_label(SessionStatus::NeedsInput), SECTION_NEEDS_INPUT);
    assert_eq!(section_label(SessionStatus::Working), SECTION_WORKING);
    assert_eq!(section_label(SessionStatus::Completed), SECTION_COMPLETED);
}

#[test]
fn headings_read_as_shown() {
    assert_eq!(section_label(SessionStatus::NeedsInput), "Needs input");
    assert_eq!(section_label(SessionStatus::Working), "Working");
    assert_eq!(section_label(SessionStatus::Idle), "Completed");
    assert_eq!(section_label(SessionStatus::Error), "Completed");
}

#[test]
fn sessions_are_idle_by_default() {
    assert_eq!(SessionStatus::default(), SessionStatus::Idle);
}

#[test]
fn flag_bits_are_those_of_the_terminal() {
    assert_eq!(KeyModifiers::CONTROL.bits(), CONTROL);
    assert_eq!(KeyModifiers::ALT.bits(), ALT);
}

#[test]
fn control_x_deletes() {
    let x = KeyCode::Char('x');
    assert!(is_delete_key(&key(x, KeyModifiers::CONTROL)));
    assert!(is_delete_key(&key(x, KeyModifiers::CONTROL | KeyModifiers::SHIFT)));
    assert!(!is_delete_key(&key(x, KeyModifiers::CONTROL | KeyModifiers::ALT)));
    assert!(!is_delete_key(&key(x, KeyModifiers::ALT)));
    assert!(!is_delete_key(&key(x, KeyModifiers::NONE)));
    assert!(!is_delete_key(&key(KeyCode::Char('X'), KeyModifiers::CONTROL)));
    assert!(!is_delete_key(&key(KeyCode::Other, KeyModifiers::CONTROL)));
}

#[test]
fn the_bare_right_arrow_opens() {
    assert!(is_open_key(&key(KeyCode::Right, KeyModifiers::NONE)));
    assert!(!is_open_key(&key(KeyCode::Right, KeyModifiers::SHIFT)));
    assert!(!is_open_key(&key(KeyCode::Other, KeyModifiers::NONE)));
}

#[test]
fn entries_show_summary_and_age() {
    let mut s = session("a", SessionStatus::Working, 1);
    s.summary = Some("fixed the build".to_string());
    let entry = entry_from_summary(s, "5m ago".to_string());
    assert_eq!(entry.id, "a");
    assert_eq!(entry.label(), "title of a");
    assert_eq!(entry.detail(), Some("fixed the build  ·  5m ago"));
    assert_eq!(entry.section(), Some("Working"));
    assert!(entry.is_spinning());
}

#[test]
fn entries_without_a_summary_show_the_age() {
    let mut s = session("a", SessionStatus::NeedsInput, 1);
    let entry = entry_from_summary(session("a", SessionStatus::Idle, 1), "now".to_string());
    assert_eq!(entry.detail, "now");
    assert!(!entry.spinning);
    s.summary = Some(String::new());
    let entry = entry_from_summary(s, "now".to_string());
    assert_eq!(entry.detail, "now");
    assert!(!entry.spinning);
}

#[test]
fn the_board_goes_by_section_then_newest_first() {
    let entries = board_entries(listed(vec![
        session("done-old", SessionStatus::Completed, 10),
        session("work-old", SessionStatus::Working, 20),
        session("ask", SessionStatus::NeedsInput, 1),
        session("idle-new", SessionStatus::Idle, 40),
        session("work-new", SessionStatus::Working, 30),
        session("failed", SessionStatus::Error, 20),
    ]));
    assert_eq!(
        ids(&entries),
        vec!["ask", "work-new", "work-old", "idle-new", "failed", "done-old"]
    );
    let sections: Vec<&str> = entries.iter().map(|e| e.section).collect();
    assert_eq!(
        sections,
        vec!["Needs input", "Working", "Working", "Completed", "Completed", "Completed"]
    );
    let spinning: Vec<bool> = entries.iter().map(|e| e.spinning).collect();
    assert_eq!(spinning, vec![false, true, true, false, false, false]);
}

#[test]
fn sessions_of_one_moment_keep_their_order() {
    let entries = board_entries(listed(vec![
        session("first", SessionStatus::Idle, 7),
        session("second", SessionStatus::Error, 7),
        session("third", SessionStatus::Completed, 7),
    ]));
    assert_eq!(ids(&entries), vec!["first", "second", "third"]);
}

#[test]
fn boards_keep_every_session() {
    let mut sessions = Vec::new();
    for i in 0..100u64 {
        let status = match i % 5 {
            0 => SessionStatus::Idle,
            1 => SessionStatus::Working,
            2 => SessionStatus::NeedsInput,
            3 => SessionStatus::Completed,
            _ => SessionStatus::Error,
        };
        sessions.push(session(&format!("s{}", i), status, (i * 37) % 11));
    }
    let mut expected: Vec<(u8, u64, usize)> = sessions
        .iter()
        .enumerate()
        .map(|(i, s)| (section_rank(s.status), u64::MAX - s.updated_at, i))
        .collect();
    expected.sort();
    let wanted: Vec<String> = expected.iter().map(|k| format!("s{}", k.2)).collect();
    let entries = board_entries(listed(sessions));
    assert_eq!(ids(&entries), wanted);
}

#[test]
fn listing_again_in_board_order_changes_nothing() {
    let sessions = vec![
        session("ask", SessionStatus::NeedsInput, 1),
        session("work", SessionStatus::Working, 30),
        session("done", SessionStatus::Completed, 9),
    ];
    assert_eq!(ids(&board_entries(listed(sessions))), vec!["ask", "work", "done"]);
}

#[test]
fn failed_listings_tell_why() {
    let failed = list_entries(Err("no such directory".to_string()));
    assert_eq!(failed.unwrap_err(), "Failed to list sessions: no such directory");
    assert_eq!(LIST_FAILED, "Failed to list sessions: ");
    let listing = list_entries(Ok(listed(vec![session("a", SessionStatus::Idle, 1)])));
    assert_eq!(ids(&listing.unwrap()), vec!["a"]);
}

#[test]
fn a_new_dashboard_awaits_nothing() {
    let mut dashboard = SessionDashboard::new();
    assert!(dashboard.confirming.is_none());
    assert!(dashboard.tick().is_none());
    assert!(dashboard.take_flash().is_none());
}

#[test]
fn listings_arrive_through_the_channel() {
    let mut dashboard = SessionDashboard::new();
    let (title, tx) = dashboard.open();
    assert_eq!(title, " Agents ");
    assert_eq!(title, TITLE);
    assert!(dashboard.tick().is_none());
    assert!(dashboard.pending_rx.is_some());
    tx.send(list_entries(Ok(listed(vec![
        session("b", SessionStatus::Idle, 1),
        session("a", SessionStatus::Working, 1),
    ]))))
    .unwrap();
    let update = dashboard.tick().unwrap();
    assert_eq!(ids(&update.items), vec!["a", "b"]);
    assert!(update.error_text.is_none());
    assert!(dashboard.pending_rx.is_none());
    assert!(dashboard.tick().is_none());
}

#[test]
fn empty_listings_leave_a_note() {
    let mut dashboard = SessionDashboard::new();
    let (_, tx) = dashboard.open();
    tx.send(Ok(Vec::new())).unwrap();
    let update = dashboard.try_resolve().unwrap();
    assert!(update.items.is_empty());
    assert_eq!(update.error_text.as_deref(), Some("No sessions yet in this directory"));
    assert_eq!(NO_SESSIONS_MSG, "No sessions yet in this directory");
}

#[test]
fn failed_listings_are_shown() {
    let mut dashboard = SessionDashboard::new();
    let update = dashboard.resolve(Err("Failed to list sessions: gone".to_string()));
    assert!(update.items.is_empty());
    assert_eq!(update.error_text.as_deref(), Some("Failed to list sessions: gone"));
}

#[test]
fn a_lister_that_gives_up_leaves_the_dashboard_waiting() {
    let mut dashboard = SessionDashboard::new();
    let (_, tx) = dashboard.open();
    drop(tx);
    assert!(dashboard.tick().is_none());
    assert!(dashboard.pending_rx.is_some());
}

#[test]
fn looking_in_vain_loses_no_listing() {
    let mut dashboard = SessionDashboard::new();
    let (_, tx) = dashboard.open();
    for _ in 0..3 {
        assert!(dashboard.tick().is_none());
        assert!(dashboard.pending_rx.is_some());
    }
    tx.send(Err("late".to_string())).unwrap();
    drop(tx);
    assert_eq!(dashboard.tick().unwrap().error_text.as_deref(), Some("late"));
    assert!(dashboard.pending_rx.is_none());
}

#[test]
fn closing_forgets_the_listing_under_way() {
    let mut dashboard = SessionDashboard::new();
    let (_, tx) = dashboard.open();
    tx.send(Ok(Vec::new())).unwrap();
    dashboard.close();
    assert!(dashboard.tick().is_none());
}

#[test]
fn reopening_awaits_the_new_listing() {
    let mut dashboard = SessionDashboard::new();
    let (_, first) = dashboard.open();
    first.send(Err("old".to_string())).unwrap();
    let (_, second) = dashboard.open();
    second.send(Err("new".to_string())).unwrap();
    assert_eq!(dashboard.tick().unwrap().error_text.as_deref(), Some("new"));
}

#[test]
fn a_late_listing_of_an_earlier_opening_is_never_shown() {
    let mut dashboard = SessionDashboard::new();
    let (_, first) = dashboard.open();
    let (_, second) = dashboard.open();
    assert!(first.send(Err("old".to_string())).is_err());
    assert!(dashboard.tick().is_none());
    second.send(Err("new".to_string())).unwrap();
    assert_eq!(dashboard.tick().unwrap().error_text.as_deref(), Some("new"));
    assert!(dashboard.tick().is_none());
}

#[test]
fn an_opening_holds_one_listing() {
    let mut dashboard = SessionDashboard::new();
    let (_, tx) = dashboard.open();
    assert_eq!(tx.capacity(), Some(1));
    assert_eq!(LISTING_CAPACITY, 1);
}

#[test]
fn a_closed_dashboard_shows_nothing_until_it_is_opened() {
    let mut dashboard = SessionDashboard::new();
    let (_, tx) = dashboard.open();
    tx.send(Err("old".to_string())).unwrap();
    dashboard.close();
    for _ in 0..3 {
        assert!(dashboard.tick().is_none());
        assert!(dashboard.pending_rx.is_none());
    }
    let (_, tx) = dashboard.open();
    tx.send(Err("new".to_string())).unwrap();
    assert_eq!(dashboard.tick().unwrap().error_text.as_deref(), Some("new"));
}

#[test]
fn a_flash_is_handed_out_once() {
    let mut dashboard = SessionDashboard::new();
    dashboard.flash = Some("deleted".to_string());
    assert_eq!(dashboard.take_flash().as_deref(), Some("deleted"));
    assert!(dashboard.take_flash().is_none());
}

#[test]
fn deleting_takes_two_presses() {
    let mut dashboard = SessionDashboard::new();
    assert_eq!(
        dashboard.handle_key(&delete(), &shown("a", 3)),
        Some(DashboardAction::ConfirmDelete)
    );
    assert_eq!(
        dashboard.handle_key(&delete(), &shown("a", 3)),
        Some(DashboardAction::Delete("a".to_string()))
    );
}

#[test]
fn another_entry_asks_anew() {
    let mut dashboard = SessionDashboard::new();
    assert_eq!(dashboard.handle_delete_key(&shown("a", 3)), DashboardAction::ConfirmDelete);
    assert_eq!(dashboard.handle_delete_key(&shown("b", 3)), DashboardAction::ConfirmDelete);
    assert_eq!(dashboard.handle_delete_key(&shown("a", 3)), DashboardAction::ConfirmDelete);
    assert_eq!(
        dashboard.handle_delete_key(&shown("a", 3)),
        DashboardAction::Delete("a".to_string())
    );
}

#[test]
fn a_changed_list_asks_anew() {
    let mut dashboard = SessionDashboard::new();
    assert_eq!(dashboard.handle_delete_key(&shown("a", 3)), DashboardAction::ConfirmDelete);
    assert_eq!(dashboard.handle_delete_key(&shown("a", 4)), DashboardAction::ConfirmDelete);
}

#[test]
fn other_keys_keep_the_question_open() {
    let mut dashboard = SessionDashboard::new();
    let down = key(KeyCode::Other, KeyModifiers::NONE);
    assert_eq!(dashboard.handle_delete_key(&shown("a", 3)), DashboardAction::ConfirmDelete);
    assert_eq!(dashboard.handle_key(&down, &shown("b", 3)), None);
    assert_eq!(
        dashboard.handle_delete_key(&shown("a", 3)),
        DashboardAction::Delete("a".to_string())
    );
}

#[test]
fn with_nothing_highlighted_keys_do_nothing() {
    let mut dashboard = SessionDashboard::new();
    let right = key(KeyCode::Right, KeyModifiers::NONE);
    assert_eq!(
        dashboard.handle_key(&delete(), &nothing_shown()),
        Some(DashboardAction::Consumed)
    );
    assert_eq!(
        dashboard.handle_key(&right, &nothing_shown()),
        Some(DashboardAction::Consumed)
    );
    assert!(dashboard.confirming.is_none());
}

#[test]
fn the_right_arrow_opens_the_highlighted_session() {
    let mut dashboard = SessionDashboard::new();
    let right = key(KeyCode::Right, KeyModifiers::NONE);
    assert_eq!(
        dashboard.handle_key(&right, &shown("a", 1)),
        Some(DashboardAction::Open("a".to_string()))
    );
    let shifted = key(KeyCode::Right, KeyModifiers::SHIFT);
    assert_eq!(dashboard.handle_key(&shifted, &shown("a", 1)), None);
}

#[test]
fn the_list_has_the_last_word_on_its_keys() {
    let entry = entry_from_summary(session("a", SessionStatus::Idle, 1), "now".to_string());
    assert_eq!(
        picker_outcome(PickerAction::Select(0, entry)),
        DashboardAction::Open("a".to_string())
    );
    assert_eq!(picker_outcome(PickerAction::Consumed), DashboardAction::Consumed);
    assert_eq!(picker_outcome(PickerAction::Toggle), DashboardAction::Consumed);
    assert_eq!(picker_outcome(PickerAction::Close), DashboardAction::Nothing);
}

#[test]
fn removed_sessions_leave_the_board() {
    let mut entries = board_entries(listed(vec![
        session("a", SessionStatus::Idle, 1),
        session("b", SessionStatus::Working, 1),
        session("c", SessionStatus::NeedsInput, 1),
    ]));
    let removed = "b".to_string();
    entries.retain(|e| is_kept(e, &removed));
    assert_eq!(ids(&entries), vec!["c", "a"]);
}

#[test]
fn footers_name_the_keys() {
    assert_eq!(
        footer_hints("Ctrl+X"),
        [("↑/↓", "navigate"), ("→/Enter", "open"), ("Ctrl+X", "delete")]
    );
}

#[test]
fn one_listing_makes_one_board() {
    let sessions = || {
        listed(vec![
            session("a", SessionStatus::Idle, 1),
            session("b", SessionStatus::Idle, 2),
            session("c", SessionStatus::Working, 1),
        ])
    };
    assert_eq!(ids(&board_entries(sessions())), ids(&board_entries(sessions())));
}

#[test]
fn removing_leaves_the_board_of_the_others() {
    let mut entries = board_entries(listed(vec![
        session("a", SessionStatus::Idle, 4),
        session("b", SessionStatus::Working, 3),
        session("c", SessionStatus::Error, 5),
        session("d", SessionStatus::Idle, 4),
    ]));
    let others = board_entries(listed(vec![
        session("a", SessionStatus::Idle, 4),
        session("b", SessionStatus::Working, 3),
        session("d", SessionStatus::Idle, 4),
    ]));
    let removed = "c".to_string();
    entries.retain(|e| is_kept(e, &removed));
    assert_eq!(ids(&entries), ids(&others));
    assert_eq!(ids(&entries), vec!["b", "a", "d"]);
}

#[test]
fn ranks_and_headings_agree() {
    let all = [
        SessionStatus::Idle,
        SessionStatus::Working,
        SessionStatus::NeedsInput,
        SessionStatus::Completed,
        SessionStatus::Error,
    ];
    for a in all {
        for b in all {
            assert_eq!(section_rank(a) == section_rank(b), section_label(a) == section_label(b));
        }
    }
}
