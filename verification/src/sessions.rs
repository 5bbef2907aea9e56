//! Session summaries and the dashboard section that each status belongs to.
use vstd::prelude::*;

verus! {

/// Heading of the sessions that wait for the user.
pub const SECTION_NEEDS_INPUT: &'static str = "Needs input";

/// Heading of the sessions whose agent is running.
pub const SECTION_WORKING: &'static str = "Working";

/// Heading of every other session.
pub const SECTION_COMPLETED: &'static str = "Completed";

/// Last known state of a session.
#[derive(Debug, Clone, Copy, PartialEq, Eq, Structural)]
pub enum SessionStatus {
    /// Exists, not running, not waiting.
    Idle,
    /// The agent loop is running.
    Working,
    /// Paused on a permission request or a question.
    NeedsInput,
    /// The last run ended.
    Completed,
    /// The last run failed.
    Error,
}

impl Default for SessionStatus {
    /// A session that never recorded a status is idle.
    fn default() -> (r: Self)
        ensures
            r == SessionStatus::Idle,
    {
        SessionStatus::Idle
    }
}

/// One session as the storage lists it.
#[derive(Debug)]
pub struct SessionSummary {
    pub id: String,
    pub title: String,
    /// Time of the last change; a later time is a larger number.
    pub updated_at: u64,
    pub status: SessionStatus,
    /// One line on what the session did, if there is one.
    pub summary: Option<String>,
}

/// Position of a status's section on the board: sections with lower ranks stand first.
pub open spec fn rank_of(status: SessionStatus) -> int {
    match status {
        SessionStatus::NeedsInput => 0,
        SessionStatus::Working => 1,
        _ => 2,
    }
}

/// Heading of a status's section.
pub open spec fn label_of(status: SessionStatus) -> Seq<char> {
    match status {
        SessionStatus::NeedsInput => SECTION_NEEDS_INPUT@,
        SessionStatus::Working => SECTION_WORKING@,
        _ => SECTION_COMPLETED@,
    }
}

/// Rank of the section that `status` belongs to.
pub fn section_rank(status: SessionStatus) -> (rank: u8)
    ensures
        rank == rank_of(status),
{
    match status {
        SessionStatus::NeedsInput => 0,
        SessionStatus::Working => 1,
        SessionStatus::Completed | SessionStatus::Idle | SessionStatus::Error => 2,
    }
}

/// Heading of the section that `status` belongs to.
pub fn section_label(status: SessionStatus) -> (label: &'static str)
    ensures
        label@ == label_of(status),
{
    match status {
        SessionStatus::NeedsInput => SECTION_NEEDS_INPUT,
        SessionStatus::Working => SECTION_WORKING,
        SessionStatus::Completed | SessionStatus::Idle | SessionStatus::Error => SECTION_COMPLETED,
    }
}

/// Two statuses have the same rank exactly when they have the same heading: the ranks and the
/// headings cut the board into the same sections.
pub proof fn law_rank_and_label_agree(a: SessionStatus, b: SessionStatus)
    ensures
        rank_of(a) == rank_of(b) <==> label_of(a) == label_of(b),
{
    reveal_strlit("Needs input");
    reveal_strlit("Working");
    reveal_strlit("Completed");
    assert(SECTION_NEEDS_INPUT@.len() == 11);
    assert(SECTION_WORKING@.len() == 7);
    assert(SECTION_COMPLETED@.len() == 9);
}

} // verus!
