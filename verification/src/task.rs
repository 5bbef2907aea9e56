//! What the runtime keeps for a running Lua task.
use crate::context::{Host, ToolLive};
use std::sync::Arc;
use vstd::prelude::*;

verus! {

/// Under which id, and where to, a task shows its progress.
pub struct Live<H: Host> {
    pub tool_use_id: String,
    pub event_tx: Arc<H::Events>,
}

/// The state of a running task.
pub struct TaskCell<H: Host> {
    /// The buffer that shows the task.
    pub root_buf: Option<Arc<H::Buf>>,
    pub live: Option<Live<H>>,
    pub live_sink: Option<flume::Sender<ToolLive<H::Buf>>>,
    /// The deadline that the task has set for itself, in seconds from then.
    pub deadline_secs: Option<u64>,
    /// That deadline as a time of the embedding program's clock, in nanoseconds.
    pub deadline: Option<u128>,
}

/// An event for the user interface.
pub enum AgentEvent<B> {
    /// The tool call `id` shows its progress in `body`.
    LiveToolBuf { id: String, body: Arc<B> },
}

/// Messages that are to be sent, and where each goes. Whether one arrives is of no concern.
pub struct LiveSends<H: Host> {
    pub event: Option<(Arc<H::Events>, AgentEvent<H::Buf>)>,
    pub sink: Option<(flume::Sender<ToolLive<H::Buf>>, ToolLive<H::Buf>)>,
}

/// No message at all.
pub open spec fn no_sends<H: Host>() -> LiveSends<H> {
    LiveSends { event: None, sink: None }
}

/// The messages that tell of the buffer `buf`: an event under the task's id where events are shown,
/// and the buffer itself where the caller wants progress sent.
pub open spec fn live_sends<H: Host>(cell: TaskCell<H>, buf: Arc<H::Buf>) -> LiveSends<H> {
    LiveSends {
        event: match cell.live {
            Some(live) => Some(
                (live.event_tx, AgentEvent::LiveToolBuf { id: live.tool_use_id, body: buf }),
            ),
            None => None,
        },
        sink: match cell.live_sink {
            Some(sink) => Some((sink, ToolLive::Buf(buf))),
            None => None,
        },
    }
}

/// Makes `buf` the buffer that shows the task, and returns the messages that tell of it.
pub fn send_live_buf<H: Host>(cell: &mut TaskCell<H>, buf: Arc<H::Buf>) -> (sends: LiveSends<H>)
    ensures
        *final(cell) == (TaskCell { root_buf: Some(buf), ..*old(cell) }),
        sends == live_sends(*old(cell), buf),
{
    cell.root_buf = Some(Arc::clone(&buf));
    let event = match &cell.live {
        Some(live) => Some(
            (
                Arc::clone(&live.event_tx),
                AgentEvent::LiveToolBuf { id: live.tool_use_id.clone(), body: Arc::clone(&buf) },
            ),
        ),
        None => None,
    };
    let sink = match &cell.live_sink {
        Some(sink) => Some((sink.clone(), ToolLive::Buf(buf))),
        None => None,
    };
    LiveSends { event, sink }
}

} // verus!
