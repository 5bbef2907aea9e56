//! The `ctx` object that Lua code of a tool gets, and which of its methods each kind of call has.
use crate::context::{
    is_snapshot, AgentConfig, AgentContext, CancelToken, Host, ToolAudience, ToolContext,
    ToolOutputLines,
};
use std::sync::Arc;
use vstd::prelude::*;

verus! {

/// Raised when a deadline is set a second time.
pub const DEADLINE_ALREADY_SET_MSG: &'static str = "ctx:set_deadline() already called";

/// Answered when the clock does not reach as far as the deadline.
pub const DEADLINE_TOO_FAR_MSG: &'static str = "deadline is beyond the reach of the clock";

/// Raised when a call is finished a second time.
pub const FINISH_ALREADY_CALLED_MSG: &'static str = "ctx:finish() already called";

/// Name of the audience that has none of its own.
pub const MAIN_AUDIENCE: &'static str = "main";

/// Nanoseconds in a second.
pub const NANOS_PER_SEC: u128 = 1_000_000_000;

/// What Lua code is called for.
#[derive(Debug, Clone, Copy, PartialEq, Eq, Structural)]
pub enum CtxKind {
    /// To handle a tool call.
    Handler,
    /// To show that a tool call starts.
    Start,
    /// To show a tool call of a stored session again.
    Restore,
}

impl CtxKind {
    /// The kind's name in messages.
    pub open spec fn text(self) -> Seq<char> {
        match self {
            CtxKind::Handler => "handler"@,
            CtxKind::Start => "start"@,
            CtxKind::Restore => "restore"@,
        }
    }

    /// The kind's name in messages.
    pub fn name(self) -> (r: &'static str)
        ensures
            r@ == self.text(),
    {
        match self {
            CtxKind::Handler => "handler",
            CtxKind::Start => "start",
            CtxKind::Restore => "restore",
        }
    }
}

/// The methods of `ctx`.
#[derive(Debug, Clone, Copy, PartialEq, Eq, Structural)]
pub enum Method {
    Cancelled,
    Workflow,
    Audience,
    LiveBuf,
    Config,
    ToolOutputLines,
    State,
    SetDeadline,
    RecordRead,
    CheckBeforeEdit,
    FindInstructions,
    IsInstructionFile,
    Finish,
}

impl Method {
    /// The name by which Lua code calls the method.
    pub open spec fn text(self) -> Seq<char> {
        match self {
            Method::Cancelled => "cancelled"@,
            Method::Workflow => "workflow"@,
            Method::Audience => "audience"@,
            Method::LiveBuf => "live_buf"@,
            Method::Config => "config"@,
            Method::ToolOutputLines => "tool_output_lines"@,
            Method::State => "state"@,
            Method::SetDeadline => "set_deadline"@,
            Method::RecordRead => "record_read"@,
            Method::CheckBeforeEdit => "check_before_edit"@,
            Method::FindInstructions => "find_instructions"@,
            Method::IsInstructionFile => "is_instruction_file"@,
            Method::Finish => "finish"@,
        }
    }

    /// The name by which Lua code calls the method.
    pub fn name(self) -> (r: &'static str)
        ensures
            r@ == self.text(),
    {
        match self {
            Method::Cancelled => "cancelled",
            Method::Workflow => "workflow",
            Method::Audience => "audience",
            Method::LiveBuf => "live_buf",
            Method::Config => "config",
            Method::ToolOutputLines => "tool_output_lines",
            Method::State => "state",
            Method::SetDeadline => "set_deadline",
            Method::RecordRead => "record_read",
            Method::CheckBeforeEdit => "check_before_edit",
            Method::FindInstructions => "find_instructions",
            Method::IsInstructionFile => "is_instruction_file",
            Method::Finish => "finish",
        }
    }
}

/// A value that a method hands to Lua code.
#[derive(Debug, PartialEq, Eq)]
pub enum LuaValue {
    Nil,
    Boolean(bool),
    String(String),
}

/// What a method returns to Lua code: a value, and a message where it failed.
pub type Answer = (LuaValue, Option<String>);

/// A value for Lua code, with its text as characters.
pub enum LuaView {
    Nil,
    Boolean(bool),
    String(Seq<char>),
}

/// What a method returns to Lua code, with its text as characters.
pub type AnswerView = (LuaView, Option<Seq<char>>);

impl View for LuaValue {
    type V = LuaView;

    open spec fn view(&self) -> LuaView {
        match self {
            LuaValue::Nil => LuaView::Nil,
            LuaValue::Boolean(b) => LuaView::Boolean(*b),
            LuaValue::String(s) => LuaView::String(s@),
        }
    }
}

/// What a method returns to Lua code, with its text as characters.
pub open spec fn answer_view(answer: Answer) -> AnswerView {
    (answer.0@, crate::listing::text_of(answer.1))
}

/// The answer of a method that did its work and has nothing to return.
pub open spec fn done_view() -> AnswerView {
    (LuaView::Nil, None)
}

/// The answer of a method that did its work and has nothing to return.
pub fn done() -> (r: Answer)
    ensures
        answer_view(r) == done_view(),
{
    (LuaValue::Nil, None)
}

/// Why a call of this kind does not have `method`.
pub open spec fn cap_err_text(kind: CtxKind, method: Seq<char>) -> Seq<char> {
    method + " not available in "@ + kind.text() + " ctx"@
}

/// The answer of a method that a call of this kind does not have.
pub open spec fn refusal_view(kind: CtxKind, method: Seq<char>) -> AnswerView {
    (LuaView::Nil, Some(cap_err_text(kind, method)))
}

/// The `ctx` of one call into Lua code. What a kind of call lacks is `None`; its methods then answer
/// with nil and a message, so that Lua code can ask for it without an error being raised.
pub struct LuaCtx<H: Host> {
    pub kind: CtxKind,
    pub cancel: CancelToken<H::Cancel>,
    pub tool_output_lines: ToolOutputLines,
    pub config: Option<Arc<AgentConfig>>,
    pub workflow: bool,
    pub audience: ToolAudience,
    /// Where the answer of the tool call goes, until it has gone there.
    pub finish_tx: Option<flume::Sender<H::Reply>>,
    pub file_tracker: Option<Arc<H::Tracker>>,
    pub loaded_instructions: Option<Arc<H::Instructions>>,
    /// From which nested calls start; only handlers can make them.
    pub agent: Option<AgentContext<H>>,
    /// What was stored with the tool call that is shown again.
    pub state: Option<serde_json::Value>,
}

impl<H: Host> LuaCtx<H> {
    /// The call has what its kind has, and lacks what its kind lacks.
    pub open spec fn wf(self) -> bool {
        match self.kind {
            CtxKind::Handler => {
                &&& self.config is Some
                &&& self.file_tracker is Some
                &&& self.loaded_instructions is Some
                &&& self.agent is Some
                &&& self.state is None
            },
            CtxKind::Start => {
                &&& self.config is Some
                &&& self.file_tracker is None
                &&& self.loaded_instructions is None
                &&& self.agent is None
                &&& self.state is None
                &&& self.finish_tx is None
            },
            CtxKind::Restore => {
                &&& self.config is None
                &&& self.file_tracker is None
                &&& self.loaded_instructions is None
                &&& self.agent is None
                &&& self.finish_tx is None
                &&& self.cancel is Never
            },
        }
    }

    /// The `ctx` of a handler in the context `ctx`.
    pub fn handler(ctx: &ToolContext<H>) -> (r: Self)
        ensures
            r.wf(),
            r.kind == CtxKind::Handler,
            r.cancel == ctx.cancel,
            r.tool_output_lines == ctx.tool_output_lines,
            r.config == Some(ctx.config),
            r.workflow == ctx.workflow,
            r.audience == ctx.audience,
            r.finish_tx is None,
            r.file_tracker == Some(ctx.file_tracker),
            r.loaded_instructions == Some(ctx.loaded_instructions),
            r.agent is Some,
            is_snapshot(*ctx, r.agent->0),
            r.state is None,
    {
        LuaCtx {
            kind: CtxKind::Handler,
            cancel: ctx.cancel.clone(),
            tool_output_lines: ctx.tool_output_lines.clone(),
            config: Some(Arc::clone(&ctx.config)),
            workflow: ctx.workflow,
            audience: ctx.audience.clone(),
            finish_tx: None,
            file_tracker: Some(Arc::clone(&ctx.file_tracker)),
            loaded_instructions: Some(Arc::clone(&ctx.loaded_instructions)),
            agent: Some(AgentContext::from(ctx)),
            state: None,
        }
    }

    /// The `ctx` of a start call in the context `ctx`.
    pub fn start(ctx: &ToolContext<H>) -> (r: Self)
        ensures
            r.wf(),
            r.kind == CtxKind::Start,
            r.cancel == ctx.cancel,
            r.tool_output_lines == ctx.tool_output_lines,
            r.config == Some(ctx.config),
            r.workflow == ctx.workflow,
            r.audience == ctx.audience,
            r.finish_tx is None,
            r.file_tracker is None,
            r.loaded_instructions is None,
            r.agent is None,
            r.state is None,
    {
        LuaCtx {
            kind: CtxKind::Start,
            cancel: ctx.cancel.clone(),
            tool_output_lines: ctx.tool_output_lines.clone(),
            config: Some(Arc::clone(&ctx.config)),
            workflow: ctx.workflow,
            audience: ctx.audience.clone(),
            finish_tx: None,
            file_tracker: None,
            loaded_instructions: None,
            agent: None,
            state: None,
        }
    }

    /// The `ctx` of a restore call with what was stored.
    pub fn restore(tool_output_lines: ToolOutputLines, state: Option<serde_json::Value>) -> (r: Self)
        ensures
            r.wf(),
            r.kind == CtxKind::Restore,
            r.cancel is Never,
            r.tool_output_lines == tool_output_lines,
            r.config is None,
            r.workflow == false,
            r.audience.name is None,
            r.finish_tx is None,
            r.file_tracker is None,
            r.loaded_instructions is None,
            r.agent is None,
            r.state == state,
    {
        LuaCtx {
            kind: CtxKind::Restore,
            cancel: CancelToken::none(),
            tool_output_lines,
            config: None,
            workflow: false,
            audience: ToolAudience::default(),
            finish_tx: None,
            file_tracker: None,
            loaded_instructions: None,
            agent: None,
            state,
        }
    }

    /// Why this call does not have `method`.
    pub fn cap_err(&self, method: &str) -> (r: String)
        ensures
            r@ == cap_err_text(self.kind, method@),
    {
        method.to_owned().concat(" not available in ").concat(self.kind.name()).concat(" ctx")
    }

    /// The answer of `method`, which this call does not have.
    pub fn cap_err_pair(&self, method: &str) -> (r: Answer)
        ensures
            answer_view(r) == refusal_view(self.kind, method@),
    {
        (LuaValue::Nil, Some(self.cap_err(method)))
    }
}

} // verus!
