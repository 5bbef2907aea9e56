//! The context in which a tool runs, and what a nested call inherits of it.
use std::collections::HashMap;
use std::sync::Arc;
use vstd::prelude::*;

verus! {

/// `serde_json::Value`, carried as an opaque value.
#[verifier::external_type_specification]
#[verifier::external_body]
pub struct ExJsonValue(serde_json::Value);

/// The embedding program's own types. The library carries their values and hands them back; it
/// never looks inside.
pub trait Host: Sized {
    /// What tells whether a run was cancelled.
    type Cancel;

    /// The instruction files that were shown already.
    type Instructions: Default;

    /// A tool that lives only as long as the session.
    type Tool;

    /// What remembers which files were read.
    type Tracker;

    /// A display buffer.
    type Buf;

    /// Where agent events go.
    type Events;

    /// The answer of a tool call.
    type Reply;

    /// Whatever else a context holds.
    type Rest;
}

/// Tells a run to stop.
pub enum CancelToken<C> {
    /// Never tells it.
    Never,
    /// Tells it once the source has fired.
    Linked(Arc<C>),
}

impl<C> CancelToken<C> {
    /// A token that never tells a run to stop.
    pub fn none() -> (r: Self)
        ensures
            r is Never,
    {
        CancelToken::Never
    }

    /// Whether the run is to stop, where `fired` says whether the source has fired.
    pub fn is_cancelled(&self, fired: bool) -> (r: bool)
        ensures
            r == (self is Linked && fired),
    {
        match self {
            CancelToken::Never => false,
            CancelToken::Linked(_) => fired,
        }
    }
}

impl<C> Clone for CancelToken<C> {
    /// A token on the same source.
    fn clone(&self) -> (r: Self)
        ensures
            r == *self,
    {
        match self {
            CancelToken::Never => CancelToken::Never,
            CancelToken::Linked(source) => CancelToken::Linked(Arc::clone(source)),
        }
    }
}

/// When a call has to be done.
#[derive(Debug, Clone, Copy, PartialEq, Eq, Structural)]
pub enum Deadline {
    /// At no particular time.
    Unset,
    /// At this time of the embedding program's clock, in nanoseconds.
    At(u128),
}

/// How many lines of output each tool may show, as far as that differs from the built-in numbers.
#[derive(Debug, PartialEq, Eq)]
pub struct ToolOutputLines {
    /// Tools with a number of their own, and that number.
    pub overrides: Arc<Vec<(String, usize)>>,
}

impl ToolOutputLines {
    /// Every tool has its built-in number.
    pub open spec fn is_default(self) -> bool {
        self.overrides@.len() == 0
    }
}

impl Default for ToolOutputLines {
    /// The built-in numbers.
    fn default() -> (r: Self)
        ensures
            r.is_default(),
    {
        ToolOutputLines { overrides: Arc::new(Vec::new()) }
    }
}

impl Clone for ToolOutputLines {
    /// The same numbers.
    fn clone(&self) -> (r: Self)
        ensures
            r == *self,
    {
        ToolOutputLines { overrides: Arc::clone(&self.overrides) }
    }
}

/// Whom a tool speaks to.
#[derive(Debug, PartialEq, Eq)]
pub struct ToolAudience {
    /// The audience's name; the main agent has none.
    pub name: Option<String>,
}

impl Default for ToolAudience {
    /// The main agent.
    fn default() -> (r: Self)
        ensures
            r.name is None,
    {
        ToolAudience { name: None }
    }
}

impl Clone for ToolAudience {
    /// The same audience.
    fn clone(&self) -> (r: Self)
        ensures
            r == *self,
    {
        match &self.name {
            Some(name) => ToolAudience { name: Some(name.clone()) },
            None => ToolAudience { name: None },
        }
    }
}

/// The agent's settings.
pub struct AgentConfig {
    /// The settings by name; where a name stands twice, the later one counts.
    pub entries: Vec<(String, serde_json::Value)>,
}

/// The setting that counts for `key`.
pub open spec fn setting(
    entries: Seq<(String, serde_json::Value)>,
    key: Seq<char>,
) -> Option<serde_json::Value>
    decreases entries.len(),
{
    if entries.len() == 0 {
        None
    } else if entries.last().0@ == key {
        Some(entries.last().1)
    } else {
        setting(entries.drop_last(), key)
    }
}

impl AgentConfig {
    /// The setting that counts for `key`, if there is one.
    pub fn get(&self, key: &String) -> (r: Option<&serde_json::Value>)
        ensures
            match r {
                Some(value) => setting(self.entries@, key@) == Some(*value),
                None => setting(self.entries@, key@) is None,
            },
    {
        let mut i: usize = self.entries.len();
        assert(self.entries@.take(i as int) =~= self.entries@);
        while i > 0
            invariant
                i <= self.entries.len(),
                setting(self.entries@, key@) == setting(self.entries@.take(i as int), key@),
            decreases i,
        {
            i = i - 1;
            let ghost front = self.entries@.take(i + 1);
            assert(front.last() == self.entries@[i as int]);
            assert(front.drop_last() =~= self.entries@.take(i as int));
            let entry = &self.entries[i];
            if entry.0 == *key {
                return Some(&entry.1);
            }
        }
        None
    }
}

/// What a tool sends while it runs.
pub enum ToolLive<B> {
    /// The buffer that shows its progress.
    Buf(Arc<B>),
}

/// What a tool call runs with.
pub struct ToolContext<H: Host> {
    /// Id of the call, under which events are shown.
    pub tool_use_id: Option<String>,
    /// Where the caller wants progress sent.
    pub live_sink: Option<flume::Sender<ToolLive<H::Buf>>>,
    pub deadline: Deadline,
    pub tool_output_lines: ToolOutputLines,
    pub loaded_instructions: Arc<H::Instructions>,
    pub local_tools: Arc<HashMap<String, H::Tool>>,
    pub cancel: CancelToken<H::Cancel>,
    pub config: Arc<AgentConfig>,
    pub workflow: bool,
    pub audience: ToolAudience,
    pub file_tracker: Arc<H::Tracker>,
    pub rest: Arc<H::Rest>,
}

impl<H: Host> Clone for ToolContext<H> {
    /// The same context, sharing what is shared.
    fn clone(&self) -> (r: Self)
        ensures
            r == *self,
    {
        ToolContext {
            tool_use_id: match &self.tool_use_id {
                Some(id) => Some(id.clone()),
                None => None,
            },
            live_sink: match &self.live_sink {
                Some(sink) => Some(sink.clone()),
                None => None,
            },
            deadline: self.deadline,
            tool_output_lines: self.tool_output_lines.clone(),
            loaded_instructions: Arc::clone(&self.loaded_instructions),
            local_tools: Arc::clone(&self.local_tools),
            cancel: self.cancel.clone(),
            config: Arc::clone(&self.config),
            workflow: self.workflow,
            audience: self.audience.clone(),
            file_tracker: Arc::clone(&self.file_tracker),
            rest: Arc::clone(&self.rest),
        }
    }
}

/// `child` has what `parent` has, but for the state of the single call.
pub open spec fn same_settings<H: Host>(parent: ToolContext<H>, child: ToolContext<H>) -> bool {
    &&& child.cancel == parent.cancel
    &&& child.config == parent.config
    &&& child.workflow == parent.workflow
    &&& child.audience == parent.audience
    &&& child.file_tracker == parent.file_tracker
    &&& child.rest == parent.rest
}

/// The state of the single call is as at the start: no deadline, the built-in output lines, no local
/// tools, and a newly made set of shown instructions.
pub open spec fn starts_clean<H: Host>(c: ToolContext<H>) -> bool {
    &&& c.deadline == Deadline::Unset
    &&& c.tool_output_lines.is_default()
    &&& c.local_tools@ == Map::<String, H::Tool>::empty()
    &&& call_ensures(<H::Instructions as Default>::default, (), *c.loaded_instructions)
}

/// A snapshot of the context of a running tool, from which nested calls start. What belongs to the
/// single call is reset, so that they start clean.
pub struct AgentContext<H: Host>(pub ToolContext<H>);

/// `agent` is a snapshot of `ctx`: it has its settings, its id and its sink, and starts clean.
pub open spec fn is_snapshot<H: Host>(ctx: ToolContext<H>, agent: AgentContext<H>) -> bool {
    &&& same_settings(ctx, agent.0)
    &&& starts_clean(agent.0)
    &&& agent.0.tool_use_id == ctx.tool_use_id
    &&& agent.0.live_sink == ctx.live_sink
}

impl<H: Host> AgentContext<H> {
    /// The snapshot of `ctx`.
    pub fn from(ctx: &ToolContext<H>) -> (r: Self)
        ensures
            is_snapshot(*ctx, r),
    {
        let mut c = ctx.clone();
        c.loaded_instructions = Arc::new(<H::Instructions as Default>::default());
        c.deadline = Deadline::Unset;
        c.tool_output_lines = ToolOutputLines::default();
        c.local_tools = Arc::new(HashMap::new());
        AgentContext(c)
    }

    /// The context of a nested call. It has no id, so that a nested tool never shows events under
    /// the outer call's id, and no sink, so that it never sends progress to a sink that was meant
    /// for its parent.
    pub fn to_tool_context(&self) -> (r: ToolContext<H>)
        ensures
            r == nested(self.0),
    {
        let mut c = self.0.clone();
        c.tool_use_id = None;
        c.live_sink = None;
        c
    }
}

/// The context without the call's id and without its sink.
pub open spec fn nested<H: Host>(c: ToolContext<H>) -> ToolContext<H> {
    ToolContext { tool_use_id: None, live_sink: None, ..c }
}

impl<H: Host> std::ops::Deref for AgentContext<H> {
    type Target = ToolContext<H>;

    /// The context that was captured.
    fn deref(&self) -> (r: &ToolContext<H>)
        ensures
            *r == self.0,
    {
        &self.0
    }
}

impl<H: Host> Clone for AgentContext<H> {
    /// The same snapshot, sharing what is shared.
    fn clone(&self) -> (r: Self)
        ensures
            r == *self,
    {
        AgentContext(self.0.clone())
    }
}

/// `inner` is the context of a call nested in one with the context `outer`: the settings are kept,
/// the state of the single call starts clean, and there is neither id nor sink.
pub open spec fn runs_inside<H: Host>(outer: ToolContext<H>, inner: ToolContext<H>) -> bool {
    &&& same_settings(outer, inner)
    &&& starts_clean(inner)
    &&& inner.tool_use_id is None
    &&& inner.live_sink is None
}

/// A nested call keeps the settings of the call around it, starts clean, and is cut off from that
/// call's id and sink.
pub proof fn law_nested_calls_start_clean<H: Host>(outer: ToolContext<H>, agent: AgentContext<H>)
    requires
        is_snapshot(outer, agent),
    ensures
        runs_inside(outer, nested(agent.0)),
{
}

/// However deep calls are nested, the innermost one keeps the settings of the outermost one, starts
/// clean, and has neither id nor sink.
pub proof fn law_deeper_calls_inherit_alike<H: Host>(calls: Seq<ToolContext<H>>)
    requires
        calls.len() >= 2,
        forall|i: int| 0 < i < calls.len() ==> runs_inside(calls[i - 1], #[trigger] calls[i]),
    ensures
        runs_inside(calls.first(), calls.last()),
    decreases calls.len(),
{
    assert(runs_inside(calls[calls.len() - 2], calls[calls.len() - 1]));
    if calls.len() > 2 {
        let shorter = calls.drop_last();
        assert forall|i: int| 0 < i < shorter.len() implies runs_inside(
            shorter[i - 1],
            #[trigger] shorter[i],
        ) by {
            assert(runs_inside(calls[i - 1], calls[i]));
        }
        law_deeper_calls_inherit_alike(shorter);
    }
}

} // verus!
