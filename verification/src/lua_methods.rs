//! The methods of `ctx`, as far as they decide something.
use crate::context::{setting, AgentConfig, Host, ToolOutputLines};
use crate::lua_ctx::{
    answer_view, cap_err_text, done, done_view, refusal_view, Answer, AnswerView, CtxKind, LuaCtx,
    LuaValue, LuaView, Method, DEADLINE_ALREADY_SET_MSG, DEADLINE_TOO_FAR_MSG,
    FINISH_ALREADY_CALLED_MSG, MAIN_AUDIENCE, NANOS_PER_SEC,
};
use crate::task::{live_sends, no_sends, send_live_buf, LiveSends, TaskCell};
use std::sync::Arc;
use vstd::prelude::*;

verus! {

/// The answer to a question for the settings.
pub enum ConfigAnswer<'a> {
    /// This call has no settings.
    Refused(Answer),
    /// All settings.
    Whole(&'a AgentConfig),
    /// The one that was asked for.
    Setting(&'a serde_json::Value),
    /// There is none of that name: the caller's own default counts.
    Fallback,
}

/// What finishing a call comes to.
pub struct Finish<H: Host> {
    pub answer: Answer,
    /// Where the call's answer is to be sent, if it is to be sent.
    pub tx: Option<flume::Sender<H::Reply>>,
}

/// An instruction file that was found, with its place in the list that Lua code gets.
pub struct Instruction {
    pub place: usize,
    pub path: String,
    pub content: String,
}

impl<H: Host> LuaCtx<H> {
    /// This call has `method`.
    pub open spec fn has(self, method: Method) -> bool {
        match method {
            Method::Cancelled | Method::ToolOutputLines | Method::State
            | Method::IsInstructionFile => true,
            Method::Workflow | Method::Audience | Method::LiveBuf => self.kind != CtxKind::Restore,
            Method::Config => self.config is Some,
            Method::SetDeadline | Method::Finish => self.kind == CtxKind::Handler,
            Method::RecordRead | Method::CheckBeforeEdit => self.file_tracker is Some,
            Method::FindInstructions => self.loaded_instructions is Some,
        }
    }

    /// The answer of `method` where this call does not have it.
    pub open spec fn refused(self, method: Method) -> AnswerView {
        refusal_view(self.kind, method.text())
    }

    /// The answer of `method` where this call does not have it; `None` where it does.
    pub fn refusal(&self, method: Method) -> (r: Option<Answer>)
        ensures
            r is None <==> self.has(method),
            r matches Some(answer) ==> answer_view(answer) == self.refused(method),
    {
        let has = match method {
            Method::Cancelled | Method::ToolOutputLines | Method::State
            | Method::IsInstructionFile => true,
            Method::Workflow | Method::Audience | Method::LiveBuf => self.kind != CtxKind::Restore,
            Method::Config => self.config.is_some(),
            Method::SetDeadline | Method::Finish => self.kind == CtxKind::Handler,
            Method::RecordRead | Method::CheckBeforeEdit => self.file_tracker.is_some(),
            Method::FindInstructions => self.loaded_instructions.is_some(),
        };
        if has {
            None
        } else {
            Some(self.cap_err_pair(method.name()))
        }
    }

    /// `ctx:cancelled()`, where `fired` says whether the token's source has fired.
    pub fn cancelled(&self, fired: bool) -> (r: bool)
        ensures
            r == (self.cancel is Linked && fired),
    {
        self.cancel.is_cancelled(fired)
    }

    /// `ctx:workflow()`: whether the call belongs to a workflow.
    pub fn workflow(&self) -> (r: Answer)
        ensures
            answer_view(r) == if self.has(Method::Workflow) {
                (LuaView::Boolean(self.workflow), None)
            } else {
                self.refused(Method::Workflow)
            },
    {
        match self.refusal(Method::Workflow) {
            Some(answer) => answer,
            None => (LuaValue::Boolean(self.workflow), None),
        }
    }

    /// `ctx:audience()`: the name of the audience.
    pub fn audience(&self) -> (r: Answer)
        ensures
            answer_view(r) == if !self.has(Method::Audience) {
                self.refused(Method::Audience)
            } else {
                match self.audience.name {
                    Some(name) => (LuaView::String(name@), None),
                    None => (LuaView::String(MAIN_AUDIENCE@), None),
                }
            },
    {
        match self.refusal(Method::Audience) {
            Some(answer) => answer,
            None => {
                let name = match &self.audience.name {
                    Some(name) => name.clone(),
                    None => MAIN_AUDIENCE.to_owned(),
                };
                (LuaValue::String(name), None)
            },
        }
    }

    /// `ctx:live_buf(buf)`: shows the task's progress in `buf`; returns also the messages to send.
    pub fn live_buf(&self, cell: &mut TaskCell<H>, buf: Arc<H::Buf>) -> (r: (Answer, LiveSends<H>))
        ensures
            self.has(Method::LiveBuf) ==> {
                &&& answer_view(r.0) == done_view()
                &&& r.1 == live_sends(*old(cell), buf)
                &&& *final(cell) == (TaskCell { root_buf: Some(buf), ..*old(cell) })
            },
            !self.has(Method::LiveBuf) ==> {
                &&& answer_view(r.0) == self.refused(Method::LiveBuf)
                &&& r.1 == no_sends::<H>()
                &&& *final(cell) == *old(cell)
            },
    {
        match self.refusal(Method::LiveBuf) {
            Some(answer) => (answer, LiveSends { event: None, sink: None }),
            None => {
                let sends = send_live_buf(cell, buf);
                (done(), sends)
            },
        }
    }

    /// `ctx:config()` without a key, `ctx:config(key, default)` with one.
    pub fn config(&self, key: Option<&String>) -> (r: ConfigAnswer<'_>)
        ensures
            match (self.config, key) {
                (None, _) => r matches ConfigAnswer::Refused(answer) && answer_view(answer)
                    == self.refused(Method::Config),
                (Some(config), None) => r == ConfigAnswer::Whole(&config),
                (Some(config), Some(key)) => match setting(config.entries@, key@) {
                    Some(value) => r == ConfigAnswer::Setting(&value),
                    None => r == ConfigAnswer::Fallback,
                },
            },
    {
        match &self.config {
            None => ConfigAnswer::Refused(self.cap_err_pair(Method::Config.name())),
            Some(config) => match key {
                None => ConfigAnswer::Whole(config),
                Some(key) => match config.get(key) {
                    Some(value) => ConfigAnswer::Setting(value),
                    None => ConfigAnswer::Fallback,
                },
            },
        }
    }

    /// `ctx:tool_output_lines()`.
    pub fn tool_output_lines(&self) -> (r: &ToolOutputLines)
        ensures
            *r == self.tool_output_lines,
    {
        &self.tool_output_lines
    }

    /// `ctx:state()`: what was stored with the call, nil where nothing was.
    pub fn state(&self) -> (r: Option<&serde_json::Value>)
        ensures
            match r {
                Some(value) => self.state == Some(*value),
                None => self.state is None,
            },
    {
        match &self.state {
            Some(value) => Some(value),
            None => None,
        }
    }

    /// The deadline that a task sets for itself at the time `now`.
    pub open spec fn with_deadline(cell: TaskCell<H>, secs: u64, now: u64) -> TaskCell<H> {
        TaskCell {
            deadline_secs: Some(secs),
            deadline: Some(due(secs, now) as u128),
            ..cell
        }
    }

    /// What setting a deadline comes to: an answer, or the error that is raised, and the task
    /// afterwards.
    pub open spec fn deadline_step(
        self,
        cell: TaskCell<H>,
        secs: u64,
        now: u64,
        in_reach: bool,
    ) -> (Result<AnswerView, Seq<char>>, TaskCell<H>) {
        if !self.has(Method::SetDeadline) {
            (Ok(self.refused(Method::SetDeadline)), cell)
        } else if cell.deadline_secs is Some {
            (Err(DEADLINE_ALREADY_SET_MSG@), cell)
        } else if !in_reach {
            (Ok((LuaView::Nil, Some(DEADLINE_TOO_FAR_MSG@))), cell)
        } else {
            (Ok(done_view()), Self::with_deadline(cell, secs, now))
        }
    }

    /// `ctx:set_deadline(secs)` at the time `now`, in nanoseconds of the embedding program's clock;
    /// `in_reach` says whether that clock reaches as far as the time that `due_time` gives. The error
    /// is to be raised.
    pub fn set_deadline(
        &self,
        cell: &mut TaskCell<H>,
        secs: u64,
        now: u64,
        in_reach: bool,
    ) -> (r: Result<Answer, &'static str>)
        ensures
            (outcome_view(r), *final(cell)) == self.deadline_step(*old(cell), secs, now, in_reach),
    {
        if let Some(answer) = self.refusal(Method::SetDeadline) {
            return Ok(answer);
        }
        if cell.deadline_secs.is_some() {
            return Err(DEADLINE_ALREADY_SET_MSG);
        }
        if !in_reach {
            return Ok((LuaValue::Nil, Some(DEADLINE_TOO_FAR_MSG.to_owned())));
        }
        cell.deadline_secs = Some(secs);
        cell.deadline = Some(due_time(secs, now));
        Ok(done())
    }

    /// `ctx:record_read(path)`: where the read is to be recorded.
    pub fn record_read(&self) -> (r: Result<Arc<H::Tracker>, Answer>)
        ensures
            match r {
                Ok(tracker) => self.file_tracker == Some(tracker),
                Err(answer) => self.file_tracker is None && answer_view(answer) == self.refused(
                    Method::RecordRead,
                ),
            },
    {
        match &self.file_tracker {
            Some(tracker) => Ok(Arc::clone(tracker)),
            None => Err(self.cap_err_pair(Method::RecordRead.name())),
        }
    }

    /// `ctx:check_before_edit(path)`: where the check is to be made.
    pub fn check_before_edit(&self) -> (r: Result<Arc<H::Tracker>, Answer>)
        ensures
            match r {
                Ok(tracker) => self.file_tracker == Some(tracker),
                Err(answer) => self.file_tracker is None && answer_view(answer) == self.refused(
                    Method::CheckBeforeEdit,
                ),
            },
    {
        match &self.file_tracker {
            Some(tracker) => Ok(Arc::clone(tracker)),
            None => Err(self.cap_err_pair(Method::CheckBeforeEdit.name())),
        }
    }

    /// `ctx:find_instructions(dir)`: which instruction files are not to be shown again.
    pub fn find_instructions(&self) -> (r: Result<Arc<H::Instructions>, Answer>)
        ensures
            match r {
                Ok(loaded) => self.loaded_instructions == Some(loaded),
                Err(answer) => self.loaded_instructions is None && answer_view(answer)
                    == self.refused(Method::FindInstructions),
            },
    {
        match &self.loaded_instructions {
            Some(loaded) => Ok(Arc::clone(loaded)),
            None => Err(self.cap_err_pair(Method::FindInstructions.name())),
        }
    }

    /// The call with its answer gone.
    pub open spec fn finished(self) -> Self {
        LuaCtx { finish_tx: None, ..self }
    }

    /// The call can still be finished.
    pub open spec fn can_finish(self) -> bool {
        self.has(Method::Finish) && self.finish_tx is Some
    }

    /// `ctx:finish(value)`, where `buf` is the buffer that the value brings, if it brings one: the
    /// buffer then shows the task, and the call's answer is to be sent. The error is to be raised.
    pub fn finish(&mut self, cell: &mut TaskCell<H>, buf: Option<Arc<H::Buf>>) -> (r: Result<
        Finish<H>,
        &'static str,
    >)
        ensures
            match r {
                Err(message) => {
                    &&& message@ == FINISH_ALREADY_CALLED_MSG@
                    &&& old(self).has(Method::Finish) && old(self).finish_tx is None
                    &&& *final(self) == *old(self)
                    &&& *final(cell) == *old(cell)
                },
                Ok(finish) => if old(self).has(Method::Finish) {
                    &&& old(self).finish_tx is Some
                    &&& finish.tx == old(self).finish_tx
                    &&& answer_view(finish.answer) == done_view()
                    &&& *final(self) == old(self).finished()
                    &&& *final(cell) == match buf {
                        Some(buf) => TaskCell { root_buf: Some(buf), ..*old(cell) },
                        None => *old(cell),
                    }
                } else {
                    &&& finish.tx is None
                    &&& answer_view(finish.answer) == old(self).refused(Method::Finish)
                    &&& *final(self) == *old(self)
                    &&& *final(cell) == *old(cell)
                },
            },
            (r matches Ok(finish) && finish.tx is Some) <==> old(self).can_finish(),
            old(self).wf() ==> final(self).wf(),
    {
        if let Some(answer) = self.refusal(Method::Finish) {
            return Ok(Finish { answer, tx: None });
        }
        let tx = match self.finish_tx.take() {
            Some(tx) => tx,
            None => {
                return Err(FINISH_ALREADY_CALLED_MSG);
            },
        };
        if let Some(buf) = buf {
            cell.root_buf = Some(buf);
        }
        Ok(Finish { answer: done(), tx: Some(tx) })
    }
}

/// The time `secs` seconds after `now`, in nanoseconds.
pub open spec fn due(secs: u64, now: u64) -> int {
    now + secs * NANOS_PER_SEC
}

/// The time `secs` seconds after `now`, in nanoseconds.
pub fn due_time(secs: u64, now: u64) -> (r: u128)
    ensures
        r == due(secs, now),
{
    now as u128 + secs as u128 * NANOS_PER_SEC
}

/// What a method comes to, with its text as characters.
pub open spec fn outcome_view(r: Result<Answer, &'static str>) -> Result<AnswerView, Seq<char>> {
    match r {
        Ok(answer) => Ok(answer_view(answer)),
        Err(message) => Err(message@),
    }
}

/// The answer to `ctx:check_before_edit(path)` for what the check came to.
pub fn edit_answer(verdict: Result<(), String>) -> (r: Answer)
    ensures
        answer_view(r) == match verdict {
            Ok(()) => (LuaView::Boolean(true), None),
            Err(reason) => (LuaView::Boolean(false), Some(reason@)),
        },
{
    match verdict {
        Ok(()) => (LuaValue::Boolean(true), None),
        Err(reason) => (LuaValue::Boolean(false), Some(reason)),
    }
}

/// The list for `ctx:find_instructions(dir)`: what was found, in that order, counted from one.
pub fn instruction_list(found: Vec<(String, String)>) -> (list: Vec<Instruction>)
    ensures
        list.len() == found.len(),
        forall|i: int|
            0 <= i < found.len() ==> {
                &&& (#[trigger] list@[i]).place == i + 1
                &&& list@[i].path == found@[i].0
                &&& list@[i].content == found@[i].1
            },
{
    let ghost all = found@;
    let count: usize = found.len();
    let mut list: Vec<Instruction> = Vec::with_capacity(count);
    for entry in it: found.into_iter()
        invariant
            it.seq() == all,
            all.len() == count,
            list.len() == it.index(),
            forall|i: int|
                0 <= i < list.len() ==> {
                    &&& (#[trigger] list@[i]).place == i + 1
                    &&& list@[i].path == all[i].0
                    &&& list@[i].content == all[i].1
                },
    {
        assert(entry == all[it.index() as int]);
        let place: usize = list.len() + 1;
        list.push(Instruction { place, path: entry.0, content: entry.1 });
    }
    list
}

/// A handler has every method.
pub proof fn law_handlers_have_every_method<H: Host>(ctx: LuaCtx<H>, method: Method)
    requires
        ctx.wf(),
        ctx.kind == CtxKind::Handler,
    ensures
        ctx.has(method),
{
}

/// A start call has every method but those that change the task, touch files or look for
/// instructions.
pub proof fn law_methods_of_start_calls<H: Host>(ctx: LuaCtx<H>, method: Method)
    requires
        ctx.wf(),
        ctx.kind == CtxKind::Start,
    ensures
        !ctx.has(method) <==> {
            ||| method == Method::SetDeadline
            ||| method == Method::Finish
            ||| method == Method::RecordRead
            ||| method == Method::CheckBeforeEdit
            ||| method == Method::FindInstructions
        },
{
}

/// A restore call has only the methods that read what it was given.
pub proof fn law_methods_of_restore_calls<H: Host>(ctx: LuaCtx<H>, method: Method)
    requires
        ctx.wf(),
        ctx.kind == CtxKind::Restore,
    ensures
        ctx.has(method) <==> {
            ||| method == Method::Cancelled
            ||| method == Method::ToolOutputLines
            ||| method == Method::State
            ||| method == Method::IsInstructionFile
        },
{
}

/// Only a handler can make nested calls, finish, or have a finished call's answer to send.
pub proof fn law_only_handlers_dispatch<H: Host>(ctx: LuaCtx<H>)
    requires
        ctx.wf(),
    ensures
        ctx.agent is Some <==> ctx.kind == CtxKind::Handler,
        ctx.finish_tx is Some ==> ctx.kind == CtxKind::Handler,
        ctx.can_finish() <==> ctx.finish_tx is Some,
{
}

/// A refusal tells which method was called and which kind of call lacks it: no two refusals of one
/// method read alike across kinds, and no two refusals of one kind across methods.
pub proof fn law_refusals_name_the_kind(
    kind: CtxKind,
    other: CtxKind,
    method: Seq<char>,
    another: Seq<char>,
)
    ensures
        cap_err_text(kind, method) == cap_err_text(other, method) <==> kind == other,
        cap_err_text(kind, method) == cap_err_text(kind, another) <==> method == another,
{
    reveal_strlit("handler");
    reveal_strlit("start");
    reveal_strlit("restore");
    let tail = " not available in "@ + kind.text() + " ctx"@;
    let a = cap_err_text(kind, method);
    let b = cap_err_text(other, method);
    let c = cap_err_text(kind, another);
    let at = (method + " not available in "@).len() as int;
    if a == b {
        assert(a.len() == at + kind.text().len() + " ctx"@.len());
        assert(b.len() == at + other.text().len() + " ctx"@.len());
        assert(a[at] == kind.text()[0]);
        assert(b[at] == other.text()[0]);
    }
    if a == c {
        assert(a.len() == method.len() + tail.len());
        assert(c.len() == another.len() + tail.len());
        assert(a.take(method.len() as int) =~= method);
        assert(c.take(another.len() as int) =~= another);
    }
}

/// A call is finished at most once: afterwards it cannot be finished any more, and is otherwise as it
/// was.
pub proof fn law_finish_happens_once<H: Host>(ctx: LuaCtx<H>)
    requires
        ctx.can_finish(),
    ensures
        !ctx.finished().can_finish(),
        ctx.finished().has(Method::Finish),
        ctx.finished().finished() == ctx.finished(),
        ctx.wf() ==> ctx.finished().wf(),
        forall|method: Method| ctx.finished().has(method) == ctx.has(method),
{
}

/// A deadline is set at most once: a task that has one keeps it, whoever set it, and every further
/// attempt of a handler raises an error, within the clock's reach or not.
pub proof fn law_deadline_is_set_once<H: Host>(
    ctx: LuaCtx<H>,
    cell: TaskCell<H>,
    secs: u64,
    now: u64,
    more: u64,
    later: u64,
    in_reach: bool,
)
    requires
        ctx.has(Method::SetDeadline),
    ensures
        ({
            let (_, after) = ctx.deadline_step(cell, secs, now, true);
            let (outcome, again) = ctx.deadline_step(after, more, later, in_reach);
            &&& after.deadline_secs is Some
            &&& outcome == Err::<AnswerView, Seq<char>>(DEADLINE_ALREADY_SET_MSG@)
            &&& again == after
        }),
{
}

/// A deadline beyond the clock's reach is answered with nil and a message and leaves the task as it
/// is, so that another one can still be set.
pub proof fn law_a_deadline_too_far_changes_nothing<H: Host>(
    ctx: LuaCtx<H>,
    cell: TaskCell<H>,
    secs: u64,
    now: u64,
    more: u64,
    later: u64,
)
    requires
        ctx.has(Method::SetDeadline),
        cell.deadline_secs is None,
    ensures
        ({
            let (outcome, after) = ctx.deadline_step(cell, secs, now, false);
            &&& outcome == Ok::<AnswerView, Seq<char>>((LuaView::Nil, Some(DEADLINE_TOO_FAR_MSG@)))
            &&& after == cell
            &&& ctx.deadline_step(after, more, later, true).1 == LuaCtx::<H>::with_deadline(
                cell,
                more,
                later,
            )
        }),
{
}

/// Only a handler can change the task's deadline.
pub proof fn law_only_handlers_set_deadlines<H: Host>(
    ctx: LuaCtx<H>,
    cell: TaskCell<H>,
    secs: u64,
    now: u64,
    in_reach: bool,
)
    ensures
        ctx.kind != CtxKind::Handler ==> ctx.deadline_step(cell, secs, now, in_reach).1 == cell,
        ctx.kind != CtxKind::Handler ==> ctx.deadline_step(cell, secs, now, in_reach).0 == Ok::<
            AnswerView,
            Seq<char>,
        >(ctx.refused(Method::SetDeadline)),
{
}

} // verus!
