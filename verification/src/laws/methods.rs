//! What each kind of call is given, and what each method of `ctx` comes to.
use crate::context::{AgentConfig, CancelToken, Host, ToolContext, ToolLive, ToolOutputLines};
use crate::lua_ctx::{done, Answer, CtxKind, LuaCtx, LuaValue, Method};
use crate::lua_methods::{due_time, edit_answer, instruction_list, ConfigAnswer, Finish, Instruction};
use crate::task::{send_live_buf, AgentEvent, LiveSends, TaskCell};
use std::sync::Arc;
use vstd::prelude::*;

verus! {

/// The three kinds are called by their names.
pub proof fn law_kinds_have_names(kind: CtxKind, name: &'static str)
    requires
        call_ensures(CtxKind::name, (kind,), name),
    ensures
        kind is Handler ==> name@ == "handler"@,
        kind is Start ==> name@ == "start"@,
        kind is Restore ==> name@ == "restore"@,
        name@ == kind.text(),
{
}

/// Lua code calls the methods by these names.
pub proof fn law_methods_have_names(method: Method, name: &'static str)
    requires
        call_ensures(Method::name, (method,), name),
    ensures
        method is Cancelled ==> name@ == "cancelled"@,
        method is Workflow ==> name@ == "workflow"@,
        method is Audience ==> name@ == "audience"@,
        method is LiveBuf ==> name@ == "live_buf"@,
        method is Config ==> name@ == "config"@,
        method is ToolOutputLines ==> name@ == "tool_output_lines"@,
        method is State ==> name@ == "state"@,
        method is SetDeadline ==> name@ == "set_deadline"@,
        method is RecordRead ==> name@ == "record_read"@,
        method is CheckBeforeEdit ==> name@ == "check_before_edit"@,
        method is FindInstructions ==> name@ == "find_instructions"@,
        method is IsInstructionFile ==> name@ == "is_instruction_file"@,
        method is Finish ==> name@ == "finish"@,
        name@ == method.text(),
{
}

/// No two methods go by the same name.
pub proof fn law_no_two_methods_share_a_name(
    one: Method,
    name: &'static str,
    other: Method,
    another: &'static str,
)
    requires
        call_ensures(Method::name, (one,), name),
        call_ensures(Method::name, (other,), another),
    ensures
        name@ == another@ <==> one == other,
{
    reveal_strlit("cancelled");
    reveal_strlit("workflow");
    reveal_strlit("audience");
    reveal_strlit("live_buf");
    reveal_strlit("config");
    reveal_strlit("tool_output_lines");
    reveal_strlit("state");
    reveal_strlit("set_deadline");
    reveal_strlit("record_read");
    reveal_strlit("check_before_edit");
    reveal_strlit("find_instructions");
    reveal_strlit("is_instruction_file");
    reveal_strlit("finish");
    let a = name@;
    let b = another@;
    if a == b {
        assert(a.len() == b.len() && a[0] == b[0] && a[1] == b[1]);
    }
}

/// `text` says that `method` is not there for this kind of call.
pub open spec fn says_unavailable(text: Seq<char>, method: Method, kind: CtxKind) -> bool {
    text == method.text() + " not available in "@ + kind.text() + " ctx"@
}

/// `answer` is nil with the message that `method` is not there for this kind of call.
pub open spec fn refuses(answer: Answer, method: Method, kind: CtxKind) -> bool {
    &&& answer.0 is Nil
    &&& answer.1 matches Some(text) && says_unavailable(text@, method, kind)
}

/// `answer` is nil without a message.
pub open spec fn says_done(answer: Answer) -> bool {
    answer.0 is Nil && answer.1 is None
}

/// A refusal names the method and the kind of the call, whatever the name.
pub proof fn law_refusals_name_method_and_kind<H: Host>(
    ctx: LuaCtx<H>,
    method: &str,
    text: String,
    answer: Answer,
)
    requires
        call_ensures(LuaCtx::<H>::cap_err, (&ctx, method), text),
        call_ensures(LuaCtx::<H>::cap_err_pair, (&ctx, method), answer),
    ensures
        text@ == method@ + " not available in "@ + ctx.kind.text() + " ctx"@,
        answer.0 is Nil,
        answer.1 matches Some(message) && message@ == text@,
{
}

/// Having done its work a method answers nil without a message.
pub proof fn law_done_is_nil(answer: Answer)
    requires
        call_ensures(done, (), answer),
    ensures
        says_done(answer),
{
}

/// A method is refused exactly where the call lacks what it needs: three methods need a call that is
/// not shown again, two need a handler, and the others need what they work on.
pub proof fn law_refusals_come_from_lacking<H: Host>(
    ctx: LuaCtx<H>,
    method: Method,
    refusal: Option<Answer>,
)
    requires
        call_ensures(LuaCtx::<H>::refusal, (&ctx, method), refusal),
    ensures
        method is Cancelled || method is ToolOutputLines || method is State
            || method is IsInstructionFile ==> refusal is None,
        method is Workflow || method is Audience || method is LiveBuf ==> (refusal is Some
            <==> ctx.kind is Restore),
        method is SetDeadline || method is Finish ==> (refusal is None <==> ctx.kind is Handler),
        method is Config ==> (refusal is None <==> ctx.config is Some),
        method is RecordRead || method is CheckBeforeEdit ==> (refusal is None
            <==> ctx.file_tracker is Some),
        method is FindInstructions ==> (refusal is None <==> ctx.loaded_instructions is Some),
        refusal matches Some(answer) ==> refuses(answer, method, ctx.kind),
{
}

/// A handler and a start call of one context agree on all that a start call has. The handler has
/// besides what the files, the instructions and nested calls need; neither has an answer to send, nor
/// anything stored.
pub proof fn law_handlers_and_start_calls_agree<H: Host>(
    ctx: ToolContext<H>,
    handler: LuaCtx<H>,
    start: LuaCtx<H>,
)
    requires
        call_ensures(LuaCtx::<H>::handler, (&ctx,), handler),
        call_ensures(LuaCtx::<H>::start, (&ctx,), start),
    ensures
        handler.kind is Handler && start.kind is Start,
        handler.cancel == ctx.cancel && start.cancel == ctx.cancel,
        handler.tool_output_lines == ctx.tool_output_lines && start.tool_output_lines
            == ctx.tool_output_lines,
        handler.config == Some(ctx.config) && start.config == Some(ctx.config),
        handler.workflow == ctx.workflow && start.workflow == ctx.workflow,
        handler.audience == ctx.audience && start.audience == ctx.audience,
        handler.file_tracker == Some(ctx.file_tracker) && start.file_tracker is None,
        handler.loaded_instructions == Some(ctx.loaded_instructions)
            && start.loaded_instructions is None,
        handler.finish_tx is None && start.finish_tx is None,
        handler.state is None && start.state is None,
        start.agent is None,
        handler.wf() && start.wf(),
{
}

/// The calls that are nested in a handler's run with the settings of its context and without its
/// deadline, output lines, local tools and shown instructions.
pub proof fn law_handlers_nest_clean_calls<H: Host>(ctx: ToolContext<H>, handler: LuaCtx<H>)
    requires
        call_ensures(LuaCtx::<H>::handler, (&ctx,), handler),
    ensures
        handler.agent matches Some(agent) && {
            &&& agent.0.cancel == ctx.cancel
            &&& agent.0.config == ctx.config
            &&& agent.0.workflow == ctx.workflow
            &&& agent.0.audience == ctx.audience
            &&& agent.0.file_tracker == ctx.file_tracker
            &&& agent.0.rest == ctx.rest
            &&& agent.0.tool_use_id == ctx.tool_use_id
            &&& agent.0.live_sink == ctx.live_sink
            &&& agent.0.deadline is Unset
            &&& agent.0.tool_output_lines.overrides@.len() == 0
            &&& forall|name: String| !(#[trigger] agent.0.local_tools@.dom().contains(name))
            &&& call_ensures(<H::Instructions as Default>::default, (), *agent.0.loaded_instructions)
        },
{
}

/// A restore call has what was stored, and nothing of a running agent.
pub proof fn law_restore_calls_have_what_was_stored<H: Host>(
    lines: ToolOutputLines,
    state: Option<serde_json::Value>,
    ctx: LuaCtx<H>,
)
    requires
        call_ensures(LuaCtx::<H>::restore, (lines, state), ctx),
    ensures
        ctx.kind is Restore,
        ctx.tool_output_lines == lines,
        ctx.state == state,
        ctx.cancel is Never,
        ctx.config is None,
        !ctx.workflow,
        ctx.audience.name is None,
        ctx.finish_tx is None,
        ctx.file_tracker is None,
        ctx.loaded_instructions is None,
        ctx.agent is None,
        ctx.wf(),
{
}

/// A call is cancelled exactly once the source that its token is linked to has fired.
pub proof fn law_calls_are_cancelled_by_their_source<H: Host>(
    ctx: LuaCtx<H>,
    fired: bool,
    cancelled: bool,
)
    requires
        call_ensures(LuaCtx::<H>::cancelled, (&ctx, fired), cancelled),
    ensures
        ctx.cancel matches CancelToken::Linked(_) ==> cancelled == fired,
        ctx.cancel is Never ==> !cancelled,
{
}

/// Asked for its workflow, a call answers with its own flag, unless it is a restore call.
pub proof fn law_workflow_tells_the_flag<H: Host>(ctx: LuaCtx<H>, answer: Answer)
    requires
        call_ensures(LuaCtx::<H>::workflow, (&ctx,), answer),
    ensures
        !(ctx.kind is Restore) ==> answer.1 is None && (answer.0 matches LuaValue::Boolean(flag)
            && flag == ctx.workflow),
        ctx.kind is Restore ==> refuses(answer, Method::Workflow, ctx.kind),
{
}

/// Asked for its audience, a call answers with the audience's name, or with `main` where it has none,
/// unless it is a restore call.
pub proof fn law_audience_tells_the_name<H: Host>(ctx: LuaCtx<H>, answer: Answer)
    requires
        call_ensures(LuaCtx::<H>::audience, (&ctx,), answer),
    ensures
        !(ctx.kind is Restore) ==> answer.1 is None && (answer.0 matches LuaValue::String(text)
            && match ctx.audience.name {
            Some(name) => text@ == name@,
            None => text@ == "main"@,
        }),
        ctx.kind is Restore ==> refuses(answer, Method::Audience, ctx.kind),
{
}

/// The event tells of the buffer under the task's id, and is there exactly where the task is shown,
/// whether or not progress is sent elsewhere.
pub proof fn law_events_go_where_the_task_is_shown<H: Host>(
    cell: &mut TaskCell<H>,
    buf: Arc<H::Buf>,
    sends: LiveSends<H>,
)
    requires
        call_ensures(send_live_buf::<H>, (cell, buf), sends),
    ensures
        sends.event is Some <==> old(cell).live is Some,
        old(cell).live matches Some(live) ==> (sends.event matches Some((to, event)) && {
            &&& to == live.event_tx
            &&& event matches AgentEvent::LiveToolBuf { id, body } && id@ == live.tool_use_id@ && body
                == buf
        }),
{
}

/// The sink gets the buffer, and gets it exactly where there is a sink, whether or not the task is
/// shown.
pub proof fn law_sinks_get_the_buffer<H: Host>(
    cell: &mut TaskCell<H>,
    buf: Arc<H::Buf>,
    sends: LiveSends<H>,
)
    requires
        call_ensures(send_live_buf::<H>, (cell, buf), sends),
    ensures
        sends.sink is Some <==> old(cell).live_sink is Some,
        old(cell).live_sink matches Some(sink) ==> (sends.sink matches Some((to, message)) && {
            &&& to == sink
            &&& message matches ToolLive::Buf(body) && body == buf
        }),
{
}

/// The buffer comes to show the task, and nothing else of the task changes.
pub proof fn law_live_buffers_show_the_task<H: Host>(
    cell: &mut TaskCell<H>,
    buf: Arc<H::Buf>,
    sends: LiveSends<H>,
)
    requires
        call_ensures(send_live_buf::<H>, (cell, buf), sends),
    ensures
        final(cell).root_buf == Some(buf),
        final(cell).live == old(cell).live,
        final(cell).live_sink == old(cell).live_sink,
        final(cell).deadline_secs == old(cell).deadline_secs,
        final(cell).deadline == old(cell).deadline,
{
}

/// Called by Lua code, a live buffer does the same for every call but a restore call: it shows the
/// task, and the event and the message depend on the task's own targets alone.
pub proof fn law_live_buf_tells_both_targets<H: Host>(
    ctx: LuaCtx<H>,
    cell: &mut TaskCell<H>,
    buf: Arc<H::Buf>,
    r: (Answer, LiveSends<H>),
)
    requires
        call_ensures(LuaCtx::<H>::live_buf, (&ctx, cell, buf), r),
        !(ctx.kind is Restore),
    ensures
        says_done(r.0),
        final(cell).root_buf == Some(buf),
        final(cell).live == old(cell).live,
        final(cell).live_sink == old(cell).live_sink,
        final(cell).deadline_secs == old(cell).deadline_secs,
        final(cell).deadline == old(cell).deadline,
        r.1.event is Some <==> old(cell).live is Some,
        r.1.sink is Some <==> old(cell).live_sink is Some,
        old(cell).live matches Some(live) ==> (r.1.event matches Some((to, event)) && {
            &&& to == live.event_tx
            &&& event matches AgentEvent::LiveToolBuf { id, body } && id@ == live.tool_use_id@ && body
                == buf
        }),
        old(cell).live_sink matches Some(sink) ==> (r.1.sink matches Some((to, message)) && {
            &&& to == sink
            &&& message matches ToolLive::Buf(body) && body == buf
        }),
{
}

/// A restore call shows no live buffer: it is refused, sends nothing, and leaves the task alone.
pub proof fn law_restore_calls_show_no_live_buffer<H: Host>(
    ctx: LuaCtx<H>,
    cell: &mut TaskCell<H>,
    buf: Arc<H::Buf>,
    r: (Answer, LiveSends<H>),
)
    requires
        call_ensures(LuaCtx::<H>::live_buf, (&ctx, cell, buf), r),
        ctx.kind is Restore,
    ensures
        refuses(r.0, Method::LiveBuf, ctx.kind),
        r.1.event is None && r.1.sink is None,
        *final(cell) == *old(cell),
{
}

/// Asked without a key, a call with settings hands out all of them.
pub proof fn law_config_hands_out_all_settings<H: Host>(
    ctx: LuaCtx<H>,
    config: Arc<AgentConfig>,
    answer: ConfigAnswer<'_>,
)
    requires
        call_ensures(LuaCtx::<H>::config, (&ctx, None::<&String>), answer),
        ctx.config == Some(config),
    ensures
        answer matches ConfigAnswer::Whole(all) && *all == *config,
{
}

/// Asked for a key, a call with settings answers with a setting exactly where one of them has that
/// name, at whatever place, and then with the last of that name; else the caller's default counts.
pub proof fn law_config_finds_every_setting<H: Host>(
    ctx: LuaCtx<H>,
    config: Arc<AgentConfig>,
    key: String,
    answer: ConfigAnswer<'_>,
)
    requires
        call_ensures(LuaCtx::<H>::config, (&ctx, Some(&key)), answer),
        ctx.config == Some(config),
    ensures
        answer is Setting || answer is Fallback,
        answer is Setting <==> exists|i: int|
            0 <= i < config.entries@.len() && (#[trigger] config.entries@[i]).0@ == key@,
        answer matches ConfigAnswer::Setting(value) ==> exists|at: int|
            #![trigger config.entries@[at]]
            {
                &&& 0 <= at < config.entries@.len()
                &&& config.entries@[at].0@ == key@
                &&& config.entries@[at].1 == *value
                &&& forall|i: int|
                    at < i < config.entries@.len() ==> (#[trigger] config.entries@[i]).0@ != key@
            },
{
    let at = crate::laws::contexts::lemma_setting_is_the_last(config.entries@, key@);
    if answer is Setting {
        assert(config.entries@[at].0@ == key@);
    }
}

/// A call without settings refuses to tell any.
pub proof fn law_config_needs_settings<H: Host>(
    ctx: LuaCtx<H>,
    key: Option<&String>,
    answer: ConfigAnswer<'_>,
)
    requires
        call_ensures(LuaCtx::<H>::config, (&ctx, key), answer),
        ctx.config is None,
    ensures
        answer matches ConfigAnswer::Refused(refusal) && refuses(refusal, Method::Config, ctx.kind),
{
}

/// A call hands out its own output lines and what was stored with it.
pub proof fn law_calls_hand_out_what_they_were_given<H: Host>(
    ctx: LuaCtx<H>,
    lines: &ToolOutputLines,
    state: Option<&serde_json::Value>,
)
    requires
        call_ensures(LuaCtx::<H>::tool_output_lines, (&ctx,), lines),
        call_ensures(LuaCtx::<H>::state, (&ctx,), state),
    ensures
        *lines == ctx.tool_output_lines,
        state is None <==> ctx.state is None,
        state matches Some(value) ==> ctx.state == Some(*value),
{
}

/// Due times count from now on: no seconds end now, and each further second ends a thousand million
/// nanoseconds later.
pub proof fn law_due_times_count_from_now(secs: u64, next: u64, now: u64, due: u128, later: u128)
    requires
        call_ensures(due_time, (secs, now), due),
        call_ensures(due_time, (next, now), later),
    ensures
        secs == 0 ==> due == now,
        later - due == (next - secs) * 1_000_000_000,
{
    assert((next - secs) * 1_000_000_000 == next * 1_000_000_000 - secs * 1_000_000_000)
        by (nonlinear_arith);
}

/// The first deadline that a handler sets within the clock's reach is noted in seconds and as the
/// time that is so many seconds from now; nothing else of the task changes.
pub proof fn law_a_first_deadline_is_noted<H: Host>(
    ctx: LuaCtx<H>,
    cell: &mut TaskCell<H>,
    secs: u64,
    now: u64,
    r: Result<Answer, &'static str>,
)
    requires
        call_ensures(LuaCtx::<H>::set_deadline, (&ctx, cell, secs, now, true), r),
        ctx.kind is Handler,
        old(cell).deadline_secs is None,
    ensures
        r matches Ok(answer) && says_done(answer),
        final(cell).deadline_secs == Some(secs),
        final(cell).deadline matches Some(due) && due == now + secs * 1_000_000_000,
        final(cell).root_buf == old(cell).root_buf,
        final(cell).live == old(cell).live,
        final(cell).live_sink == old(cell).live_sink,
{
    assert(0 <= now + secs * 1_000_000_000 <= u128::MAX) by (nonlinear_arith)
        requires
            0 <= now <= u64::MAX,
            0 <= secs <= u64::MAX,
    ;
}

/// Whatever else happens, the task stays as it is: a call that is no handler is refused, a second
/// deadline raises an error, and one beyond the clock's reach is answered with nil and a message.
pub proof fn law_other_deadlines_change_nothing<H: Host>(
    ctx: LuaCtx<H>,
    cell: &mut TaskCell<H>,
    secs: u64,
    now: u64,
    in_reach: bool,
    r: Result<Answer, &'static str>,
)
    requires
        call_ensures(LuaCtx::<H>::set_deadline, (&ctx, cell, secs, now, in_reach), r),
    ensures
        !(ctx.kind is Handler) ==> *final(cell) == *old(cell) && (r matches Ok(answer) && refuses(
            answer,
            Method::SetDeadline,
            ctx.kind,
        )),
        ctx.kind is Handler && old(cell).deadline_secs is Some ==> *final(cell) == *old(cell) && (
        r matches Err(message) && message@ == "ctx:set_deadline() already called"@),
        ctx.kind is Handler && old(cell).deadline_secs is None && !in_reach ==> *final(cell)
            == *old(cell) && (r matches Ok(answer) && answer.0 is Nil && (
        answer.1 matches Some(text) && text@ == "deadline is beyond the reach of the clock"@)),
{
}

/// Two handlers on one task: once the first has set a deadline, the second cannot set another.
pub proof fn law_no_second_deadline<H: Host>(
    ctx: LuaCtx<H>,
    cell: &mut TaskCell<H>,
    secs: u64,
    now: u64,
    first: Result<Answer, &'static str>,
    other: LuaCtx<H>,
    after: &mut TaskCell<H>,
    more: u64,
    later: u64,
    in_reach: bool,
    second: Result<Answer, &'static str>,
)
    requires
        call_ensures(LuaCtx::<H>::set_deadline, (&ctx, cell, secs, now, true), first),
        call_ensures(LuaCtx::<H>::set_deadline, (&other, after, more, later, in_reach), second),
        *old(after) == *final(cell),
        ctx.kind is Handler && other.kind is Handler,
    ensures
        second is Err,
        *final(after) == *final(cell),
{
}

/// Reads are recorded, and edits checked, with the tracker of the call, and only there; without one
/// both methods are refused.
pub proof fn law_files_are_tracked_by_the_calls_tracker<H: Host>(
    ctx: LuaCtx<H>,
    read: Result<Arc<H::Tracker>, Answer>,
    check: Result<Arc<H::Tracker>, Answer>,
)
    requires
        call_ensures(LuaCtx::<H>::record_read, (&ctx,), read),
        call_ensures(LuaCtx::<H>::check_before_edit, (&ctx,), check),
    ensures
        ctx.file_tracker matches Some(tracker) ==> (read matches Ok(used) && used == tracker),
        ctx.file_tracker matches Some(tracker) ==> (check matches Ok(used) && used == tracker),
        ctx.file_tracker is None ==> (read matches Err(answer) && refuses(
            answer,
            Method::RecordRead,
            ctx.kind,
        )),
        ctx.file_tracker is None ==> (check matches Err(answer) && refuses(
            answer,
            Method::CheckBeforeEdit,
            ctx.kind,
        )),
{
}

/// Instructions are looked for with the set of the call; without one the method is refused.
pub proof fn law_instructions_are_found_with_the_calls_set<H: Host>(
    ctx: LuaCtx<H>,
    r: Result<Arc<H::Instructions>, Answer>,
)
    requires
        call_ensures(LuaCtx::<H>::find_instructions, (&ctx,), r),
    ensures
        ctx.loaded_instructions matches Some(loaded) ==> (r matches Ok(used) && used == loaded),
        ctx.loaded_instructions is None ==> (r matches Err(answer) && refuses(
            answer,
            Method::FindInstructions,
            ctx.kind,
        )),
{
}

/// A check that passes is answered with true, one that fails with false and its whole reason.
pub proof fn law_edit_checks_are_answered(verdict: Result<(), String>, answer: Answer)
    requires
        call_ensures(edit_answer, (verdict,), answer),
    ensures
        answer.0 matches LuaValue::Boolean(passed) && passed == (verdict is Ok),
        verdict is Ok ==> answer.1 is None,
        verdict matches Err(reason) ==> (answer.1 matches Some(text) && text@ == reason@),
{
}

/// The instruction files come out all, in the order in which they were found, counted from one.
pub proof fn law_instruction_files_are_counted_from_one(
    found: Vec<(String, String)>,
    list: Vec<Instruction>,
)
    requires
        call_ensures(instruction_list, (found,), list),
    ensures
        list@.len() == found@.len(),
        forall|i: int|
            #![trigger list@[i]]
            #![trigger found@[i]]
            0 <= i < found@.len() ==> {
                &&& list@[i].place == i + 1
                &&& list@[i].path@ == found@[i].0@
                &&& list@[i].content@ == found@[i].1@
            },
{
}

/// A handler with an answer to send hands out where it goes and has it no more; all else of the call
/// stays. The buffer that the answer brings comes to show the task, and without one the task keeps
/// its own.
pub proof fn law_finishing_sends_the_answer<H: Host>(
    ctx: &mut LuaCtx<H>,
    cell: &mut TaskCell<H>,
    buf: Option<Arc<H::Buf>>,
    r: Result<Finish<H>, &'static str>,
)
    requires
        call_ensures(LuaCtx::<H>::finish, (ctx, cell, buf), r),
        old(ctx).kind is Handler,
        old(ctx).finish_tx is Some,
    ensures
        r matches Ok(finish) && says_done(finish.answer) && finish.tx == old(ctx).finish_tx,
        final(ctx).finish_tx is None,
        final(ctx).kind == old(ctx).kind,
        final(ctx).cancel == old(ctx).cancel,
        final(ctx).tool_output_lines == old(ctx).tool_output_lines,
        final(ctx).config == old(ctx).config,
        final(ctx).workflow == old(ctx).workflow,
        final(ctx).audience == old(ctx).audience,
        final(ctx).file_tracker == old(ctx).file_tracker,
        final(ctx).loaded_instructions == old(ctx).loaded_instructions,
        final(ctx).agent == old(ctx).agent,
        final(ctx).state == old(ctx).state,
        buf is Some ==> final(cell).root_buf == buf,
        buf is None ==> final(cell).root_buf == old(cell).root_buf,
        final(cell).live == old(cell).live,
        final(cell).live_sink == old(cell).live_sink,
        final(cell).deadline_secs == old(cell).deadline_secs,
        final(cell).deadline == old(cell).deadline,
{
}

/// Without an answer to send a handler raises an error, and any other call is refused; either way
/// nothing is sent and nothing changes.
pub proof fn law_nothing_is_finished_otherwise<H: Host>(
    ctx: &mut LuaCtx<H>,
    cell: &mut TaskCell<H>,
    buf: Option<Arc<H::Buf>>,
    r: Result<Finish<H>, &'static str>,
)
    requires
        call_ensures(LuaCtx::<H>::finish, (ctx, cell, buf), r),
        !(old(ctx).kind is Handler) || old(ctx).finish_tx is None,
    ensures
        *final(ctx) == *old(ctx),
        *final(cell) == *old(cell),
        old(ctx).kind is Handler ==> (r matches Err(message) && message@
            == "ctx:finish() already called"@),
        !(old(ctx).kind is Handler) ==> (r matches Ok(finish) && finish.tx is None && refuses(
            finish.answer,
            Method::Finish,
            old(ctx).kind,
        )),
{
}

/// A handler is finished at most once: whatever came of the first attempt, the second raises an
/// error and changes nothing.
pub proof fn law_no_second_finish<H: Host>(
    ctx: &mut LuaCtx<H>,
    cell: &mut TaskCell<H>,
    buf: Option<Arc<H::Buf>>,
    first: Result<Finish<H>, &'static str>,
    again: &mut LuaCtx<H>,
    after: &mut TaskCell<H>,
    other: Option<Arc<H::Buf>>,
    second: Result<Finish<H>, &'static str>,
)
    requires
        call_ensures(LuaCtx::<H>::finish, (ctx, cell, buf), first),
        call_ensures(LuaCtx::<H>::finish, (again, after, other), second),
        *old(again) == *final(ctx),
        old(ctx).kind is Handler,
    ensures
        second is Err,
        *final(again) == *final(ctx),
        *final(after) == *old(after),
{
}

} // verus!
