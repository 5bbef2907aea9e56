use std::collections::{HashMap, HashSet};
use std::path::PathBuf;
use std::sync::{Arc, Mutex};

use maki_core::context::{
    AgentConfig, AgentContext, CancelToken, Deadline, Host, ToolAudience, ToolContext, ToolLive,
    ToolOutputLines,
};
use maki_core::lua_ctx::{CtxKind, LuaCtx, LuaValue, Method};
use maki_core::lua_methods::{due_time, edit_answer, instruction_list, ConfigAnswer};
use maki_core::task::{send_live_buf, AgentEvent, Live, TaskCell};
use serde_json::Value;

const TOOL_USE_ID: &str = "tu-1";
const INSTRUCTION_PATH: &str = "/tmp/nested/AGENTS.md";
const LOCAL_TOOL_NAME: &str = "sess_tool";

#[derive(Default)]
struct LoadedInstructions(Mutex<HashSet<PathBuf>>);

impl LoadedInstructions {
    fn contains_or_insert(&self, path: PathBuf) -> bool {
        !self.0.lock().unwrap().insert(path)
    }
}

struct TestHost;

impl Host for TestHost {
    type Cancel = bool;
    type Instructions = LoadedInstructions;
    type Tool = fn(&Value) -> Result<String, String>;
    type Tracker = u8;
    type Buf = String;
    type Events = u16;
    type Reply = String;
    type Rest = &'static str;
}

fn empty_tool(_: &Value) -> Result<String, String> {
    Ok(String::new())
}

fn populated_ctx() -> ToolContext<TestHost> {
    let loaded = LoadedInstructions::default();
    assert!(!loaded.contains_or_insert(PathBuf::from(INSTRUCTION_PATH)));
    let mut tools: HashMap<String, fn(&Value) -> Result<String, String>> = HashMap::new();
    tools.insert(LOCAL_TOOL_NAME.into(), empty_tool);
    ToolContext {
        tool_use_id: Some(TOOL_USE_ID.to_string()),
        live_sink: Some(flume::unbounded().0),
        deadline: Deadline::At(60_000_000_000),
        tool_output_lines: ToolOutputLines {
            overrides: Arc::new(vec![("bash".to_string(), 999)]),
        },
        loaded_instructions: Arc::new(loaded),
        local_tools: Arc::new(tools),
        cancel: CancelToken::Linked(Arc::new(true)),
        config: Arc::new(AgentConfig {
            entries: vec![
                ("max_turns".to_string(), Value::from(1)),
                ("model".to_string(), Value::from("small")),
                ("max_turns".to_string(), Value::from(7)),
            ],
        }),
        workflow: true,
        audience: ToolAudience { name: None },
        file_tracker: Arc::new(5),
        rest: Arc::new("rest"),
    }
}

fn empty_cell() -> TaskCell<TestHost> {
    TaskCell { root_buf: None, live: None, live_sink: None, deadline_secs: None, deadline: None }
}

fn refused(answer: (LuaValue, Option<String>), message: &str) -> bool {
    answer == (LuaValue::Nil, Some(message.to_string()))
}

#[test]
fn agent_context_keeps_tool_use_id_and_resets_per_call_state() {
    let agent = AgentContext::from(&populated_ctx());
    assert_eq!(agent.tool_use_id.as_deref(), Some(TOOL_USE_ID));
    assert!(matches!(agent.deadline, Deadline::Unset));
    assert_eq!(agent.tool_output_lines, ToolOutputLines::default());
    assert!(agent.local_tools.is_empty());
    assert!(
        !agent.loaded_instructions.contains_or_insert(PathBuf::from(INSTRUCTION_PATH)),
        "loaded_instructions must be a fresh set, not a shared clone"
    );
}

#[test]
fn agent_context_to_tool_context_drops_tool_use_id_and_sink() {
    let agent = AgentContext::from(&populated_ctx());
    assert!(
        agent.live_sink.is_some(),
        "the sink set by the caller must survive into AgentContext"
    );
    let inner = agent.to_tool_context();
    assert_eq!(inner.tool_use_id, None);
    assert!(inner.live_sink.is_none(), "sink must not be inherited");
    assert_eq!(agent.tool_use_id.as_deref(), Some(TOOL_USE_ID));
}

#[test]
fn handler_ctx_has_full_capabilities() {
    let ctx = LuaCtx::handler(&populated_ctx());
    assert_eq!(ctx.kind, CtxKind::Handler);
    assert!(ctx.agent.is_some());
    assert!(ctx.file_tracker.is_some());
    assert!(ctx.config.is_some());
    assert!(ctx.loaded_instructions.is_some());
    assert!(ctx.state.is_none());
}

#[test]
fn start_ctx_has_config_but_no_dispatch() {
    let ctx = LuaCtx::start(&populated_ctx());
    assert_eq!(ctx.kind, CtxKind::Start);
    assert!(ctx.config.is_some());
    assert!(ctx.agent.is_none(), "start ctx must never dispatch tools");
    assert!(ctx.file_tracker.is_none());
    assert!(ctx.loaded_instructions.is_none());
}

#[test]
fn restore_ctx_carries_state_only() {
    let mut object = serde_json::Map::new();
    object.insert("n".to_string(), Value::from(1));
    let state = Value::Object(object);
    let ctx: LuaCtx<TestHost> = LuaCtx::restore(ToolOutputLines::default(), Some(state.clone()));
    assert_eq!(ctx.kind, CtxKind::Restore);
    assert!(ctx.config.is_none());
    assert!(ctx.agent.is_none());
    assert!(ctx.file_tracker.is_none());
    assert!(!ctx.cancel.is_cancelled(true));
    assert_eq!(ctx.state, Some(state));
}

#[test]
fn cap_err_names_the_ctx_kind() {
    let ctx: LuaCtx<TestHost> = LuaCtx::restore(ToolOutputLines::default(), None);
    assert_eq!(ctx.cap_err("finish"), "finish not available in restore ctx");
}

#[test]
fn kinds_have_names() {
    assert_eq!(CtxKind::Handler.name(), "handler");
    assert_eq!(CtxKind::Start.name(), "start");
    assert_eq!(CtxKind::Restore.name(), "restore");
}

#[test]
fn snapshots_keep_the_settings_and_share_their_handles() {
    let mut ctx = populated_ctx();
    let (tx, rx) = flume::unbounded();
    ctx.live_sink = Some(tx);
    let agent = AgentContext::from(&ctx);
    assert!(Arc::ptr_eq(&agent.config, &ctx.config));
    assert!(Arc::ptr_eq(&agent.file_tracker, &ctx.file_tracker));
    assert!(Arc::ptr_eq(&agent.rest, &ctx.rest));
    assert!(agent.workflow);
    assert!(agent.cancel.is_cancelled(true));
    assert!(!agent.cancel.is_cancelled(false));
    agent.live_sink.as_ref().unwrap().send(ToolLive::Buf(Arc::new("here".to_string()))).unwrap();
    match rx.try_recv().unwrap() {
        ToolLive::Buf(buf) => assert_eq!(*buf, "here"),
    }
}

#[test]
fn nested_contexts_stay_clean_at_every_depth() {
    let first = AgentContext::from(&populated_ctx()).to_tool_context();
    let second = AgentContext::from(&first).to_tool_context();
    assert!(second.tool_use_id.is_none());
    assert!(second.live_sink.is_none());
    assert_eq!(second.deadline, Deadline::Unset);
    assert!(Arc::ptr_eq(&second.config, &first.config));
    assert!(!Arc::ptr_eq(&second.loaded_instructions, &first.loaded_instructions));
}

#[test]
fn handlers_have_every_method() {
    let ctx = LuaCtx::handler(&populated_ctx());
    for method in [
        Method::Cancelled,
        Method::Workflow,
        Method::Audience,
        Method::LiveBuf,
        Method::Config,
        Method::ToolOutputLines,
        Method::State,
        Method::SetDeadline,
        Method::RecordRead,
        Method::CheckBeforeEdit,
        Method::FindInstructions,
        Method::IsInstructionFile,
        Method::Finish,
    ] {
        assert!(ctx.refusal(method).is_none());
    }
}

#[test]
fn start_calls_refuse_what_changes_the_task() {
    let ctx = LuaCtx::start(&populated_ctx());
    assert!(refused(
        ctx.refusal(Method::SetDeadline).unwrap(),
        "set_deadline not available in start ctx"
    ));
    assert!(refused(ctx.refusal(Method::Finish).unwrap(), "finish not available in start ctx"));
    assert!(refused(
        ctx.refusal(Method::RecordRead).unwrap(),
        "record_read not available in start ctx"
    ));
    assert!(refused(
        ctx.refusal(Method::CheckBeforeEdit).unwrap(),
        "check_before_edit not available in start ctx"
    ));
    assert!(refused(
        ctx.refusal(Method::FindInstructions).unwrap(),
        "find_instructions not available in start ctx"
    ));
    assert!(ctx.refusal(Method::Workflow).is_none());
    assert!(ctx.refusal(Method::LiveBuf).is_none());
    assert!(ctx.refusal(Method::Config).is_none());
}

#[test]
fn restore_calls_refuse_all_but_reading() {
    let ctx: LuaCtx<TestHost> = LuaCtx::restore(ToolOutputLines::default(), None);
    assert!(refused(ctx.workflow(), "workflow not available in restore ctx"));
    assert!(refused(ctx.audience(), "audience not available in restore ctx"));
    assert!(refused(
        ctx.refusal(Method::LiveBuf).unwrap(),
        "live_buf not available in restore ctx"
    ));
    match ctx.config(None) {
        ConfigAnswer::Refused(answer) => {
            assert!(refused(answer, "config not available in restore ctx"))
        }
        _ => panic!("a restore call has no settings"),
    }
    assert!(ctx.refusal(Method::Cancelled).is_none());
    assert!(ctx.refusal(Method::ToolOutputLines).is_none());
    assert!(ctx.refusal(Method::State).is_none());
    assert!(ctx.refusal(Method::IsInstructionFile).is_none());
    assert!(ctx.state().is_none());
    assert!(!ctx.cancelled(true));
    assert_eq!(*ctx.tool_output_lines(), ToolOutputLines::default());
}

#[test]
fn refusals_differ_between_kinds() {
    let start = LuaCtx::start(&populated_ctx());
    let restore: LuaCtx<TestHost> = LuaCtx::restore(ToolOutputLines::default(), None);
    assert_ne!(start.cap_err("finish"), restore.cap_err("finish"));
    assert_ne!(start.cap_err("finish"), start.cap_err("workflow"));
}

#[test]
fn audiences_without_a_name_are_main() {
    let mut parent = populated_ctx();
    assert_eq!(
        LuaCtx::handler(&parent).audience(),
        (LuaValue::String("main".to_string()), None)
    );
    parent.audience = ToolAudience { name: Some("planner".to_string()) };
    assert_eq!(
        LuaCtx::start(&parent).audience(),
        (LuaValue::String("planner".to_string()), None)
    );
    assert_eq!(LuaCtx::start(&parent).workflow(), (LuaValue::Boolean(true), None));
    assert!(LuaCtx::start(&parent).cancelled(true));
    assert_eq!(LuaCtx::start(&parent).tool_output_lines().overrides[0].1, 999);
}

#[test]
fn config_answers_by_key() {
    let ctx = LuaCtx::start(&populated_ctx());
    match ctx.config(None) {
        ConfigAnswer::Whole(config) => assert_eq!(config.entries.len(), 3),
        _ => panic!("without a key all settings are returned"),
    }
    match ctx.config(Some(&"model".to_string())) {
        ConfigAnswer::Setting(value) => assert_eq!(*value, Value::from("small")),
        _ => panic!("the setting exists"),
    }
    match ctx.config(Some(&"max_turns".to_string())) {
        ConfigAnswer::Setting(value) => assert_eq!(*value, Value::from(7)),
        _ => panic!("the setting exists"),
    }
    assert!(matches!(ctx.config(Some(&"missing".to_string())), ConfigAnswer::Fallback));
}

#[test]
fn live_buffers_are_shown_and_announced() {
    let (tx, rx) = flume::unbounded();
    let mut cell = empty_cell();
    cell.live = Some(Live { tool_use_id: "tu-9".to_string(), event_tx: Arc::new(3) });
    cell.live_sink = Some(tx);
    let buf = Arc::new("progress".to_string());
    let ctx = LuaCtx::start(&populated_ctx());
    let (answer, sends) = ctx.live_buf(&mut cell, Arc::clone(&buf));
    assert_eq!(answer, (LuaValue::Nil, None));
    assert!(Arc::ptr_eq(cell.root_buf.as_ref().unwrap(), &buf));
    let (events, AgentEvent::LiveToolBuf { id, body }) = sends.event.unwrap();
    assert_eq!(*events, 3);
    assert_eq!(id, "tu-9");
    assert!(Arc::ptr_eq(&body, &buf));
    let (sink, message) = sends.sink.unwrap();
    sink.send(message).unwrap();
    match rx.try_recv().unwrap() {
        ToolLive::Buf(received) => assert!(Arc::ptr_eq(&received, &buf)),
    }
}

#[test]
fn live_buffers_go_nowhere_without_listeners() {
    let mut cell = empty_cell();
    let sends = send_live_buf(&mut cell, Arc::new("progress".to_string()));
    assert!(sends.event.is_none());
    assert!(sends.sink.is_none());
    assert_eq!(cell.root_buf.as_deref().map(String::as_str), Some("progress"));
}

#[test]
fn restore_calls_leave_the_task_alone() {
    let ctx: LuaCtx<TestHost> = LuaCtx::restore(ToolOutputLines::default(), None);
    let mut cell = empty_cell();
    let (answer, sends) = ctx.live_buf(&mut cell, Arc::new("progress".to_string()));
    assert!(refused(answer, "live_buf not available in restore ctx"));
    assert!(sends.event.is_none() && sends.sink.is_none());
    assert!(cell.root_buf.is_none());
}

#[test]
fn deadlines_are_set_once() {
    let ctx = LuaCtx::handler(&populated_ctx());
    let mut cell = empty_cell();
    assert_eq!(ctx.set_deadline(&mut cell, 60, 5, true), Ok((LuaValue::Nil, None)));
    assert_eq!(cell.deadline_secs, Some(60));
    assert_eq!(cell.deadline, Some(60_000_000_005));
    assert_eq!(
        ctx.set_deadline(&mut cell, 1, 9, true),
        Err("ctx:set_deadline() already called")
    );
    assert_eq!(cell.deadline_secs, Some(60));
    assert_eq!(cell.deadline, Some(60_000_000_005));
}

#[test]
fn start_calls_set_no_deadline() {
    let ctx = LuaCtx::start(&populated_ctx());
    let mut cell = empty_cell();
    cell.deadline_secs = Some(4);
    let answer = ctx.set_deadline(&mut cell, 60, 5, true).unwrap();
    assert!(refused(answer, "set_deadline not available in start ctx"));
    assert_eq!(cell.deadline_secs, Some(4));
    assert_eq!(cell.deadline, None);
}

#[test]
fn the_longest_deadline_fits() {
    let ctx = LuaCtx::handler(&populated_ctx());
    let mut cell = empty_cell();
    assert!(ctx.set_deadline(&mut cell, u64::MAX, u64::MAX, true).is_ok());
    assert_eq!(cell.deadline, Some(u64::MAX as u128 * 1_000_000_001));
}

#[test]
fn deadlines_beyond_the_clock_are_not_set() {
    let ctx = LuaCtx::handler(&populated_ctx());
    let mut cell = empty_cell();
    let too_far = (
        LuaValue::Nil,
        Some("deadline is beyond the reach of the clock".to_string()),
    );
    assert_eq!(ctx.set_deadline(&mut cell, u64::MAX, 5, false), Ok(too_far));
    assert_eq!(cell.deadline_secs, None);
    assert_eq!(cell.deadline, None);
    assert_eq!(ctx.set_deadline(&mut cell, 2, 7, true), Ok((LuaValue::Nil, None)));
    assert_eq!(cell.deadline_secs, Some(2));
    assert_eq!(cell.deadline, Some(2_000_000_007));
    assert_eq!(
        ctx.set_deadline(&mut cell, u64::MAX, 9, false),
        Err("ctx:set_deadline() already called")
    );
}

#[test]
fn due_times_count_in_nanoseconds() {
    assert_eq!(due_time(3, 4), 3_000_000_004);
    assert_eq!(due_time(0, 9), 9);
}

#[test]
fn calls_are_finished_once() {
    let (tx, rx) = flume::unbounded();
    let mut ctx = LuaCtx::handler(&populated_ctx());
    ctx.finish_tx = Some(tx);
    let mut cell = empty_cell();
    let buf = Arc::new("result".to_string());
    let finish = match ctx.finish(&mut cell, Some(Arc::clone(&buf))) {
        Ok(finish) => finish,
        Err(message) => panic!("{}", message),
    };
    assert_eq!(finish.answer, (LuaValue::Nil, None));
    finish.tx.unwrap().send("answer".to_string()).unwrap();
    assert_eq!(rx.try_recv().unwrap(), "answer");
    assert!(Arc::ptr_eq(cell.root_buf.as_ref().unwrap(), &buf));
    match ctx.finish(&mut cell, None) {
        Ok(_) => panic!("a call is finished once"),
        Err(message) => assert_eq!(message, "ctx:finish() already called"),
    }
    assert!(Arc::ptr_eq(cell.root_buf.as_ref().unwrap(), &buf));
}

#[test]
fn finishing_without_a_buffer_keeps_the_shown_one() {
    let mut ctx = LuaCtx::handler(&populated_ctx());
    ctx.finish_tx = Some(flume::unbounded().0);
    let mut cell = empty_cell();
    cell.root_buf = Some(Arc::new("shown".to_string()));
    assert!(ctx.finish(&mut cell, None).is_ok());
    assert_eq!(cell.root_buf.as_deref().map(String::as_str), Some("shown"));
}

#[test]
fn start_calls_cannot_finish() {
    let mut ctx = LuaCtx::start(&populated_ctx());
    let mut cell = empty_cell();
    match ctx.finish(&mut cell, Some(Arc::new("result".to_string()))) {
        Ok(finish) => {
            assert!(refused(finish.answer, "finish not available in start ctx"));
            assert!(finish.tx.is_none());
        }
        Err(message) => panic!("{}", message),
    }
    assert!(cell.root_buf.is_none());
}

#[test]
fn trackers_are_handed_out_to_handlers() {
    let parent = populated_ctx();
    let handler = LuaCtx::handler(&parent);
    assert!(Arc::ptr_eq(&handler.record_read().unwrap(), &parent.file_tracker));
    assert!(Arc::ptr_eq(&handler.check_before_edit().unwrap(), &parent.file_tracker));
    match handler.find_instructions() {
        Ok(loaded) => assert!(Arc::ptr_eq(&loaded, &parent.loaded_instructions)),
        Err(_) => panic!("a handler looks for instructions"),
    }
    let start = LuaCtx::start(&parent);
    match start.record_read() {
        Ok(_) => panic!("a start call records nothing"),
        Err(answer) => assert!(refused(answer, "record_read not available in start ctx")),
    }
    match start.check_before_edit() {
        Ok(_) => panic!("a start call checks nothing"),
        Err(answer) => assert!(refused(answer, "check_before_edit not available in start ctx")),
    }
    match start.find_instructions() {
        Ok(_) => panic!("a start call finds nothing"),
        Err(answer) => assert!(refused(answer, "find_instructions not available in start ctx")),
    }
}

#[test]
fn edit_checks_answer_with_the_reason() {
    assert_eq!(edit_answer(Ok(())), (LuaValue::Boolean(true), None));
    assert_eq!(
        edit_answer(Err("read it first".to_string())),
        (LuaValue::Boolean(false), Some("read it first".to_string()))
    );
}

#[test]
fn instructions_are_counted_from_one() {
    let list = instruction_list(vec![
        ("/a/AGENTS.md".to_string(), "first".to_string()),
        ("/b/AGENTS.md".to_string(), "second".to_string()),
    ]);
    assert_eq!(list.len(), 2);
    assert_eq!((list[0].place, list[0].path.as_str(), list[0].content.as_str()), (1, "/a/AGENTS.md", "first"));
    assert_eq!((list[1].place, list[1].path.as_str(), list[1].content.as_str()), (2, "/b/AGENTS.md", "second"));
    assert!(instruction_list(Vec::new()).is_empty());
}
