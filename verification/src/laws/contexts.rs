//! What contexts hand on, which setting counts, and where a path leads.
use crate::context::{
    setting, AgentConfig, AgentContext, CancelToken, Host, ToolAudience, ToolContext, ToolOutputLines,
};
use crate::paths::resolve_abs_with_cwd;
use std::ops::Deref;
use vstd::prelude::*;

verus! {

pub(crate) proof fn lemma_setting_is_the_last(
    entries: Seq<(String, serde_json::Value)>,
    key: Seq<char>,
) -> (at: int)
    ensures
        setting(entries, key) is None ==> forall|i: int|
            0 <= i < entries.len() ==> (#[trigger] entries[i]).0@ != key,
        setting(entries, key) matches Some(value) ==> {
            &&& 0 <= at < entries.len()
            &&& entries[at].0@ == key
            &&& entries[at].1 == value
            &&& forall|i: int| at < i < entries.len() ==> (#[trigger] entries[i]).0@ != key
        },
    decreases entries.len(),
{
    if entries.len() == 0 {
        0
    } else if entries.last().0@ == key {
        entries.len() - 1
    } else {
        let front = entries.drop_last();
        let at = lemma_setting_is_the_last(front, key);
        assert forall|i: int| 0 <= i < front.len() implies front[i] == #[trigger] entries[i] by {}
        at
    }
}

/// Every setting is found under its name, at whatever place it stands, and a lookup comes back empty
/// only where no setting has the name.
pub proof fn law_every_setting_is_found(
    config: AgentConfig,
    key: String,
    found: Option<&serde_json::Value>,
)
    requires
        call_ensures(AgentConfig::get, (&config, &key), found),
    ensures
        found is Some <==> exists|i: int|
            0 <= i < config.entries@.len() && (#[trigger] config.entries@[i]).0@ == key@,
{
    let at = lemma_setting_is_the_last(config.entries@, key@);
    if found is Some {
        assert(config.entries@[at].0@ == key@);
    }
}

/// The setting that is found is one of that name, and no later one has the name.
pub proof fn law_the_last_setting_counts(
    config: AgentConfig,
    key: String,
    found: &serde_json::Value,
)
    requires
        call_ensures(AgentConfig::get, (&config, &key), Some(found)),
    ensures
        exists|at: int|
            #![trigger config.entries@[at]]
            {
                &&& 0 <= at < config.entries@.len()
                &&& config.entries@[at].0@ == key@
                &&& config.entries@[at].1 == *found
                &&& forall|i: int|
                    at < i < config.entries@.len() ==> (#[trigger] config.entries@[i]).0@ != key@
            },
{
    let at = lemma_setting_is_the_last(config.entries@, key@);
    assert(config.entries@[at].1 == *found);
}

/// A token that is linked to no source never tells a run to stop; a linked one tells it exactly once
/// its source has fired.
pub proof fn law_tokens_stop_when_their_source_fires<C>(
    token: CancelToken<C>,
    fired: bool,
    stop: bool,
    unlinked: CancelToken<C>,
    never: bool,
)
    requires
        call_ensures(CancelToken::<C>::is_cancelled, (&token, fired), stop),
        call_ensures(CancelToken::<C>::none, (), unlinked),
        call_ensures(CancelToken::<C>::is_cancelled, (&unlinked, fired), never),
    ensures
        token is Linked ==> stop == fired,
        token is Never ==> !stop,
        !never,
{
}

/// The built-in output lines and the main agent are what is there when nothing else was chosen.
pub proof fn law_defaults_choose_nothing(lines: ToolOutputLines, audience: ToolAudience)
    requires
        call_ensures(<ToolOutputLines as Default>::default, (), lines),
        call_ensures(<ToolAudience as Default>::default, (), audience),
    ensures
        lines.overrides@.len() == 0,
        audience.name is None,
{
}

/// Copies are like what they were made from.
pub proof fn law_copies_are_alike<H: Host>(
    token: CancelToken<H::Cancel>,
    token_copy: CancelToken<H::Cancel>,
    lines: ToolOutputLines,
    lines_copy: ToolOutputLines,
    audience: ToolAudience,
    audience_copy: ToolAudience,
    context: ToolContext<H>,
    context_copy: ToolContext<H>,
    agent: AgentContext<H>,
    agent_copy: AgentContext<H>,
)
    requires
        call_ensures(<CancelToken<H::Cancel> as Clone>::clone, (&token,), token_copy),
        call_ensures(<ToolOutputLines as Clone>::clone, (&lines,), lines_copy),
        call_ensures(<ToolAudience as Clone>::clone, (&audience,), audience_copy),
        call_ensures(<ToolContext<H> as Clone>::clone, (&context,), context_copy),
        call_ensures(<AgentContext<H> as Clone>::clone, (&agent,), agent_copy),
    ensures
        token_copy == token,
        lines_copy == lines,
        audience_copy == audience,
        context_copy == context,
        agent_copy == agent,
{
}

/// A snapshot keeps whatever belongs to the agent and to the call's place in the program.
pub proof fn law_snapshots_keep_the_settings<H: Host>(ctx: ToolContext<H>, agent: AgentContext<H>)
    requires
        call_ensures(AgentContext::<H>::from, (&ctx,), agent),
    ensures
        agent.0.cancel == ctx.cancel,
        agent.0.config == ctx.config,
        agent.0.workflow == ctx.workflow,
        agent.0.audience == ctx.audience,
        agent.0.file_tracker == ctx.file_tracker,
        agent.0.rest == ctx.rest,
        agent.0.tool_use_id == ctx.tool_use_id,
        agent.0.live_sink == ctx.live_sink,
{
}

/// A snapshot has nothing of the single call that it was made in: no deadline, no output lines of its
/// own, no local tool, and a new set of shown instructions.
pub proof fn law_snapshots_forget_the_call<H: Host>(ctx: ToolContext<H>, agent: AgentContext<H>)
    requires
        call_ensures(AgentContext::<H>::from, (&ctx,), agent),
    ensures
        agent.0.deadline is Unset,
        agent.0.tool_output_lines.overrides@.len() == 0,
        forall|name: String| !(#[trigger] agent.0.local_tools@.dom().contains(name)),
        call_ensures(<H::Instructions as Default>::default, (), *agent.0.loaded_instructions),
{
}

/// A nested call has neither the id nor the sink of the snapshot, and all else as the snapshot has it.
pub proof fn law_nested_calls_are_cut_off<H: Host>(agent: AgentContext<H>, inner: ToolContext<H>)
    requires
        call_ensures(AgentContext::<H>::to_tool_context, (&agent,), inner),
    ensures
        inner.tool_use_id is None,
        inner.live_sink is None,
        inner.deadline == agent.0.deadline,
        inner.tool_output_lines == agent.0.tool_output_lines,
        inner.loaded_instructions == agent.0.loaded_instructions,
        inner.local_tools == agent.0.local_tools,
        inner.cancel == agent.0.cancel,
        inner.config == agent.0.config,
        inner.workflow == agent.0.workflow,
        inner.audience == agent.0.audience,
        inner.file_tracker == agent.0.file_tracker,
        inner.rest == agent.0.rest,
{
}

/// Reading through a snapshot reads the context that was captured.
pub proof fn law_snapshots_read_through<H: Host>(agent: AgentContext<H>, seen: &ToolContext<H>)
    requires
        call_ensures(<AgentContext<H> as Deref>::deref, (&agent,), seen),
    ensures
        *seen == agent.0,
{
}

/// A path that starts at the root means itself in every directory.
pub proof fn law_absolute_paths_mean_themselves(path: String, cwd: &[u8], abs: Vec<u8>)
    requires
        call_ensures(resolve_abs_with_cwd, (path, cwd), abs),
        vstd::utf8::encode_utf8(path@).len() > 0,
        vstd::utf8::encode_utf8(path@)[0] == 0x2f,
    ensures
        abs@ == vstd::utf8::encode_utf8(path@),
{
}

/// Any other path lies below the directory: what comes out begins with the directory and ends with
/// the path, and between them stands one separator where the directory does not end in one, and
/// nothing where it does or is empty.
pub proof fn law_other_paths_lie_below_the_directory(path: String, cwd: &[u8], abs: Vec<u8>)
    requires
        call_ensures(resolve_abs_with_cwd, (path, cwd), abs),
        vstd::utf8::encode_utf8(path@).len() == 0 || vstd::utf8::encode_utf8(path@)[0] != 0x2f,
    ensures
        ({
            let text = vstd::utf8::encode_utf8(path@);
            let bare = cwd@.len() > 0 && cwd@[cwd@.len() - 1] != 0x2f;
            let between: int = if bare { 1 } else { 0 };
            &&& abs@.len() == cwd@.len() + between + text.len()
            &&& forall|i: int| 0 <= i < cwd@.len() ==> #[trigger] abs@[i] == cwd@[i]
            &&& bare ==> abs@[cwd@.len() as int] == 0x2f
            &&& forall|i: int|
                0 <= i < text.len() ==> abs@[cwd@.len() + between + i] == #[trigger] text[i]
        }),
{
}

} // verus!
