use vstd::prelude::*;

use crate::content::{
    answer_content, threads, tool_uses, EventInput, LlmTaskResult, LlmToolRequest, LlmToolResult,
    LlmToolResultAnswer, LlmToolUseRequest, ResultMessage, USER_ROLE,
};
use crate::tools::{call_outcome, dispatch, is_known_tool, location_of, tool_output, ToolError};

verus! {

/// `results` answers the tool-use items `uses` one for one, in order.
pub open spec fn answers_all(results: Seq<LlmToolResult>, uses: Seq<LlmToolUseRequest>) -> bool {
    &&& results.len() == uses.len()
    &&& forall|j: int|
        0 <= j < uses.len() ==> is_known_tool(#[trigger] uses[j].name@) && results[j].answers(
            uses[j].id@,
            tool_output(uses[j].name@),
        )
}

/// The call that `u` asks for succeeds: its tool is known and its input has
/// a string member `location`.
pub open spec fn call_ok(u: LlmToolUseRequest) -> bool {
    is_known_tool(u.name@) && location_of(u.input) is Some
}

/// Every call that `uses` asks for succeeds.
pub open spec fn all_calls_ok(uses: Seq<LlmToolUseRequest>) -> bool {
    forall|j: int| 0 <= j < uses.len() ==> call_ok(#[trigger] uses[j])
}

/// The item at `j` is the first of `uses` whose call fails, and `e` is the
/// error that call gives.
pub open spec fn fails_at(uses: Seq<LlmToolUseRequest>, j: int, e: ToolError) -> bool {
    &&& 0 <= j < uses.len()
    &&& forall|k: int| 0 <= k < j ==> call_ok(#[trigger] uses[k])
    &&& call_outcome(uses[j].name@, uses[j].id@, location_of(uses[j].input) is Some, Err(e))
}

proof fn lemma_tool_uses_step(items: Seq<LlmToolRequest>, i: int)
    requires
        0 <= i < items.len(),
    ensures
        tool_uses(items.subrange(0, i + 1)) == match items[i] {
            LlmToolRequest::LlmToolUseRequest(u) => tool_uses(items.subrange(0, i)).push(u),
            LlmToolRequest::LlmToolTextRequest(_) => tool_uses(items.subrange(0, i)),
        },
{
    assert(items.subrange(0, i + 1).drop_last() =~= items.subrange(0, i));
}

proof fn lemma_tool_uses_prefix(items: Seq<LlmToolRequest>, i: int)
    requires
        0 <= i <= items.len(),
    ensures
        tool_uses(items.subrange(0, i)).len() <= tool_uses(items).len(),
        tool_uses(items.subrange(0, i)) =~= tool_uses(items).subrange(
            0,
            tool_uses(items.subrange(0, i)).len() as int,
        ),
    decreases items.len(),
{
    if i == items.len() {
        assert(items.subrange(0, i) =~= items);
    } else {
        let shorter = items.drop_last();
        assert(shorter.subrange(0, i) =~= items.subrange(0, i));
        lemma_tool_uses_prefix(shorter, i);
    }
}

/// Runs every tool-use item of `content`, in order, and stops at the first
/// call that fails.
pub fn run_tools(content: &Vec<LlmToolRequest>) -> (r: Result<Vec<LlmToolResult>, ToolError>)
    ensures
        r is Ok <==> all_calls_ok(tool_uses(content@)),
        match r {
            Ok(results) => answers_all(results@, tool_uses(content@)),
            Err(e) => exists|j: int| fails_at(tool_uses(content@), j, e),
        },
{
    let mut results: Vec<LlmToolResult> = Vec::new();
    let mut i: usize = 0;
    while i < content.len()
        invariant
            i <= content.len(),
            answers_all(results@, tool_uses(content@.subrange(0, i as int))),
            all_calls_ok(tool_uses(content@.subrange(0, i as int))),
        decreases content.len() - i,
    {
        proof {
            lemma_tool_uses_step(content@, i as int);
        }
        let ghost done = tool_uses(content@.subrange(0, i as int));
        match &content[i] {
            LlmToolRequest::LlmToolUseRequest(u) => {
                match dispatch(u.name.as_str(), u.id.clone(), &u.input) {
                    Ok(t) => {
                        results.push(t);
                    },
                    Err(e) => {
                        proof {
                            let now = tool_uses(content@.subrange(0, i as int + 1));
                            assert(fails_at(now, done.len() as int, e));
                            lemma_tool_uses_prefix(content@, i as int + 1);
                            assert(now =~= tool_uses(content@).subrange(0, now.len() as int));
                            let all = tool_uses(content@);
                            assert forall|k: int| 0 <= k < done.len() implies call_ok(
                                #[trigger] all[k],
                            ) by {
                                assert(all[k] == now[k]);
                            }
                            assert(all[done.len() as int] == now[done.len() as int]);
                            assert(fails_at(all, done.len() as int, e));
                            assert(!call_ok(all[done.len() as int]));
                        }
                        return Err(e);
                    },
                }
            },
            LlmToolRequest::LlmToolTextRequest(_) => {},
        }
        i += 1;
    }
    proof {
        assert(content@.subrange(0, i as int) =~= content@);
    }
    Ok(results)
}


/// Builds the next turn's message sequence: every history message as it came,
/// then `turn` as given, then a user turn that carries `results`.
pub fn assemble(
    messages: Vec<serde_json::Value>,
    turn: LlmTaskResult,
    results: Vec<LlmToolResult>,
) -> (out: Vec<ResultMessage>)
    ensures
        threads(out@, messages@, turn, results@),
{
    let ghost history = messages@;
    let mut out: Vec<ResultMessage> = Vec::new();
    for m in it: messages.into_iter()
        invariant
            it.seq() == history,
            out@.len() == it.index(),
            forall|i: int|
                0 <= i < out@.len() ==> out@[i] == ResultMessage::MessageValue(#[trigger] history[i]),
    {
        out.push(ResultMessage::MessageValue(m));
    }
    out.push(ResultMessage::LlmTaskResult(turn));
    let answer = LlmToolResultAnswer { role: USER_ROLE.to_owned(), content: results };
    out.push(ResultMessage::LlmToolResultAnswer(answer));
    out
}


/// Resolves the tool calls of the event's turn and threads the results after
/// the history and the turn. Succeeds exactly when every tool call does;
/// otherwise fails as a whole, with the error of the first tool call that
/// fails.
pub fn handle_input(req_full: EventInput) -> (r: Result<Vec<ResultMessage>, ToolError>)
    ensures
        r is Ok <==> all_calls_ok(tool_uses(req_full.task_result.content@)),
        match r {
            Ok(out) => {
                &&& threads(
                    out@,
                    req_full.messages@,
                    req_full.task_result,
                    answer_content(out@.last()),
                )
                &&& answers_all(answer_content(out@.last()), tool_uses(req_full.task_result.content@))
            },
            Err(e) => exists|j: int| fails_at(tool_uses(req_full.task_result.content@), j, e),
        },
{
    let EventInput { messages, task_result } = req_full;
    match run_tools(&task_result.content) {
        Ok(results) => {
            let out = assemble(messages, task_result, results);
            Ok(out)
        },
        Err(e) => Err(e),
    }
}

} // verus!
