use vstd::prelude::*;

verus! {

/// Kind marker that every tool result carries.
pub const TOOL_RESULT: &'static str = "tool_result";

/// The result of one tool invocation.
#[derive(Debug, Clone, PartialEq)]
pub struct LlmToolResult {
    /// Always `"tool_result"`.
    pub result_type: String,
    /// The `id` of the tool-use item this answers.
    pub tool_use_id: String,
    pub content: String,
}

impl LlmToolResult {
    /// `self` is a tool result that answers invocation `id` with `content`.
    pub open spec fn answers(&self, id: Seq<char>, content: Seq<char>) -> bool {
        &&& self.result_type@ == TOOL_RESULT@
        &&& self.tool_use_id@ == id
        &&& self.content@ == content
    }

    pub fn new(tool_use_id: String, content: String) -> (r: Self)
        ensures
            r.answers(tool_use_id@, content@),
    {
        LlmToolResult { result_type: TOOL_RESULT.to_owned(), tool_use_id, content }
    }
}


/// Role of the turn that carries the tool results back.
pub const USER_ROLE: &'static str = "user";

/// A content item that holds free text.
#[derive(Debug, Clone, PartialEq)]
pub struct LlmToolTextRequest {
    /// Always `"text"` on the wire.
    pub request_type: String,
    pub text: String,
}

/// A content item that asks for a tool to be run.
#[derive(Debug, Clone, PartialEq)]
pub struct LlmToolUseRequest {
    /// Always `"tool_use"` on the wire.
    pub request_type: String,
    /// Identifies the invocation; the tool result repeats it.
    pub id: String,
    /// Name of the tool to run.
    pub name: String,
    /// The tool's input, checked against the tool's schema when it runs.
    pub input: serde_json::Value,
}

/// One item of an assistant turn.
#[derive(Debug, Clone, PartialEq)]
pub enum LlmToolRequest {
    LlmToolTextRequest(LlmToolTextRequest),
    LlmToolUseRequest(LlmToolUseRequest),
}

/// A turn: a role and its content items, in order.
#[derive(Debug, Clone, PartialEq)]
pub struct LlmTaskResult {
    pub role: String,
    pub content: Vec<LlmToolRequest>,
}

/// The inbound event: the history so far and the assistant's latest turn.
#[derive(Debug, Clone, PartialEq)]
pub struct EventInput {
    /// Earlier messages, passed on untouched.
    pub messages: Vec<serde_json::Value>,
    pub task_result: LlmTaskResult,
}

/// The turn that answers the tool calls.
#[derive(Debug, Clone, PartialEq)]
pub struct LlmToolResultAnswer {
    pub role: String,
    pub content: Vec<LlmToolResult>,
}

/// One element of the outgoing message sequence.
#[derive(Debug, Clone, PartialEq)]
pub enum ResultMessage {
    MessageValue(serde_json::Value),
    LlmTaskResult(LlmTaskResult),
    LlmToolResultAnswer(LlmToolResultAnswer),
}

/// The tool-use items among `items`, in their order.
pub open spec fn tool_uses(items: Seq<LlmToolRequest>) -> Seq<LlmToolUseRequest>
    decreases items.len(),
{
    if items.len() == 0 {
        Seq::empty()
    } else {
        let earlier = tool_uses(items.drop_last());
        match items.last() {
            LlmToolRequest::LlmToolUseRequest(u) => earlier.push(u),
            LlmToolRequest::LlmToolTextRequest(_) => earlier,
        }
    }
}

/// The tool results that `m` carries, if it is a tool-results turn.
pub open spec fn answer_content(m: ResultMessage) -> Seq<LlmToolResult> {
    match m {
        ResultMessage::LlmToolResultAnswer(a) => a.content@,
        _ => Seq::empty(),
    }
}

/// `out` is the history, then `turn` as given, then a user turn that
/// carries `results`.
pub open spec fn threads(
    out: Seq<ResultMessage>,
    messages: Seq<serde_json::Value>,
    turn: LlmTaskResult,
    results: Seq<LlmToolResult>,
) -> bool {
    let n = messages.len() as int;
    &&& out.len() == n + 2
    &&& forall|i: int| 0 <= i < n ==> out[i] == ResultMessage::MessageValue(#[trigger] messages[i])
    &&& out[n] == ResultMessage::LlmTaskResult(turn)
    &&& match out[n + 1] {
        ResultMessage::LlmToolResultAnswer(a) => a.role@ == USER_ROLE@ && a.content@ == results,
        _ => false,
    }
}

} // verus!
