use vstd::prelude::*;

use crate::content::LlmToolResult;
use crate::json::{json_pointer, json_str};

verus! {

/// Name under which the weather tool is registered.
pub const GET_WEATHER: &'static str = "get_weather";

/// Name under which the restaurant tool is registered.
pub const GET_RESTAURANTS: &'static str = "get_restaurants";

/// Text that the weather tool answers with.
pub const WEATHER_REPORT: &'static str = "The weather is sunny, 20 degree";

/// Markup that the restaurant tool answers with.
pub const RESTAURANT_LIST: &'static str = r#"
<restaurants>
            <restaurant>
                <name>Restaurant ABC</name>
                <address>Street 111</address>
                <phone>12345678</phone>
                <website>www.restaurant1.com</website>
                <cuisine>Italian</cuisine>
                <outdoor>true</outdoor>
            </restaurant>
            <restaurant>
                <name>Restaurant XYZ</name>
                <address>Street 999</address>
                <phone>987654</phone>
                <website>www.restaurant2.com</website>
                <cuisine>French</cuisine>
                <outdoor>false</outdoor>
            </restaurant>
</restaurants>
"#;

/// JSON pointer to the one member that both tools' inputs have.
pub const LOCATION_POINTER: &'static str = "/location";

/// Input of the weather tool: `{ "location": <string> }`.
#[derive(Debug)]
pub struct GetWeatherToolInput {
    pub location: String,
}

/// Input of the restaurant tool: `{ "location": <string> }`.
#[derive(Debug)]
pub struct GetRestaurantsToolInput {
    pub location: String,
}

/// Why a tool call could not be answered.
#[derive(Debug, Clone, PartialEq)]
pub enum ToolError {
    /// No tool is registered under this name.
    UnknownTool { name: String },
    /// The input of invocation `tool_use_id` does not fit the schema of `tool`.
    InvalidInput { tool: String, tool_use_id: String },
}

/// `name` is registered.
pub open spec fn is_known_tool(name: Seq<char>) -> bool {
    name == GET_WEATHER@ || name == GET_RESTAURANTS@
}

/// What the tool registered under `name` answers with.
pub open spec fn tool_output(name: Seq<char>) -> Seq<char> {
    if name == GET_WEATHER@ {
        WEATHER_REPORT@
    } else {
        RESTAURANT_LIST@
    }
}

impl ToolError {
    /// `self` and `other` are the same error, field for field.
    pub open spec fn same_as(&self, other: &ToolError) -> bool {
        match (self, other) {
            (ToolError::UnknownTool { name: a }, ToolError::UnknownTool { name: b }) => a@ == b@,
            (
                ToolError::InvalidInput { tool: t1, tool_use_id: i1 },
                ToolError::InvalidInput { tool: t2, tool_use_id: i2 },
            ) => t1@ == t2@ && i1@ == i2@,
            _ => false,
        }
    }

    /// `self` is the error owed to a failed call of tool `name` as invocation
    /// `id`: an unknown name is reported as such, otherwise the input was bad.
    pub open spec fn reports(&self, name: Seq<char>, id: Seq<char>) -> bool {
        match self {
            ToolError::UnknownTool { name: n } => !is_known_tool(name) && n@ == name,
            ToolError::InvalidInput { tool, tool_use_id } => {
                is_known_tool(name) && tool@ == name && tool_use_id@ == id
            },
        }
    }
}

/// `r` is the outcome of calling tool `name` as invocation `id` on an input
/// that fits the tool's schema exactly when `input_ok`.
pub open spec fn call_outcome(
    name: Seq<char>,
    id: Seq<char>,
    input_ok: bool,
    r: Result<LlmToolResult, ToolError>,
) -> bool {
    match r {
        Ok(t) => is_known_tool(name) && input_ok && t.answers(id, tool_output(name)),
        Err(e) => !(is_known_tool(name) && input_ok) && e.reports(name, id),
    }
}

/// The text of the string member `location` of `input`, if it has one.
pub open spec fn location_of(input: serde_json::Value) -> Option<Seq<char>> {
    match json_pointer(input, LOCATION_POINTER@) {
        Some(member) => json_str(member),
        None => None,
    }
}

fn same_text(a: &str, b: &str) -> (r: bool)
    ensures
        r == (a@ == b@),
{
    a.to_owned() == b.to_owned()
}

/// Answers a weather request with the fixed report.
pub fn get_weather(tool_use_id: String, input: GetWeatherToolInput) -> (r: LlmToolResult)
    ensures
        r.answers(tool_use_id@, WEATHER_REPORT@),
{
    LlmToolResult::new(tool_use_id, WEATHER_REPORT.to_owned())
}

/// Answers a restaurant request with the fixed list.
pub fn get_restaurants(tool_use_id: String, input: GetRestaurantsToolInput) -> (r: LlmToolResult)
    ensures
        r.answers(tool_use_id@, RESTAURANT_LIST@),
{
    LlmToolResult::new(tool_use_id, RESTAURANT_LIST.to_owned())
}

/// Runs tool `name` as invocation `tool_use_id`, given the `location` member
/// of its input (`None` where the input has no string member of that name).
pub fn run_tool(name: &str, tool_use_id: String, location: Option<&str>) -> (r: Result<
    LlmToolResult,
    ToolError,
>)
    ensures
        call_outcome(name@, tool_use_id@, location is Some, r),
{
    let weather = same_text(name, GET_WEATHER);
    let restaurants = same_text(name, GET_RESTAURANTS);
    if !weather && !restaurants {
        return Err(ToolError::UnknownTool { name: name.to_owned() });
    }
    match location {
        None => Err(ToolError::InvalidInput { tool: name.to_owned(), tool_use_id }),
        Some(loc) => {
            if weather {
                Ok(get_weather(tool_use_id, GetWeatherToolInput { location: loc.to_owned() }))
            } else {
                Ok(get_restaurants(tool_use_id, GetRestaurantsToolInput { location: loc.to_owned() }))
            }
        },
    }
}

/// Runs tool `name` as invocation `tool_use_id` on `input`, which must be an
/// object with a string member `location`.
pub fn dispatch(name: &str, tool_use_id: String, input: &serde_json::Value) -> (r: Result<
    LlmToolResult,
    ToolError,
>)
    ensures
        call_outcome(name@, tool_use_id@, location_of(*input) is Some, r),
{
    let location = match input.pointer(LOCATION_POINTER) {
        Some(member) => member.as_str(),
        None => None,
    };
    run_tool(name, tool_use_id, location)
}

/// Dispatch is deterministic: two calls of the same tool as the same
/// invocation on the same input both succeed, with equal results that carry
/// the tool's own output, or both fail, with equal errors.
pub proof fn lemma_dispatch_deterministic(
    name: Seq<char>,
    id: Seq<char>,
    input: serde_json::Value,
    r1: Result<LlmToolResult, ToolError>,
    r2: Result<LlmToolResult, ToolError>,
)
    requires
        call_outcome(name, id, location_of(input) is Some, r1),
        call_outcome(name, id, location_of(input) is Some, r2),
    ensures
        r1 is Ok <==> r2 is Ok,
        r1 is Ok ==> {
            &&& r1->Ok_0.result_type@ == r2->Ok_0.result_type@
            &&& r1->Ok_0.tool_use_id@ == r2->Ok_0.tool_use_id@
            &&& r1->Ok_0.content@ == r2->Ok_0.content@
            &&& r1->Ok_0.content@ == tool_output(name)
        },
        r1 is Err ==> r1->Err_0.same_as(&r2->Err_0),
{
}

} // verus!
