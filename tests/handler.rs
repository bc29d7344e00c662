use llm_tools::assembler::{assemble, handle_input, run_tools};
use llm_tools::content::{
    EventInput, LlmTaskResult, LlmToolRequest, LlmToolResult, LlmToolResultAnswer,
    LlmToolTextRequest, LlmToolUseRequest, ResultMessage,
};
use llm_tools::tools::{ToolError, RESTAURANT_LIST, WEATHER_REPORT};
use serde_json::Value;

fn json(text: &str) -> Value {
    serde_json::from_str(text).unwrap()
}

fn text_item(text: &str) -> LlmToolRequest {
    LlmToolRequest::LlmToolTextRequest(LlmToolTextRequest {
        request_type: "text".to_string(),
        text: text.to_string(),
    })
}

fn use_item(id: &str, name: &str, input: &str) -> LlmToolRequest {
    LlmToolRequest::LlmToolUseRequest(LlmToolUseRequest {
        request_type: "tool_use".to_string(),
        id: id.to_string(),
        name: name.to_string(),
        input: json(input),
    })
}

fn result(id: &str, content: &str) -> LlmToolResult {
    LlmToolResult {
        result_type: "tool_result".to_string(),
        tool_use_id: id.to_string(),
        content: content.to_string(),
    }
}

fn berlin_turn() -> LlmTaskResult {
    LlmTaskResult {
        role: "assistant".to_string(),
        content: vec![use_item("t1", "get_weather", r#"{"location":"Berlin"}"#)],
    }
}

fn mixed_turn() -> LlmTaskResult {
    LlmTaskResult {
        role: "assistant".to_string(),
        content: vec![
            text_item("Let me look that up."),
            use_item("a", "get_restaurants", r#"{"location":"Rome"}"#),
            text_item("and the weather"),
            use_item("b", "get_weather", r#"{"location":"Rome","units":"metric"}"#),
            use_item("c", "get_weather", r#"{"location":"Oslo"}"#),
        ],
    }
}

fn history() -> Vec<Value> {
    vec![
        json(r#"{"role":"user","content":"where to eat?"}"#),
        json(r#"[1, 2, {"nested": null}]"#),
        json(r#""plain text""#),
    ]
}

fn answer(out: &[ResultMessage]) -> &LlmToolResultAnswer {
    match out.last() {
        Some(ResultMessage::LlmToolResultAnswer(a)) => a,
        _ => panic!("last element is not a tool-results turn"),
    }
}

#[test]
fn weather_scenario_threads_history_turn_and_answer() {
    let event = EventInput { messages: vec![json(r#""hello""#)], task_result: berlin_turn() };
    let out = handle_input(event).unwrap();
    let expected = vec![
        ResultMessage::MessageValue(json(r#""hello""#)),
        ResultMessage::LlmTaskResult(berlin_turn()),
        ResultMessage::LlmToolResultAnswer(LlmToolResultAnswer {
            role: "user".to_string(),
            content: vec![result("t1", "The weather is sunny, 20 degree")],
        }),
    ];
    assert_eq!(out, expected);
}

#[test]
fn output_has_history_plus_two_and_one_result_per_tool_use() {
    let event = EventInput { messages: history(), task_result: mixed_turn() };
    let out = handle_input(event).unwrap();
    assert_eq!(out.len(), 3 + 2);
    assert_eq!(answer(&out).content.len(), 3);
}

#[test]
fn results_repeat_ids_in_order() {
    let event = EventInput { messages: history(), task_result: mixed_turn() };
    let out = handle_input(event).unwrap();
    let ids: Vec<&str> = answer(&out).content.iter().map(|r| r.tool_use_id.as_str()).collect();
    assert_eq!(ids, vec!["a", "b", "c"]);
    assert_eq!(
        answer(&out).content,
        vec![result("a", RESTAURANT_LIST), result("b", WEATHER_REPORT), result("c", WEATHER_REPORT)]
    );
}

#[test]
fn history_passes_through_unchanged() {
    let event = EventInput { messages: history(), task_result: mixed_turn() };
    let out = handle_input(event).unwrap();
    for (i, m) in history().into_iter().enumerate() {
        assert_eq!(out[i], ResultMessage::MessageValue(m));
    }
}

#[test]
fn turn_is_echoed_second_to_last() {
    let event = EventInput { messages: history(), task_result: mixed_turn() };
    let out = handle_input(event).unwrap();
    assert_eq!(out[out.len() - 2], ResultMessage::LlmTaskResult(mixed_turn()));
}

#[test]
fn text_only_turn_still_gets_an_empty_answer() {
    let turn = || LlmTaskResult {
        role: "assistant".to_string(),
        content: vec![text_item("Nothing to look up.")],
    };
    let event = EventInput { messages: vec![], task_result: turn() };
    let out = handle_input(event).unwrap();
    assert_eq!(out.len(), 2);
    assert_eq!(out[0], ResultMessage::LlmTaskResult(turn()));
    assert_eq!(answer(&out).role, "user");
    assert!(answer(&out).content.is_empty());
}

#[test]
fn empty_event_gives_turn_and_empty_answer() {
    let turn = || LlmTaskResult { role: "assistant".to_string(), content: vec![] };
    let out = handle_input(EventInput { messages: vec![], task_result: turn() }).unwrap();
    assert_eq!(out.len(), 2);
    assert!(answer(&out).content.is_empty());
}

#[test]
fn unknown_tool_fails_the_whole_invocation() {
    let turn = LlmTaskResult {
        role: "assistant".to_string(),
        content: vec![
            use_item("t1", "get_weather", r#"{"location":"Berlin"}"#),
            use_item("t2", "get_stock_price", r#"{"ticker":"ABC"}"#),
        ],
    };
    let r = handle_input(EventInput { messages: vec![json(r#""hello""#)], task_result: turn });
    assert_eq!(r, Err(ToolError::UnknownTool { name: "get_stock_price".to_string() }));
}

#[test]
fn bad_input_fails_with_invalid_input() {
    let turn = LlmTaskResult {
        role: "assistant".to_string(),
        content: vec![use_item("t7", "get_restaurants", r#"{"city":"Berlin"}"#)],
    };
    let r = handle_input(EventInput { messages: vec![], task_result: turn });
    assert_eq!(
        r,
        Err(ToolError::InvalidInput {
            tool: "get_restaurants".to_string(),
            tool_use_id: "t7".to_string()
        })
    );
}

#[test]
fn first_failing_call_decides_the_error() {
    let content = vec![
        text_item("two bad calls"),
        use_item("x", "get_weather", r#"{"location":7}"#),
        use_item("y", "no_such_tool", r#"{}"#),
    ];
    assert_eq!(
        run_tools(&content),
        Err(ToolError::InvalidInput { tool: "get_weather".to_string(), tool_use_id: "x".to_string() })
    );
}

#[test]
fn run_tools_skips_text_items() {
    let content = vec![text_item("hi"), use_item("w", "get_weather", r#"{"location":"Lima"}"#)];
    assert_eq!(run_tools(&content), Ok(vec![result("w", WEATHER_REPORT)]));
}

#[test]
fn assemble_places_results_last() {
    let turn = || LlmTaskResult { role: "assistant".to_string(), content: vec![text_item("x")] };
    let out = assemble(vec![json("1"), json("2")], turn(), vec![result("q", "done")]);
    assert_eq!(
        out,
        vec![
            ResultMessage::MessageValue(json("1")),
            ResultMessage::MessageValue(json("2")),
            ResultMessage::LlmTaskResult(turn()),
            ResultMessage::LlmToolResultAnswer(LlmToolResultAnswer {
                role: "user".to_string(),
                content: vec![result("q", "done")],
            }),
        ]
    );
}

#[test]
fn error_names_the_first_call_that_fails_after_good_ones() {
    let content = vec![
        use_item("ok", "get_weather", r#"{"location":"Lima"}"#),
        use_item("bad", "get_restaurants", r#"{"location":false}"#),
        use_item("late", "unknown", r#"{}"#),
    ];
    assert_eq!(
        run_tools(&content),
        Err(ToolError::InvalidInput { tool: "get_restaurants".to_string(), tool_use_id: "bad".to_string() })
    );
}

#[test]
fn cloned_event_gives_the_same_output() {
    let event = EventInput { messages: history(), task_result: mixed_turn() };
    let copy = event.clone();
    assert_eq!(copy, event);
    assert_eq!(handle_input(copy), handle_input(event));
}
