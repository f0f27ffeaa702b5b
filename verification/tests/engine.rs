use agent_loop::agent::{Agent, DisplayItem, Pending, Phase, standard_tools};
use agent_loop::content::{Fragment, Role};
use agent_loop::json::JsonValue;

fn bash_request(id: &str, command: &str) -> Fragment {
    Fragment::ToolRequest {
        id: String::from(id),
        name: String::from("bash"),
        input: JsonValue::Object(vec![(
            String::from("command"),
            JsonValue::Text(String::from(command)),
        )]),
    }
}

#[test]
fn blank_input_does_not_advance() {
    let mut a = Agent::new(standard_tools());
    assert!(!a.submit_operator_input(String::from("")));
    assert!(!a.submit_operator_input(String::from("   \t\n")));
    assert!(matches!(a.phase, Phase::AwaitingInput));
    assert_eq!(a.transcript.len(), 0);
}

#[test]
fn nonblank_input_appends_one_operator_turn() {
    let mut a = Agent::new(standard_tools());
    assert!(a.submit_operator_input(String::from("hello\n")));
    assert!(matches!(a.phase, Phase::ModelRequested { include_tools: true }));
    assert_eq!(a.transcript.len(), 1);
    assert!(matches!(a.transcript[0].role, Role::Operator));
    assert_eq!(a.transcript[0].fragments.len(), 1);
    match &a.transcript[0].fragments[0] {
        Fragment::Text(t) => assert_eq!(t, "hello\n"),
        _ => panic!("operator turn must hold one text fragment"),
    }
}

#[test]
fn turn_without_requests_completes() {
    let mut a = Agent::new(standard_tools());
    a.submit_operator_input(String::from("hi"));
    let display = a.receive_model_turn(vec![
        Fragment::Text(String::from("hello there")),
        Fragment::Image { source: String::from("opaque-image-bytes") },
        Fragment::Document { source: String::from("opaque-document-bytes") },
    ]);
    assert!(matches!(a.phase, Phase::TurnComplete));
    assert_eq!(display.len(), 3);
    assert!(matches!(&display[0], DisplayItem::Say(t) if t == "hello there"));
    assert!(matches!(display[1], DisplayItem::ImagePlaceholder));
    assert!(matches!(display[2], DisplayItem::DocumentPlaceholder));
    a.next_turn();
    assert!(matches!(a.phase, Phase::AwaitingInput));
}

#[test]
fn unknown_tool_is_answered_with_a_diagnostic() {
    let mut a = Agent::new(standard_tools());
    a.submit_operator_input(String::from("go"));
    let display = a.receive_model_turn(vec![Fragment::ToolRequest {
        id: String::from("t1"),
        name: String::from("no_such_tool"),
        input: JsonValue::Object(vec![]),
    }]);
    assert!(display.iter().any(|d| matches!(d, DisplayItem::UnknownTool)));
    assert_eq!(a.pending.len(), 1);
    assert!(matches!(&a.pending[0], Pending::Answered { request_id, .. } if request_id == "t1"));
    assert!(matches!(a.phase, Phase::ToolDispatchPending));
    a.provide_outcomes(vec![]);
    assert!(matches!(a.phase, Phase::ModelRequested { include_tools: false }));
    let last = a.transcript.last().unwrap();
    assert!(matches!(last.role, Role::Operator));
    assert_eq!(last.fragments.len(), 1);
    match &last.fragments[0] {
        Fragment::ToolResult { request_id, content, is_error } => {
            assert_eq!(request_id, "t1");
            assert!(*is_error);
            assert!(matches!(&content[0], Fragment::Text(t) if t == "Tool not found"));
        },
        _ => panic!("an unknown tool must still be answered"),
    }
}

#[test]
fn each_request_gets_exactly_one_result_in_order() {
    let mut a = Agent::new(standard_tools());
    a.submit_operator_input(String::from("go"));
    let bad_input = Fragment::ToolRequest {
        id: String::from("r2"),
        name: String::from("bash"),
        input: JsonValue::Object(vec![]),
    };
    let unknown_name = Fragment::ToolRequest {
        id: String::from("r4"),
        name: String::from("no_such_tool"),
        input: JsonValue::Object(vec![]),
    };
    a.receive_model_turn(vec![
        Fragment::Text(String::from("working on it")),
        bash_request("r1", "echo one"),
        bad_input,
        bash_request("r3", "echo three"),
        unknown_name,
    ]);
    assert_eq!(a.pending.len(), 4);
    assert!(matches!(&a.pending[0], Pending::Execute { request_id, .. } if request_id == "r1"));
    assert!(matches!(&a.pending[1], Pending::Answered { request_id, .. } if request_id == "r2"));
    assert!(matches!(&a.pending[2], Pending::Execute { request_id, .. } if request_id == "r3"));
    assert!(matches!(&a.pending[3], Pending::Answered { request_id, .. } if request_id == "r4"));
    a.provide_outcomes(vec![
        Ok(vec![Fragment::Text(String::from("one"))]),
        Err(String::from("boom")),
    ]);
    let last = a.transcript.last().unwrap();
    assert!(matches!(last.role, Role::Operator));
    assert_eq!(last.fragments.len(), 4);
    match &last.fragments[0] {
        Fragment::ToolResult { request_id, content, is_error } => {
            assert_eq!(request_id, "r1");
            assert!(!*is_error);
            assert!(matches!(&content[0], Fragment::Text(t) if t == "one"));
        },
        _ => panic!("first result missing"),
    }
    match &last.fragments[1] {
        Fragment::ToolResult { request_id, content, is_error } => {
            assert_eq!(request_id, "r2");
            assert!(*is_error);
            assert!(
                matches!(&content[0], Fragment::Text(t) if t == "missing required field: command")
            );
        },
        _ => panic!("validation failure must still be answered"),
    }
    match &last.fragments[2] {
        Fragment::ToolResult { request_id, content, is_error } => {
            assert_eq!(request_id, "r3");
            assert!(*is_error);
            assert!(matches!(&content[0], Fragment::Text(t) if t == "boom"));
        },
        _ => panic!("failed execution must still be answered"),
    }
    match &last.fragments[3] {
        Fragment::ToolResult { request_id, content, is_error } => {
            assert_eq!(request_id, "r4");
            assert!(*is_error);
            assert!(matches!(&content[0], Fragment::Text(t) if t == "Tool not found"));
        },
        _ => panic!("an unknown-named request must still be answered"),
    }
}

#[test]
fn scripted_model_three_tool_rounds_means_four_trips() {
    let mut a = Agent::new(standard_tools());
    assert!(a.submit_operator_input(String::from("start")));
    let mut scripted: Vec<Vec<Fragment>> = vec![
        vec![bash_request("a", "echo 1")],
        vec![bash_request("b", "echo 2")],
        vec![bash_request("c", "echo 3")],
        vec![Fragment::Text(String::from("done"))],
    ];
    scripted.reverse();
    let mut trips = 0usize;
    let mut declared = Vec::new();
    while matches!(a.phase, Phase::ModelRequested { .. }) {
        declared.push(a.outbound_includes_tools());
        trips += 1;
        let turn = scripted.pop().expect("script exhausted early");
        a.receive_model_turn(turn);
        if matches!(a.phase, Phase::ToolDispatchPending) {
            let n = a
                .pending
                .iter()
                .filter(|p| matches!(p, Pending::Execute { .. }))
                .count();
            let outcomes = (0..n)
                .map(|_| Ok(vec![Fragment::Text(String::from("out"))]))
                .collect();
            a.provide_outcomes(outcomes);
        }
    }
    assert_eq!(trips, 4);
    assert!(matches!(a.phase, Phase::TurnComplete));
    assert_eq!(declared, vec![true, false, false, false]);
    // operator turn + 4 model turns + 3 result turns
    assert_eq!(a.transcript.len(), 8);
}
