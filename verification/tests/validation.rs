use agent_loop::json::JsonValue;
use agent_loop::tool::{Tool, ToolInputValidator, ToolKind, TypedInput};
use agent_loop::tools::bash::execute_bash_tool;

fn obj(fields: Vec<(&str, JsonValue)>) -> JsonValue {
    JsonValue::Object(fields.into_iter().map(|(k, v)| (String::from(k), v)).collect())
}

fn text(s: &str) -> JsonValue {
    JsonValue::Text(String::from(s))
}

#[test]
fn accepts_conforming_bash_input() {
    let v = ToolInputValidator::new(ToolKind::Bash);
    let input = obj(vec![("command", text("echo hi"))]);
    match v.get_value(&input) {
        Ok(TypedInput::Bash(b)) => assert_eq!(b.command, "echo hi"),
        _ => panic!("conforming input must decode"),
    }
}

#[test]
fn accepts_extra_members_beyond_schema() {
    let v = ToolInputValidator::new(ToolKind::Bash);
    let input = obj(vec![("command", text("ls")), ("extra", JsonValue::Bool(true))]);
    assert!(v.get_value(&input).is_ok());
}

#[test]
fn rejects_missing_required_field() {
    let v = ToolInputValidator::new(ToolKind::Bash);
    let input = obj(vec![("other", text("x"))]);
    match v.get_value(&input) {
        Err(e) => assert_eq!(e.message(), "missing required field: command"),
        Ok(_) => panic!("missing field must be rejected"),
    }
}

#[test]
fn rejects_mismatched_field_type() {
    let v = ToolInputValidator::new(ToolKind::Bash);
    let input = obj(vec![("command", JsonValue::Bool(true))]);
    match v.get_value(&input) {
        Err(e) => assert_eq!(e.message(), "wrong type for field: command"),
        Ok(_) => panic!("wrong type must be rejected"),
    }
}

#[test]
fn rejects_non_object_input() {
    let v = ToolInputValidator::new(ToolKind::Bash);
    match v.get_value(&text("just a string")) {
        Err(e) => assert_eq!(e.message(), "input is not a JSON object"),
        Ok(_) => panic!("non-object must be rejected"),
    }
}

#[test]
fn optional_field_may_be_absent_null_or_text() {
    let v = ToolInputValidator::new(ToolKind::ListFiles);
    match v.get_value(&obj(vec![])) {
        Ok(TypedInput::ListFiles(l)) => assert!(l.path.is_none()),
        _ => panic!("absent optional field must decode to none"),
    }
    match v.get_value(&obj(vec![("path", JsonValue::Null)])) {
        Ok(TypedInput::ListFiles(l)) => assert!(l.path.is_none()),
        _ => panic!("null optional field must decode to none"),
    }
    match v.get_value(&obj(vec![("path", text("src"))])) {
        Ok(TypedInput::ListFiles(l)) => assert_eq!(l.path.as_deref(), Some("src")),
        _ => panic!("present optional field must decode"),
    }
    match v.get_value(&obj(vec![("path", JsonValue::Bool(false))])) {
        Err(e) => assert_eq!(e.message(), "wrong type for field: path"),
        Ok(_) => panic!("wrongly typed optional field must be rejected"),
    }
}

#[test]
fn edit_file_needs_all_three_fields() {
    let v = ToolInputValidator::new(ToolKind::EditFile);
    let full = obj(vec![
        ("new_str", text("b")),
        ("old_str", text("a")),
        ("path", text("f.txt")),
    ]);
    match v.get_value(&full) {
        Ok(TypedInput::EditFile(e)) => {
            assert_eq!(e.new_str, "b");
            assert_eq!(e.old_str, "a");
            assert_eq!(e.path, "f.txt");
        },
        _ => panic!("complete edit input must decode"),
    }
    let partial = obj(vec![("new_str", text("b")), ("path", text("f.txt"))]);
    match v.get_value(&partial) {
        Err(e) => assert_eq!(e.message(), "missing required field: old_str"),
        Ok(_) => panic!("incomplete edit input must be rejected"),
    }
}

#[test]
fn read_file_needs_a_path() {
    let v = ToolInputValidator::new(ToolKind::ReadFile);
    match v.get_value(&obj(vec![("path", text("src/lib.rs"))])) {
        Ok(TypedInput::ReadFile(r)) => assert_eq!(r.path, "src/lib.rs"),
        _ => panic!("conforming read input must decode"),
    }
    match v.get_value(&obj(vec![])) {
        Err(e) => assert_eq!(e.message(), "missing required field: path"),
        Ok(_) => panic!("a read without a path must be rejected"),
    }
}

#[test]
fn decode_is_checked_independently() {
    let input = obj(vec![("command", JsonValue::Number(String::from("3")))]);
    match agent_loop::tool::decode(&ToolKind::Bash, &input) {
        Err(e) => assert_eq!(e.message(), "failed to decode input"),
        Ok(_) => panic!("non-text command must not populate the input shape"),
    }
}

#[test]
fn registered_tool_exposes_name_and_schema() {
    let t: Tool = execute_bash_tool();
    assert_eq!(t.name, "bash");
    assert_eq!(t.validator.schema.fields.len(), 1);
    assert_eq!(t.validator.schema.fields[0].name, "command");
    assert!(t.validator.schema.fields[0].required);
}

#[test]
fn the_declaration_of_a_required_field_is_a_string_property() {
    let t: Tool = execute_bash_tool();
    let decl = agent_loop::schema::schema_declaration(&t.validator.schema);
    let members = match decl {
        JsonValue::Object(members) => members,
        _ => panic!("a declaration is an object"),
    };
    assert_eq!(members[0].0, "type");
    assert!(matches!(&members[0].1, JsonValue::Text(t) if t == "object"));
    assert_eq!(members[1].0, "properties");
    match &members[1].1 {
        JsonValue::Object(props) => {
            assert_eq!(props.len(), 1);
            assert_eq!(props[0].0, "command");
            match &props[0].1 {
                JsonValue::Object(spec) => {
                    assert!(matches!(&spec[0].1, JsonValue::Text(t) if t == "string"));
                    assert_eq!(spec[1].0, "description");
                    assert!(
                        matches!(&spec[1].1, JsonValue::Text(t) if t == "The bash command to execute.")
                    );
                },
                _ => panic!("a field declaration is an object"),
            }
        },
        _ => panic!("properties is an object"),
    }
    assert_eq!(members[2].0, "required");
    match &members[2].1 {
        JsonValue::Array(reqs) => {
            assert_eq!(reqs.len(), 1);
            assert!(matches!(&reqs[0], JsonValue::Text(t) if t == "command"));
        },
        _ => panic!("required is an array"),
    }
}

#[test]
fn the_declaration_of_an_optional_field_allows_null() {
    let v = ToolInputValidator::new(ToolKind::ListFiles);
    let decl = agent_loop::schema::schema_declaration(&v.schema);
    let members = match decl {
        JsonValue::Object(members) => members,
        _ => panic!("a declaration is an object"),
    };
    match &members[1].1 {
        JsonValue::Object(props) => match &props[0].1 {
            JsonValue::Object(spec) => match &spec[0].1 {
                JsonValue::Array(kinds) => {
                    assert!(matches!(&kinds[0], JsonValue::Text(t) if t == "string"));
                    assert!(matches!(&kinds[1], JsonValue::Text(t) if t == "null"));
                },
                _ => panic!("an optional field offers both types"),
            },
            _ => panic!("a field declaration is an object"),
        },
        _ => panic!("properties is an object"),
    }
    match &members[2].1 {
        JsonValue::Array(reqs) => assert!(reqs.is_empty()),
        _ => panic!("required is an array"),
    }
}
