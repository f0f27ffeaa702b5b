use vstd::prelude::*;
use crate::json::JsonValue;
use crate::json::lookup;
use crate::json::spec_lookup;
use crate::schema::FieldKind;
use crate::schema::FieldSchema;
use crate::schema::Schema;
use crate::schema::ValidationError;
use crate::schema::conforms;
use crate::schema::field_conforms;
use crate::schema::spec_diag;
use crate::schema::validate;
use crate::schema::validation_msg;
use crate::tools::bash::BashInput;
use crate::tools::edit_file::EditFileInput;
use crate::tools::list_files::ListFilesInput;
use crate::tools::read_file::ReadFileInput;

verus! {

/// The tag that names a capability's input shape; dispatch goes by this tag
/// rather than by virtual calls.
#[derive(Clone, Copy, PartialEq, Eq, Structural)]
pub enum ToolKind {
    Bash,
    ReadFile,
    EditFile,
    ListFiles,
}

/// A validated, typed capability input, ready for the capability to run.
pub enum TypedInput {
    Bash(BashInput),
    ReadFile(ReadFileInput),
    EditFile(EditFileInput),
    ListFiles(ListFilesInput),
}

pub open spec fn text_field(
    f: FieldSchema,
    name: Seq<char>,
    description: Seq<char>,
    required: bool,
) -> bool {
    f.name@ == name && f.description@ == description && f.required == required && f.kind
        is Text
}

/// The schema a capability's input shape derives: field names, per-field
/// documentation, and optional/required markers.
pub open spec fn schema_matches(kind: ToolKind, s: Schema) -> bool {
    match kind {
        ToolKind::Bash => s.fields@.len() == 1 && text_field(
            s.fields@[0],
            "command"@,
            "The bash command to execute."@,
            true,
        ),
        ToolKind::ReadFile => s.fields@.len() == 1 && text_field(s.fields@[0], "path"@, ""@, true),
        ToolKind::EditFile => s.fields@.len() == 3 && text_field(
            s.fields@[0],
            "new_str"@,
            "Text to replace the old_str with"@,
            true,
        ) && text_field(
            s.fields@[1],
            "old_str"@,
            "Text to search for - must match exactly and must only have one match exactly"@,
            true,
        ) && text_field(s.fields@[2], "path"@, "The path to the file"@, true),
        ToolKind::ListFiles => s.fields@.len() == 1 && text_field(
            s.fields@[0],
            "path"@,
            "Optional relative path to list files from. Defaults to current directory if not provided."@,
            false,
        ),
    }
}

/// What deserializing a structured value into the capability's input shape
/// yields, if it can be populated at all.
pub open spec fn spec_decode(kind: ToolKind, v: JsonValue) -> Option<TypedInput> {
    match v {
        JsonValue::Object(obj) => match kind {
            ToolKind::Bash => match spec_lookup(obj@, "command"@) {
                Some(JsonValue::Text(command)) => Some(TypedInput::Bash(BashInput { command })),
                _ => None,
            },
            ToolKind::ReadFile => match spec_lookup(obj@, "path"@) {
                Some(JsonValue::Text(path)) => Some(TypedInput::ReadFile(ReadFileInput { path })),
                _ => None,
            },
            ToolKind::EditFile => match (
                spec_lookup(obj@, "new_str"@),
                spec_lookup(obj@, "old_str"@),
                spec_lookup(obj@, "path"@),
            ) {
                (
                    Some(JsonValue::Text(new_str)),
                    Some(JsonValue::Text(old_str)),
                    Some(JsonValue::Text(path)),
                ) => Some(TypedInput::EditFile(EditFileInput { new_str, old_str, path })),
                _ => None,
            },
            ToolKind::ListFiles => match spec_lookup(obj@, "path"@) {
                Some(JsonValue::Text(path)) => Some(
                    TypedInput::ListFiles(ListFilesInput { path: Some(path) }),
                ),
                Some(JsonValue::Null) => Some(TypedInput::ListFiles(ListFilesInput { path: None })),
                None => Some(TypedInput::ListFiles(ListFilesInput { path: None })),
                _ => None,
            },
        },
        _ => None,
    }
}

/// Deserialize a structured value into the capability's input shape. This
/// step is independent of the structural check and never skipped.
pub fn decode(kind: &ToolKind, v: &JsonValue) -> (r: Result<TypedInput, ValidationError>)
    ensures
        r matches Ok(t) ==> spec_decode(*kind, *v) == Some(t),
        r is Err ==> spec_decode(*kind, *v) is None,
        r matches Err(e) ==> e is DecodeFailure,
{
    let obj = match v {
        JsonValue::Object(obj) => obj,
        _ => {
            return Err(ValidationError::DecodeFailure);
        },
    };
    match kind {
        ToolKind::Bash => match lookup(obj, "command") {
            Some(JsonValue::Text(command)) => Ok(
                TypedInput::Bash(BashInput { command: command.clone() }),
            ),
            _ => Err(ValidationError::DecodeFailure),
        },
        ToolKind::ReadFile => match lookup(obj, "path") {
            Some(JsonValue::Text(path)) => Ok(
                TypedInput::ReadFile(ReadFileInput { path: path.clone() }),
            ),
            _ => Err(ValidationError::DecodeFailure),
        },
        ToolKind::EditFile => {
            let new_str = match lookup(obj, "new_str") {
                Some(JsonValue::Text(s)) => s.clone(),
                _ => {
                    return Err(ValidationError::DecodeFailure);
                },
            };
            let old_str = match lookup(obj, "old_str") {
                Some(JsonValue::Text(s)) => s.clone(),
                _ => {
                    return Err(ValidationError::DecodeFailure);
                },
            };
            let path = match lookup(obj, "path") {
                Some(JsonValue::Text(s)) => s.clone(),
                _ => {
                    return Err(ValidationError::DecodeFailure);
                },
            };
            Ok(TypedInput::EditFile(EditFileInput { new_str, old_str, path }))
        },
        ToolKind::ListFiles => match lookup(obj, "path") {
            Some(JsonValue::Text(path)) => Ok(
                TypedInput::ListFiles(ListFilesInput { path: Some(path.clone()) }),
            ),
            Some(JsonValue::Null) => Ok(TypedInput::ListFiles(ListFilesInput { path: None })),
            None => Ok(TypedInput::ListFiles(ListFilesInput { path: None })),
            _ => Err(ValidationError::DecodeFailure),
        },
    }
}

/// A structurally conforming value always populates the input shape: the
/// decode step cannot fail after a passed check.
pub proof fn lemma_conforms_decodes(kind: ToolKind, s: Schema, v: JsonValue)
    requires
        schema_matches(kind, s),
        conforms(s, v),
    ensures
        spec_decode(kind, v) is Some,
{
    match v {
        JsonValue::Object(obj) => {
            match kind {
                ToolKind::Bash => {
                    assert(field_conforms(s.fields@[0], obj@));
                },
                ToolKind::ReadFile => {
                    assert(field_conforms(s.fields@[0], obj@));
                },
                ToolKind::EditFile => {
                    assert(field_conforms(s.fields@[0], obj@));
                    assert(field_conforms(s.fields@[1], obj@));
                    assert(field_conforms(s.fields@[2], obj@));
                },
                ToolKind::ListFiles => {
                    assert(field_conforms(s.fields@[0], obj@));
                },
            }
        },
        _ => {
            assert(false);
        },
    }
}

/// Checks a structured value against a capability's schema and deserializes
/// it into the capability's input shape.
pub struct ToolInputValidator {
    pub schema: Schema,
    pub kind: ToolKind,
}

pub open spec fn validator_wf(v: ToolInputValidator) -> bool {
    schema_matches(v.kind, v.schema)
}

impl ToolInputValidator {
    /// Derive the structural schema of a capability's input shape.
    pub fn new(kind: ToolKind) -> (r: ToolInputValidator)
        ensures
            validator_wf(r),
            r.kind == kind,
    {
        let mut fields: Vec<FieldSchema> = Vec::new();
        match kind {
            ToolKind::Bash => {
                fields.push(
                    FieldSchema {
                        name: "command",
                        description: "The bash command to execute.",
                        required: true,
                        kind: FieldKind::Text,
                    },
                );
            },
            ToolKind::ReadFile => {
                fields.push(
                    FieldSchema {
                        name: "path",
                        description: "",
                        required: true,
                        kind: FieldKind::Text,
                    },
                );
            },
            ToolKind::EditFile => {
                fields.push(
                    FieldSchema {
                        name: "new_str",
                        description: "Text to replace the old_str with",
                        required: true,
                        kind: FieldKind::Text,
                    },
                );
                fields.push(
                    FieldSchema {
                        name: "old_str",
                        description: "Text to search for - must match exactly and must only have one match exactly",
                        required: true,
                        kind: FieldKind::Text,
                    },
                );
                fields.push(
                    FieldSchema {
                        name: "path",
                        description: "The path to the file",
                        required: true,
                        kind: FieldKind::Text,
                    },
                );
            },
            ToolKind::ListFiles => {
                fields.push(
                    FieldSchema {
                        name: "path",
                        description: "Optional relative path to list files from. Defaults to current directory if not provided.",
                        required: false,
                        kind: FieldKind::Text,
                    },
                );
            },
        }
        ToolInputValidator { schema: Schema { fields }, kind }
    }

    /// Accepts exactly the values that structurally conform to the schema;
    /// a refused value carries the first failing field's diagnostic.
    pub fn get_value(&self, input: &JsonValue) -> (r: Result<TypedInput, ValidationError>)
        requires
            validator_wf(*self),
        ensures
            r is Ok <==> conforms(self.schema, *input),
            r matches Ok(t) ==> spec_decode(self.kind, *input) == Some(t),
            r matches Err(e) ==> validation_msg(e) == spec_diag(self.schema, *input),
    {
        if let Err(e) = validate(&self.schema, input) {
            return Err(e);
        }
        match decode(&self.kind, input) {
            Ok(t) => Ok(t),
            Err(e) => {
                // A value that passed the structural check always populates
                // the input shape, so this branch cannot be reached.
                proof {
                    lemma_conforms_decodes(self.kind, self.schema, *input);
                }
                assert(false);
                Err(e)
            },
        }
    }
}

/// A registered capability: its unique name, the description shown to the
/// model, and the validator holding its derived schema and dispatch tag.
/// Immutable after registration.
pub struct Tool {
    pub name: String,
    pub description: String,
    pub validator: ToolInputValidator,
}

pub open spec fn tool_wf(t: Tool) -> bool {
    validator_wf(t.validator)
}

impl Tool {
    /// Register a capability under a name: the schema the model will see is
    /// derived from the capability's input shape here, once.
    pub fn new(name: String, description: String, kind: ToolKind) -> (t: Tool)
        ensures
            tool_wf(t),
            t.name@ == name@,
            t.description@ == description@,
            t.validator.kind == kind,
    {
        Tool { name, description, validator: ToolInputValidator::new(kind) }
    }
}

} // verus!
