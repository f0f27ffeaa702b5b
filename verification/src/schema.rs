use vstd::prelude::*;
use crate::json::JsonValue;
use crate::json::lookup;
use crate::json::spec_lookup;
use crate::text::concat_strs;
use vstd::string::StringExecFns;

verus! {

/// The structural type a schema field demands.
pub enum FieldKind {
    Text,
    Boolean,
    Number,
}

/// One field of an input schema: its name, the documentation shown to the
/// model, whether it must be present, and its structural type. An optional
/// field may also be null.
pub struct FieldSchema {
    pub name: &'static str,
    pub description: &'static str,
    pub required: bool,
    pub kind: FieldKind,
}

/// A structural input schema: an object with the given fields. Members the
/// schema does not name are ignored.
pub struct Schema {
    pub fields: Vec<FieldSchema>,
}

pub open spec fn kind_ok(kind: FieldKind, v: JsonValue) -> bool {
    match kind {
        FieldKind::Text => v is Text,
        FieldKind::Boolean => v is Bool,
        FieldKind::Number => v is Number,
    }
}

/// One field conforms when a required member is present with the demanded
/// type, and an optional member, if present, has the demanded type or is
/// null.
pub open spec fn field_conforms(f: FieldSchema, obj: Seq<(String, JsonValue)>) -> bool {
    match spec_lookup(obj, f.name@) {
        None => !f.required,
        Some(v) => kind_ok(f.kind, v) || (!f.required && v is Null),
    }
}

/// A value conforms to a schema when it is an object and every schema field
/// conforms. This is the whole structural check: no constraint beyond shape.
pub open spec fn conforms(s: Schema, v: JsonValue) -> bool {
    match v {
        JsonValue::Object(obj) => forall|i: int|
            0 <= i < s.fields@.len() ==> field_conforms(#[trigger] s.fields@[i], obj@),
        _ => false,
    }
}

/// The diagnostic for the one field a failed check reports.
pub open spec fn field_diag(f: FieldSchema, obj: Seq<(String, JsonValue)>) -> Seq<char> {
    if spec_lookup(obj, f.name@) is None {
        "missing required field: "@ + f.name@
    } else {
        "wrong type for field: "@ + f.name@
    }
}

/// The diagnostic of the first non-conforming field, scanning in schema
/// order.
pub open spec fn fields_diag(fs: Seq<FieldSchema>, obj: Seq<(String, JsonValue)>) -> Seq<char>
    decreases fs.len(),
{
    if fs.len() == 0 {
        Seq::empty()
    } else if !field_conforms(fs[0], obj) {
        field_diag(fs[0], obj)
    } else {
        fields_diag(fs.drop_first(), obj)
    }
}

/// The diagnostic a failed structural check carries.
pub open spec fn spec_diag(s: Schema, v: JsonValue) -> Seq<char> {
    match v {
        JsonValue::Object(obj) => fields_diag(s.fields@, obj@),
        _ => "input is not a JSON object"@,
    }
}

/// The names of the required fields, in schema order.
pub open spec fn required_names(fields: Seq<FieldSchema>) -> Seq<Seq<char>>
    decreases fields.len(),
{
    if fields.len() == 0 {
        Seq::empty()
    } else {
        required_names(fields.drop_last()) + (if fields.last().required {
            seq![fields.last().name@]
        } else {
            Seq::<Seq<char>>::empty()
        })
    }
}

/// The structural form of one field in the exposed declaration: a required
/// field is a string, an optional one a string or null; its documentation
/// is carried when there is any.
pub open spec fn field_decl_ok(f: FieldSchema, v: JsonValue) -> bool {
    match v {
        JsonValue::Object(members) => {
            &&& members@.len() == (if f.description@.len() == 0 {
                1int
            } else {
                2int
            })
            &&& members@[0].0@ == "type"@
            &&& (if f.required {
                members@[0].1 matches JsonValue::Text(t) && t@ == "string"@
            } else {
                members@[0].1 matches JsonValue::Array(items) && items@.len() == 2 && (items@[0]
                    matches JsonValue::Text(a) && a@ == "string"@) && (items@[1] matches
                JsonValue::Text(b) && b@ == "null"@)
            })
            &&& (f.description@.len() > 0 ==> (members@[1].0@ == "description"@ && (members@[1].1
                matches JsonValue::Text(d) && d@ == f.description@)))
        },
        _ => false,
    }
}

/// The whole declaration: an object schema with one property per field, in
/// schema order, and the required names listed. This is the value exposed
/// verbatim to the model for each registered tool.
pub open spec fn schema_decl_ok(s: Schema, v: JsonValue) -> bool {
    match v {
        JsonValue::Object(members) => {
            &&& members@.len() == 3
            &&& members@[0].0@ == "type"@
            &&& (members@[0].1 matches JsonValue::Text(t) && t@ == "object"@)
            &&& members@[1].0@ == "properties"@
            &&& (members@[1].1 matches JsonValue::Object(props) && props@.len()
                == s.fields@.len() && (forall|i: int|
                0 <= i < s.fields@.len() ==> (#[trigger] props@[i]).0@ == s.fields@[i].name@
                    && field_decl_ok(s.fields@[i], props@[i].1)))
            &&& members@[2].0@ == "required"@
            &&& (members@[2].1 matches JsonValue::Array(reqs) && reqs@.len() == required_names(
                s.fields@,
            ).len() && (forall|i: int|
                0 <= i < reqs@.len() ==> ((#[trigger] reqs@[i]) matches JsonValue::Text(t) && t@
                    == required_names(s.fields@)[i])))
        },
        _ => false,
    }
}

fn field_declaration(f: &FieldSchema) -> (v: JsonValue)
    ensures
        field_decl_ok(*f, v),
{
    let mut members: Vec<(String, JsonValue)> = Vec::new();
    if f.required {
        members.push((String::from_str("type"), JsonValue::Text(String::from_str("string"))));
    } else {
        let mut items: Vec<JsonValue> = Vec::new();
        items.push(JsonValue::Text(String::from_str("string")));
        items.push(JsonValue::Text(String::from_str("null")));
        members.push((String::from_str("type"), JsonValue::Array(items)));
    }
    if !f.description.is_empty() {
        members.push(
            (String::from_str("description"), JsonValue::Text(String::from_str(f.description))),
        );
    }
    JsonValue::Object(members)
}

/// Render a derived schema as the structured declaration the model sees:
/// the shell only translates this value into the transport's encoding.
pub fn schema_declaration(s: &Schema) -> (v: JsonValue)
    ensures
        schema_decl_ok(*s, v),
{
    let n: usize = s.fields.len();
    let mut props: Vec<(String, JsonValue)> = Vec::new();
    let mut reqs: Vec<JsonValue> = Vec::new();
    let mut i: usize = 0;
    proof {
        assert(required_names(s.fields@.subrange(0, 0)) =~= Seq::<Seq<char>>::empty());
    }
    while i < n
        invariant
            n == s.fields@.len(),
            i <= n,
            props@.len() == i,
            forall|j: int|
                0 <= j < i ==> ((#[trigger] props@[j]).0@ == s.fields@[j].name@ && field_decl_ok(
                    s.fields@[j],
                    props@[j].1,
                )),
            reqs@.len() == required_names(s.fields@.subrange(0, i as int)).len(),
            forall|j: int|
                0 <= j < reqs@.len() ==> ((#[trigger] reqs@[j]) matches JsonValue::Text(t) && t@
                    == required_names(s.fields@.subrange(0, i as int))[j]),
        decreases n - i,
    {
        let ghost pre = s.fields@.subrange(0, i as int);
        let ghost post = s.fields@.subrange(0, i + 1);
        proof {
            assert(post.drop_last() =~= pre);
            assert(post.last() == s.fields@[i as int]);
        }
        let f = &s.fields[i];
        props.push((String::from_str(f.name), field_declaration(f)));
        if f.required {
            reqs.push(JsonValue::Text(String::from_str(f.name)));
            proof {
                assert(required_names(post) =~= required_names(pre).push(f.name@));
            }
        } else {
            proof {
                assert(required_names(post) =~= required_names(pre));
            }
        }
        i += 1;
    }
    proof {
        assert(s.fields@.subrange(0, n as int) =~= s.fields@);
    }
    let mut members: Vec<(String, JsonValue)> = Vec::new();
    members.push((String::from_str("type"), JsonValue::Text(String::from_str("object"))));
    members.push((String::from_str("properties"), JsonValue::Object(props)));
    members.push((String::from_str("required"), JsonValue::Array(reqs)));
    JsonValue::Object(members)
}

/// Why an input was refused before its capability ran: it failed the
/// structural check, or a structurally valid value still could not populate
/// the target shape.
pub enum ValidationError {
    NotAnObject,
    MissingField { name: &'static str },
    WrongType { name: &'static str },
    DecodeFailure,
}

pub open spec fn validation_msg(e: ValidationError) -> Seq<char> {
    match e {
        ValidationError::NotAnObject => "input is not a JSON object"@,
        ValidationError::MissingField { name } => "missing required field: "@ + name@,
        ValidationError::WrongType { name } => "wrong type for field: "@ + name@,
        ValidationError::DecodeFailure => "failed to decode input"@,
    }
}

impl ValidationError {
    /// The human-readable diagnostic of this failure.
    pub fn message(&self) -> (r: String)
        ensures
            r@ == validation_msg(*self),
    {
        match self {
            ValidationError::NotAnObject => {
                let r = String::from_str("input is not a JSON object");
                r
            },
            ValidationError::MissingField { name } => {
                let r = concat_strs("missing required field: ", name);
                r
            },
            ValidationError::WrongType { name } => {
                let r = concat_strs("wrong type for field: ", name);
                r
            },
            ValidationError::DecodeFailure => {
                let r = String::from_str("failed to decode input");
                r
            },
        }
    }
}

fn kind_check(kind: &FieldKind, v: &JsonValue) -> (r: bool)
    ensures
        r == kind_ok(*kind, *v),
{
    match kind {
        FieldKind::Text => matches!(v, JsonValue::Text(_)),
        FieldKind::Boolean => matches!(v, JsonValue::Bool(_)),
        FieldKind::Number => matches!(v, JsonValue::Number(_)),
    }
}

/// Check a value against a schema: accepted exactly when it structurally
/// conforms; refused with the first failing field's diagnostic otherwise.
pub fn validate(s: &Schema, v: &JsonValue) -> (r: Result<(), ValidationError>)
    ensures
        r is Ok <==> conforms(*s, *v),
        r matches Err(e) ==> validation_msg(e) == spec_diag(*s, *v),
{
    let obj = match v {
        JsonValue::Object(obj) => obj,
        _ => {
            return Err(ValidationError::NotAnObject);
        },
    };
    let n: usize = s.fields.len();
    let mut i: usize = 0;
    assert(s.fields@.skip(0) =~= s.fields@);
    while i < n
        invariant
            n == s.fields@.len(),
            i <= n,
            v matches JsonValue::Object(o) && o@ == obj@,
            forall|j: int| 0 <= j < i ==> field_conforms(#[trigger] s.fields@[j], obj@),
            fields_diag(s.fields@, obj@) == fields_diag(s.fields@.skip(i as int), obj@),
        decreases n - i,
    {
        let f = &s.fields[i];
        assert(s.fields@.skip(i as int)[0] == s.fields@[i as int]);
        match lookup(obj, f.name) {
            None => {
                if f.required {
                    assert(!field_conforms(s.fields@[i as int], obj@));
                    return Err(ValidationError::MissingField { name: f.name });
                }
            },
            Some(val) => {
                if !kind_check(&f.kind, val) {
                    let null_ok = !f.required && matches!(val, JsonValue::Null);
                    if !null_ok {
                        assert(!field_conforms(s.fields@[i as int], obj@));
                        return Err(ValidationError::WrongType { name: f.name });
                    }
                }
            },
        }
        assert(field_conforms(s.fields@[i as int], obj@));
        assert(s.fields@.skip(i as int).drop_first() =~= s.fields@.skip(i + 1));
        i += 1;
    }
    Ok(())
}

} // verus!
