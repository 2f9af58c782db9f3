use vstd::prelude::*;

verus! {

/// The primitive type of a field.
#[derive(PartialEq, Eq, Structural, Clone, Copy, Debug)]
pub enum PrimitiveType {
    Text,
}

/// The type of a field: a primitive, or a struct of named fields.
#[derive(Debug)]
pub enum DataType {
    Primitive(PrimitiveType),
    Struct(Vec<Field>),
}

/// A named, typed field of a schema.
#[derive(Debug)]
pub struct Field {
    pub name: String,
    pub data_type: DataType,
    pub nullable: bool,
}

/// A table schema: its top-level fields in declaration order.
#[derive(Debug)]
pub struct Schema {
    pub fields: Vec<Field>,
}

/// `f` is a required text field named `name`.
pub open spec fn is_required_text(f: Field, name: Seq<char>) -> bool {
    &&& f.name@ == name
    &&& f.data_type == DataType::Primitive(PrimitiveType::Text)
    &&& !f.nullable
}

/// `f` is the required metadata struct of an event: event id, event time and
/// event type, all required text.
pub open spec fn is_metadata_field(f: Field) -> bool {
    &&& f.name@ == "metadata"@
    &&& !f.nullable
    &&& match f.data_type {
        DataType::Struct(inner) => {
            &&& inner@.len() == 3
            &&& is_required_text(inner@[0], "event_id"@)
            &&& is_required_text(inner@[1], "event_ts"@)
            &&& is_required_text(inner@[2], "event_type"@)
        },
        DataType::Primitive(_) => false,
    }
}

/// `s` is the schema of a login event: the metadata struct followed by user
/// name, user agent, email and client address, all required text.
pub open spec fn is_login_event_schema(s: Schema) -> bool {
    &&& s.fields@.len() == 5
    &&& is_metadata_field(s.fields@[0])
    &&& is_required_text(s.fields@[1], "username"@)
    &&& is_required_text(s.fields@[2], "user_agent"@)
    &&& is_required_text(s.fields@[3], "email"@)
    &&& is_required_text(s.fields@[4], "ip_address"@)
}

fn required_text(name: &str) -> (r: Field)
    ensures
        is_required_text(r, name@),
{
    Field { name: name.to_owned(), data_type: DataType::Primitive(PrimitiveType::Text), nullable: false }
}

/// The declared schema of the login-event table.
pub fn login_event_schema() -> (r: Schema)
    ensures
        is_login_event_schema(r),
{
    let metadata = Field {
        name: "metadata".to_owned(),
        data_type: DataType::Struct(
            vec![required_text("event_id"), required_text("event_ts"), required_text("event_type")],
        ),
        nullable: false,
    };
    Schema {
        fields: vec![
            metadata,
            required_text("username"),
            required_text("user_agent"),
            required_text("email"),
            required_text("ip_address"),
        ],
    }
}

} // verus!
