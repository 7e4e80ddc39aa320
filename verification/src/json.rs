use vstd::prelude::*;
use crate::text::{bytes_of, same_text, text_bytes};

verus! {

/// One member of a JSON object: its name, and its text where the value is a
/// JSON string. Values of any other kind are recorded as `None`.
#[derive(Clone, Debug, PartialEq, Eq)]
pub struct JsonMember {
    pub name: String,
    pub text: Option<String>,
}

impl View for JsonMember {
    type V = (Seq<char>, Option<Seq<char>>);

    open spec fn view(&self) -> (Seq<char>, Option<Seq<char>>) {
        (
            self.name@,
            match self.text {
                Some(t) => Some(t@),
                None => None,
            },
        )
    }
}

/// The message that the echo route accepts and repeats.
#[derive(Clone, Debug, PartialEq, Eq)]
pub struct EchoMessage {
    pub message: String,
}

/// Models of a list of members, in the same order.
pub open spec fn members_view(members: Seq<JsonMember>) -> Seq<(Seq<char>, Option<Seq<char>>)> {
    members.map_values(|m: JsonMember| m@)
}

/// Model of what a parse gave: the members' models, or `None` where it gave
/// no object.
pub open spec fn parsed_view(parsed: Option<Vec<JsonMember>>) -> Option<
    Seq<(Seq<char>, Option<Seq<char>>)>,
> {
    match parsed {
        Some(members) => Some(members_view(members@)),
        None => None,
    }
}

/// The members of the JSON object that `body` holds, in the order in which
/// the parsed object hands them out; `None` where `body` is not the text of
/// one JSON object.
pub uninterp spec fn json_object_members(body: Seq<u8>) -> Option<
    Seq<(Seq<char>, Option<Seq<char>>)>,
>;

/// The bytes of the JSON string literal that stands for `text`, quotes
/// included.
pub uninterp spec fn json_string_literal(text: Seq<char>) -> Seq<u8>;

/// Parses `body` with `serde_json::from_slice` into a `serde_json::Value`.
/// Trusted: the result is `Some` exactly when the parse succeeds and gives an
/// object, and then lists the object's members as its map hands them out,
/// with the text of each member whose value is a string. The same bytes
/// always give the same list.
#[verifier::external_body]
fn parse_object_members(body: &[u8]) -> (parsed: Option<Vec<JsonMember>>)
    ensures
        parsed_view(parsed) == json_object_members(body@),
{
    match serde_json::from_slice::<serde_json::Value>(body) {
        Ok(serde_json::Value::Object(map)) => {
            let mut members = Vec::new();
            for (name, value) in map {
                let text = match value {
                    serde_json::Value::String(text) => Some(text),
                    _ => None,
                };
                members.push(JsonMember { name, text });
            }
            Some(members)
        },
        _ => None,
    }
}

/// Writes `text` as a JSON string through `serde_json::Value`'s `Display`.
/// Trusted: the bytes returned are that literal.
#[verifier::external_body]
fn encode_string(text: &str) -> (literal: Vec<u8>)
    ensures
        literal@ == json_string_literal(text@),
{
    serde_json::Value::String(text.to_owned()).to_string().into_bytes()
}

/// Text of the first member called `name` at or after position `from`, if
/// that member is a string.
pub open spec fn string_member_from(
    members: Seq<(Seq<char>, Option<Seq<char>>)>,
    name: Seq<char>,
    from: int,
) -> Option<Seq<char>>
    decreases members.len() - from,
{
    if from < 0 || from >= members.len() {
        None
    } else if members[from].0 == name {
        members[from].1
    } else {
        string_member_from(members, name, from + 1)
    }
}

/// Text of the first member called `name`, if that member is a string.
pub open spec fn string_member(
    members: Seq<(Seq<char>, Option<Seq<char>>)>,
    name: Seq<char>,
) -> Option<Seq<char>> {
    string_member_from(members, name, 0)
}

/// The text substituted when a body holds no usable message.
pub open spec fn default_message() -> Seq<char> {
    "Invalid JSON"@
}

/// Parse-or-default: the string member `message` of the parsed object, and
/// the default text where the parse failed, the member is absent or it is no
/// string.
pub open spec fn message_or_default(
    parsed: Option<Seq<(Seq<char>, Option<Seq<char>>)>>,
) -> Seq<char> {
    match parsed {
        Some(members) => match string_member(members, "message"@) {
            Some(text) => text,
            None => default_message(),
        },
        None => default_message(),
    }
}

/// The message that the echo route reads out of a request body.
pub open spec fn echo_message(body: Seq<u8>) -> Seq<char> {
    message_or_default(json_object_members(body))
}

/// A JSON object with the one member `echoedMessage`, whose value is the
/// given string literal.
pub open spec fn echo_frame(literal: Seq<u8>) -> Seq<u8> {
    text_bytes("{\"echoedMessage\":"@) + literal + text_bytes("}"@)
}

/// The reply body of the echo route for a message.
pub open spec fn echo_body(message: Seq<char>) -> Seq<u8> {
    echo_frame(json_string_literal(message))
}

/// Looks up the first member called `name` and returns its text if it is a
/// string.
pub fn find_string_member(members: &Vec<JsonMember>, name: &str) -> (found: Option<String>)
    ensures
        found is Some <==> string_member(members_view(members@), name@) is Some,
        found matches Some(text) ==> string_member(members_view(members@), name@) == Some(text@),
{
    let ghost model = members_view(members@);
    let mut i: usize = 0;
    while i < members.len()
        invariant
            i <= members.len(),
            model == members_view(members@),
            string_member(model, name@) == string_member_from(model, name@, i as int),
        decreases members.len() - i,
    {
        let member = &members[i];
        assert(model[i as int] == member@);
        if same_text(member.name.as_str(), name) {
            return match &member.text {
                Some(text) => Some(text.clone()),
                None => None,
            };
        }
        i += 1;
    }
    None
}

/// Applies the parse-or-default policy to the outcome of a parse.
pub fn select_message(parsed: Option<Vec<JsonMember>>) -> (chosen: EchoMessage)
    ensures
        chosen.message@ == message_or_default(parsed_view(parsed)),
{
    let found = match &parsed {
        Some(members) => find_string_member(members, "message"),
        None => None,
    };
    match found {
        Some(message) => EchoMessage { message },
        None => EchoMessage { message: "Invalid JSON".to_owned() },
    }
}

/// Reads the message out of a request body; never fails.
pub fn parse_message(body: &[u8]) -> (chosen: EchoMessage)
    ensures
        chosen.message@ == echo_message(body@),
{
    select_message(parse_object_members(body))
}

/// Wraps an encoded string literal into the reply object of the echo route.
pub fn frame_echo(literal: Vec<u8>) -> (body: Vec<u8>)
    ensures
        body@ == echo_frame(literal@),
{
    let mut literal = literal;
    let mut body = bytes_of("{\"echoedMessage\":");
    let mut tail = bytes_of("}");
    body.append(&mut literal);
    body.append(&mut tail);
    body
}

/// Encodes the reply body of the echo route for a message.
pub fn encode_echo(message: &EchoMessage) -> (body: Vec<u8>)
    ensures
        body@ == echo_body(message.message@),
{
    frame_echo(encode_string(message.message.as_str()))
}

} // verus!
