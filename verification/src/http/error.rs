//! The errors that a call can end in.

use crate::json::JsonValue;
use vstd::prelude::*;
use vstd::string::{StrSliceExecFns, StringExecFns};

verus! {

/// How deep the per-field errors of an error body are looked into. A body
/// that was read from bytes is never nested deeper.
pub const MAX_ERROR_DEPTH: usize = 128;

/// One entry of the per-field errors in an error body.
#[derive(Clone, Debug)]
pub struct FieldError {
    /// The code of the error.
    pub code: String,
    /// What went wrong, in words.
    pub message: String,
    /// The path of the field within the payload that was sent.
    pub path: String,
}

/// The structured body of an unsuccessful response.
#[derive(Clone, Debug)]
pub struct ErrorBody {
    /// The platform's error code.
    pub code: i64,
    /// What went wrong, in words.
    pub message: String,
    /// The errors of single fields, if the payload was refused for them.
    pub errors: Vec<FieldError>,
}

/// One per-field error as texts: its code, its message and its path.
pub open spec fn field_error_view(e: FieldError) -> (Seq<char>, Seq<char>, Seq<char>) {
    (e.code@, e.message@, e.path@)
}

/// Per-field errors as texts.
pub open spec fn field_error_views(
    errors: Seq<FieldError>,
) -> Seq<(Seq<char>, Seq<char>, Seq<char>)> {
    Seq::new(errors.len(), |i: int| field_error_view(errors[i]))
}

/// The path of a field within the field at `path`: the two with a `.`
/// between them, or the name alone at the top.
pub open spec fn joined_path(path: Seq<char>, name: Seq<char>) -> Seq<char> {
    if path.len() == 0 {
        name
    } else {
        path + "."@ + name
    }
}

/// The error that one entry of an `_errors` list stands for, at `path`: one
/// if the entry has a code and a message that are texts, else none.
pub open spec fn item_error(
    item: JsonValue,
    path: Seq<char>,
) -> Seq<(Seq<char>, Seq<char>, Seq<char>)> {
    match (item.member("code"@), item.member("message"@)) {
        (Some(c), Some(m)) => match (c.text(), m.text()) {
            (Some(code), Some(message)) => seq![(code, message, path)],
            _ => Seq::empty(),
        },
        _ => Seq::empty(),
    }
}

/// The errors that the entries of an `_errors` list stand for, in order.
pub open spec fn items_errors(
    items: Seq<JsonValue>,
    path: Seq<char>,
) -> Seq<(Seq<char>, Seq<char>, Seq<char>)>
    decreases items.len(),
{
    if items.len() == 0 {
        Seq::empty()
    } else {
        items_errors(items.drop_last(), path) + item_error(items.last(), path)
    }
}

/// The errors that the value of an `_errors` member stands for: those of its
/// entries if it is a list, else none.
pub open spec fn listed_errors(listed: JsonValue, path: Seq<char>) -> Seq<
    (Seq<char>, Seq<char>, Seq<char>),
> {
    match listed {
        JsonValue::Array(items) => items_errors(items@, path),
        _ => Seq::empty(),
    }
}

/// The per-field errors in a value, which stands at `path`, down to `depth`
/// levels. The errors of a field are listed under its member `_errors`;
/// every other member is a field within the field, looked into in turn.
pub open spec fn nested_errors(
    value: JsonValue,
    path: Seq<char>,
    depth: nat,
) -> Seq<(Seq<char>, Seq<char>, Seq<char>)>
    decreases depth, 0nat, 0nat,
{
    if depth == 0 {
        Seq::empty()
    } else {
        match value {
            JsonValue::Object(members) => members_errors(members@, path, (depth - 1) as nat),
            _ => Seq::empty(),
        }
    }
}

/// The per-field errors in the members of an object, which stands at `path`,
/// in the order of the members.
pub open spec fn members_errors(
    members: Seq<(String, JsonValue)>,
    path: Seq<char>,
    depth: nat,
) -> Seq<(Seq<char>, Seq<char>, Seq<char>)>
    decreases depth, 1nat, members.len(),
{
    if members.len() == 0 {
        Seq::empty()
    } else {
        members_errors(members.drop_last(), path, depth) + (if members.last().0@ == "_errors"@ {
            listed_errors(members.last().1, path)
        } else {
            nested_errors(members.last().1, joined_path(path, members.last().0@), depth)
        })
    }
}

/// The code and the message of an error body: there if the value is an
/// object whose `code` is a whole number and whose `message` is a text.
pub open spec fn error_head(value: JsonValue) -> Option<(i64, Seq<char>)> {
    match (value.member("code"@), value.member("message"@)) {
        (Some(c), Some(m)) => match (c.integer(), m.text()) {
            (Some(code), Some(message)) => Some((code, message)),
            _ => None,
        },
        _ => None,
    }
}

/// The per-field errors of an error body: those under its member `errors`,
/// none if it has no such member.
pub open spec fn error_fields(value: JsonValue) -> Seq<(Seq<char>, Seq<char>, Seq<char>)> {
    match value.member("errors"@) {
        Some(errors) => nested_errors(errors, Seq::empty(), MAX_ERROR_DEPTH as nat),
        None => Seq::empty(),
    }
}

fn collect_item(item: &JsonValue, path: &str, out: &mut Vec<FieldError>)
    ensures
        field_error_views(final(out)@) == field_error_views(old(out)@) + item_error(*item, path@),
{
    let ghost before = field_error_views(out@);
    if let (Some(c), Some(m)) = (item.field("code"), item.field("message")) {
        if let (Some(code), Some(message)) = (c.as_text(), m.as_text()) {
            out.push(
                FieldError {
                    code: String::from_str(code),
                    message: String::from_str(message),
                    path: String::from_str(path),
                },
            );
            assert(field_error_views(out@) =~= before + seq![(code@, message@, path@)]);
            return ;
        }
    }
    assert(field_error_views(out@) =~= before + Seq::<(Seq<char>, Seq<char>, Seq<char>)>::empty());
}

fn collect_listed(listed: &JsonValue, path: &str, out: &mut Vec<FieldError>)
    ensures
        field_error_views(final(out)@)
            == field_error_views(old(out)@) + listed_errors(*listed, path@),
{
    let ghost before = field_error_views(out@);
    match listed {
        JsonValue::Array(items) => {
            let mut i: usize = 0;
            assert(items@.subrange(0, 0) =~= Seq::<JsonValue>::empty());
            assert(field_error_views(out@) =~= before + items_errors(items@.subrange(0, 0), path@));
            while i < items.len()
                invariant
                    0 <= i <= items.len(),
                    field_error_views(out@) == before + items_errors(
                        items@.subrange(0, i as int),
                        path@,
                    ),
                decreases items.len() - i,
            {
                let ghost so_far = items_errors(items@.subrange(0, i as int), path@);
                proof {
                    let next = items@.subrange(0, i + 1);
                    assert(next.drop_last() =~= items@.subrange(0, i as int));
                    assert(next.last() == items@[i as int]);
                }
                collect_item(&items[i], path, out);
                assert(field_error_views(out@)
                    =~= before + (so_far + item_error(items@[i as int], path@)));
                i += 1;
            }
            assert(items@.subrange(0, i as int) =~= items@);
        },
        _ => {
            assert(field_error_views(out@)
                =~= before + Seq::<(Seq<char>, Seq<char>, Seq<char>)>::empty());
        },
    }
}

fn join_path(path: &str, name: &str) -> (joined: String)
    ensures
        joined@ == joined_path(path@, name@),
{
    if path.unicode_len() == 0 {
        String::from_str(name)
    } else {
        let mut joined = String::from_str(path);
        joined.append(".");
        joined.append(name);
        joined
    }
}

fn collect_nested(value: &JsonValue, path: &str, depth: usize, out: &mut Vec<FieldError>)
    ensures
        field_error_views(final(out)@) == field_error_views(old(out)@) + nested_errors(
            *value,
            path@,
            depth as nat,
        ),
    decreases depth,
{
    let ghost before = field_error_views(out@);
    if depth == 0 {
        assert(field_error_views(out@)
            =~= before + Seq::<(Seq<char>, Seq<char>, Seq<char>)>::empty());
        return ;
    }
    match value {
        JsonValue::Object(members) => {
            let marker = String::from_str("_errors");
            let mut i: usize = 0;
            assert(members@.subrange(0, 0) =~= Seq::<(String, JsonValue)>::empty());
            assert(field_error_views(out@) =~= before + members_errors(
                members@.subrange(0, 0),
                path@,
                (depth - 1) as nat,
            ));
            while i < members.len()
                invariant
                    0 <= i <= members.len(),
                    depth > 0,
                    marker@ == "_errors"@,
                    field_error_views(out@) == before + members_errors(
                        members@.subrange(0, i as int),
                        path@,
                        (depth - 1) as nat,
                    ),
                decreases members.len() - i,
            {
                let ghost so_far = members_errors(
                    members@.subrange(0, i as int),
                    path@,
                    (depth - 1) as nat,
                );
                proof {
                    let next = members@.subrange(0, i + 1);
                    assert(next.drop_last() =~= members@.subrange(0, i as int));
                    assert(next.last() == members@[i as int]);
                }
                if members[i].0 == marker {
                    collect_listed(&members[i].1, path, out);
                    assert(field_error_views(out@) =~= before + (so_far + listed_errors(
                        members@[i as int].1,
                        path@,
                    )));
                } else {
                    let deeper = join_path(path, members[i].0.as_str());
                    collect_nested(&members[i].1, deeper.as_str(), depth - 1, out);
                    assert(field_error_views(out@) =~= before + (so_far + nested_errors(
                        members@[i as int].1,
                        joined_path(path@, members@[i as int].0@),
                        (depth - 1) as nat,
                    )));
                }
                i += 1;
            }
            assert(members@.subrange(0, i as int) =~= members@);
        },
        _ => {
            assert(field_error_views(out@)
                =~= before + Seq::<(Seq<char>, Seq<char>, Seq<char>)>::empty());
        },
    }
}

impl ErrorBody {
    /// Decodes the body of an unsuccessful response. The body is an error
    /// body if it is an object with a whole number as `code` and a text as
    /// `message`; its per-field errors are those nested under `errors`,
    /// each with the path of its field, names joined by `.`.
    pub fn decode(value: &JsonValue) -> (body: Option<ErrorBody>)
        ensures
            match body {
                Some(b) => error_head(*value) == Some((b.code, b.message@)) && field_error_views(
                    b.errors@,
                ) == error_fields(*value),
                None => error_head(*value) is None,
            },
    {
        let (code, message) = match (value.field("code"), value.field("message")) {
            (Some(c), Some(m)) => match (c.as_i64(), m.as_text()) {
                (Some(code), Some(message)) => (code, String::from_str(message)),
                _ => return None,
            },
            _ => return None,
        };
        let mut errors: Vec<FieldError> = Vec::new();
        assert(field_error_views(errors@) =~= Seq::<(Seq<char>, Seq<char>, Seq<char>)>::empty());
        if let Some(nested) = value.field("errors") {
            proof {
                reveal_strlit("");
                assert(""@ =~= Seq::<char>::empty());
            }
            collect_nested(nested, "", MAX_ERROR_DEPTH, &mut errors);
            assert(field_error_views(errors@) =~= error_fields(*value));
        }
        Some(ErrorBody { code, message, errors })
    }
}

/// A failure of the transport below HTTP: no response came back.
#[derive(Clone, Debug)]
pub struct NetworkError {
    /// What the transport said.
    pub message: String,
}

/// How a call can fail.
#[derive(Clone, Debug)]
pub enum DispatchError {
    /// The transport failed: name resolution, TLS, connect or timeout. Never
    /// retried here.
    Network(NetworkError),
    /// The server kept answering 429 until the retry cap was reached.
    RateLimited { retry_after_ms: u64, global: bool },
    /// The server refused the request. `body` is the decoded error body, if
    /// there was one that could be decoded.
    ClientError { status: u16, body: Option<ErrorBody> },
    /// The server failed. `body` is the decoded error body, if there was one
    /// that could be decoded.
    ServerError { status: u16, body: Option<ErrorBody> },
    /// The body of a successful response did not have the expected shape.
    Decode,
    /// The call needs something that is not known yet, such as the
    /// application id for a route of the application.
    PreconditionMissing,
}

} // verus!
