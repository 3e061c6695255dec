//! Reading what the endpoint answered: the status, the envelope, and the
//! shape of the payload.
use vstd::prelude::*;
use vstd::string::*;
use crate::base64::{decodable, decode, decoded, is_decodable, text_bytes};
use crate::driver::{Session, TimeoutType};
use crate::json::{
    decode_error, member, pair_views, parsed, payload_of, text_views, Json, JsonView,
};
use crate::text::{is_numeral, numeral_value, read_u32, same_text};
use crate::{SError, SErrorView, SResult};

verus! {

/// What came back for a request: the status and the body of the answer, or
/// the reason why there was none.
#[derive(Debug)]
pub enum Reply {
    Answered(u16, String),
    Failed(String),
}

/// The mathematical content of a [`Reply`].
pub enum ReplyView {
    Answered(u16, Seq<char>),
    Failed(Seq<char>),
}

impl View for Reply {
    type V = ReplyView;

    open spec fn view(&self) -> ReplyView {
        match self {
            Reply::Answered(status, body) => ReplyView::Answered(*status, body@),
            Reply::Failed(reason) => ReplyView::Failed(reason@),
        }
    }
}

/// The transport error that a reply stands for: no answer at all is the code
/// -1 with the reason, an answer with a status other than 200 is that status
/// with the raw body. A reply with the status 200 is no transport error.
pub open spec fn transport_failure(reply: ReplyView) -> Option<SErrorView> {
    match reply {
        ReplyView::Failed(reason) => Some(SErrorView::Http(-1, reason)),
        ReplyView::Answered(status, body) => if status != 200 {
            Some(SErrorView::Http(status as int, body))
        } else {
            None
        },
    }
}

/// Whether `e` is of the decode kind, with any message.
pub open spec fn is_decode_view(e: SErrorView) -> bool {
    e is Decode
}

/// What a reply carries: the payload of its envelope, or else the transport
/// error it stands for, or else nothing (the body is no JSON document, or
/// the document is no envelope).
pub open spec fn answer(reply: ReplyView) -> Result<JsonView, Option<SErrorView>> {
    match transport_failure(reply) {
        Some(e) => Err(Some(e)),
        None => match parsed(reply->Answered_1) {
            Some(document) => match payload_of(document) {
                Some(payload) => Ok(payload),
                None => Err(None),
            },
            None => Err(None),
        },
    }
}

/// The decode error for a payload that is not of the shape that was
/// expected.
pub open spec fn shape_error(message: Seq<char>) -> SErrorView {
    SErrorView::Decode(message)
}

/// Whether `e` is the error of a reply that carries no payload: the
/// transport error where the reply stands for one; the decode error that
/// the member `value` is missing where the body is a document without
/// envelope; and a decode error, with the reason that the reading of the
/// body gave, where the body is no document.
pub open spec fn reply_failure(e: SErrorView, reply: ReplyView) -> bool {
    match answer(reply) {
        Ok(_) => false,
        Err(Some(t)) => e == t,
        Err(None) => if parsed(reply->Answered_1) is Some {
            e == shape_error("missing field `value`"@)
        } else {
            is_decode_view(e)
        },
    }
}

/// Whether `e` is the error that reading `reply` owes: the error of a reply
/// that carries no payload, or, for a payload that is not `readable`, the
/// decode error with `message`.
pub open spec fn explains(
    e: SErrorView,
    reply: ReplyView,
    readable: bool,
    message: Seq<char>,
) -> bool {
    if answer(reply) is Ok {
        !readable && e == shape_error(message)
    } else {
        reply_failure(e, reply)
    }
}

/// The text that a payload is.
pub open spec fn text_of(j: JsonView) -> Option<Seq<char>> {
    match j {
        JsonView::Text(t) => Some(t),
        _ => None,
    }
}

/// The truth value that a payload is.
pub open spec fn bool_of(j: JsonView) -> Option<bool> {
    match j {
        JsonView::Bool(b) => Some(b),
        _ => None,
    }
}

/// The text that a payload is, where `null` stands for no text.
pub open spec fn optional_text_of(j: JsonView) -> Option<Option<Seq<char>>> {
    match j {
        JsonView::Null => Some(None),
        JsonView::Text(t) => Some(Some(t)),
        _ => None,
    }
}

/// The texts that a payload lists.
pub open spec fn texts_of(j: JsonView) -> Option<Seq<Seq<char>>> {
    match j {
        JsonView::Array(items) => if forall|i: int|
            0 <= i < items.len() ==> (#[trigger] items[i]) is Text {
            Some(Seq::new(items.len(), |i: int| items[i]->Text_0))
        } else {
            None
        },
        _ => None,
    }
}

/// The reference that one entry of a find holds: the first member of an
/// object whose members are all texts, as the name and the reference; no
/// reference where the object is empty; and nothing where the entry is no
/// such object.
pub open spec fn reference_of(j: JsonView) -> Option<Option<(Seq<char>, Seq<char>)>> {
    match j {
        JsonView::Object(members) => if forall|i: int|
            0 <= i < members.len() ==> (#[trigger] members[i]).1 is Text {
            if members.len() == 0 {
                Some(None)
            } else {
                Some(Some((members[0].0, members[0].1->Text_0)))
            }
        } else {
            None
        },
        _ => None,
    }
}

/// The references of the entries that hold one, in the order of the entries.
pub open spec fn references_in(items: Seq<JsonView>) -> Seq<(Seq<char>, Seq<char>)>
    decreases items.len(),
{
    if items.len() == 0 {
        Seq::empty()
    } else {
        references_in(items.drop_last()) + match reference_of(items.last()) {
            Some(Some(pair)) => seq![pair],
            _ => Seq::empty(),
        }
    }
}

/// The references that the payload of a find of several elements lists: the
/// entries that hold none are left out.
pub open spec fn references_of(j: JsonView) -> Option<Seq<(Seq<char>, Seq<char>)>> {
    match j {
        JsonView::Array(items) => if forall|i: int|
            0 <= i < items.len() ==> reference_of(#[trigger] items[i]) is Some {
            Some(references_in(items))
        } else {
            None
        },
        _ => None,
    }
}

/// The timeout that a member of the timeouts object stands for: `script` and
/// `pageLoad` by their names, every other name is the implicit timeout.
pub open spec fn timeout_of(name: Seq<char>, value: u32) -> TimeoutType {
    if name == "script"@ {
        TimeoutType::Script(value)
    } else if name == "pageLoad"@ {
        TimeoutType::PageLoad(value)
    } else {
        TimeoutType::Implicit(value)
    }
}

/// Whether `j` is a number without sign or fraction that fits 32 bits.
pub open spec fn is_u32(j: JsonView) -> bool {
    j is Number && is_numeral(j->Number_0) && numeral_value(j->Number_0) <= u32::MAX
}

/// The timeouts that a payload lists, in the order of its members.
pub open spec fn timeouts_of(j: JsonView) -> Option<Seq<TimeoutType>> {
    match j {
        JsonView::Object(members) => if forall|i: int|
            0 <= i < members.len() ==> is_u32((#[trigger] members[i]).1) {
            Some(
                Seq::new(
                    members.len(),
                    |i: int|
                        timeout_of(members[i].0, numeral_value(members[i].1->Number_0) as u32),
                ),
            )
        } else {
            None
        },
        _ => None,
    }
}

/// The text of the member `name` of an object.
pub open spec fn text_member(j: JsonView, name: Seq<char>) -> Option<Seq<char>> {
    match j {
        JsonView::Object(members) => match member(members, name) {
            Some(value) => text_of(value),
            None => None,
        },
        _ => None,
    }
}

/// The handle of a new window: the member `handle` of an object that also
/// says, in its member `type`, what was opened.
pub open spec fn window_of(j: JsonView) -> Option<Seq<char>> {
    if text_member(j, "type"@) is Some {
        text_member(j, "handle"@)
    } else {
        None
    }
}

/// Reads a payload as a text.
pub fn as_text(j: &Json) -> (r: SResult<String>)
    ensures
        match r {
            Ok(t) => text_of(j@) == Some(t@),
            Err(e) => text_of(j@) is None && e@ == shape_error("expected a string"@),
        },
{
    match j {
        Json::Text(t) => Ok(t.clone()),
        _ => Err(decode_error("expected a string")),
    }
}

/// Reads a payload as a truth value.
pub fn as_bool(j: &Json) -> (r: SResult<bool>)
    ensures
        match r {
            Ok(b) => bool_of(j@) == Some(b),
            Err(e) => bool_of(j@) is None && e@ == shape_error("expected a boolean"@),
        },
{
    match j {
        Json::Bool(b) => Ok(*b),
        _ => Err(decode_error("expected a boolean")),
    }
}

/// Reads a payload as a text that may be absent.
pub fn as_optional_text(j: &Json) -> (r: SResult<Option<String>>)
    ensures
        match r {
            Ok(t) => optional_text_of(j@) == Some(crate::json::optional_view(t)),
            Err(e) => optional_text_of(j@) is None && e@ == shape_error("expected a string or null"@),
        },
{
    match j {
        Json::Null => Ok(None),
        Json::Text(t) => Ok(Some(t.clone())),
        _ => Err(decode_error("expected a string or null")),
    }
}

/// Reads a payload as a list of texts.
#[verifier::loop_isolation(false)]
pub fn as_texts(j: &Json) -> (r: SResult<Vec<String>>)
    ensures
        match r {
            Ok(v) => texts_of(j@) == Some(text_views(v@)),
            Err(e) => texts_of(j@) is None && e@ == shape_error("expected an array of strings"@),
        },
{
    match j {
        Json::Array(items) => {
            let ghost all = j@->Array_0;
            let mut out: Vec<String> = Vec::new();
            let mut i: usize = 0;
            while i < items.len()
                invariant
                    i <= items.len(),
                    all.len() == items.len(),
                    forall|k: int| 0 <= k < items.len() ==> all[k] == items[k]@,
                    out@.len() == i,
                    forall|k: int| 0 <= k < i ==> all[k] is Text && all[k]->Text_0 == out@[k]@,
                decreases items.len() - i,
            {
                match &items[i] {
                    Json::Text(t) => {
                        out.push(t.clone());
                    },
                    _ => {
                        assert(!(all[i as int] is Text));
                        return Err(decode_error("expected an array of strings"));
                    },
                }
                i += 1;
            }
            assert(text_views(out@) =~= Seq::new(all.len(), |k: int| all[k]->Text_0));
            Ok(out)
        },
        _ => Err(decode_error("expected an array of strings")),
    }
}

/// Reads one entry of a find.
///
/// Gives the name and the reference of the first member; no reference for an
/// empty object; and a decode error for anything but an object of texts.
#[verifier::loop_isolation(false)]
pub fn as_entry(j: &Json) -> (r: SResult<Option<(String, String)>>)
    ensures
        match r {
            Ok(Some(pair)) => reference_of(j@) == Some(Some((pair.0@, pair.1@))),
            Ok(None) => reference_of(j@) == Some(None::<(Seq<char>, Seq<char>)>),
            Err(e) => reference_of(j@) is None && e@ == shape_error("expected an object of strings"@),
        },
{
    match j {
        Json::Object(members) => {
            let ghost all = j@->Object_0;
            let mut i: usize = 0;
            while i < members.len()
                invariant
                    i <= members.len(),
                    all.len() == members.len(),
                    forall|k: int|
                        0 <= k < members.len() ==> all[k] == (members[k].0@, members[k].1@),
                    forall|k: int| 0 <= k < i ==> (#[trigger] all[k]).1 is Text,
                decreases members.len() - i,
            {
                match &members[i].1 {
                    Json::Text(_) => {},
                    _ => {
                        assert(!(all[i as int].1 is Text));
                        return Err(decode_error("expected an object of strings"));
                    },
                }
                i += 1;
            }
            if members.len() == 0 {
                Ok(None)
            } else {
                match &members[0].1 {
                    Json::Text(id) => Ok(Some((members[0].0.clone(), id.clone()))),
                    _ => {
                        assert(all[0].1 is Text);
                        Err(decode_error("expected an object of strings"))
                    },
                }
            }
        },
        _ => Err(decode_error("expected an object of strings")),
    }
}

/// Reads the payload of a find of one element.
///
/// An empty object is no element: the error is of the `Browser` kind and
/// carries `missing`.
pub fn as_reference(j: &Json, missing: &str) -> (r: SResult<(String, String)>)
    ensures
        match r {
            Ok(pair) => reference_of(j@) == Some(Some((pair.0@, pair.1@))),
            Err(e) => match reference_of(j@) {
                Some(Some(_)) => false,
                Some(None) => e@ == SErrorView::Browser(missing@),
                None => e@ == shape_error("expected an object of strings"@),
            },
        },
{
    match as_entry(j) {
        Ok(Some(pair)) => Ok(pair),
        Ok(None) => Err(SError::Browser(String::from_str(missing))),
        Err(e) => Err(e),
    }
}

/// Reads the payload of a find of several elements: the reference of every
/// entry that holds one.
#[verifier::loop_isolation(false)]
pub fn as_references(j: &Json) -> (r: SResult<Vec<(String, String)>>)
    ensures
        match r {
            Ok(v) => references_of(j@) == Some(pair_views(v@)),
            Err(e) => references_of(j@) is None && e@ == shape_error("expected an array of objects of strings"@),
        },
{
    match j {
        Json::Array(items) => {
            let ghost all = j@->Array_0;
            let mut out: Vec<(String, String)> = Vec::new();
            let mut i: usize = 0;
            while i < items.len()
                invariant
                    i <= items.len(),
                    all.len() == items.len(),
                    forall|k: int| 0 <= k < items.len() ==> all[k] == items[k]@,
                    forall|k: int| 0 <= k < i ==> reference_of(#[trigger] all[k]) is Some,
                    pair_views(out@) == references_in(all.take(i as int)),
                decreases items.len() - i,
            {
                let ghost before = pair_views(out@);
                proof {
                    assert(all.take(i as int + 1).drop_last() =~= all.take(i as int));
                    assert(all.take(i as int + 1).last() == all[i as int]);
                }
                match as_entry(&items[i]) {
                    Ok(Some(pair)) => {
                        out.push(pair);
                        assert(pair_views(out@) =~= before + seq![(pair.0@, pair.1@)]);
                    },
                    Ok(None) => {
                        assert(pair_views(out@) =~= before + Seq::empty());
                    },
                    Err(_) => {
                        return Err(decode_error("expected an array of objects of strings"));
                    },
                }
                i += 1;
            }
            assert(all.take(i as int) =~= all);
            Ok(out)
        },
        _ => Err(decode_error("expected an array of objects of strings")),
    }
}

/// Reads the payload of the timeouts of a session.
#[verifier::loop_isolation(false)]
pub fn as_timeouts(j: &Json) -> (r: SResult<Vec<TimeoutType>>)
    ensures
        match r {
            Ok(v) => timeouts_of(j@) == Some(v@),
            Err(e) => timeouts_of(j@) is None && e@ == shape_error("expected an object of numbers"@),
        },
{
    match j {
        Json::Object(members) => {
            let ghost all = j@->Object_0;
            let mut out: Vec<TimeoutType> = Vec::new();
            let mut i: usize = 0;
            while i < members.len()
                invariant
                    i <= members.len(),
                    all.len() == members.len(),
                    forall|k: int|
                        0 <= k < members.len() ==> all[k] == (members[k].0@, members[k].1@),
                    out@.len() == i,
                    forall|k: int|
                        0 <= k < i ==> is_u32((#[trigger] all[k]).1) && out@[k] == timeout_of(
                            all[k].0,
                            numeral_value(all[k].1->Number_0) as u32,
                        ),
                decreases members.len() - i,
            {
                let value = match &members[i].1 {
                    Json::Number(literal) => read_u32(literal.as_str()),
                    _ => None,
                };
                match value {
                    Some(n) => {
                        let name = members[i].0.as_str();
                        if same_text(name, "script") {
                            out.push(TimeoutType::Script(n));
                        } else if same_text(name, "pageLoad") {
                            out.push(TimeoutType::PageLoad(n));
                        } else {
                            out.push(TimeoutType::Implicit(n));
                        }
                    },
                    None => {
                        assert(!is_u32(all[i as int].1));
                        return Err(decode_error("expected an object of numbers"));
                    },
                }
                i += 1;
            }
            assert(out@ =~= Seq::new(
                all.len(),
                |k: int| timeout_of(all[k].0, numeral_value(all[k].1->Number_0) as u32),
            ));
            Ok(out)
        },
        _ => Err(decode_error("expected an object of numbers")),
    }
}

/// Reads the text of the member `name` of an object.
pub fn as_text_member(j: &Json, name: &str) -> (r: SResult<String>)
    ensures
        match r {
            Ok(t) => text_member(j@, name@) == Some(t@),
            Err(e) => text_member(j@, name@) is None && e@ == shape_error("expected a member that is a string"@),
        },
{
    match j.get(name) {
        Some(Json::Text(text)) => Ok(text.clone()),
        _ => Err(decode_error("expected a member that is a string")),
    }
}

/// Reads the payload of a new session: its identifier is the text of the
/// member `sessionId`.
pub fn as_session(j: &Json) -> (r: SResult<Session>)
    ensures
        match r {
            Ok(s) => text_member(j@, "sessionId"@) == Some(s.session_id@),
            Err(e) => text_member(j@, "sessionId"@) is None && e@ == shape_error("expected a member that is a string"@),
        },
{
    match as_text_member(j, "sessionId") {
        Ok(session_id) => Ok(Session { session_id }),
        Err(e) => Err(e),
    }
}

/// Reads the payload of a new window: its handle.
pub fn as_window(j: &Json) -> (r: SResult<String>)
    ensures
        match r {
            Ok(t) => window_of(j@) == Some(t@),
            Err(e) => window_of(j@) is None && e@ == shape_error("expected a member that is a string"@),
        },
{
    match as_text_member(j, "type") {
        Ok(_) => as_text_member(j, "handle"),
        Err(e) => Err(e),
    }
}

/// Checks the status of a reply whose body is of no interest.
///
/// Succeeds exactly on an answer with the status 200.
pub fn req_without_res(reply: Reply) -> (r: SResult<()>)
    ensures
        match r {
            Ok(_) => transport_failure(reply@) is None,
            Err(e) => transport_failure(reply@) == Some(e@),
        },
{
    match reply {
        Reply::Failed(reason) => Err(SError::Http(-1, reason)),
        Reply::Answered(status, body) => {
            if status != 200 {
                Err(SError::Http(status as i32, body))
            } else {
                Ok(())
            }
        },
    }
}

/// Reads the payload of a reply: checks the status, reads the body as JSON
/// and takes the payload out of the envelope.
pub fn req(reply: Reply) -> (r: SResult<Json>)
    ensures
        match r {
            Ok(j) => answer(reply@) == Ok::<JsonView, Option<SErrorView>>(j@),
            Err(e) => reply_failure(e@, reply@),
        },
{
    match reply {
        Reply::Failed(reason) => Err(SError::Http(-1, reason)),
        Reply::Answered(status, body) => {
            if status != 200 {
                Err(SError::Http(status as i32, body))
            } else {
                match Json::parse(body.as_str()) {
                    Ok(document) => match document.take("value") {
                        Some(payload) => Ok(payload),
                        None => Err(decode_error("missing field `value`")),
                    },
                    Err(e) => Err(e),
                }
            }
        },
    }
}

/// Reads a reply whose payload is a text.
pub fn read_text(reply: Reply) -> (r: SResult<String>)
    ensures
        match r {
            Ok(v) => answer(reply@) is Ok && text_of(answer(reply@)->Ok_0) == Some(v@),
            Err(e) => explains(
                e@,
                reply@,
                answer(reply@) is Ok && text_of(answer(reply@)->Ok_0) is Some,
                "expected a string"@,
            ),
        },
{
    match req(reply) {
        Ok(payload) => as_text(&payload),
        Err(e) => Err(e),
    }
}

/// Reads a reply whose payload is a truth value.
pub fn read_bool(reply: Reply) -> (r: SResult<bool>)
    ensures
        match r {
            Ok(v) => answer(reply@) is Ok && bool_of(answer(reply@)->Ok_0) == Some(v),
            Err(e) => explains(
                e@,
                reply@,
                answer(reply@) is Ok && bool_of(answer(reply@)->Ok_0) is Some,
                "expected a boolean"@,
            ),
        },
{
    match req(reply) {
        Ok(payload) => as_bool(&payload),
        Err(e) => Err(e),
    }
}

/// Reads a reply whose payload is a text or `null`.
pub fn read_optional_text(reply: Reply) -> (r: SResult<Option<String>>)
    ensures
        match r {
            Ok(v) => answer(reply@) is Ok && optional_text_of(answer(reply@)->Ok_0) == Some(
                crate::json::optional_view(v),
            ),
            Err(e) => explains(
                e@,
                reply@,
                answer(reply@) is Ok && optional_text_of(answer(reply@)->Ok_0) is Some,
                "expected a string or null"@,
            ),
        },
{
    match req(reply) {
        Ok(payload) => as_optional_text(&payload),
        Err(e) => Err(e),
    }
}

/// Reads a reply whose payload is a list of texts.
pub fn read_texts(reply: Reply) -> (r: SResult<Vec<String>>)
    ensures
        match r {
            Ok(v) => answer(reply@) is Ok && texts_of(answer(reply@)->Ok_0) == Some(text_views(v@)),
            Err(e) => explains(
                e@,
                reply@,
                answer(reply@) is Ok && texts_of(answer(reply@)->Ok_0) is Some,
                "expected an array of strings"@,
            ),
        },
{
    match req(reply) {
        Ok(payload) => as_texts(&payload),
        Err(e) => Err(e),
    }
}

/// Reads the reply to a find of several elements: the name and the
/// reference of every entry that holds one.
pub fn read_references(reply: Reply) -> (r: SResult<Vec<(String, String)>>)
    ensures
        match r {
            Ok(v) => answer(reply@) is Ok && references_of(answer(reply@)->Ok_0) == Some(pair_views(v@)),
            Err(e) => explains(
                e@,
                reply@,
                answer(reply@) is Ok && references_of(answer(reply@)->Ok_0) is Some,
                "expected an array of objects of strings"@,
            ),
        },
{
    match req(reply) {
        Ok(payload) => as_references(&payload),
        Err(e) => Err(e),
    }
}

/// Reads the reply that lists the timeouts of a session.
pub fn read_timeouts(reply: Reply) -> (r: SResult<Vec<TimeoutType>>)
    ensures
        match r {
            Ok(v) => answer(reply@) is Ok && timeouts_of(answer(reply@)->Ok_0) == Some(v@),
            Err(e) => explains(
                e@,
                reply@,
                answer(reply@) is Ok && timeouts_of(answer(reply@)->Ok_0) is Some,
                "expected an object of numbers"@,
            ),
        },
{
    match req(reply) {
        Ok(payload) => as_timeouts(&payload),
        Err(e) => Err(e),
    }
}

/// Reads the reply to the opening of a window: its handle.
pub fn read_window(reply: Reply) -> (r: SResult<String>)
    ensures
        match r {
            Ok(v) => answer(reply@) is Ok && window_of(answer(reply@)->Ok_0) == Some(v@),
            Err(e) => explains(
                e@,
                reply@,
                answer(reply@) is Ok && window_of(answer(reply@)->Ok_0) is Some,
                "expected a member that is a string"@,
            ),
        },
{
    match req(reply) {
        Ok(payload) => as_window(&payload),
        Err(e) => Err(e),
    }
}

/// Reads the reply to a new session: the session that the endpoint made.
pub fn read_session(reply: Reply) -> (r: SResult<Session>)
    ensures
        match r {
            Ok(v) => answer(reply@) is Ok && text_member(answer(reply@)->Ok_0, "sessionId"@)
                == Some(v.session_id@),
            Err(e) => explains(
                e@,
                reply@,
                answer(reply@) is Ok && text_member(answer(reply@)->Ok_0, "sessionId"@) is Some,
                "expected a member that is a string"@,
            ),
        },
{
    match req(reply) {
        Ok(payload) => as_session(&payload),
        Err(e) => Err(e),
    }
}

/// Reads the reply to a find of one element: the name and the reference of
/// the element.
///
/// Where the endpoint answered with an empty object, the error is of the
/// `Browser` kind and carries `missing`.
pub fn read_reference(reply: Reply, missing: &str) -> (r: SResult<(String, String)>)
    ensures
        match r {
            Ok(v) => answer(reply@) is Ok && reference_of(answer(reply@)->Ok_0) == Some(
                Some((v.0@, v.1@)),
            ),
            Err(e) => if answer(reply@) is Ok && reference_of(answer(reply@)->Ok_0) == Some(
                None::<(Seq<char>, Seq<char>)>,
            ) {
                e@ == SErrorView::Browser(missing@)
            } else {
                explains(
                    e@,
                    reply@,
                    answer(reply@) is Ok && reference_of(answer(reply@)->Ok_0) is Some,
                    "expected an object of strings"@,
                )
            },
        },
{
    match req(reply) {
        Ok(payload) => as_reference(&payload, missing),
        Err(e) => Err(e),
    }
}

/// The picture that a payload holds: the bytes that its text, which is
/// base64, decodes to.
pub open spec fn picture_of(j: JsonView) -> Option<Seq<u8>> {
    match j {
        JsonView::Text(t) => if vstd::utf8::is_ascii_chars(t) && decodable(text_bytes(t)) {
            Some(decoded(text_bytes(t)))
        } else {
            None
        },
        _ => None,
    }
}

/// Reads a payload as a picture.
pub fn as_picture(j: &Json) -> (r: SResult<Vec<u8>>)
    ensures
        match r {
            Ok(v) => picture_of(j@) == Some(v@),
            Err(e) => picture_of(j@) is None && e@ == shape_error("expected base64"@),
        },
{
    match j {
        Json::Text(t) => {
            let text = t.as_str();
            if !text.is_ascii() {
                return Err(decode_error("expected base64"));
            }
            let bytes = text.as_bytes();
            proof {
                vstd::string::is_ascii_spec_bytes(text);
                assert(bytes@ =~= text_bytes(t@));
            }
            if is_decodable(bytes) {
                Ok(decode(bytes))
            } else {
                Err(decode_error("expected base64"))
            }
        },
        _ => Err(decode_error("expected base64")),
    }
}

/// Reads the reply to a screenshot: the bytes of the picture.
pub fn read_picture(reply: Reply) -> (r: SResult<Vec<u8>>)
    ensures
        match r {
            Ok(v) => answer(reply@) is Ok && picture_of(answer(reply@)->Ok_0) == Some(v@),
            Err(e) => explains(
                e@,
                reply@,
                answer(reply@) is Ok && picture_of(answer(reply@)->Ok_0) is Some,
                "expected base64"@,
            ),
        },
{
    match req(reply) {
        Ok(payload) => as_picture(&payload),
        Err(e) => Err(e),
    }
}

/// Whether an entry of a find holds a reference.
pub open spec fn holds_reference(item: JsonView) -> bool {
    reference_of(item) is Some && reference_of(item)->Some_0 is Some
}

/// The reference of an entry that holds one.
pub open spec fn reference_in(item: JsonView) -> (Seq<char>, Seq<char>) {
    reference_of(item)->Some_0->Some_0
}

/// The number of entries that hold a reference.
pub open spec fn entries_with_reference(items: Seq<JsonView>) -> nat
    decreases items.len(),
{
    if items.len() == 0 {
        0
    } else {
        entries_with_reference(items.drop_last()) + if holds_reference(items.last()) {
            1nat
        } else {
            0nat
        }
    }
}

/// Whether no two of the references that were found are the same.
pub open spec fn distinct_references(found: Seq<(Seq<char>, Seq<char>)>) -> bool {
    forall|i: int, j: int|
        0 <= i < j < found.len() ==> (#[trigger] found[i]).1 != (#[trigger] found[j]).1
}

/// What a find of several elements returns answers to the entries of the
/// reply: there is one reference for each entry that holds one, each of
/// them is the reference of such an entry, so that an empty entry gives none,
/// and where the endpoint named no element twice, no reference is returned
/// twice.
pub proof fn found_references_are_the_entries(items: Seq<JsonView>)
    ensures
        references_in(items).len() == entries_with_reference(items),
        forall|k: int|
            0 <= k < references_in(items).len() ==> exists|i: int|
                0 <= i < items.len() && holds_reference(#[trigger] items[i]) && reference_in(
                    items[i],
                ) == #[trigger] references_in(items)[k],
        (forall|i: int, j: int|
            0 <= i < j < items.len() && holds_reference(#[trigger] items[i]) && holds_reference(
                #[trigger] items[j],
            ) ==> reference_in(items[i]).1 != reference_in(items[j]).1) ==> distinct_references(
            references_in(items),
        ),
    decreases items.len(),
{
    if items.len() > 0 {
        let init = items.drop_last();
        let last = items.last();
        found_references_are_the_entries(init);
        let before = references_in(init);
        let found = references_in(items);
        assert forall|k: int| 0 <= k < found.len() implies exists|i: int|
            0 <= i < items.len() && holds_reference(#[trigger] items[i]) && reference_in(items[i])
                == #[trigger] found[k] by {
            if k < before.len() {
                assert(found[k] == before[k]);
                let i = choose|i: int|
                    0 <= i < init.len() && holds_reference(#[trigger] init[i]) && reference_in(
                        init[i],
                    ) == before[k];
                assert(items[i] == init[i]);
            } else {
                assert(holds_reference(items[items.len() - 1]));
            }
        }
        if forall|i: int, j: int|
            0 <= i < j < items.len() && holds_reference(#[trigger] items[i]) && holds_reference(
                #[trigger] items[j],
            ) ==> reference_in(items[i]).1 != reference_in(items[j]).1 {
            assert forall|i: int, j: int|
                0 <= i < j < init.len() && holds_reference(#[trigger] init[i])
                    && holds_reference(#[trigger] init[j]) implies reference_in(init[i]).1
                != reference_in(init[j]).1 by {
                assert(items[i] == init[i] && items[j] == init[j]);
            }
            assert forall|a: int, b: int| 0 <= a < b < found.len() implies (#[trigger] found[a]).1
                != (#[trigger] found[b]).1 by {
                if b < before.len() {
                    assert(found[a] == before[a] && found[b] == before[b]);
                } else {
                    assert(found[a] == before[a]);
                    let i = choose|i: int|
                        0 <= i < init.len() && holds_reference(#[trigger] init[i])
                            && reference_in(init[i]) == before[a];
                    assert(items[i] == init[i]);
                    assert(holds_reference(items[items.len() - 1]));
                    assert(found[b] == reference_in(items[items.len() - 1]));
                }
            }
        }
    }
}

/// The transport unwraps what was wrapped: an answer with the status 200
/// whose body holds the envelope of a value carries that value.
pub proof fn enveloped_answer_carries_the_value(body: Seq<char>, value: JsonView)
    requires
        parsed(body) == Some(crate::json::enveloped(value)),
    ensures
        answer(ReplyView::Answered(200, body)) == Ok::<JsonView, Option<SErrorView>>(value),
{
    crate::json::envelope_round_trip(value);
}

/// The failures of a reply are told apart by their kind: a reply that
/// carries no payload fails with the `Http` kind exactly where there was no
/// answer or the status is not 200, and with the `Decode` kind exactly where
/// the status is 200 and the body is no envelope; a payload of another shape
/// than was expected fails with the `Decode` kind.
pub proof fn failures_are_told_apart(e: SErrorView, reply: ReplyView, message: Seq<char>)
    requires
        explains(e, reply, false, message),
    ensures
        e is Http <==> transport_failure(reply) is Some,
        e is Decode <==> transport_failure(reply) is None,
        !(e is Browser),
{
}

} // verus!
