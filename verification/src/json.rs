//! JSON values as trees, their compact text, and the envelope that every
//! reply of the endpoint comes in.
use vstd::prelude::*;
use vstd::string::*;
use crate::text::same_text;
use crate::SError;

verus! {

#[verifier::external_type_specification]
#[verifier::external_body]
pub struct ExValue(serde_json::Value);

#[verifier::external_type_specification]
#[verifier::external_body]
pub struct ExJsonError(serde_json::Error);

/// A JSON value.
#[derive(Debug)]
pub enum Json {
    Null,
    Bool(bool),
    /// A number, held as its literal.
    Number(String),
    Text(String),
    Array(Vec<Json>),
    /// An object: its members in order, each a name and a value.
    Object(Vec<(String, Json)>),
}

/// The mathematical content of a [`Json`] value.
pub enum JsonView {
    Null,
    Bool(bool),
    Number(Seq<char>),
    Text(Seq<char>),
    Array(Seq<JsonView>),
    Object(Seq<(Seq<char>, JsonView)>),
}

/// The content of the value `j`.
pub open spec fn json_view(j: Json) -> JsonView
    decreases j,
{
    match j {
        Json::Null => JsonView::Null,
        Json::Bool(b) => JsonView::Bool(b),
        Json::Number(literal) => JsonView::Number(literal@),
        Json::Text(text) => JsonView::Text(text@),
        Json::Array(items) => JsonView::Array(
            Seq::new(
                items.len() as nat,
                |i: int|
                    if 0 <= i < items.len() {
                        json_view(items[i])
                    } else {
                        JsonView::Null
                    },
            ),
        ),
        Json::Object(members) => JsonView::Object(
            Seq::new(
                members.len() as nat,
                |i: int|
                    if 0 <= i < members.len() {
                        (members[i].0@, json_view(members[i].1))
                    } else {
                        (Seq::empty(), JsonView::Null)
                    },
            ),
        ),
    }
}

/// The contents of the items of an array.
pub open spec fn item_views(items: Seq<Json>) -> Seq<JsonView> {
    Seq::new(items.len(), |i: int| items[i]@)
}

/// The contents of the members of an object.
pub open spec fn member_views(members: Seq<(String, Json)>) -> Seq<(Seq<char>, JsonView)> {
    Seq::new(members.len(), |i: int| (members[i].0@, members[i].1@))
}

/// The contents of a list of pairs of texts.
pub open spec fn pair_views(pairs: Seq<(String, String)>) -> Seq<(Seq<char>, Seq<char>)> {
    Seq::new(pairs.len(), |i: int| (pairs[i].0@, pairs[i].1@))
}

/// The contents of a list of texts.
pub open spec fn text_views(texts: Seq<String>) -> Seq<Seq<char>> {
    Seq::new(texts.len(), |i: int| texts[i]@)
}

/// The members of an object that maps names to texts.
pub open spec fn text_members(pairs: Seq<(Seq<char>, Seq<char>)>) -> Seq<(Seq<char>, JsonView)> {
    Seq::new(pairs.len(), |i: int| (pairs[i].0, JsonView::Text(pairs[i].1)))
}

/// The items of an array of texts.
pub open spec fn text_items(texts: Seq<Seq<char>>) -> Seq<JsonView> {
    Seq::new(texts.len(), |i: int| JsonView::Text(texts[i]))
}

/// The member `name` with the number `value`, or no member where there is
/// no number.
pub open spec fn optional_number(name: Seq<char>, value: Option<int>) -> Seq<
    (Seq<char>, JsonView),
> {
    match value {
        Some(n) => seq![(name, JsonView::Number(crate::text::signed_decimal(n)))],
        None => Seq::empty(),
    }
}

/// The member `name` with the text `value`, or no member where there is no
/// text.
pub open spec fn optional_text(name: Seq<char>, value: Option<Seq<char>>) -> Seq<
    (Seq<char>, JsonView),
> {
    match value {
        Some(text) => seq![(name, JsonView::Text(text))],
        None => Seq::empty(),
    }
}

/// An optional number of 32 bits without sign, as an integer.
pub open spec fn wide_u32(value: Option<u32>) -> Option<int> {
    match value {
        Some(n) => Some(n as int),
        None => None,
    }
}

/// An optional number of 32 bits with sign, as an integer.
pub open spec fn wide_i32(value: Option<i32>) -> Option<int> {
    match value {
        Some(n) => Some(n as int),
        None => None,
    }
}

/// The content of an optional text.
pub open spec fn optional_view(value: Option<String>) -> Option<Seq<char>> {
    match value {
        Some(text) => Some(text@),
        None => None,
    }
}

impl View for Json {
    type V = JsonView;

    open spec fn view(&self) -> JsonView {
        json_view(*self)
    }
}

/// The digit, in lower case, of a value below 16 in base 16.
pub open spec fn hex_digit(v: int) -> char {
    if v < 10 {
        (48 + v) as u8 as char
    } else {
        (87 + v) as u8 as char
    }
}

/// A character as it stands inside a JSON string literal: the double quote
/// and the backslash behind a backslash; backspace, tab, line feed, form feed
/// and carriage return by their letters; every other character below the
/// space by its code in base 16; and any other character as it is.
pub open spec fn escaped_char(c: char) -> Seq<char> {
    if c == '"' {
        seq!['\\', '"']
    } else if c == '\\' {
        seq!['\\', '\\']
    } else if c as u32 == 8 {
        seq!['\\', 'b']
    } else if c as u32 == 9 {
        seq!['\\', 't']
    } else if c as u32 == 10 {
        seq!['\\', 'n']
    } else if c as u32 == 12 {
        seq!['\\', 'f']
    } else if c as u32 == 13 {
        seq!['\\', 'r']
    } else if (c as u32) < 32 {
        seq!['\\', 'u', '0', '0', hex_digit(c as int / 16), hex_digit(c as int % 16)]
    } else {
        seq![c]
    }
}

/// A text as it stands inside a JSON string literal.
pub open spec fn escaped(text: Seq<char>) -> Seq<char>
    decreases text.len(),
{
    if text.len() == 0 {
        Seq::empty()
    } else {
        escaped(text.drop_last()) + escaped_char(text.last())
    }
}

/// The JSON string literal for `text`: the text between double quotes, with
/// the characters escaped that JSON does not allow inside a string.
pub open spec fn quoted(text: Seq<char>) -> Seq<char> {
    seq!['"'] + escaped(text) + seq!['"']
}

/// Whether a character stands for itself inside a JSON string literal.
pub open spec fn is_plain(c: char) -> bool {
    c != '"' && c != '\\' && c as u32 >= 32
}

/// A text without a double quote, a backslash or a control character is
/// written as it stands, between double quotes.
pub proof fn plain_text_is_quoted_as_it_stands(text: Seq<char>)
    requires
        forall|i: int| 0 <= i < text.len() ==> is_plain(#[trigger] text[i]),
    ensures
        escaped(text) == text,
        quoted(text) == seq!['"'] + text + seq!['"'],
    decreases text.len(),
{
    if text.len() > 0 {
        plain_text_is_quoted_as_it_stands(text.drop_last());
        assert(is_plain(text.last()));
        assert(escaped(text) =~= text);
    } else {
        assert(escaped(text) =~= text);
    }
}

/// What `text` holds when read as one JSON document, and nothing where it is
/// no such document.
pub uninterp spec fn parsed(text: Seq<char>) -> Option<JsonView>;

/// The content of a parsed document.
pub uninterp spec fn tree(value: serde_json::Value) -> JsonView;

/// Trusted: `serde_json::to_string` on a string slice, which writes the JSON
/// string literal for it: the text between double quotes, each character
/// escaped as the escape table of the serializer has it.
#[verifier::external_body]
fn quote(text: &str) -> (r: String)
    ensures
        r@ == quoted(text@),
{
    serde_json::to_string(text).unwrap_or_default()
}

/// Trusted: `serde_json::from_str` for `serde_json::Value`, which reads one
/// JSON document or reports why the text is none. The contract only names
/// the outcome as a function of the text.
#[verifier::external_body]
fn read_value(text: &str) -> (r: Result<serde_json::Value, serde_json::Error>)
    ensures
        match r {
            Ok(value) => parsed(text@) == Some(tree(value)),
            Err(_) => parsed(text@) is None,
        },
{
    serde_json::from_str::<serde_json::Value>(text)
}

/// Trusted: takes a `serde_json::Value` apart, variant by variant, into a
/// value of this library with the same content; a number becomes the literal
/// that `serde_json::Number` displays, an object its members in the order in
/// which `serde_json::Map` hands them out.
#[verifier::external_body]
fn from_value(value: serde_json::Value) -> (j: Json)
    ensures
        j@ == tree(value),
{
    match value {
        serde_json::Value::Null => Json::Null,
        serde_json::Value::Bool(b) => Json::Bool(b),
        serde_json::Value::Number(n) => Json::Number(n.to_string()),
        serde_json::Value::String(s) => Json::Text(s),
        serde_json::Value::Array(a) => Json::Array(a.into_iter().map(from_value).collect()),
        serde_json::Value::Object(o) => Json::Object(
            o.into_iter().map(|(k, v)| (k, from_value(v))).collect(),
        ),
    }
}

/// Trusted: the message that a `serde_json::Error` displays. Nothing is
/// claimed of it.
#[verifier::external_body]
fn error_text(e: &serde_json::Error) -> (r: String) {
    e.to_string()
}

/// The compact text of the items of an array, separated by commas.
pub open spec fn rendered_items(items: Seq<JsonView>) -> Seq<char>
    decreases items, 0nat,
{
    if items.len() == 0 {
        Seq::empty()
    } else if items.len() == 1 {
        rendered(items[0])
    } else {
        rendered_items(items.drop_last()) + ","@ + rendered(items.last())
    }
}

/// The compact text of one member of an object.
pub open spec fn rendered_member(member: (Seq<char>, JsonView)) -> Seq<char>
    decreases member, 0nat,
{
    quoted(member.0) + ":"@ + rendered(member.1)
}

/// The compact text of the members of an object, separated by commas.
pub open spec fn rendered_members(members: Seq<(Seq<char>, JsonView)>) -> Seq<char>
    decreases members, 0nat,
{
    if members.len() == 0 {
        Seq::empty()
    } else if members.len() == 1 {
        rendered_member(members[0])
    } else {
        rendered_members(members.drop_last()) + ","@ + rendered_member(members.last())
    }
}

/// The compact text of a JSON value: no white space, members and items in
/// their order.
pub open spec fn rendered(j: JsonView) -> Seq<char>
    decreases j, 1nat,
{
    match j {
        JsonView::Null => "null"@,
        JsonView::Bool(b) => if b {
            "true"@
        } else {
            "false"@
        },
        JsonView::Number(literal) => literal,
        JsonView::Text(text) => quoted(text),
        JsonView::Array(items) => "["@ + rendered_items(items) + "]"@,
        JsonView::Object(members) => "{"@ + rendered_members(members) + "}"@,
    }
}

/// The value of the first member called `name`, if there is one.
pub open spec fn member(members: Seq<(Seq<char>, JsonView)>, name: Seq<char>) -> Option<JsonView>
    decreases members.len(),
{
    if members.len() == 0 {
        None
    } else if members[0].0 == name {
        Some(members[0].1)
    } else {
        member(members.drop_first(), name)
    }
}

/// The value wrapped as the endpoint wraps every reply: an object with the
/// one member `value`.
pub open spec fn enveloped(payload: JsonView) -> JsonView {
    JsonView::Object(seq![("value"@, payload)])
}

/// What the envelope `j` carries: the member `value` of an object.
pub open spec fn payload_of(j: JsonView) -> Option<JsonView> {
    match j {
        JsonView::Object(members) => member(members, "value"@),
        _ => None,
    }
}

/// Whether `e` is of the decode kind, with any message.
pub open spec fn is_decode_error(e: SError) -> bool {
    e@ is Decode
}

/// The error for a body that is not the JSON that was expected, with the
/// reason as its message.
pub fn decode_error(reason: &str) -> (e: SError)
    ensures
        e@ == crate::SErrorView::Decode(reason@),
{
    SError::Decode(String::from_str(reason))
}

impl Json {
    /// The string value that holds `text`.
    pub fn string(text: &str) -> (j: Json)
        ensures
            j@ == JsonView::Text(text@),
    {
        Json::Text(String::from_str(text))
    }

    /// The number `n`.
    pub fn integer(n: i64) -> (j: Json)
        ensures
            j@ == JsonView::Number(crate::text::signed_decimal(n as int)),
    {
        Json::Number(crate::text::signed_to_text(n))
    }

    /// The array of `items`.
    pub fn array(items: Vec<Json>) -> (j: Json)
        ensures
            j@ == JsonView::Array(item_views(items@)),
    {
        let j = Json::Array(items);
        assert(j@->Array_0 =~= item_views(items@));
        j
    }

    /// The object of `members`.
    pub fn object(members: Vec<(String, Json)>) -> (j: Json)
        ensures
            j@ == JsonView::Object(member_views(members@)),
    {
        let j = Json::Object(members);
        assert(j@->Object_0 =~= member_views(members@));
        j
    }

    /// Reads one JSON document.
    ///
    /// Succeeds exactly on the texts that are one, with the value they hold;
    /// on any other text the error is a decode error.
    pub fn parse(text: &str) -> (r: Result<Json, SError>)
        ensures
            match r {
                Ok(j) => parsed(text@) == Some(j@),
                Err(e) => parsed(text@) is None && is_decode_error(e),
            },
    {
        match read_value(text) {
            Ok(value) => Ok(from_value(value)),
            Err(e) => Err(SError::Decode(error_text(&e))),
        }
    }

    /// Writes the value as compact JSON text.
    #[verifier::loop_isolation(false)]
    pub fn render(&self) -> (r: String)
        ensures
            r@ == rendered(self@),
        decreases self,
    {
        match self {
            Json::Null => String::from_str("null"),
            Json::Bool(b) => if *b {
                String::from_str("true")
            } else {
                String::from_str("false")
            },
            Json::Number(literal) => literal.clone(),
            Json::Text(text) => quote(text.as_str()),
            Json::Array(items) => {
                let ghost all = self@->Array_0;
                let mut r = String::from_str("[");
                let mut i: usize = 0;
                while i < items.len()
                    invariant
                        i <= items.len(),
                        all.len() == items.len(),
                        forall|k: int| 0 <= k < items.len() ==> all[k] == items[k]@,
                        r@ == "["@ + rendered_items(all.take(i as int)),
                    decreases items.len() - i,
                {
                    if i > 0 {
                        r.append(",");
                    }
                    let part = items[i].render();
                    r.append(part.as_str());
                    proof {
                        assert(all.take(i as int + 1).drop_last() =~= all.take(i as int));
                        assert(all.take(i as int + 1).last() == all[i as int]);
                        assert(r@ =~= "["@ + rendered_items(all.take(i as int + 1)));
                    }
                    i += 1;
                }
                assert(all.take(i as int) =~= all);
                r.append("]");
                r
            },
            Json::Object(members) => {
                let ghost all = self@->Object_0;
                let mut r = String::from_str("{");
                let mut i: usize = 0;
                while i < members.len()
                    invariant
                        i <= members.len(),
                        all.len() == members.len(),
                        forall|k: int|
                            0 <= k < members.len() ==> all[k] == (members[k].0@, members[k].1@),
                        r@ == "{"@ + rendered_members(all.take(i as int)),
                    decreases members.len() - i,
                {
                    if i > 0 {
                        r.append(",");
                    }
                    let name = quote(members[i].0.as_str());
                    r.append(name.as_str());
                    r.append(":");
                    let part = members[i].1.render();
                    r.append(part.as_str());
                    proof {
                        assert(all.take(i as int + 1).drop_last() =~= all.take(i as int));
                        assert(all.take(i as int + 1).last() == all[i as int]);
                        assert(rendered_member(all[i as int]) == quoted(members[i as int].0@)
                            + ":"@ + rendered(members[i as int].1@));
                        if i == 0 {
                            assert(all.take(0).len() == 0);
                            assert(all.take(1)[0] == all[0]);
                        }
                        assert(r@ =~= "{"@ + rendered_members(all.take(i as int + 1)));
                    }
                    i += 1;
                }
                assert(all.take(i as int) =~= all);
                r.append("}");
                r
            },
        }
    }

    /// The value of the first member called `name`, where this is an object
    /// that has one.
    #[verifier::loop_isolation(false)]
    pub fn get(&self, name: &str) -> (r: Option<&Json>)
        ensures
            match self@ {
                JsonView::Object(members) => match r {
                    Some(value) => member(members, name@) == Some(value@),
                    None => member(members, name@) is None,
                },
                _ => r is None,
            },
    {
        match self {
            Json::Object(members) => {
                let ghost all = self@->Object_0;
                let mut i: usize = 0;
                assert(all.skip(0) =~= all);
                while i < members.len()
                    invariant
                        i <= members.len(),
                        all.len() == members.len(),
                        forall|k: int|
                            0 <= k < members.len() ==> all[k] == (members[k].0@, members[k].1@),
                        member(all, name@) == member(all.skip(i as int), name@),
                    decreases members.len() - i,
                {
                    if same_text(members[i].0.as_str(), name) {
                        assert(all.skip(i as int)[0] == all[i as int]);
                        return Some(&members[i].1);
                    }
                    proof {
                        assert(all.skip(i as int)[0] == all[i as int]);
                        assert(all.skip(i as int).drop_first() =~= all.skip(i as int + 1));
                    }
                    i += 1;
                }
                assert(all.skip(i as int).len() == 0);
                None
            },
            _ => None,
        }
    }

    /// Takes the value of the first member called `name` out of an object.
    #[verifier::loop_isolation(false)]
    pub fn take(self, name: &str) -> (r: Option<Json>)
        ensures
            match self@ {
                JsonView::Object(members) => match r {
                    Some(value) => member(members, name@) == Some(value@),
                    None => member(members, name@) is None,
                },
                _ => r is None,
            },
    {
        match self {
            Json::Object(members) => {
                let ghost all = member_views(members@);
                assert(Json::Object(members)@->Object_0 =~= all);
                let mut members = members;
                let mut i: usize = 0;
                assert(all.skip(0) =~= all);
                while i < members.len()
                    invariant
                        i <= members.len(),
                        all == member_views(members@),
                        member(all, name@) == member(all.skip(i as int), name@),
                    decreases members.len() - i,
                {
                    assert(all.skip(i as int)[0] == all[i as int]);
                    if same_text(members[i].0.as_str(), name) {
                        assert(all[i as int] == (members@[i as int].0@, members@[i as int].1@));
                        let found = members.remove(i);
                        assert(member(all.skip(i as int), name@) == Some(found.1@));
                        return Some(found.1);
                    }
                    proof {
                        assert(all.skip(i as int).drop_first() =~= all.skip(i as int + 1));
                    }
                    i += 1;
                }
                assert(all.skip(i as int).len() == 0);
                None
            },
            _ => None,
        }
    }

    /// Wraps a value as the endpoint wraps every reply.
    pub fn wrap_value(payload: Json) -> (j: Json)
        ensures
            j@ == enveloped(payload@),
    {
        let mut members: Vec<(String, Json)> = Vec::new();
        add_member(&mut members, "value", payload);
        assert(member_views(members@) =~= seq![("value"@, payload@)]);
        Json::object(members)
    }

    /// Takes the payload out of an envelope.
    ///
    /// Fails with a decode error exactly where this is no object with a
    /// member `value`.
    pub fn unwrap_value(&self) -> (r: Result<&Json, SError>)
        ensures
            match r {
                Ok(payload) => payload_of(self@) == Some(payload@),
                Err(e) => payload_of(self@) is None && e@ == crate::SErrorView::Decode(
                    "missing field `value`"@,
                ),
            },
    {
        match self.get("value") {
            Some(payload) => Ok(payload),
            None => Err(decode_error("missing field `value`")),
        }
    }
}

/// Appends an item to the items of an array.
pub fn add_item(items: &mut Vec<Json>, value: Json)
    ensures
        item_views(final(items)@) == item_views(old(items)@).push(value@),
{
    items.push(value);
    assert(item_views(items@) =~= item_views(old(items)@).push(value@));
}

/// Appends a member to the members of an object.
pub fn add_member(members: &mut Vec<(String, Json)>, name: &str, value: Json)
    ensures
        member_views(final(members)@) == member_views(old(members)@).push((name@, value@)),
{
    members.push((String::from_str(name), value));
    assert(member_views(members@) =~= member_views(old(members)@).push((name@, value@)));
}

/// Appends the member `name` with the number `value`, where there is one.
pub fn add_u32(members: &mut Vec<(String, Json)>, name: &str, value: Option<u32>)
    ensures
        member_views(final(members)@) == member_views(old(members)@) + optional_number(
            name@,
            wide_u32(value),
        ),
{
    match value {
        Some(n) => {
            add_member(members, name, Json::integer(n as i64));
            assert(member_views(members@) =~= member_views(old(members)@) + optional_number(
                name@,
                wide_u32(value),
            ));
        },
        None => {
            assert(member_views(members@) =~= member_views(old(members)@) + optional_number(
                name@,
                wide_u32(value),
            ));
        },
    }
}

/// Appends the member `name` with the number `value`, where there is one.
pub fn add_i32(members: &mut Vec<(String, Json)>, name: &str, value: Option<i32>)
    ensures
        member_views(final(members)@) == member_views(old(members)@) + optional_number(
            name@,
            wide_i32(value),
        ),
{
    match value {
        Some(n) => {
            add_member(members, name, Json::integer(n as i64));
            assert(member_views(members@) =~= member_views(old(members)@) + optional_number(
                name@,
                wide_i32(value),
            ));
        },
        None => {
            assert(member_views(members@) =~= member_views(old(members)@) + optional_number(
                name@,
                wide_i32(value),
            ));
        },
    }
}

/// Appends the member `name` with the text `value`, where there is one.
pub fn add_text(members: &mut Vec<(String, Json)>, name: &str, value: &Option<String>)
    ensures
        member_views(final(members)@) == member_views(old(members)@) + optional_text(
            name@,
            optional_view(*value),
        ),
{
    match value {
        Some(text) => {
            add_member(members, name, Json::string(text.as_str()));
            assert(member_views(members@) =~= member_views(old(members)@) + optional_text(
                name@,
                optional_view(*value),
            ));
        },
        None => {
            assert(member_views(members@) =~= member_views(old(members)@) + optional_text(
                name@,
                optional_view(*value),
            ));
        },
    }
}

/// The object that maps each name of `pairs` to its text.
pub fn text_object(pairs: &Vec<(String, String)>) -> (j: Json)
    ensures
        j@ == JsonView::Object(text_members(pair_views(pairs@))),
{
    let mut members: Vec<(String, Json)> = Vec::new();
    let mut i: usize = 0;
    while i < pairs.len()
        invariant
            i <= pairs.len(),
            member_views(members@) == text_members(pair_views(pairs@)).take(i as int),
        decreases pairs.len() - i,
    {
        add_member(&mut members, pairs[i].0.as_str(), Json::string(pairs[i].1.as_str()));
        assert(member_views(members@) =~= text_members(pair_views(pairs@)).take(i as int + 1));
        i += 1;
    }
    assert(member_views(members@) =~= text_members(pair_views(pairs@)));
    Json::object(members)
}

/// The array of the texts of `texts`.
pub fn text_array(texts: &Vec<String>) -> (j: Json)
    ensures
        j@ == JsonView::Array(text_items(text_views(texts@))),
{
    let mut items: Vec<Json> = Vec::new();
    let mut i: usize = 0;
    while i < texts.len()
        invariant
            i <= texts.len(),
            item_views(items@) == text_items(text_views(texts@)).take(i as int),
        decreases texts.len() - i,
    {
        add_item(&mut items, Json::string(texts[i].as_str()));
        assert(item_views(items@) =~= text_items(text_views(texts@)).take(i as int + 1));
        i += 1;
    }
    assert(item_views(items@) =~= text_items(text_views(texts@)));
    Json::array(items)
}

/// Unwrapping what was wrapped gives the value back: for every value, the
/// payload of its envelope is the value itself.
pub proof fn envelope_round_trip(payload: JsonView)
    ensures
        payload_of(enveloped(payload)) == Some(payload),
{
    let members = seq![("value"@, payload)];
    assert(members[0].0 == "value"@);
}

} // verus!
