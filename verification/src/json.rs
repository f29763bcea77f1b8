//! A verified JSON reader and writer.
//!
//! The mirroring configuration is a JSON document; this module parses it,
//! lets the configuration logic edit its top level, and writes it back.
//! Numbers and strings keep their source text: a number is held as its
//! lexeme and a string as the characters between its quotes, with escape
//! sequences validated but not decoded, so writing a document reproduces
//! each untouched payload verbatim.
//!
//! `parse_document` is the grammar's definition (one value per document,
//! as in RFC 8259); the executable parser and writer are proved against
//! it and against `ser`.

use vstd::prelude::*;

use crate::text::str_to_chars;

verus! {

/// The mathematical model of a JSON value.
pub enum JsonData {
    Null,
    Bool(bool),
    /// A number, as its source lexeme.
    Num(Seq<char>),
    /// A string, as the raw characters between its quotes.
    Str(Seq<char>),
    Arr(Seq<JsonData>),
    Obj(Seq<(Seq<char>, JsonData)>),
}

/// An owned JSON value; its view is a `JsonData`.
pub enum Json {
    Null,
    Bool(bool),
    Num(Vec<char>),
    Str(Vec<char>),
    Arr(Vec<Json>),
    Obj(Vec<(Vec<char>, Json)>),
}

/// The model of an owned JSON value.
pub open spec fn json_view(j: Json) -> JsonData
    decreases j,
{
    match j {
        Json::Null => JsonData::Null,
        Json::Bool(b) => JsonData::Bool(b),
        Json::Num(t) => JsonData::Num(t@),
        Json::Str(t) => JsonData::Str(t@),
        Json::Arr(items) => JsonData::Arr(items_view(items@)),
        Json::Obj(members) => JsonData::Obj(members_view(members@)),
    }
}

/// The models of a sequence of owned JSON values, element by element.
pub open spec fn items_view(items: Seq<Json>) -> Seq<JsonData>
    decreases items,
{
    if items.len() == 0 {
        Seq::empty()
    } else {
        items_view(items.drop_last()).push(json_view(items.last()))
    }
}

/// The models of a sequence of owned members, member by member.
pub open spec fn members_view(members: Seq<(Vec<char>, Json)>) -> Seq<(Seq<char>, JsonData)>
    decreases members,
{
    if members.len() == 0 {
        Seq::empty()
    } else {
        members_view(members.drop_last()).push(
            (members.last().0@, json_view(members.last().1)),
        )
    }
}

impl View for Json {
    type V = JsonData;

    open spec fn view(&self) -> JsonData {
        json_view(*self)
    }
}

/// JSON insignificant whitespace.
pub open spec fn is_json_ws(c: char) -> bool {
    c == ' ' || c == '\t' || c == '\n' || c == '\r'
}

pub open spec fn is_digit(c: char) -> bool {
    '0' <= c && c <= '9'
}

pub open spec fn is_hex_digit(c: char) -> bool {
    is_digit(c) || ('a' <= c && c <= 'f') || ('A' <= c && c <= 'F')
}

/// The character after a backslash in a two-character escape.
pub open spec fn is_simple_escape(c: char) -> bool {
    c == '"' || c == '\\' || c == '/' || c == 'b' || c == 'f' || c == 'n' || c == 'r' || c == 't'
}

/// A character that may stand unescaped inside a string.
pub open spec fn is_plain_string_char(c: char) -> bool {
    c != '"' && c != '\\' && ' ' <= c
}

/// The first index at or after `i` holding no whitespace.
pub open spec fn skip_ws(s: Seq<char>, i: int) -> int
    decreases s.len() - i,
{
    if i < s.len() && is_json_ws(s[i]) {
        skip_ws(s, i + 1)
    } else {
        i
    }
}

/// The first index at or after `i` holding no digit.
pub open spec fn scan_digits(s: Seq<char>, i: int) -> int
    decreases s.len() - i,
{
    if i < s.len() && is_digit(s[i]) {
        scan_digits(s, i + 1)
    } else {
        i
    }
}

/// End of the integer part of a number starting at `p` (after any sign).
pub open spec fn int_end(s: Seq<char>, p: int) -> Option<int> {
    if p < s.len() && s[p] == '0' {
        Some(p + 1)
    } else if p < s.len() && is_digit(s[p]) {
        Some(scan_digits(s, p))
    } else {
        None
    }
}

/// End of the optional fraction part starting at `q`.
pub open spec fn frac_end(s: Seq<char>, q: int) -> Option<int> {
    if q < s.len() && s[q] == '.' {
        if q + 1 < s.len() && is_digit(s[q + 1]) {
            Some(scan_digits(s, q + 1))
        } else {
            None
        }
    } else {
        Some(q)
    }
}

/// End of the optional exponent part starting at `r`.
pub open spec fn exp_end(s: Seq<char>, r: int) -> Option<int> {
    if r < s.len() && (s[r] == 'e' || s[r] == 'E') {
        let t = if r + 1 < s.len() && (s[r + 1] == '+' || s[r + 1] == '-') {
            r + 2
        } else {
            r + 1
        };
        if t < s.len() && is_digit(s[t]) {
            Some(scan_digits(s, t))
        } else {
            None
        }
    } else {
        Some(r)
    }
}

/// End of a number lexeme starting at `i`, if one stands there.
pub open spec fn number_end(s: Seq<char>, i: int) -> Option<int> {
    let p = if i < s.len() && s[i] == '-' {
        i + 1
    } else {
        i
    };
    match int_end(s, p) {
        None => None,
        Some(q) => match frac_end(s, q) {
            None => None,
            Some(r) => exp_end(s, r),
        },
    }
}

/// A number lexeme starting at `i`, with the index after it.
pub open spec fn parse_number(s: Seq<char>, i: int) -> Option<(Seq<char>, int)> {
    match number_end(s, i) {
        None => None,
        Some(j) => Some((s.subrange(i, j), j)),
    }
}

/// The raw body of a string, starting just after the opening quote;
/// returns the body and the index after the closing quote.
pub open spec fn parse_string_body(s: Seq<char>, i: int) -> Option<(Seq<char>, int)>
    decreases s.len() - i, 1int,
{
    if i >= s.len() {
        None
    } else if s[i] == '"' {
        Some((Seq::empty(), i + 1))
    } else if s[i] == '\\' {
        if i + 1 < s.len() && is_simple_escape(s[i + 1]) {
            match parse_string_body(s, i + 2) {
                None => None,
                Some((t, j)) => Some((seq![s[i], s[i + 1]] + t, j)),
            }
        } else if i + 5 < s.len() && s[i + 1] == 'u' && is_hex_digit(s[i + 2]) && is_hex_digit(
            s[i + 3],
        ) && is_hex_digit(s[i + 4]) && is_hex_digit(s[i + 5]) {
            match parse_string_body(s, i + 6) {
                None => None,
                Some((t, j)) => Some((s.subrange(i, i + 6) + t, j)),
            }
        } else {
            None
        }
    } else if is_plain_string_char(s[i]) {
        match parse_string_body(s, i + 1) {
            None => None,
            Some((t, j)) => Some((seq![s[i]] + t, j)),
        }
    } else {
        None
    }
}

/// A JSON value starting at `i`, leading whitespace allowed; returns the
/// value and the index just after it.
pub open spec fn parse_value(s: Seq<char>, i: int) -> Option<(JsonData, int)>
    decreases s.len() - i, 2int,
{
    if i >= s.len() {
        None
    } else if is_json_ws(s[i]) {
        parse_value(s, i + 1)
    } else if s[i] == 'n' {
        if s.len() - i >= 4 && s[i + 1] == 'u' && s[i + 2] == 'l' && s[i + 3] == 'l' {
            Some((JsonData::Null, i + 4))
        } else {
            None
        }
    } else if s[i] == 't' {
        if s.len() - i >= 4 && s[i + 1] == 'r' && s[i + 2] == 'u' && s[i + 3] == 'e' {
            Some((JsonData::Bool(true), i + 4))
        } else {
            None
        }
    } else if s[i] == 'f' {
        if s.len() - i >= 5 && s[i + 1] == 'a' && s[i + 2] == 'l' && s[i + 3] == 's' && s[i + 4]
            == 'e' {
            Some((JsonData::Bool(false), i + 5))
        } else {
            None
        }
    } else if s[i] == '"' {
        match parse_string_body(s, i + 1) {
            None => None,
            Some((t, j)) => Some((JsonData::Str(t), j)),
        }
    } else if s[i] == '[' {
        match parse_array_after_open(s, i + 1) {
            None => None,
            Some((items, j)) => Some((JsonData::Arr(items), j)),
        }
    } else if s[i] == '{' {
        match parse_object_after_open(s, i + 1) {
            None => None,
            Some((members, j)) => Some((JsonData::Obj(members), j)),
        }
    } else if s[i] == '-' || is_digit(s[i]) {
        match parse_number(s, i) {
            None => None,
            Some((t, j)) => Some((JsonData::Num(t), j)),
        }
    } else {
        None
    }
}

/// The elements of an array, starting just after `[`.
pub open spec fn parse_array_after_open(s: Seq<char>, i: int) -> Option<(Seq<JsonData>, int)>
    decreases s.len() - i, 4int,
{
    if i >= s.len() {
        None
    } else if is_json_ws(s[i]) {
        parse_array_after_open(s, i + 1)
    } else if s[i] == ']' {
        Some((Seq::empty(), i + 1))
    } else {
        parse_array_element(s, i)
    }
}

/// One array element and whatever follows it.
pub open spec fn parse_array_element(s: Seq<char>, i: int) -> Option<(Seq<JsonData>, int)>
    decreases s.len() - i, 3int,
{
    match parse_value(s, i) {
        None => None,
        Some((v, j)) => if j <= i || j > s.len() {
            None
        } else {
            match parse_array_rest(s, j) {
                None => None,
                Some((vs, k)) => Some((seq![v] + vs, k)),
            }
        },
    }
}

/// After an array element: either `,` and another element, or `]`.
pub open spec fn parse_array_rest(s: Seq<char>, i: int) -> Option<(Seq<JsonData>, int)>
    decreases s.len() - i, 3int,
{
    if i >= s.len() {
        None
    } else if is_json_ws(s[i]) {
        parse_array_rest(s, i + 1)
    } else if s[i] == ',' {
        parse_array_element(s, i + 1)
    } else if s[i] == ']' {
        Some((Seq::empty(), i + 1))
    } else {
        None
    }
}

/// The members of an object, starting just after `{`.
pub open spec fn parse_object_after_open(s: Seq<char>, i: int) -> Option<
    (Seq<(Seq<char>, JsonData)>, int),
>
    decreases s.len() - i, 4int,
{
    if i >= s.len() {
        None
    } else if is_json_ws(s[i]) {
        parse_object_after_open(s, i + 1)
    } else if s[i] == '}' {
        Some((Seq::empty(), i + 1))
    } else {
        parse_member(s, i)
    }
}

/// One object member (key, `:`, value) and whatever follows it.
pub open spec fn parse_member(s: Seq<char>, i: int) -> Option<(Seq<(Seq<char>, JsonData)>, int)>
    decreases s.len() - i, 3int,
{
    if i >= s.len() {
        None
    } else if is_json_ws(s[i]) {
        parse_member(s, i + 1)
    } else if s[i] == '"' {
        match parse_string_body(s, i + 1) {
            None => None,
            Some((k, j)) => if j <= i || j > s.len() {
                None
            } else {
                parse_member_value(s, j, k)
            },
        }
    } else {
        None
    }
}

/// The `:` and value of a member whose key was already read.
pub open spec fn parse_member_value(s: Seq<char>, i: int, k: Seq<char>) -> Option<
    (Seq<(Seq<char>, JsonData)>, int),
>
    decreases s.len() - i, 3int,
{
    if i >= s.len() {
        None
    } else if is_json_ws(s[i]) {
        parse_member_value(s, i + 1, k)
    } else if s[i] == ':' {
        match parse_value(s, i + 1) {
            None => None,
            Some((v, j)) => if j <= i || j > s.len() {
                None
            } else {
                match parse_object_rest(s, j) {
                    None => None,
                    Some((ms, l)) => Some((seq![(k, v)] + ms, l)),
                }
            },
        }
    } else {
        None
    }
}

/// After an object member: either `,` and another member, or `}`.
pub open spec fn parse_object_rest(s: Seq<char>, i: int) -> Option<
    (Seq<(Seq<char>, JsonData)>, int),
>
    decreases s.len() - i, 3int,
{
    if i >= s.len() {
        None
    } else if is_json_ws(s[i]) {
        parse_object_rest(s, i + 1)
    } else if s[i] == ',' {
        parse_member(s, i + 1)
    } else if s[i] == '}' {
        Some((Seq::empty(), i + 1))
    } else {
        None
    }
}

pub proof fn lemma_scan_digits_bounds(s: Seq<char>, i: int)
    requires
        0 <= i <= s.len(),
    ensures
        i <= scan_digits(s, i) <= s.len(),
    decreases s.len() - i,
{
    if i < s.len() && is_digit(s[i]) {
        lemma_scan_digits_bounds(s, i + 1);
    }
}

pub proof fn lemma_number_end_bounds(s: Seq<char>, i: int)
    requires
        0 <= i <= s.len(),
    ensures
        number_end(s, i) matches Some(j) ==> i < j <= s.len(),
{
    let p = if i < s.len() && s[i] == '-' {
        i + 1
    } else {
        i
    };
    if p < s.len() && is_digit(s[p]) {
        lemma_scan_digits_bounds(s, p + 1);
        assert(scan_digits(s, p) == scan_digits(s, p + 1));
        match int_end(s, p) {
            None => {},
            Some(q) => {
                match frac_end(s, q) {
                    None => {},
                    Some(r) => {
                        if q < s.len() && s[q] == '.' {
                            lemma_scan_digits_bounds(s, q + 1);
                        }
                        if r < s.len() && (s[r] == 'e' || s[r] == 'E') {
                            let t = if r + 1 < s.len() && (s[r + 1] == '+' || s[r + 1] == '-') {
                                r + 2
                            } else {
                                r + 1
                            };
                            if t < s.len() && is_digit(s[t]) {
                                lemma_scan_digits_bounds(s, t + 1);
                                assert(scan_digits(s, t) == scan_digits(s, t + 1));
                            }
                        }
                    },
                }
            },
        }
    }
}

pub proof fn lemma_string_body_bounds(s: Seq<char>, i: int)
    requires
        0 <= i <= s.len(),
    ensures
        parse_string_body(s, i) matches Some((t, j)) ==> i < j <= s.len(),
    decreases s.len() - i,
{
    if i >= s.len() {
    } else if s[i] == '"' {
    } else if s[i] == '\\' {
        if i + 1 < s.len() && is_simple_escape(s[i + 1]) {
            lemma_string_body_bounds(s, i + 2);
        } else if i + 5 < s.len() && s[i + 1] == 'u' && is_hex_digit(s[i + 2]) && is_hex_digit(
            s[i + 3],
        ) && is_hex_digit(s[i + 4]) && is_hex_digit(s[i + 5]) {
            lemma_string_body_bounds(s, i + 6);
        }
    } else if is_plain_string_char(s[i]) {
        lemma_string_body_bounds(s, i + 1);
    }
}

pub proof fn lemma_parse_value_bounds(s: Seq<char>, i: int)
    requires
        0 <= i <= s.len(),
    ensures
        parse_value(s, i) matches Some((v, j)) ==> i < j <= s.len(),
    decreases s.len() - i, 2int,
{
    if i >= s.len() {
    } else if is_json_ws(s[i]) {
        lemma_parse_value_bounds(s, i + 1);
    } else if s[i] == '"' {
        lemma_string_body_bounds(s, i + 1);
    } else if s[i] == '[' {
        lemma_parse_array_after_open_bounds(s, i + 1);
    } else if s[i] == '{' {
        lemma_parse_object_after_open_bounds(s, i + 1);
    } else if s[i] == '-' || is_digit(s[i]) {
        lemma_number_end_bounds(s, i);
    }
}

pub proof fn lemma_parse_array_after_open_bounds(s: Seq<char>, i: int)
    requires
        0 <= i <= s.len(),
    ensures
        parse_array_after_open(s, i) matches Some((vs, j)) ==> i < j <= s.len(),
    decreases s.len() - i, 4int,
{
    if i >= s.len() {
    } else if is_json_ws(s[i]) {
        lemma_parse_array_after_open_bounds(s, i + 1);
    } else if s[i] == ']' {
    } else {
        lemma_parse_array_element_bounds(s, i);
    }
}

pub proof fn lemma_parse_array_element_bounds(s: Seq<char>, i: int)
    requires
        0 <= i <= s.len(),
    ensures
        parse_array_element(s, i) matches Some((vs, j)) ==> i < j <= s.len(),
    decreases s.len() - i, 3int,
{
    match parse_value(s, i) {
        None => {},
        Some((v, j)) => {
            if i < j <= s.len() {
                lemma_parse_array_rest_bounds(s, j);
            }
        },
    }
}

pub proof fn lemma_parse_array_rest_bounds(s: Seq<char>, i: int)
    requires
        0 <= i <= s.len(),
    ensures
        parse_array_rest(s, i) matches Some((vs, j)) ==> i < j <= s.len(),
    decreases s.len() - i, 3int,
{
    if i >= s.len() {
    } else if is_json_ws(s[i]) {
        lemma_parse_array_rest_bounds(s, i + 1);
    } else if s[i] == ',' {
        lemma_parse_array_element_bounds(s, i + 1);
    }
}

pub proof fn lemma_parse_object_after_open_bounds(s: Seq<char>, i: int)
    requires
        0 <= i <= s.len(),
    ensures
        parse_object_after_open(s, i) matches Some((ms, j)) ==> i < j <= s.len(),
    decreases s.len() - i, 4int,
{
    if i >= s.len() {
    } else if is_json_ws(s[i]) {
        lemma_parse_object_after_open_bounds(s, i + 1);
    } else if s[i] == '}' {
    } else {
        lemma_parse_member_bounds(s, i);
    }
}

pub proof fn lemma_parse_member_bounds(s: Seq<char>, i: int)
    requires
        0 <= i <= s.len(),
    ensures
        parse_member(s, i) matches Some((ms, j)) ==> i < j <= s.len(),
    decreases s.len() - i, 3int,
{
    if i >= s.len() {
    } else if is_json_ws(s[i]) {
        lemma_parse_member_bounds(s, i + 1);
    } else if s[i] == '"' {
        match parse_string_body(s, i + 1) {
            None => {},
            Some((k, j)) => {
                if i < j <= s.len() {
                    lemma_parse_member_value_bounds(s, j, k);
                }
            },
        }
    }
}

pub proof fn lemma_parse_member_value_bounds(s: Seq<char>, i: int, k: Seq<char>)
    requires
        0 <= i <= s.len(),
    ensures
        parse_member_value(s, i, k) matches Some((ms, j)) ==> i < j <= s.len(),
    decreases s.len() - i, 3int,
{
    if i >= s.len() {
    } else if is_json_ws(s[i]) {
        lemma_parse_member_value_bounds(s, i + 1, k);
    } else if s[i] == ':' {
        match parse_value(s, i + 1) {
            None => {},
            Some((v, j)) => {
                if i < j <= s.len() {
                    lemma_parse_object_rest_bounds(s, j);
                }
            },
        }
    }
}

pub proof fn lemma_parse_object_rest_bounds(s: Seq<char>, i: int)
    requires
        0 <= i <= s.len(),
    ensures
        parse_object_rest(s, i) matches Some((ms, j)) ==> i < j <= s.len(),
    decreases s.len() - i, 3int,
{
    if i >= s.len() {
    } else if is_json_ws(s[i]) {
        lemma_parse_object_rest_bounds(s, i + 1);
    } else if s[i] == ',' {
        lemma_parse_member_bounds(s, i + 1);
    }
}

/// A whole document: one value, with whitespace around it, and nothing else.
pub open spec fn parse_document(s: Seq<char>) -> Option<JsonData> {
    match parse_value(s, 0) {
        None => None,
        Some((v, j)) => if skip_ws(s, j) == s.len() {
            Some(v)
        } else {
            None
        },
    }
}

/// The serialized text of a value: compact JSON, no added whitespace,
/// number and string payloads reproduced verbatim.
pub open spec fn ser(d: JsonData) -> Seq<char>
    decreases d,
{
    match d {
        JsonData::Null => "null"@,
        JsonData::Bool(b) => if b {
            "true"@
        } else {
            "false"@
        },
        JsonData::Num(t) => t,
        JsonData::Str(t) => "\""@ + t + "\""@,
        JsonData::Arr(items) => "["@ + ser_items(items) + "]"@,
        JsonData::Obj(ms) => "{"@ + ser_members(ms) + "}"@,
    }
}

/// The serialized elements of an array, joined by commas.
pub open spec fn ser_items(items: Seq<JsonData>) -> Seq<char>
    decreases items,
{
    if items.len() == 0 {
        Seq::empty()
    } else if items.len() == 1 {
        ser(items.last())
    } else {
        ser_items(items.drop_last()) + ","@ + ser(items.last())
    }
}

/// The serialized text of one object member.
pub open spec fn ser_member(kv: (Seq<char>, JsonData)) -> Seq<char>
    decreases kv,
{
    "\""@ + kv.0 + "\":"@ + ser(kv.1)
}

/// The serialized members of an object, joined by commas.
pub open spec fn ser_members(ms: Seq<(Seq<char>, JsonData)>) -> Seq<char>
    decreases ms,
{
    if ms.len() == 0 {
        Seq::empty()
    } else if ms.len() == 1 {
        ser_member(ms.last())
    } else {
        ser_members(ms.drop_last()) + ","@ + ser_member(ms.last())
    }
}

pub proof fn lemma_items_view_index(items: Seq<Json>)
    ensures
        items_view(items).len() == items.len(),
        forall|k: int| 0 <= k < items.len() ==> items_view(items)[k] == json_view(items[k]),
    decreases items.len(),
{
    if items.len() > 0 {
        lemma_items_view_index(items.drop_last());
    }
}

pub proof fn lemma_members_view_index(ms: Seq<(Vec<char>, Json)>)
    ensures
        members_view(ms).len() == ms.len(),
        forall|k: int| 0 <= k < ms.len() ==> members_view(ms)[k] == (
            ms[k].0@,
            json_view(ms[k].1),
        ),
    decreases ms.len(),
{
    if ms.len() > 0 {
        lemma_members_view_index(ms.drop_last());
    }
}

/// The executable result of a value parse agrees with the specified one.
pub open spec fn value_agrees(r: Option<(Json, usize)>, m: Option<(JsonData, int)>) -> bool {
    match r {
        None => m is None,
        Some((j, p)) => m matches Some((d, q)) && json_view(j) == d && p as int == q,
    }
}

/// The executable result of an element-list parse agrees with the specified one.
pub open spec fn items_agree(r: Option<(Vec<Json>, usize)>, m: Option<(Seq<JsonData>, int)>) -> bool {
    match r {
        None => m is None,
        Some((vs, p)) => m matches Some((ds, q)) && items_view(vs@) == ds && p as int == q,
    }
}

/// The executable result of a member-list parse agrees with the specified one.
pub open spec fn members_agree(
    r: Option<(Vec<(Vec<char>, Json)>, usize)>,
    m: Option<(Seq<(Seq<char>, JsonData)>, int)>,
) -> bool {
    match r {
        None => m is None,
        Some((ms, p)) => m matches Some((ds, q)) && members_view(ms@) == ds && p as int == q,
    }
}

/// The executable result of a text parse agrees with the specified one.
pub open spec fn text_agrees(r: Option<(Vec<char>, usize)>, m: Option<(Seq<char>, int)>) -> bool {
    match r {
        None => m is None,
        Some((t, p)) => m matches Some((u, q)) && t@ == u && p as int == q,
    }
}

/// The executable end index agrees with the specified one.
pub open spec fn end_agrees(r: Option<usize>, m: Option<int>) -> bool {
    match r {
        None => m is None,
        Some(p) => m == Some(p as int),
    }
}

proof fn lemma_items_view_insert_front(items: Seq<Json>, v: Json)
    ensures
        items_view(seq![v] + items) == seq![json_view(v)] + items_view(items),
    decreases items.len(),
{
    if items.len() == 0 {
        let single = seq![v];
        assert(seq![v] + items =~= single);
        assert(single.len() == 1);
        assert(single.drop_last() =~= Seq::<Json>::empty());
        assert(single.last() == v);
        assert(items_view(single.drop_last()) == Seq::<JsonData>::empty());
        assert(items_view(single) == items_view(single.drop_last()).push(json_view(v)));
        assert(items_view(items) == Seq::<JsonData>::empty());
        assert(items_view(single) =~= seq![json_view(v)] + items_view(items));
    } else {
        let whole = seq![v] + items;
        assert(whole.drop_last() =~= seq![v] + items.drop_last());
        assert(whole.last() == items.last());
        lemma_items_view_insert_front(items.drop_last(), v);
        assert(items_view(whole) == items_view(seq![v] + items.drop_last()).push(
            json_view(items.last()),
        ));
        assert((seq![json_view(v)] + items_view(items.drop_last())).push(json_view(items.last()))
            =~= seq![json_view(v)] + items_view(items));
    }
}

proof fn lemma_members_view_insert_front(members: Seq<(Vec<char>, Json)>, kv: (Vec<char>, Json))
    ensures
        members_view(seq![kv] + members) == seq![(kv.0@, json_view(kv.1))] + members_view(members),
    decreases members.len(),
{
    if members.len() == 0 {
        let single = seq![kv];
        assert(seq![kv] + members =~= single);
        assert(single.len() == 1);
        assert(single.drop_last() =~= Seq::<(Vec<char>, Json)>::empty());
        assert(single.last() == kv);
        assert(members_view(single.drop_last()) == Seq::<(Seq<char>, JsonData)>::empty());
        assert(members_view(single) == members_view(single.drop_last()).push(
            (kv.0@, json_view(kv.1)),
        ));
        assert(members_view(members) == Seq::<(Seq<char>, JsonData)>::empty());
        assert(members_view(single) =~= seq![(kv.0@, json_view(kv.1))] + members_view(members));
    } else {
        let whole = seq![kv] + members;
        assert(whole.drop_last() =~= seq![kv] + members.drop_last());
        assert(whole.last() == members.last());
        lemma_members_view_insert_front(members.drop_last(), kv);
        assert(members_view(whole) == members_view(seq![kv] + members.drop_last()).push(
            (members.last().0@, json_view(members.last().1)),
        ));
        assert((seq![(kv.0@, json_view(kv.1))] + members_view(members.drop_last())).push(
            (members.last().0@, json_view(members.last().1)),
        ) =~= seq![(kv.0@, json_view(kv.1))] + members_view(members));
    }
}

fn ws_char(c: char) -> (r: bool)
    ensures
        r == is_json_ws(c),
{
    c == ' ' || c == '\t' || c == '\n' || c == '\r'
}

fn digit_char(c: char) -> (r: bool)
    ensures
        r == is_digit(c),
{
    '0' <= c && c <= '9'
}

fn hex_char(c: char) -> (r: bool)
    ensures
        r == is_hex_digit(c),
{
    ('0' <= c && c <= '9') || ('a' <= c && c <= 'f') || ('A' <= c && c <= 'F')
}

fn simple_escape_char(c: char) -> (r: bool)
    ensures
        r == is_simple_escape(c),
{
    c == '"' || c == '\\' || c == '/' || c == 'b' || c == 'f' || c == 'n' || c == 'r' || c == 't'
}

fn plain_string_char(c: char) -> (r: bool)
    ensures
        r == is_plain_string_char(c),
{
    c != '"' && c != '\\' && ' ' <= c
}

fn ex_skip_ws(s: &Vec<char>, i: usize) -> (r: usize)
    requires
        i <= s@.len(),
    ensures
        r as int == skip_ws(s@, i as int),
        i <= r <= s@.len(),
    decreases s@.len() - i,
{
    if i < s.len() && ws_char(s[i]) {
        ex_skip_ws(s, i + 1)
    } else {
        i
    }
}

fn ex_scan_digits(s: &Vec<char>, i: usize) -> (r: usize)
    requires
        i <= s@.len(),
    ensures
        r as int == scan_digits(s@, i as int),
        i <= r <= s@.len(),
    decreases s@.len() - i,
{
    if i < s.len() && digit_char(s[i]) {
        ex_scan_digits(s, i + 1)
    } else {
        i
    }
}

/// Copies `s[i..j]` into a fresh vector.
fn copy_range(s: &Vec<char>, i: usize, j: usize) -> (r: Vec<char>)
    requires
        i <= j <= s@.len(),
    ensures
        r@ == s@.subrange(i as int, j as int),
{
    let mut r: Vec<char> = Vec::new();
    let mut k: usize = i;
    while k < j
        invariant
            i <= k <= j <= s@.len(),
            r@ == s@.subrange(i as int, k as int),
        decreases j - k,
    {
        r.push(s[k]);
        k = k + 1;
        proof {
            assert(r@ =~= s@.subrange(i as int, k as int));
        }
    }
    r
}

fn ex_int_end(s: &Vec<char>, p: usize) -> (r: Option<usize>)
    requires
        p <= s@.len(),
    ensures
        end_agrees(r, int_end(s@, p as int)),
        r matches Some(q) ==> p < q <= s@.len(),
{
    if p < s.len() && s[p] == '0' {
        Some(p + 1)
    } else if p < s.len() && digit_char(s[p]) {
        proof {
            lemma_scan_digits_bounds(s@, p as int + 1);
        }
        Some(ex_scan_digits(s, p))
    } else {
        None
    }
}

fn ex_frac_end(s: &Vec<char>, q: usize) -> (r: Option<usize>)
    requires
        q <= s@.len(),
    ensures
        end_agrees(r, frac_end(s@, q as int)),
        r matches Some(t) ==> q <= t <= s@.len(),
{
    if q < s.len() && s[q] == '.' {
        if s.len() - q > 1 && digit_char(s[q + 1]) {
            Some(ex_scan_digits(s, q + 1))
        } else {
            None
        }
    } else {
        Some(q)
    }
}

fn ex_exp_end(s: &Vec<char>, r0: usize) -> (r: Option<usize>)
    requires
        r0 <= s@.len(),
    ensures
        end_agrees(r, exp_end(s@, r0 as int)),
        r matches Some(t) ==> r0 <= t <= s@.len(),
{
    if r0 < s.len() && (s[r0] == 'e' || s[r0] == 'E') {
        let t = if s.len() - r0 > 1 && (s[r0 + 1] == '+' || s[r0 + 1] == '-') {
            r0 + 2
        } else {
            r0 + 1
        };
        if t < s.len() && digit_char(s[t]) {
            Some(ex_scan_digits(s, t))
        } else {
            None
        }
    } else {
        Some(r0)
    }
}

fn ex_parse_number(s: &Vec<char>, i: usize) -> (r: Option<(Vec<char>, usize)>)
    requires
        i <= s@.len(),
    ensures
        text_agrees(r, parse_number(s@, i as int)),
    decreases s@.len() - i, 1int,
{
    let p = if i < s.len() && s[i] == '-' {
        i + 1
    } else {
        i
    };
    match ex_int_end(s, p) {
        None => None,
        Some(q) => match ex_frac_end(s, q) {
            None => None,
            Some(t) => match ex_exp_end(s, t) {
                None => None,
                Some(j) => Some((copy_range(s, i, j), j)),
            },
        },
    }
}

fn ex_string_body(s: &Vec<char>, i: usize) -> (r: Option<(Vec<char>, usize)>)
    requires
        i <= s@.len(),
    ensures
        text_agrees(r, parse_string_body(s@, i as int)),
    decreases s@.len() - i, 1int,
{
    if i >= s.len() {
        return None;
    }
    let c = s[i];
    if c == '"' {
        Some((Vec::new(), i + 1))
    } else if c == '\\' {
        if s.len() - i > 1 && simple_escape_char(s[i + 1]) {
            match ex_string_body(s, i + 2) {
                None => None,
                Some((t, j)) => {
                    let ghost t0 = t@;
                    let mut t = t;
                    t.insert(0, s[i + 1]);
                    t.insert(0, s[i]);
                    proof {
                        assert(t@ =~= seq![s@[i as int], s@[i as int + 1]] + t0);
                    }
                    Some((t, j))
                },
            }
        } else if s.len() - i > 5 && s[i + 1] == 'u' && hex_char(s[i + 2]) && hex_char(s[i + 3])
            && hex_char(s[i + 4]) && hex_char(s[i + 5]) {
            match ex_string_body(s, i + 6) {
                None => None,
                Some((t, j)) => {
                    let ghost t0 = t@;
                    let mut t = t;
                    t.insert(0, s[i + 5]);
                    t.insert(0, s[i + 4]);
                    t.insert(0, s[i + 3]);
                    t.insert(0, s[i + 2]);
                    t.insert(0, s[i + 1]);
                    t.insert(0, s[i]);
                    proof {
                        assert(t@ =~= s@.subrange(i as int, i as int + 6) + t0);
                    }
                    Some((t, j))
                },
            }
        } else {
            None
        }
    } else if plain_string_char(c) {
        match ex_string_body(s, i + 1) {
            None => None,
            Some((t, j)) => {
                let ghost t0 = t@;
                let mut t = t;
                t.insert(0, c);
                proof {
                    assert(t@ =~= seq![s@[i as int]] + t0);
                }
                Some((t, j))
            },
        }
    } else {
        None
    }
}

fn ex_parse_value(s: &Vec<char>, i: usize) -> (r: Option<(Json, usize)>)
    requires
        i <= s@.len(),
    ensures
        value_agrees(r, parse_value(s@, i as int)),
    decreases s@.len() - i, 2int,
{
    if i >= s.len() {
        return None;
    }
    let c = s[i];
    if ws_char(c) {
        ex_parse_value(s, i + 1)
    } else if c == 'n' {
        if s.len() - i >= 4 && s[i + 1] == 'u' && s[i + 2] == 'l' && s[i + 3] == 'l' {
            Some((Json::Null, i + 4))
        } else {
            None
        }
    } else if c == 't' {
        if s.len() - i >= 4 && s[i + 1] == 'r' && s[i + 2] == 'u' && s[i + 3] == 'e' {
            Some((Json::Bool(true), i + 4))
        } else {
            None
        }
    } else if c == 'f' {
        if s.len() - i >= 5 && s[i + 1] == 'a' && s[i + 2] == 'l' && s[i + 3] == 's' && s[i + 4]
            == 'e' {
            Some((Json::Bool(false), i + 5))
        } else {
            None
        }
    } else if c == '"' {
        match ex_string_body(s, i + 1) {
            None => None,
            Some((t, j)) => Some((Json::Str(t), j)),
        }
    } else if c == '[' {
        match ex_array_after_open(s, i + 1) {
            None => None,
            Some((items, j)) => Some((Json::Arr(items), j)),
        }
    } else if c == '{' {
        match ex_object_after_open(s, i + 1) {
            None => None,
            Some((members, j)) => Some((Json::Obj(members), j)),
        }
    } else if c == '-' || digit_char(c) {
        match ex_parse_number(s, i) {
            None => None,
            Some((t, j)) => Some((Json::Num(t), j)),
        }
    } else {
        None
    }
}

fn ex_array_after_open(s: &Vec<char>, i: usize) -> (r: Option<(Vec<Json>, usize)>)
    requires
        i <= s@.len(),
    ensures
        items_agree(r, parse_array_after_open(s@, i as int)),
    decreases s@.len() - i, 4int,
{
    if i >= s.len() {
        return None;
    }
    if ws_char(s[i]) {
        ex_array_after_open(s, i + 1)
    } else if s[i] == ']' {
        Some((Vec::new(), i + 1))
    } else {
        ex_array_element(s, i)
    }
}

fn ex_array_element(s: &Vec<char>, i: usize) -> (r: Option<(Vec<Json>, usize)>)
    requires
        i <= s@.len(),
    ensures
        items_agree(r, parse_array_element(s@, i as int)),
    decreases s@.len() - i, 3int,
{
    match ex_parse_value(s, i) {
        None => None,
        Some((v, j)) => {
            proof {
                lemma_parse_value_bounds(s@, i as int);
            }
            match ex_array_rest(s, j) {
                None => None,
                Some((vs, k)) => {
                    let ghost vs0 = vs@;
                    let mut vs = vs;
                    vs.insert(0, v);
                    proof {
                        assert(vs@ =~= seq![vs@[0]] + vs0);
                        lemma_items_view_insert_front(vs0, vs@[0]);
                    }
                    Some((vs, k))
                },
            }
        },
    }
}

fn ex_array_rest(s: &Vec<char>, i: usize) -> (r: Option<(Vec<Json>, usize)>)
    requires
        i <= s@.len(),
    ensures
        items_agree(r, parse_array_rest(s@, i as int)),
    decreases s@.len() - i, 3int,
{
    if i >= s.len() {
        return None;
    }
    if ws_char(s[i]) {
        ex_array_rest(s, i + 1)
    } else if s[i] == ',' {
        ex_array_element(s, i + 1)
    } else if s[i] == ']' {
        Some((Vec::new(), i + 1))
    } else {
        None
    }
}

fn ex_object_after_open(s: &Vec<char>, i: usize) -> (r: Option<(Vec<(Vec<char>, Json)>, usize)>)
    requires
        i <= s@.len(),
    ensures
        members_agree(r, parse_object_after_open(s@, i as int)),
    decreases s@.len() - i, 4int,
{
    if i >= s.len() {
        return None;
    }
    if ws_char(s[i]) {
        ex_object_after_open(s, i + 1)
    } else if s[i] == '}' {
        Some((Vec::new(), i + 1))
    } else {
        ex_member(s, i)
    }
}

fn ex_member(s: &Vec<char>, i: usize) -> (r: Option<(Vec<(Vec<char>, Json)>, usize)>)
    requires
        i <= s@.len(),
    ensures
        members_agree(r, parse_member(s@, i as int)),
    decreases s@.len() - i, 3int,
{
    if i >= s.len() {
        return None;
    }
    if ws_char(s[i]) {
        ex_member(s, i + 1)
    } else if s[i] == '"' {
        match ex_string_body(s, i + 1) {
            None => None,
            Some((k, j)) => {
                proof {
                    lemma_string_body_bounds(s@, i as int + 1);
                }
                ex_member_value(s, j, k)
            },
        }
    } else {
        None
    }
}

fn ex_member_value(s: &Vec<char>, i: usize, k: Vec<char>) -> (r: Option<
    (Vec<(Vec<char>, Json)>, usize),
>)
    requires
        i <= s@.len(),
    ensures
        members_agree(r, parse_member_value(s@, i as int, k@)),
    decreases s@.len() - i, 3int,
{
    if i >= s.len() {
        return None;
    }
    if ws_char(s[i]) {
        ex_member_value(s, i + 1, k)
    } else if s[i] == ':' {
        match ex_parse_value(s, i + 1) {
            None => None,
            Some((v, j)) => {
                proof {
                    lemma_parse_value_bounds(s@, i as int + 1);
                }
                match ex_object_rest(s, j) {
                    None => None,
                    Some((ms, l)) => {
                        let ghost ms0 = ms@;
                        let mut ms = ms;
                        ms.insert(0, (k, v));
                        proof {
                            assert(ms@ =~= seq![ms@[0]] + ms0);
                            lemma_members_view_insert_front(ms0, ms@[0]);
                        }
                        Some((ms, l))
                    },
                }
            },
        }
    } else {
        None
    }
}

fn ex_object_rest(s: &Vec<char>, i: usize) -> (r: Option<(Vec<(Vec<char>, Json)>, usize)>)
    requires
        i <= s@.len(),
    ensures
        members_agree(r, parse_object_rest(s@, i as int)),
    decreases s@.len() - i, 3int,
{
    if i >= s.len() {
        return None;
    }
    if ws_char(s[i]) {
        ex_object_rest(s, i + 1)
    } else if s[i] == ',' {
        ex_member(s, i + 1)
    } else if s[i] == '}' {
        Some((Vec::new(), i + 1))
    } else {
        None
    }
}

/// Serializes a value, exactly as `ser` describes.
#[verifier::loop_isolation(false)]
pub fn write_json(j: &Json) -> (r: Vec<char>)
    ensures
        r@ == ser(j@),
    decreases j,
{
    match j {
        Json::Null => str_to_chars("null"),
        Json::Bool(b) => if *b {
            str_to_chars("true")
        } else {
            str_to_chars("false")
        },
        Json::Num(t) => {
            let r = copy_range(t, 0, t.len());
            proof {
                assert(r@ =~= t@);
            }
            r
        },
        Json::Str(t) => {
            let mut r: Vec<char> = Vec::new();
            r.push('"');
            let mut body = copy_range(t, 0, t.len());
            r.append(&mut body);
            r.push('"');
            proof {
                reveal_strlit("\"");
                assert(r@ =~= "\""@ + t@ + "\""@);
            }
            r
        },
        Json::Arr(items) => {
            let ghost model = items_view(items@);
            proof {
                lemma_items_view_index(items@);
            }
            let mut r: Vec<char> = Vec::new();
            r.push('[');
            let mut k: usize = 0;
            while k < items.len()
                invariant
                    k <= items@.len(),
                    model == items_view(items@),
                    model.len() == items@.len(),
                    forall|t: int| 0 <= t < items@.len() ==> model[t] == json_view(items@[t]),
                    r@ == seq!['['] + ser_items(model.subrange(0, k as int)),
                decreases items@.len() - k,
            {
                if k > 0 {
                    r.push(',');
                }
                proof {
                    assert(*j == Json::Arr(*items));
                    assert(decreases_to!(Json::Arr(*items) => *items));
                    assert(decreases_to!(*items => items@));
                    assert(decreases_to!(items@ => items@[k as int]));
                }
                let mut piece = write_json(&items[k]);
                r.append(&mut piece);
                proof {
                    let prev = model.subrange(0, k as int);
                    let cur = model.subrange(0, k as int + 1);
                    assert(cur.drop_last() =~= prev);
                    assert(cur.last() == model[k as int]);
                    if k == 0 {
                        assert(ser_items(cur) == ser(model[0]));
                    } else {
                        reveal_strlit(",");
                        assert(ser_items(cur) == ser_items(prev) + ","@ + ser(model[k as int]));
                    }
                    assert(r@ =~= seq!['['] + ser_items(cur));
                }
                k = k + 1;
            }
            r.push(']');
            proof {
                reveal_strlit("[");
                reveal_strlit("]");
                assert(model.subrange(0, items@.len() as int) =~= model);
                assert(r@ =~= "["@ + ser_items(model) + "]"@);
            }
            r
        },
        Json::Obj(members) => {
            let ghost model = members_view(members@);
            proof {
                lemma_members_view_index(members@);
            }
            let mut r: Vec<char> = Vec::new();
            r.push('{');
            let mut k: usize = 0;
            while k < members.len()
                invariant
                    k <= members@.len(),
                    model == members_view(members@),
                    model.len() == members@.len(),
                    forall|t: int| 0 <= t < members@.len() ==> model[t] == (
                        members@[t].0@,
                        json_view(members@[t].1),
                    ),
                    r@ == seq!['{'] + ser_members(model.subrange(0, k as int)),
                decreases members@.len() - k,
            {
                if k > 0 {
                    r.push(',');
                }
                r.push('"');
                let mut key = copy_range(&members[k].0, 0, members[k].0.len());
                r.append(&mut key);
                r.push('"');
                r.push(':');
                proof {
                    assert(*j == Json::Obj(*members));
                    assert(decreases_to!(Json::Obj(*members) => *members));
                    assert(decreases_to!(*members => members@));
                    assert(decreases_to!(members@ => members@[k as int]));
                    assert(decreases_to!(members@[k as int] => members@[k as int].1));
                }
                let mut piece = write_json(&members[k].1);
                r.append(&mut piece);
                proof {
                    reveal_strlit("\"");
                    reveal_strlit("\":");
                    let prev = model.subrange(0, k as int);
                    let cur = model.subrange(0, k as int + 1);
                    assert(cur.drop_last() =~= prev);
                    assert(cur.last() == model[k as int]);
                    assert(ser_member(model[k as int]) == "\""@ + members@[k as int].0@ + "\":"@
                        + ser(json_view(members@[k as int].1)));
                    if k == 0 {
                        assert(ser_members(cur) == ser_member(model[0]));
                    } else {
                        reveal_strlit(",");
                        assert(ser_members(cur) == ser_members(prev) + ","@ + ser_member(
                            model[k as int],
                        ));
                    }
                    assert(r@ =~= seq!['{'] + ser_members(cur));
                }
                k = k + 1;
            }
            r.push('}');
            proof {
                reveal_strlit("{");
                reveal_strlit("}");
                assert(model.subrange(0, members@.len() as int) =~= model);
                assert(r@ =~= "{"@ + ser_members(model) + "}"@);
            }
            r
        },
    }
}

/// Parses a whole document, exactly as `parse_document` describes.
pub fn parse_json(s: &Vec<char>) -> (r: Option<Json>)
    ensures
        match r {
            None => parse_document(s@) is None,
            Some(j) => parse_document(s@) matches Some(d) && j@ == d,
        },
{
    match ex_parse_value(s, 0) {
        None => None,
        Some((v, j)) => {
            proof {
                lemma_parse_value_bounds(s@, 0);
            }
            let e = ex_skip_ws(s, j);
            if e == s.len() {
                Some(v)
            } else {
                None
            }
        },
    }
}

} // verus!
