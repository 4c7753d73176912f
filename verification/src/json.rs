//! The JSON wire format.
//!
//! Every frame the vendor's sockets and REST endpoints exchange is one JSON
//! document.  This module holds the library's model of such a document
//! ([`Json`] for specifications, [`JsonValue`] for executable code), a
//! verified parser from text to the tree, and a verified escaper used when
//! the library builds outbound frames.
//!
//! The parser accepts standard JSON with two stated deviations: numerals
//! may carry leading zeroes, and `\u` escapes inside strings are rejected
//! (the vendor's frames never use them; a frame that does is reported as
//! malformed rather than misread).

use vstd::prelude::*;
use vstd::string::StrSliceExecFns;

verus! {

broadcast use vstd::std_specs::vec::axiom_vec_decreases_to_view, vstd::seq::axiom_seq_index_decreases;

/// A JSON document, as specifications see it.  Numbers keep their numeral
/// text: the vendor sends quantities in either string or number shape, and
/// the one normalisation point for both is [`crate::num::parse_decimal`].
pub enum Json {
    Null,
    Bool(bool),
    Num(Seq<char>),
    Str(Seq<char>),
    Arr(Seq<Json>),
    Obj(Seq<(Seq<char>, Json)>),
}

/// A JSON document, as executable code holds it.  Object members keep
/// their order of appearance; a lookup takes the first binding of a key.
pub enum JsonValue {
    Null,
    Bool(bool),
    Num(String),
    Str(String),
    Arr(Vec<JsonValue>),
    Obj(Vec<(String, JsonValue)>),
}

/// The tree a [`JsonValue`] stands for.
pub open spec fn json_view(j: JsonValue) -> Json
    decreases j,
    via json_view_decreases
{
    match j {
        JsonValue::Null => Json::Null,
        JsonValue::Bool(b) => Json::Bool(b),
        JsonValue::Num(s) => Json::Num(s@),
        JsonValue::Str(s) => Json::Str(s@),
        JsonValue::Arr(v) => Json::Arr(view_list(v@)),
        JsonValue::Obj(v) => Json::Obj(view_fields(v@)),
    }
}

#[via_fn]
proof fn json_view_decreases(j: JsonValue) {
    match j {
        JsonValue::Arr(v) => {
            assert(decreases_to!(v => v@));
        },
        JsonValue::Obj(v) => {
            assert(decreases_to!(v => v@));
        },
        _ => {},
    }
}

impl View for JsonValue {
    type V = Json;

    open spec fn view(&self) -> Json {
        json_view(*self)
    }
}

/// The element-wise view of a run of array elements.
pub open spec fn view_list(elems: Seq<JsonValue>) -> Seq<Json>
    decreases elems,
    via view_list_decreases
{
    if elems.len() == 0 {
        Seq::empty()
    } else {
        seq![json_view(elems[0])] + view_list(elems.drop_first())
    }
}

#[via_fn]
proof fn view_list_decreases(elems: Seq<JsonValue>) {
    if elems.len() > 0 {
        assert(decreases_to!(elems => elems[0]));
        assert(decreases_to!(elems => elems.subrange(1, elems.len() as int)));
    }
}

/// The pair-wise view of a run of object members.
pub open spec fn view_fields(fields: Seq<(String, JsonValue)>) -> Seq<(Seq<char>, Json)>
    decreases fields,
    via view_fields_decreases
{
    if fields.len() == 0 {
        Seq::empty()
    } else {
        seq![(fields[0].0@, json_view(fields[0].1))] + view_fields(fields.drop_first())
    }
}

#[via_fn]
proof fn view_fields_decreases(fields: Seq<(String, JsonValue)>) {
    if fields.len() > 0 {
        assert(decreases_to!(fields => fields[0]));
        assert(decreases_to!(fields => fields.subrange(1, fields.len() as int)));
    }
}

/// Pointwise description of [`view_list`].
pub proof fn lemma_view_list(elems: Seq<JsonValue>)
    ensures
        view_list(elems).len() == elems.len(),
        forall|i: int| 0 <= i < elems.len() ==> view_list(elems)[i] == elems[i]@,
    decreases elems.len(),
{
    if elems.len() > 0 {
        lemma_view_list(elems.drop_first());
        assert forall|i: int| 0 <= i < elems.len() implies view_list(elems)[i] == elems[i]@ by {
            if i > 0 {
                assert(view_list(elems) == seq![json_view(elems[0])] + view_list(elems.drop_first()));
                assert((seq![json_view(elems[0])] + view_list(elems.drop_first()))[i] == view_list(
                    elems.drop_first(),
                )[i - 1]);
                assert(elems.drop_first()[i - 1] == elems[i]);
            }
        }
    }
}

/// Pointwise description of [`view_fields`].
pub proof fn lemma_view_fields(fields: Seq<(String, JsonValue)>)
    ensures
        view_fields(fields).len() == fields.len(),
        forall|i: int|
            0 <= i < fields.len() ==> view_fields(fields)[i] == (fields[i].0@, fields[i].1@),
    decreases fields.len(),
{
    if fields.len() > 0 {
        lemma_view_fields(fields.drop_first());
        assert forall|i: int|
            0 <= i < fields.len() implies view_fields(fields)[i] == (
        fields[i].0@,
        fields[i].1@,
        ) by {
            if i > 0 {
                assert(view_fields(fields)[i] == view_fields(fields.drop_first())[i - 1]);
                assert(fields.drop_first()[i - 1] == fields[i]);
            }
        }
    }
}

/// The first binding of `key` among `fields`, if any.
pub open spec fn obj_get(fields: Seq<(Seq<char>, Json)>, key: Seq<char>) -> Option<Json>
    decreases fields.len(),
{
    if fields.len() == 0 {
        None
    } else if fields[0].0 == key {
        Some(fields[0].1)
    } else {
        obj_get(fields.drop_first(), key)
    }
}

/// Character-wise string comparison.
pub fn str_eq(a: &str, b: &str) -> (r: bool)
    ensures
        r == (a@ == b@),
{
    let na = a.unicode_len();
    let nb = b.unicode_len();
    if na != nb {
        return false;
    }
    let mut i: usize = 0;
    while i < na
        invariant
            i <= na,
            na == a@.len(),
            na == b@.len(),
            forall|j: int| 0 <= j < i ==> a@[j] == b@[j],
        decreases na - i,
    {
        if a.get_char(i) != b.get_char(i) {
            return false;
        }
        i = i + 1;
    }
    proof {
        assert(a@ =~= b@);
    }
    true
}

impl JsonValue {
    /// Looks `key` up among this object's members; `None` when this is not
    /// an object or no member carries the key.
    pub fn get<'a>(&'a self, key: &str) -> (r: Option<&'a JsonValue>)
        ensures
            match r {
                Some(v) => self@ matches Json::Obj(fields) && obj_get(fields, key@) == Some(v@),
                None => !(self@ matches Json::Obj(fields) && obj_get(fields, key@) is Some),
            },
    {
        match self {
            JsonValue::Obj(fields) => {
                let n = fields.len();
                let mut i: usize = 0;
                while i < n
                    invariant
                        i <= n,
                        n == fields@.len(),
                        self@ == Json::Obj(view_fields(fields@)),
                        forall|j: int| 0 <= j < i ==> fields@[j].0@ != key@,
                    decreases n - i,
                {
                    if str_eq(fields[i].0.as_str(), key) {
                        proof {
                            let fs = self@->Obj_0;
                            lemma_view_fields(fields@);
                            lemma_obj_get_at(fs, key@, i as int);
                        }
                        return Some(&fields[i].1);
                    }
                    i = i + 1;
                }
                proof {
                    assert(self@ == Json::Obj(view_fields(fields@)));
                    let fs = self@->Obj_0;
                    lemma_view_fields(fields@);
                    lemma_obj_get_none(fs, key@);
                }
                None
            },
            _ => None,
        }
    }
}

/// If the first `i` keys differ from `key` and the key at `i` matches,
/// the lookup yields the binding at `i`.
proof fn lemma_obj_get_at(fields: Seq<(Seq<char>, Json)>, key: Seq<char>, i: int)
    requires
        0 <= i < fields.len(),
        forall|j: int| 0 <= j < i ==> fields[j].0 != key,
        fields[i].0 == key,
    ensures
        obj_get(fields, key) == Some(fields[i].1),
    decreases i,
{
    if i > 0 {
        lemma_obj_get_at(fields.drop_first(), key, i - 1);
    }
}

/// If no key matches, the lookup yields nothing.
proof fn lemma_obj_get_none(fields: Seq<(Seq<char>, Json)>, key: Seq<char>)
    requires
        forall|j: int| 0 <= j < fields.len() ==> fields[j].0 != key,
    ensures
        obj_get(fields, key) is None,
    decreases fields.len(),
{
    if fields.len() > 0 {
        lemma_obj_get_none(fields.drop_first(), key);
    }
}

/// Relies on `String::from_iter` over `char`: collects exactly the given
/// characters into an owned string.
#[verifier::external_body]
pub fn string_from_chars(v: &Vec<char>) -> (s: String)
    ensures
        s@ == v@,
{
    v.iter().collect()
}

/// JSON insignificant whitespace.
pub open spec fn is_ws(c: char) -> bool {
    c == ' ' || c == '\t' || c == '\n' || c == '\r'
}

/// The first position at or after `i` holding something other than
/// whitespace (or the end of the text).
pub open spec fn skip_ws(s: Seq<char>, i: int) -> int
    decreases s.len() - i,
{
    if 0 <= i < s.len() && is_ws(s[i]) {
        skip_ws(s, i + 1)
    } else {
        i
    }
}

/// `skip_ws` stays within the text.
pub proof fn lemma_skip_ws_bounds(s: Seq<char>, i: int)
    requires
        0 <= i <= s.len(),
    ensures
        i <= skip_ws(s, i) <= s.len(),
    decreases s.len() - i,
{
    if i < s.len() && is_ws(s[i]) {
        lemma_skip_ws_bounds(s, i + 1);
    }
}

/// The first position at or after `i` holding a non-digit (or the end of
/// the text).
pub open spec fn digits_end(s: Seq<char>, i: int) -> int
    decreases s.len() - i,
{
    if 0 <= i < s.len() && crate::num::is_digit(s[i]) {
        digits_end(s, i + 1)
    } else {
        i
    }
}

/// `digits_end` stays within the text.
pub proof fn lemma_digits_end_bounds(s: Seq<char>, i: int)
    requires
        0 <= i <= s.len(),
    ensures
        i <= digits_end(s, i) <= s.len(),
    decreases s.len() - i,
{
    if i < s.len() && crate::num::is_digit(s[i]) {
        lemma_digits_end_bounds(s, i + 1);
    }
}

/// What a backslash escape stands for; `None` for an escape the parser
/// does not take (among them `\u`, which the vendor never sends).
pub open spec fn esc_code(c: char) -> Option<char> {
    match c {
        '"' => Some('"'),
        '\\' => Some('\\'),
        '/' => Some('/'),
        'b' => Some('\u{0008}'),
        'f' => Some('\u{000C}'),
        'n' => Some('\n'),
        'r' => Some('\r'),
        't' => Some('\t'),
        _ => None,
    }
}

/// Reads string content from `i` up to and beyond the closing quote;
/// yields the decoded content and the position after the quote.
pub open spec fn parse_string_chars(s: Seq<char>, i: int) -> Option<(Seq<char>, int)>
    decreases s.len() - i,
{
    if !(0 <= i < s.len()) {
        None
    } else if s[i] == '"' {
        Some((Seq::empty(), i + 1))
    } else if s[i] == '\\' {
        if i + 1 < s.len() {
            match esc_code(s[i + 1]) {
                Some(c) => match parse_string_chars(s, i + 2) {
                    Some((cs, j)) => Some((seq![c] + cs, j)),
                    None => None,
                },
                None => None,
            }
        } else {
            None
        }
    } else if (s[i] as u32) < 32 {
        None
    } else {
        match parse_string_chars(s, i + 1) {
            Some((cs, j)) => Some((seq![s[i]] + cs, j)),
            None => None,
        }
    }
}

/// Reads a quoted string whose opening quote stands at `i`.
pub open spec fn parse_string_at(s: Seq<char>, i: int) -> Option<(Seq<char>, int)> {
    if 0 <= i < s.len() && s[i] == '"' {
        parse_string_chars(s, i + 1)
    } else {
        None
    }
}

/// String content ends strictly beyond where it starts.
pub proof fn lemma_string_chars_bounds(s: Seq<char>, i: int)
    ensures
        parse_string_chars(s, i) matches Some((cs, j)) ==> i < j <= s.len(),
    decreases s.len() - i,
{
    if 0 <= i < s.len() {
        if s[i] == '\\' {
            if i + 1 < s.len() {
                lemma_string_chars_bounds(s, i + 2);
            }
        } else if s[i] != '"' {
            lemma_string_chars_bounds(s, i + 1);
        }
    }
}

/// A parsed string ends strictly beyond its opening quote.
pub proof fn lemma_string_bounds(s: Seq<char>, i: int)
    ensures
        parse_string_at(s, i) matches Some((cs, j)) ==> i < j <= s.len(),
{
    if 0 <= i < s.len() && s[i] == '"' {
        lemma_string_chars_bounds(s, i + 1);
    }
}

/// Consumes an optional fraction after the whole part of a numeral.
pub open spec fn after_frac(s: Seq<char>, j: int) -> Option<int> {
    if 0 <= j < s.len() && s[j] == '.' {
        let k = digits_end(s, j + 1);
        if k == j + 1 {
            None
        } else {
            Some(k)
        }
    } else {
        Some(j)
    }
}

/// Consumes an optional exponent after the fraction of a numeral.
pub open spec fn after_exp(s: Seq<char>, j: int) -> Option<int> {
    if 0 <= j < s.len() && (s[j] == 'e' || s[j] == 'E') {
        let k0 = if j + 1 < s.len() && (s[j + 1] == '+' || s[j + 1] == '-') {
            j + 2
        } else {
            j + 1
        };
        let k = digits_end(s, k0);
        if k == k0 {
            None
        } else {
            Some(k)
        }
    } else {
        Some(j)
    }
}

/// Reads a numeral starting at `i`: an optional minus, digits, an optional
/// fraction, an optional exponent.  Yields its raw text and what follows.
pub open spec fn parse_number_at(s: Seq<char>, i: int) -> Option<(Seq<char>, int)> {
    if !(0 <= i < s.len()) {
        None
    } else {
        let j0 = if s[i] == '-' {
            i + 1
        } else {
            i
        };
        let j1 = digits_end(s, j0);
        if j1 == j0 {
            None
        } else {
            match after_frac(s, j1) {
                None => None,
                Some(j2) => match after_exp(s, j2) {
                    None => None,
                    Some(j3) => Some((s.subrange(i, j3), j3)),
                },
            }
        }
    }
}

/// A parsed numeral ends strictly beyond where it starts.
pub proof fn lemma_number_bounds(s: Seq<char>, i: int)
    ensures
        parse_number_at(s, i) matches Some((t, j)) ==> i < j <= s.len(),
{
    if 0 <= i < s.len() {
        let j0 = if s[i] == '-' {
            i + 1
        } else {
            i
        };
        lemma_digits_end_bounds(s, j0);
        let j1 = digits_end(s, j0);
        if j1 != j0 {
            if 0 <= j1 < s.len() && s[j1] == '.' {
                lemma_digits_end_bounds(s, j1 + 1);
            }
            match after_frac(s, j1) {
                None => {},
                Some(j2) => {
                    if 0 <= j2 < s.len() && (s[j2] == 'e' || s[j2] == 'E') {
                        let k0 = if j2 + 1 < s.len() && (s[j2 + 1] == '+' || s[j2 + 1] == '-') {
                            j2 + 2
                        } else {
                            j2 + 1
                        };
                        if k0 <= s.len() {
                            lemma_digits_end_bounds(s, k0);
                        }
                    }
                },
            }
        }
    }
}

/// Reads one JSON value whose first character stands at `i`.
pub open spec fn parse_value_at(s: Seq<char>, i: int) -> Option<(Json, int)>
    decreases s.len() - i, 0int,
{
    if !(0 <= i < s.len()) {
        None
    } else {
        let c = s[i];
        if c == 'n' {
            if i + 4 <= s.len() && s[i + 1] == 'u' && s[i + 2] == 'l' && s[i + 3] == 'l' {
                Some((Json::Null, i + 4))
            } else {
                None
            }
        } else if c == 't' {
            if i + 4 <= s.len() && s[i + 1] == 'r' && s[i + 2] == 'u' && s[i + 3] == 'e' {
                Some((Json::Bool(true), i + 4))
            } else {
                None
            }
        } else if c == 'f' {
            if i + 5 <= s.len() && s[i + 1] == 'a' && s[i + 2] == 'l' && s[i + 3] == 's' && s[i
                + 4] == 'e' {
                Some((Json::Bool(false), i + 5))
            } else {
                None
            }
        } else if c == '"' {
            match parse_string_at(s, i) {
                Some((cs, j)) => Some((Json::Str(cs), j)),
                None => None,
            }
        } else if c == '-' || crate::num::is_digit(c) {
            match parse_number_at(s, i) {
                Some((t, j)) => Some((Json::Num(t), j)),
                None => None,
            }
        } else if c == '[' {
            let k = skip_ws(s, i + 1);
            if k < s.len() && s[k] == ']' {
                Some((Json::Arr(Seq::empty()), k + 1))
            } else if i < k && k <= s.len() {
                match parse_elems(s, k) {
                    Some((vs, j)) => Some((Json::Arr(vs), j)),
                    None => None,
                }
            } else {
                None
            }
        } else if c == '{' {
            let k = skip_ws(s, i + 1);
            if k < s.len() && s[k] == '}' {
                Some((Json::Obj(Seq::empty()), k + 1))
            } else if i < k && k <= s.len() {
                match parse_members(s, k) {
                    Some((fs, j)) => Some((Json::Obj(fs), j)),
                    None => None,
                }
            } else {
                None
            }
        } else {
            None
        }
    }
}

/// Reads a comma-separated run of values ending at `]`, the first value
/// starting at `i`.
pub open spec fn parse_elems(s: Seq<char>, i: int) -> Option<(Seq<Json>, int)>
    decreases s.len() - i, 1int,
{
    if !(0 <= i <= s.len()) {
        None
    } else {
        match parse_value_at(s, i) {
            None => None,
            Some((v, j)) => {
                let k = skip_ws(s, j);
                if k < s.len() && s[k] == ',' {
                    let k2 = skip_ws(s, k + 1);
                    if i < k2 && k2 <= s.len() {
                        match parse_elems(s, k2) {
                            Some((vs, end)) => Some((seq![v] + vs, end)),
                            None => None,
                        }
                    } else {
                        None
                    }
                } else if k < s.len() && s[k] == ']' {
                    Some((seq![v], k + 1))
                } else {
                    None
                }
            },
        }
    }
}

/// Reads a comma-separated run of `key: value` members ending at `}`, the
/// first key starting at `i`.
pub open spec fn parse_members(s: Seq<char>, i: int) -> Option<(Seq<(Seq<char>, Json)>, int)>
    decreases s.len() - i, 1int,
{
    if !(0 <= i <= s.len()) {
        None
    } else {
        match parse_string_at(s, i) {
            None => None,
            Some((key, j)) => {
                let k = skip_ws(s, j);
                if k < s.len() && s[k] == ':' {
                    let k2 = skip_ws(s, k + 1);
                    if i <= k2 && k2 <= s.len() {
                        match parse_value_at(s, k2) {
                            None => None,
                            Some((v, j2)) => {
                                let k3 = skip_ws(s, j2);
                                if k3 < s.len() && s[k3] == ',' {
                                    let k4 = skip_ws(s, k3 + 1);
                                    if i < k4 && k4 <= s.len() {
                                        match parse_members(s, k4) {
                                            Some((fs, end)) => Some(
                                                (seq![(key, v)] + fs, end),
                                            ),
                                            None => None,
                                        }
                                    } else {
                                        None
                                    }
                                } else if k3 < s.len() && s[k3] == '}' {
                                    Some((seq![(key, v)], k3 + 1))
                                } else {
                                    None
                                }
                            },
                        }
                    } else {
                        None
                    }
                } else {
                    None
                }
            },
        }
    }
}

/// Reads one whole document: one value surrounded by whitespace alone.
pub open spec fn spec_parse_json(s: Seq<char>) -> Option<Json> {
    let i = skip_ws(s, 0);
    match parse_value_at(s, i) {
        Some((v, j)) => if skip_ws(s, j) == s.len() {
            Some(v)
        } else {
            None
        },
        None => None,
    }
}

/// A parsed value ends strictly beyond where it starts.
pub proof fn lemma_value_bounds(s: Seq<char>, i: int)
    ensures
        parse_value_at(s, i) matches Some((v, j)) ==> i < j <= s.len(),
    decreases s.len() - i, 0int,
{
    if 0 <= i < s.len() {
        let c = s[i];
        if c == '"' {
            lemma_string_bounds(s, i);
        } else if c == '-' || crate::num::is_digit(c) {
            lemma_number_bounds(s, i);
        } else if c == '[' {
            lemma_skip_ws_bounds(s, i + 1);
            let k = skip_ws(s, i + 1);
            if !(k < s.len() && s[k] == ']') && i < k && k <= s.len() {
                lemma_elems_bounds(s, k);
            }
        } else if c == '{' {
            lemma_skip_ws_bounds(s, i + 1);
            let k = skip_ws(s, i + 1);
            if !(k < s.len() && s[k] == '}') && i < k && k <= s.len() {
                lemma_members_bounds(s, k);
            }
        }
    }
}

/// A parsed element run ends strictly beyond where it starts.
pub proof fn lemma_elems_bounds(s: Seq<char>, i: int)
    ensures
        parse_elems(s, i) matches Some((vs, j)) ==> i < j <= s.len(),
    decreases s.len() - i, 1int,
{
    if 0 <= i <= s.len() {
        lemma_value_bounds(s, i);
        match parse_value_at(s, i) {
            None => {},
            Some((v, j)) => {
                lemma_skip_ws_bounds(s, j);
                let k = skip_ws(s, j);
                if k < s.len() && s[k] == ',' {
                    lemma_skip_ws_bounds(s, k + 1);
                    let k2 = skip_ws(s, k + 1);
                    if i < k2 && k2 <= s.len() {
                        lemma_elems_bounds(s, k2);
                    }
                }
            },
        }
    }
}

/// Executable [`skip_ws`].
fn skip_ws_exec(s: &str, n: usize, i: usize) -> (r: usize)
    requires
        n == s@.len(),
        i <= n,
    ensures
        r == skip_ws(s@, i as int),
        i <= r <= n,
{
    let mut k = i;
    while k < n
        invariant_except_break
            i <= k <= n,
            n == s@.len(),
            skip_ws(s@, i as int) == skip_ws(s@, k as int),
        ensures
            i <= k <= n,
            skip_ws(s@, i as int) == skip_ws(s@, k as int),
            k < n ==> !is_ws(s@[k as int]),
        decreases n - k,
    {
        let c = s.get_char(k);
        if !(c == ' ' || c == '\t' || c == '\n' || c == '\r') {
            break ;
        }
        k = k + 1;
    }
    k
}

/// Executable [`digits_end`].
fn digits_end_exec(s: &str, n: usize, i: usize) -> (r: usize)
    requires
        n == s@.len(),
        i <= n,
    ensures
        r == digits_end(s@, i as int),
        i <= r <= n,
{
    let mut k = i;
    while k < n
        invariant_except_break
            i <= k <= n,
            n == s@.len(),
            digits_end(s@, i as int) == digits_end(s@, k as int),
        ensures
            i <= k <= n,
            digits_end(s@, i as int) == digits_end(s@, k as int),
            k < n ==> !crate::num::is_digit(s@[k as int]),
        decreases n - k,
    {
        let u = s.get_char(k) as u32;
        if u < 48 || u > 57 {
            break ;
        }
        k = k + 1;
    }
    k
}

/// How an executable string result mirrors its specification.
pub open spec fn str_result_matches(r: Option<(String, usize)>, sr: Option<(Seq<char>, int)>) -> bool {
    match (r, sr) {
        (Some((c, j)), Some((sc, sj))) => c@ == sc && j == sj,
        (None, None) => true,
        _ => false,
    }
}

/// Executable [`parse_string_at`].
fn parse_string_exec(s: &str, n: usize, i: usize) -> (r: Option<(String, usize)>)
    requires
        n == s@.len(),
        i <= n,
    ensures
        str_result_matches(r, parse_string_at(s@, i as int)),
        r matches Some((c, j)) ==> i < j <= n,
{
    proof {
        lemma_string_bounds(s@, i as int);
    }
    if i >= n || s.get_char(i) != '"' {
        return None;
    }
    let mut acc: Vec<char> = Vec::new();
    let mut k = i + 1;
    loop
        invariant
            i + 1 <= k <= n,
            n == s@.len(),
            i < n,
            s@[i as int] == '"',
            str_chars_continues(s@, i + 1, k as int, acc@),
        ensures
            str_chars_continues(s@, i + 1, k as int, acc@),
            k < n,
            s@[k as int] == '"',
        decreases n - k,
    {
        if k >= n {
            // The text ends inside the string.
            return None;
        }
        let c = s.get_char(k);
        if c == '"' {
            break ;
        }
        if c == '\\' {
            if k + 1 >= n {
                return None;
            }
            let e = s.get_char(k + 1);
            let dec = if e == '"' {
                '"'
            } else if e == '\\' {
                '\\'
            } else if e == '/' {
                '/'
            } else if e == 'b' {
                '\u{0008}'
            } else if e == 'f' {
                '\u{000C}'
            } else if e == 'n' {
                '\n'
            } else if e == 'r' {
                '\r'
            } else if e == 't' {
                '\t'
            } else {
                return None;
            };
            proof {
                assert(esc_code(s@[k as int + 1]) == Some(dec));
                lemma_str_chars_step(s@, i + 1, k as int, acc@, dec, k as int + 2);
            }
            acc.push(dec);
            k = k + 2;
        } else if (c as u32) < 32 {
            return None;
        } else {
            proof {
                lemma_str_chars_step(s@, i + 1, k as int, acc@, c, k as int + 1);
            }
            acc.push(c);
            k = k + 1;
        }
    }
    proof {
        assert(parse_string_chars(s@, k as int) == Some((Seq::<char>::empty(), k + 1)));
        assert(acc@ + Seq::<char>::empty() =~= acc@);
    }
    let content = string_from_chars(&acc);
    Some((content, k + 1))
}

/// The loop invariant of the string scanner: the remaining content at `k`,
/// prefixed by what was already decoded, is the whole string's content.
pub open spec fn str_chars_continues(s: Seq<char>, start: int, k: int, acc: Seq<char>) -> bool {
    match parse_string_chars(s, k) {
        Some((cs, j)) => parse_string_chars(s, start) == Some((acc + cs, j)),
        None => parse_string_chars(s, start) is None,
    }
}

/// One step of the string scanner preserves its invariant.
proof fn lemma_str_chars_step(s: Seq<char>, start: int, k: int, acc: Seq<char>, c: char, k2: int)
    requires
        str_chars_continues(s, start, k, acc),
        0 <= k < s.len(),
        s[k] != '"',
        if s[k] == '\\' {
            k + 1 < s.len() && esc_code(s[k + 1]) == Some(c) && k2 == k + 2
        } else {
            (s[k] as u32) >= 32 && c == s[k] && k2 == k + 1
        },
    ensures
        str_chars_continues(s, start, k2, acc.push(c)),
{
    match parse_string_chars(s, k2) {
        Some((cs, j)) => {
            assert(parse_string_chars(s, k) == Some((seq![c] + cs, j)));
            assert(acc + (seq![c] + cs) =~= acc.push(c) + cs);
        },
        None => {
            assert(parse_string_chars(s, k) is None);
        },
    }
}

/// Executable [`parse_number_at`].
fn parse_number_exec(s: &str, n: usize, i: usize) -> (r: Option<(String, usize)>)
    requires
        n == s@.len(),
        i <= n,
        i < n ==> (s@[i as int] == '-' || crate::num::is_digit(s@[i as int])),
    ensures
        str_result_matches(r, parse_number_at(s@, i as int)),
        r matches Some((t, j)) ==> i < j <= n,
{
    proof {
        lemma_number_bounds(s@, i as int);
    }
    if i >= n {
        return None;
    }
    let j0 = if s.get_char(i) == '-' {
        i + 1
    } else {
        i
    };
    let j1 = digits_end_exec(s, n, j0);
    if j1 == j0 {
        return None;
    }
    // Optional fraction.
    let j2 = if j1 < n && s.get_char(j1) == '.' {
        let k = digits_end_exec(s, n, j1 + 1);
        if k == j1 + 1 {
            return None;
        }
        k
    } else {
        j1
    };
    proof {
        assert(after_frac(s@, j1 as int) == Some(j2 as int));
    }
    // Optional exponent.
    let j3 = if j2 < n && (s.get_char(j2) == 'e' || s.get_char(j2) == 'E') {
        let k0 = if j2 + 1 < n && (s.get_char(j2 + 1) == '+' || s.get_char(j2 + 1) == '-') {
            j2 + 2
        } else {
            j2 + 1
        };
        let k = digits_end_exec(s, n, k0);
        if k == k0 {
            return None;
        }
        k
    } else {
        j2
    };
    proof {
        assert(after_exp(s@, j2 as int) == Some(j3 as int));
    }
    let text = s.substring_char(i, j3).to_owned();
    Some((text, j3))
}

/// How an executable value result mirrors its specification.
pub open spec fn jv_result_matches(r: Option<(JsonValue, usize)>, sr: Option<(Json, int)>) -> bool {
    match (r, sr) {
        (Some((v, j)), Some((sv, sj))) => v@ == sv && j == sj,
        (None, None) => true,
        _ => false,
    }
}

/// How an executable element-run result mirrors its specification.
pub open spec fn list_result_matches(
    r: Option<(Vec<JsonValue>, usize)>,
    sr: Option<(Seq<Json>, int)>,
) -> bool {
    match (r, sr) {
        (Some((vs, j)), Some((svs, sj))) => view_list(vs@) == svs && j == sj,
        (None, None) => true,
        _ => false,
    }
}

/// How an executable member-run result mirrors its specification.
pub open spec fn fields_result_matches(
    r: Option<(Vec<(String, JsonValue)>, usize)>,
    sr: Option<(Seq<(Seq<char>, Json)>, int)>,
) -> bool {
    match (r, sr) {
        (Some((fs, j)), Some((sfs, sj))) => view_fields(fs@) == sfs && j == sj,
        (None, None) => true,
        _ => false,
    }
}

/// Prepending an element prepends its view.
proof fn lemma_view_cons(v: JsonValue, rest: Seq<JsonValue>)
    ensures
        view_list(rest.insert(0, v)) == seq![json_view(v)] + view_list(rest),
{
    let whole = rest.insert(0, v);
    lemma_view_list(whole);
    lemma_view_list(rest);
    assert forall|i: int|
        0 <= i < whole.len() implies view_list(whole)[i] == (seq![json_view(v)] + view_list(
    rest,
    ))[i] by {
        if i > 0 {
            assert(whole[i] == rest[i - 1]);
        }
    }
    assert(view_list(whole) =~= seq![json_view(v)] + view_list(rest));
}

/// Prepending a member prepends its view.
proof fn lemma_view_fields_cons(p: (String, JsonValue), rest: Seq<(String, JsonValue)>)
    ensures
        view_fields(rest.insert(0, p)) == seq![(p.0@, json_view(p.1))] + view_fields(rest),
{
    let whole = rest.insert(0, p);
    lemma_view_fields(whole);
    lemma_view_fields(rest);
    assert forall|i: int|
        0 <= i < whole.len() implies view_fields(whole)[i] == (seq![(p.0@, json_view(p.1))]
        + view_fields(rest))[i] by {
        if i > 0 {
            assert(whole[i] == rest[i - 1]);
        }
    }
    assert(view_fields(whole) =~= seq![(p.0@, json_view(p.1))] + view_fields(rest));
}

/// Executable [`parse_value_at`].
fn parse_value_exec(s: &str, n: usize, i: usize) -> (r: Option<(JsonValue, usize)>)
    requires
        n == s@.len(),
        i <= n,
    ensures
        jv_result_matches(r, parse_value_at(s@, i as int)),
        r matches Some((v, j)) ==> i < j <= n,
    decreases n - i, 0int,
{
    proof {
        lemma_value_bounds(s@, i as int);
    }
    if i >= n {
        return None;
    }
    let c = s.get_char(i);
    if c == 'n' {
        if n - i >= 4 && s.get_char(i + 1) == 'u' && s.get_char(i + 2) == 'l' && s.get_char(i + 3)
            == 'l' {
            Some((JsonValue::Null, i + 4))
        } else {
            None
        }
    } else if c == 't' {
        if n - i >= 4 && s.get_char(i + 1) == 'r' && s.get_char(i + 2) == 'u' && s.get_char(i + 3)
            == 'e' {
            Some((JsonValue::Bool(true), i + 4))
        } else {
            None
        }
    } else if c == 'f' {
        if n - i >= 5 && s.get_char(i + 1) == 'a' && s.get_char(i + 2) == 'l' && s.get_char(i + 3)
            == 's' && s.get_char(i + 4) == 'e' {
            Some((JsonValue::Bool(false), i + 5))
        } else {
            None
        }
    } else if c == '"' {
        match parse_string_exec(s, n, i) {
            Some((t, j)) => Some((JsonValue::Str(t), j)),
            None => None,
        }
    } else if c == '-' || (c as u32 >= 48 && c as u32 <= 57) {
        match parse_number_exec(s, n, i) {
            Some((t, j)) => Some((JsonValue::Num(t), j)),
            None => None,
        }
    } else if c == '[' {
        let k = skip_ws_exec(s, n, i + 1);
        if k < n && s.get_char(k) == ']' {
            proof {
                assert(view_list(Seq::<JsonValue>::empty()) == Seq::<Json>::empty());
            }
            Some((JsonValue::Arr(Vec::new()), k + 1))
        } else {
            match parse_elems_exec(s, n, k) {
                Some((vs, j)) => Some((JsonValue::Arr(vs), j)),
                None => None,
            }
        }
    } else if c == '{' {
        let k = skip_ws_exec(s, n, i + 1);
        if k < n && s.get_char(k) == '}' {
            proof {
                assert(view_fields(Seq::<(String, JsonValue)>::empty()) == Seq::<(
                    Seq<char>,
                    Json,
                )>::empty());
            }
            Some((JsonValue::Obj(Vec::new()), k + 1))
        } else {
            match parse_members_exec(s, n, k) {
                Some((fs, j)) => Some((JsonValue::Obj(fs), j)),
                None => None,
            }
        }
    } else {
        None
    }
}

/// Executable [`parse_elems`].
fn parse_elems_exec(s: &str, n: usize, i: usize) -> (r: Option<(Vec<JsonValue>, usize)>)
    requires
        n == s@.len(),
        i <= n,
    ensures
        list_result_matches(r, parse_elems(s@, i as int)),
        r matches Some((vs, j)) ==> i < j <= n,
    decreases n - i, 1int,
{
    proof {
        lemma_elems_bounds(s@, i as int);
    }
    match parse_value_exec(s, n, i) {
        None => None,
        Some((v, j)) => {
            let k = skip_ws_exec(s, n, j);
            if k < n && s.get_char(k) == ',' {
                let k2 = skip_ws_exec(s, n, k + 1);
                match parse_elems_exec(s, n, k2) {
                    Some((vs, end)) => {
                        proof {
                            lemma_view_cons(v, vs@);
                        }
                        let mut out = vs;
                        out.insert(0, v);
                        Some((out, end))
                    },
                    None => None,
                }
            } else if k < n && s.get_char(k) == ']' {
                let mut out: Vec<JsonValue> = Vec::new();
                proof {
                    lemma_view_cons(v, Seq::<JsonValue>::empty());
                    assert(Seq::<JsonValue>::empty().insert(0, v) =~= seq![v]);
                    assert(seq![json_view(v)] + view_list(Seq::<JsonValue>::empty()) =~= seq![
                        json_view(v),
                    ]);
                }
                out.push(v);
                proof {
                    assert(out@ =~= seq![v].subrange(0, 1));
                    assert(out@ =~= seq![v]);
                }
                Some((out, k + 1))
            } else {
                None
            }
        },
    }
}

/// Executable [`parse_members`].
fn parse_members_exec(s: &str, n: usize, i: usize) -> (r: Option<(Vec<(String, JsonValue)>, usize)>)
    requires
        n == s@.len(),
        i <= n,
    ensures
        fields_result_matches(r, parse_members(s@, i as int)),
        r matches Some((fs, j)) ==> i < j <= n,
    decreases n - i, 1int,
{
    proof {
        lemma_members_bounds(s@, i as int);
    }
    match parse_string_exec(s, n, i) {
        None => None,
        Some((key, j)) => {
            let k = skip_ws_exec(s, n, j);
            if k < n && s.get_char(k) == ':' {
                let k2 = skip_ws_exec(s, n, k + 1);
                match parse_value_exec(s, n, k2) {
                    None => None,
                    Some((v, j2)) => {
                        let k3 = skip_ws_exec(s, n, j2);
                        if k3 < n && s.get_char(k3) == ',' {
                            let k4 = skip_ws_exec(s, n, k3 + 1);
                            match parse_members_exec(s, n, k4) {
                                Some((fs, end)) => {
                                    proof {
                                        lemma_view_fields_cons((key, v), fs@);
                                    }
                                    let mut out = fs;
                                    out.insert(0, (key, v));
                                    Some((out, end))
                                },
                                None => None,
                            }
                        } else if k3 < n && s.get_char(k3) == '}' {
                            let mut out: Vec<(String, JsonValue)> = Vec::new();
                            proof {
                                lemma_view_fields_cons(
                                    (key, v),
                                    Seq::<(String, JsonValue)>::empty(),
                                );
                            }
                            out.push((key, v));
                            proof {
                                assert(out@ =~= Seq::<(String, JsonValue)>::empty().insert(
                                    0,
                                    (key, v),
                                ));
                            }
                            Some((out, k3 + 1))
                        } else {
                            None
                        }
                    },
                }
            } else {
                None
            }
        },
    }
}

/// Parses one JSON document.  `None` exactly when the text is not a single
/// well-formed document (under the two stated deviations).
pub fn parse_json(s: &str) -> (r: Option<JsonValue>)
    ensures
        match r {
            Some(v) => spec_parse_json(s@) == Some(v@),
            None => spec_parse_json(s@) is None,
        },
{
    let n = s.unicode_len();
    let i = skip_ws_exec(s, n, 0);
    match parse_value_exec(s, n, i) {
        Some((v, j)) => {
            let k = skip_ws_exec(s, n, j);
            if k == n {
                Some(v)
            } else {
                None
            }
        },
        None => None,
    }
}

impl JsonValue {
    /// An owned copy of this document, equal in view.
    pub fn duplicate(&self) -> (r: JsonValue)
        ensures
            r@ == self@,
        decreases self,
    {
        match self {
            JsonValue::Null => JsonValue::Null,
            JsonValue::Bool(b) => JsonValue::Bool(*b),
            JsonValue::Num(s) => JsonValue::Num(s.clone()),
            JsonValue::Str(s) => JsonValue::Str(s.clone()),
            JsonValue::Arr(es) => {
                let n = es.len();
                let mut out: Vec<JsonValue> = Vec::new();
                let mut i: usize = 0;
                while i < n
                    invariant
                        i <= n,
                        n == es@.len(),
                        out@.len() == i,
                        forall|k: int| 0 <= k < i ==> out@[k]@ == es@[k]@,
                        decreases_to!(*self => es@),
                    decreases n - i,
                {
                    proof {
                        assert(decreases_to!(es@ => es@[i as int]));
                    }
                    let c = es[i].duplicate();
                    out.push(c);
                    i = i + 1;
                }
                proof {
                    lemma_view_list(out@);
                    lemma_view_list(es@);
                    assert(view_list(out@) =~= view_list(es@));
                }
                JsonValue::Arr(out)
            },
            JsonValue::Obj(fs) => {
                let n = fs.len();
                let mut out: Vec<(String, JsonValue)> = Vec::new();
                let mut i: usize = 0;
                while i < n
                    invariant
                        i <= n,
                        n == fs@.len(),
                        out@.len() == i,
                        forall|k: int|
                            0 <= k < i ==> out@[k].0@ == fs@[k].0@ && out@[k].1@ == fs@[k].1@,
                        decreases_to!(*self => fs@),
                    decreases n - i,
                {
                    proof {
                        assert(decreases_to!(fs@ => fs@[i as int]));
                    }
                    let key = fs[i].0.clone();
                    let val = fs[i].1.duplicate();
                    out.push((key, val));
                    i = i + 1;
                }
                proof {
                    lemma_view_fields(out@);
                    lemma_view_fields(fs@);
                    assert(view_fields(out@) =~= view_fields(fs@));
                }
                JsonValue::Obj(out)
            },
        }
    }
}

/// The hexadecimal digit for a value below sixteen.
pub open spec fn hex_char(n: nat) -> char {
    if n == 0 {
        '0'
    } else if n == 1 {
        '1'
    } else if n == 2 {
        '2'
    } else if n == 3 {
        '3'
    } else if n == 4 {
        '4'
    } else if n == 5 {
        '5'
    } else if n == 6 {
        '6'
    } else if n == 7 {
        '7'
    } else if n == 8 {
        '8'
    } else if n == 9 {
        '9'
    } else if n == 10 {
        'a'
    } else if n == 11 {
        'b'
    } else if n == 12 {
        'c'
    } else if n == 13 {
        'd'
    } else if n == 14 {
        'e'
    } else {
        'f'
    }
}

/// How one character appears inside a JSON string literal.
pub open spec fn esc_char(c: char) -> Seq<char> {
    if c == '"' {
        seq!['\\', '"']
    } else if c == '\\' {
        seq!['\\', '\\']
    } else if c == '\n' {
        seq!['\\', 'n']
    } else if c == '\r' {
        seq!['\\', 'r']
    } else if c == '\t' {
        seq!['\\', 't']
    } else if c == '\u{0008}' {
        seq!['\\', 'b']
    } else if c == '\u{000C}' {
        seq!['\\', 'f']
    } else if (c as u32) < 32 {
        seq!['\\', 'u', '0', '0', hex_char((c as u32 / 16) as nat), hex_char((c as u32 % 16) as nat)]
    } else {
        seq![c]
    }
}

/// How a whole string's content appears inside a JSON string literal.
pub open spec fn json_escape(s: Seq<char>) -> Seq<char>
    decreases s.len(),
{
    if s.len() == 0 {
        Seq::empty()
    } else {
        esc_char(s[0]) + json_escape(s.drop_first())
    }
}

/// Escaping one character more escapes it at the end.
pub proof fn lemma_escape_snoc(s: Seq<char>, c: char)
    ensures
        json_escape(s.push(c)) == json_escape(s) + esc_char(c),
    decreases s.len(),
{
    if s.len() == 0 {
        let t = s.push(c);
        assert(t.len() == 1);
        assert(t[0] == c);
        assert(t.drop_first() =~= Seq::<char>::empty());
        assert(json_escape(t) == esc_char(c) + json_escape(t.drop_first()));
        assert(json_escape(Seq::<char>::empty()) == Seq::<char>::empty());
        assert(json_escape(t) =~= json_escape(s) + esc_char(c));
    } else {
        assert(s.push(c).drop_first() =~= s.drop_first().push(c));
        lemma_escape_snoc(s.drop_first(), c);
        assert(s.push(c)[0] == s[0]);
        assert(json_escape(s.push(c)) == esc_char(s[0]) + json_escape(s.drop_first().push(c)));
        assert(esc_char(s[0]) + (json_escape(s.drop_first()) + esc_char(c)) =~= (esc_char(s[0])
            + json_escape(s.drop_first())) + esc_char(c));
    }
}

/// The hexadecimal digit for a value below sixteen.
fn hex_char_exec(x: u32) -> (r: char)
    requires
        x < 16,
    ensures
        r == hex_char(x as nat),
{
    if x == 0 {
        '0'
    } else if x == 1 {
        '1'
    } else if x == 2 {
        '2'
    } else if x == 3 {
        '3'
    } else if x == 4 {
        '4'
    } else if x == 5 {
        '5'
    } else if x == 6 {
        '6'
    } else if x == 7 {
        '7'
    } else if x == 8 {
        '8'
    } else if x == 9 {
        '9'
    } else if x == 10 {
        'a'
    } else if x == 11 {
        'b'
    } else if x == 12 {
        'c'
    } else if x == 13 {
        'd'
    } else if x == 14 {
        'e'
    } else {
        'f'
    }
}

/// Appends the characters of `s` unchanged.
pub fn push_lit(out: &mut Vec<char>, s: &str)
    ensures
        final(out)@ == old(out)@ + s@,
{
    let n = s.unicode_len();
    let mut i: usize = 0;
    while i < n
        invariant
            i <= n,
            n == s@.len(),
            out@ == old(out)@ + s@.subrange(0, i as int),
        decreases n - i,
    {
        let c = s.get_char(i);
        out.push(c);
        proof {
            assert(s@.subrange(0, i + 1) =~= s@.subrange(0, i as int).push(c));
            assert(old(out)@ + s@.subrange(0, i as int).push(c) =~= (old(out)@ + s@.subrange(
                0,
                i as int,
            )).push(c));
        }
        i = i + 1;
    }
    proof {
        assert(s@.subrange(0, n as int) =~= s@);
    }
}

/// Appends the characters of `s` as they appear inside a JSON string
/// literal, escapes included.
pub fn push_escaped(out: &mut Vec<char>, s: &str)
    ensures
        final(out)@ == old(out)@ + json_escape(s@),
{
    let n = s.unicode_len();
    let mut i: usize = 0;
    while i < n
        invariant
            i <= n,
            n == s@.len(),
            out@ == old(out)@ + json_escape(s@.subrange(0, i as int)),
        decreases n - i,
    {
        let c = s.get_char(i);
        let u = c as u32;
        proof {
            assert(s@.subrange(0, i + 1) =~= s@.subrange(0, i as int).push(c));
            lemma_escape_snoc(s@.subrange(0, i as int), c);
        }
        let ghost before = out@;
        if c == '"' {
            out.push('\\');
            out.push('"');
        } else if c == '\\' {
            out.push('\\');
            out.push('\\');
        } else if c == '\n' {
            out.push('\\');
            out.push('n');
        } else if c == '\r' {
            out.push('\\');
            out.push('r');
        } else if c == '\t' {
            out.push('\\');
            out.push('t');
        } else if u == 8 {
            out.push('\\');
            out.push('b');
        } else if u == 12 {
            out.push('\\');
            out.push('f');
        } else if u < 32 {
            out.push('\\');
            out.push('u');
            out.push('0');
            out.push('0');
            out.push(hex_char_exec(u / 16));
            out.push(hex_char_exec(u % 16));
        } else {
            out.push(c);
        }
        proof {
            assert(out@ =~= before + esc_char(c));
            assert(before + esc_char(c) =~= old(out)@ + (json_escape(s@.subrange(0, i as int))
                + esc_char(c)));
        }
        i = i + 1;
    }
    proof {
        assert(s@.subrange(0, n as int) =~= s@);
    }
}

/// A parsed member run ends strictly beyond where it starts.
pub proof fn lemma_members_bounds(s: Seq<char>, i: int)
    ensures
        parse_members(s, i) matches Some((fs, j)) ==> i < j <= s.len(),
    decreases s.len() - i, 1int,
{
    if 0 <= i <= s.len() {
        lemma_string_bounds(s, i);
        match parse_string_at(s, i) {
            None => {},
            Some((key, j)) => {
                lemma_skip_ws_bounds(s, j);
                let k = skip_ws(s, j);
                if k < s.len() && s[k] == ':' {
                    lemma_skip_ws_bounds(s, k + 1);
                    let k2 = skip_ws(s, k + 1);
                    if i <= k2 && k2 <= s.len() {
                        lemma_value_bounds(s, k2);
                        match parse_value_at(s, k2) {
                            None => {},
                            Some((v, j2)) => {
                                lemma_skip_ws_bounds(s, j2);
                                let k3 = skip_ws(s, j2);
                                if k3 < s.len() && s[k3] == ',' {
                                    lemma_skip_ws_bounds(s, k3 + 1);
                                    let k4 = skip_ws(s, k3 + 1);
                                    if i < k4 && k4 <= s.len() {
                                        lemma_members_bounds(s, k4);
                                    }
                                }
                            },
                        }
                    }
                }
            },
        }
    }
}

} // verus!
