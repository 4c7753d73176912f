//! Typed readers for the fields of a decoded JSON object.
//!
//! Every record decoder in this library reads its fields through these
//! helpers, so the vendor's irregularities are handled in one place:
//! a quantity may arrive as a JSON number or as a JSON string and both
//! shapes normalise through the same parse, `null` normalises to "absent"
//! for optional quantities, and to the empty list for lists.

use vstd::prelude::*;
use crate::json::{Json, JsonValue, obj_get};
use crate::num::{Decimal, spec_parse_decimal, parse_decimal};

verus! {

/// The binding of `key` in the object `j`.
pub open spec fn sget(j: Json, key: Seq<char>) -> Option<Json> {
    match j {
        Json::Obj(fs) => obj_get(fs, key),
        _ => None,
    }
}

/// The content of a JSON string.
pub open spec fn sstr(j: Json) -> Option<Seq<char>> {
    match j {
        Json::Str(s) => Some(s),
        _ => None,
    }
}

/// The quantity a JSON value stands for: a numeral, whether it arrived as
/// a JSON number or as a JSON string, read by the one shared parse.
pub open spec fn sdec(j: Json) -> Option<Decimal> {
    match j {
        Json::Num(t) => spec_parse_decimal(t),
        Json::Str(t) => spec_parse_decimal(t),
        _ => None,
    }
}

/// A required string field.
pub open spec fn sfield_str(j: Json, key: Seq<char>) -> Option<Seq<char>> {
    match sget(j, key) {
        Some(f) => sstr(f),
        None => None,
    }
}

/// A required quantity field.
pub open spec fn sfield_dec(j: Json, key: Seq<char>) -> Option<Decimal> {
    match sget(j, key) {
        Some(f) => sdec(f),
        None => None,
    }
}

/// An optional quantity field: absent or `null` is "absent", never an
/// error; a present non-null value must be a quantity.
pub open spec fn sfield_opt_dec(j: Json, key: Seq<char>) -> Option<Option<Decimal>> {
    match sget(j, key) {
        None => Some(None),
        Some(f) => if f is Null {
            Some(None)
        } else {
            match sdec(f) {
                Some(d) => Some(Some(d)),
                None => None,
            }
        },
    }
}

/// An optional string field: absent or `null` is "absent".
pub open spec fn sfield_opt_str(j: Json, key: Seq<char>) -> Option<Option<Seq<char>>> {
    match sget(j, key) {
        None => Some(None),
        Some(f) => if f is Null {
            Some(None)
        } else {
            match sstr(f) {
                Some(s) => Some(Some(s)),
                None => None,
            }
        },
    }
}

/// A required whole non-negative quantity.
pub open spec fn sfield_u64(j: Json, key: Seq<char>) -> Option<u64> {
    match sfield_dec(j, key) {
        Some(d) => if !d.neg && d.nanos == 0 {
            Some(d.units)
        } else {
            None
        },
        None => None,
    }
}

/// A required whole quantity with a sign.
pub open spec fn sfield_i64(j: Json, key: Seq<char>) -> Option<i64> {
    match sfield_dec(j, key) {
        Some(d) => if d.nanos == 0 && d.units <= i64::MAX {
            if d.neg {
                Some((-(d.units as int)) as i64)
            } else {
                Some(d.units as i64)
            }
        } else {
            None
        },
        None => None,
    }
}

/// A required boolean field.
pub open spec fn sfield_bool(j: Json, key: Seq<char>) -> Option<bool> {
    match sget(j, key) {
        Some(Json::Bool(b)) => Some(b),
        _ => None,
    }
}

/// A boolean field that falls back to a default when absent.
pub open spec fn sfield_bool_or(j: Json, key: Seq<char>, dflt: bool) -> Option<bool> {
    match sget(j, key) {
        None => Some(dflt),
        Some(Json::Bool(b)) => Some(b),
        Some(_) => None,
    }
}

/// The contents of an array of strings.
pub open spec fn sstrs(elems: Seq<Json>) -> Option<Seq<Seq<char>>>
    decreases elems.len(),
{
    if elems.len() == 0 {
        Some(Seq::empty())
    } else {
        match sstr(elems[0]) {
            Some(s) => match sstrs(elems.drop_first()) {
                Some(r) => Some(seq![s] + r),
                None => None,
            },
            None => None,
        }
    }
}

/// A required list-of-strings field; `null` normalises to the empty list.
pub open spec fn sfield_str_list(j: Json, key: Seq<char>) -> Option<Seq<Seq<char>>> {
    match sget(j, key) {
        Some(Json::Null) => Some(Seq::empty()),
        Some(Json::Arr(es)) => sstrs(es),
        _ => None,
    }
}

/// An optional list-of-strings field: absent or `null` is "absent".
pub open spec fn sfield_opt_str_list(j: Json, key: Seq<char>) -> Option<Option<Seq<Seq<char>>>> {
    match sget(j, key) {
        None => Some(None),
        Some(Json::Null) => Some(None),
        Some(Json::Arr(es)) => match sstrs(es) {
            Some(r) => Some(Some(r)),
            None => None,
        },
        Some(_) => None,
    }
}

/// The element-wise content of a vector of strings.
pub open spec fn strs_view(v: Seq<String>) -> Seq<Seq<char>> {
    Seq::new(v.len(), |i: int| v[i]@)
}

/// The content of an optional string.
pub open spec fn view_opt_str(o: Option<String>) -> Option<Seq<char>> {
    match o {
        Some(s) => Some(s@),
        None => None,
    }
}

/// Numeric normalisation is shape-blind: the same numeral stands for the
/// same quantity whether it arrived as a JSON string or as a JSON
/// number, so a record field given as `"30"` and one given as `30`
/// decode to identical values.
pub proof fn lemma_numeric_normalization(t: Seq<char>)
    ensures
        sdec(Json::Str(t)) == sdec(Json::Num(t)),
{
}

/// For an optional quantity, `null` (like absence) reads as "absent",
/// never as a decode error; and for a list field, `null` reads as the
/// empty list.
pub proof fn lemma_null_normalizes(j: Json, key: Seq<char>)
    requires
        sget(j, key) == Some(Json::Null),
    ensures
        sfield_opt_dec(j, key) == Some(None::<Decimal>),
        sfield_opt_str(j, key) == Some(None::<Seq<char>>),
        sfield_str_list(j, key) == Some(Seq::<Seq<char>>::empty()),
        sfield_opt_str_list(j, key) == Some(None::<Seq<Seq<char>>>),
{
}

/// Executable [`sfield_str`].
pub fn get_str(v: &JsonValue, key: &str) -> (r: Option<String>)
    ensures
        match r {
            Some(s) => sfield_str(v@, key@) == Some(s@),
            None => sfield_str(v@, key@) is None,
        },
{
    match v.get(key) {
        Some(f) => match f {
            JsonValue::Str(s) => Some(s.clone()),
            _ => None,
        },
        None => None,
    }
}

/// Executable [`sfield_dec`].
pub fn get_dec(v: &JsonValue, key: &str) -> (r: Option<Decimal>)
    ensures
        r == sfield_dec(v@, key@),
{
    match v.get(key) {
        Some(f) => match f {
            JsonValue::Num(t) => parse_decimal(t.as_str()),
            JsonValue::Str(t) => parse_decimal(t.as_str()),
            _ => None,
        },
        None => None,
    }
}

/// Executable [`sfield_opt_dec`].
pub fn get_opt_dec(v: &JsonValue, key: &str) -> (r: Option<Option<Decimal>>)
    ensures
        r == sfield_opt_dec(v@, key@),
{
    match v.get(key) {
        None => Some(None),
        Some(f) => match f {
            JsonValue::Null => Some(None),
            JsonValue::Num(t) => match parse_decimal(t.as_str()) {
                Some(d) => Some(Some(d)),
                None => None,
            },
            JsonValue::Str(t) => match parse_decimal(t.as_str()) {
                Some(d) => Some(Some(d)),
                None => None,
            },
            _ => None,
        },
    }
}

/// Executable [`sfield_opt_str`].
pub fn get_opt_str(v: &JsonValue, key: &str) -> (r: Option<Option<String>>)
    ensures
        match r {
            Some(Some(s)) => sfield_opt_str(v@, key@) == Some(Some(s@)),
            Some(None) => sfield_opt_str(v@, key@) == Some(None::<Seq<char>>),
            None => sfield_opt_str(v@, key@) is None,
        },
{
    match v.get(key) {
        None => Some(None),
        Some(f) => match f {
            JsonValue::Null => Some(None),
            JsonValue::Str(s) => Some(Some(s.clone())),
            _ => None,
        },
    }
}

/// Executable [`sfield_u64`].
pub fn get_u64(v: &JsonValue, key: &str) -> (r: Option<u64>)
    ensures
        r == sfield_u64(v@, key@),
{
    match get_dec(v, key) {
        Some(d) => if !d.neg && d.nanos == 0 {
            Some(d.units)
        } else {
            None
        },
        None => None,
    }
}

/// Executable [`sfield_i64`].
pub fn get_i64(v: &JsonValue, key: &str) -> (r: Option<i64>)
    ensures
        r == sfield_i64(v@, key@),
{
    match get_dec(v, key) {
        Some(d) => if d.nanos == 0 && d.units <= i64::MAX as u64 {
            if d.neg {
                Some(-(d.units as i64))
            } else {
                Some(d.units as i64)
            }
        } else {
            None
        },
        None => None,
    }
}

/// Executable [`sfield_bool`].
pub fn get_bool(v: &JsonValue, key: &str) -> (r: Option<bool>)
    ensures
        r == sfield_bool(v@, key@),
{
    match v.get(key) {
        Some(f) => match f {
            JsonValue::Bool(b) => Some(*b),
            _ => None,
        },
        None => None,
    }
}

/// Executable [`sfield_bool_or`].
pub fn get_bool_or(v: &JsonValue, key: &str, dflt: bool) -> (r: Option<bool>)
    ensures
        r == sfield_bool_or(v@, key@, dflt),
{
    match v.get(key) {
        None => Some(dflt),
        Some(f) => match f {
            JsonValue::Bool(b) => Some(*b),
            _ => None,
        },
    }
}

/// The strings of an array of JSON strings.
fn strings_of(es: &Vec<JsonValue>) -> (r: Option<Vec<String>>)
    ensures
        match r {
            Some(out) => sstrs(crate::json::view_list(es@)) == Some(strs_view(out@)),
            None => sstrs(crate::json::view_list(es@)) is None,
        },
{
    proof {
        crate::json::lemma_view_list(es@);
    }
    let mut out: Vec<String> = Vec::new();
    let n = es.len();
    let mut i: usize = 0;
    while i < n
        invariant
            i <= n,
            n == es@.len(),
            out@.len() == i,
            crate::json::view_list(es@).len() == n,
            forall|k: int| 0 <= k < n ==> crate::json::view_list(es@)[k] == es@[k]@,
            forall|k: int| 0 <= k < i ==> sstr(es@[k]@) == Some(out@[k]@),
        decreases n - i,
    {
        match &es[i] {
            JsonValue::Str(s) => {
                out.push(s.clone());
            },
            _ => {
                proof {
                    lemma_sstrs_err(crate::json::view_list(es@), i as int);
                }
                return None;
            },
        }
        i = i + 1;
    }
    proof {
        lemma_sstrs_all(crate::json::view_list(es@), strs_view(out@));
    }
    Some(out)
}

/// If every element is a string matching `out`, the array reads as `out`.
proof fn lemma_sstrs_all(elems: Seq<Json>, out: Seq<Seq<char>>)
    requires
        elems.len() == out.len(),
        forall|k: int| 0 <= k < elems.len() ==> sstr(elems[k]) == Some(out[k]),
    ensures
        sstrs(elems) == Some(out),
    decreases elems.len(),
{
    if elems.len() > 0 {
        lemma_sstrs_all(elems.drop_first(), out.drop_first());
        assert(seq![out[0]] + out.drop_first() =~= out);
    }
}

/// If some element is not a string, the array does not read as strings.
proof fn lemma_sstrs_err(elems: Seq<Json>, i: int)
    requires
        0 <= i < elems.len(),
        sstr(elems[i]) is None,
    ensures
        sstrs(elems) is None,
    decreases i,
{
    if i > 0 {
        if sstr(elems[0]) is Some {
            lemma_sstrs_err(elems.drop_first(), i - 1);
        }
    }
}

/// Executable [`sfield_str_list`].
pub fn get_str_list(v: &JsonValue, key: &str) -> (r: Option<Vec<String>>)
    ensures
        match r {
            Some(out) => sfield_str_list(v@, key@) == Some(strs_view(out@)),
            None => sfield_str_list(v@, key@) is None,
        },
{
    match v.get(key) {
        Some(f) => match f {
            JsonValue::Null => {
                proof {
                    assert(strs_view(Seq::<String>::empty()) =~= Seq::<Seq<char>>::empty());
                }
                Some(Vec::new())
            },
            JsonValue::Arr(es) => strings_of(es),
            _ => None,
        },
        None => None,
    }
}

/// Executable [`sfield_opt_str_list`].
pub fn get_opt_str_list(v: &JsonValue, key: &str) -> (r: Option<Option<Vec<String>>>)
    ensures
        match r {
            Some(Some(out)) => sfield_opt_str_list(v@, key@) == Some(Some(strs_view(out@))),
            Some(None) => sfield_opt_str_list(v@, key@) == Some(None::<Seq<Seq<char>>>),
            None => sfield_opt_str_list(v@, key@) is None,
        },
{
    match v.get(key) {
        None => Some(None),
        Some(f) => match f {
            JsonValue::Null => Some(None),
            JsonValue::Arr(es) => match strings_of(es) {
                Some(out) => Some(Some(out)),
                None => None,
            },
            _ => None,
        },
    }
}

} // verus!
