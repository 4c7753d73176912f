//! The watchlist endpoints: the exact URLs and JSON request bodies the
//! REST calls use.  The transport itself lives with the caller.

use vstd::prelude::*;
use vstd::string::StringExecFns;
use crate::data::{quoted, strings_json, push_string_array};
use crate::json::{json_escape, push_lit, push_escaped, string_from_chars};
use crate::utils::strs_view;

verus! {

/// Path of the watchlist endpoints.
const ENDPOINT: &'static str = "/v2/watchlists";

/// The URL that lists watchlists, and creates one.
pub fn watchlists_url(base: &str) -> (r: String)
    ensures
        r@ == base@ + "/v2/watchlists"@,
{
    let mut s = base.to_owned();
    s.append(ENDPOINT);
    s
}

/// The URL of one watchlist.
pub fn watchlist_url(base: &str, id: &str) -> (r: String)
    ensures
        r@ == base@ + "/v2/watchlists"@ + "/"@ + id@,
{
    let mut s = base.to_owned();
    s.append(ENDPOINT);
    s.append("/");
    s.append(id);
    s
}

/// The URL of one symbol inside one watchlist.
pub fn watchlist_symbol_url(base: &str, id: &str, symbol: &str) -> (r: String)
    ensures
        r@ == base@ + "/v2/watchlists"@ + "/"@ + id@ + "/"@ + symbol@,
{
    let mut s = base.to_owned();
    s.append(ENDPOINT);
    s.append("/");
    s.append(id);
    s.append("/");
    s.append(symbol);
    s
}

/// The body that creates or rewrites a watchlist: its name and the full
/// symbol list.
pub open spec fn spec_watchlist_body(name: Seq<char>, symbols: Seq<Seq<char>>) -> Seq<char> {
    "{\"name\":\""@ + json_escape(name) + "\",\"symbols\":["@ + strings_json(symbols) + "]}"@
}

/// Builds the create-or-update body, exactly [`spec_watchlist_body`].
pub fn watchlist_body(name: &str, symbols: &Vec<String>) -> (r: String)
    ensures
        r@ == spec_watchlist_body(name@, strs_view(symbols@)),
{
    let mut out: Vec<char> = Vec::new();
    push_lit(&mut out, "{\"name\":\"");
    push_escaped(&mut out, name);
    push_lit(&mut out, "\",\"symbols\":");
    let ghost mid = out@;
    push_string_array(&mut out, symbols);
    push_lit(&mut out, "}");
    proof {
        reveal_strlit("\",\"symbols\":");
        reveal_strlit("\",\"symbols\":[");
        reveal_strlit("}");
        reveal_strlit("]}");
        assert("\",\"symbols\":"@ + seq!['['] =~= "\",\"symbols\":["@);
        assert(seq![']'] + "}"@ =~= "]}"@);
        let arr = strings_json(strs_view(symbols@));
        assert(out@ =~= "{\"name\":\""@ + json_escape(name@) + "\",\"symbols\":["@ + arr + "]}"@);
    }
    string_from_chars(&out)
}

/// The body that appends one symbol to a watchlist.
pub open spec fn spec_add_symbol_body(symbol: Seq<char>) -> Seq<char> {
    "{\"symbol\":\""@ + json_escape(symbol) + "\"}"@
}

/// Builds the append-symbol body, exactly [`spec_add_symbol_body`].
pub fn add_symbol_body(symbol: &str) -> (r: String)
    ensures
        r@ == spec_add_symbol_body(symbol@),
{
    let mut out: Vec<char> = Vec::new();
    push_lit(&mut out, "{\"symbol\":\"");
    push_escaped(&mut out, symbol);
    push_lit(&mut out, "\"}");
    string_from_chars(&out)
}

} // verus!
