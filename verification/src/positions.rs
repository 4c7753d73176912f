//! The open-position endpoints: the exact URLs and query parameters the
//! REST calls use.  The transport itself lives with the caller.

use vstd::prelude::*;
use vstd::string::StringExecFns;
use crate::num::{Decimal, spec_parse_decimal, format_decimal};

verus! {

/// Path of the position endpoints.
const ENDPOINT: &'static str = "/v2/positions";

/// The URL that lists open positions, and closes them all.
pub fn positions_url(base: &str) -> (r: String)
    ensures
        r@ == base@ + "/"@ + "/v2/positions"@,
{
    let mut s = base.to_owned();
    s.append("/");
    s.append(ENDPOINT);
    s
}

/// The URL of one position.
pub fn position_url(base: &str, symbol: &str) -> (r: String)
    ensures
        r@ == base@ + "/"@ + "/v2/positions"@ + "/"@ + symbol@,
{
    let mut s = base.to_owned();
    s.append("/");
    s.append(ENDPOINT);
    s.append("/");
    s.append(symbol);
    s
}

/// The query of a close-everything request: exactly one pair saying
/// whether open orders are canceled first.
pub fn close_all_params(cancel_orders: bool) -> (r: Vec<(String, String)>)
    ensures
        r@.len() == 1,
        r@[0].0@ == "cancel_orders"@,
        r@[0].1@ == if cancel_orders {
            "true"@
        } else {
            "false"@
        },
{
    let v = if cancel_orders {
        "true"
    } else {
        "false"
    };
    let mut out: Vec<(String, String)> = Vec::new();
    out.push(("cancel_orders".to_owned(), v.to_owned()));
    out
}

/// The query of a close-position request: a `qty` pair when a share
/// count is given, then a `percentage` pair when a percentage is given
/// (the vendor takes at most one of the two; this builder carries what
/// it is handed).  Each value is a numeral that reads back as the exact
/// quantity given.
pub fn close_position_params(qty: Option<Decimal>, percentage: Option<Decimal>) -> (r: Vec<
    (String, String),
>)
    requires
        qty matches Some(q) ==> q.wf(),
        percentage matches Some(p) ==> p.wf(),
    ensures
        match (qty, percentage) {
            (None, None) => r@.len() == 0,
            (Some(q), None) => r@.len() == 1 && r@[0].0@ == "qty"@ && spec_parse_decimal(r@[0].1@)
                == Some(q),
            (None, Some(p)) => r@.len() == 1 && r@[0].0@ == "percentage"@ && spec_parse_decimal(
                r@[0].1@,
            ) == Some(p),
            (Some(q), Some(p)) => r@.len() == 2 && r@[0].0@ == "qty"@ && spec_parse_decimal(
                r@[0].1@,
            ) == Some(q) && r@[1].0@ == "percentage"@ && spec_parse_decimal(r@[1].1@) == Some(p),
        },
{
    let mut out: Vec<(String, String)> = Vec::new();
    if let Some(q) = qty {
        out.push(("qty".to_owned(), format_decimal(q)));
    }
    if let Some(p) = percentage {
        out.push(("percentage".to_owned(), format_decimal(p)));
    }
    out
}

} // verus!
