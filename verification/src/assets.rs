//! The asset listing endpoints: the exact URLs and query parameters the
//! REST calls use.  The transport itself lives with the caller.

use vstd::prelude::*;
use vstd::string::StringExecFns;
use crate::entities::AssetStatus;

verus! {

/// Path of the asset endpoints.
const ENDPOINT: &'static str = "/v2/assets";

/// The pairs of a query, by content.
pub open spec fn pairs_view(v: Seq<(String, String)>) -> Seq<(Seq<char>, Seq<char>)> {
    Seq::new(v.len(), |i: int| (v[i].0@, v[i].1@))
}

/// The URL that lists assets.
pub fn list_assets_url(base: &str) -> (r: String)
    ensures
        r@ == base@ + "/"@ + "/v2/assets"@,
{
    let mut s = base.to_owned();
    s.append("/");
    s.append(ENDPOINT);
    s
}

/// The URL of one asset.
pub fn get_asset_url(base: &str, symbol: &str) -> (r: String)
    ensures
        r@ == base@ + "/"@ + "/v2/assets"@ + "/"@ + symbol@,
{
    let mut s = base.to_owned();
    s.append("/");
    s.append(ENDPOINT);
    s.append("/");
    s.append(symbol);
    s
}

/// The query of a listing request: a `status` pair when a status is
/// chosen, then an `asset_class` pair when a class is chosen, nothing
/// else.
pub open spec fn spec_assets_params(
    status: Option<AssetStatus>,
    class: Option<Seq<char>>,
) -> Seq<(Seq<char>, Seq<char>)> {
    let s0 = Seq::<(Seq<char>, Seq<char>)>::empty();
    let s1 = match status {
        Some(st) => s0.push(("status"@, st.wire())),
        None => s0,
    };
    match class {
        Some(c) => s1.push(("asset_class"@, c)),
        None => s1,
    }
}

/// Builds the query of a listing request, exactly
/// [`spec_assets_params`].
pub fn list_assets_params(status: Option<AssetStatus>, asset_class: Option<&str>) -> (r: Vec<
    (String, String),
>)
    ensures
        pairs_view(r@) == spec_assets_params(
            status,
            match asset_class {
                Some(c) => Some(c@),
                None => None,
            },
        ),
{
    let mut out: Vec<(String, String)> = Vec::new();
    if let Some(st) = status {
        out.push(("status".to_owned(), st.to_str().to_owned()));
    }
    if let Some(c) = asset_class {
        out.push(("asset_class".to_owned(), c.to_owned()));
    }
    proof {
        assert(pairs_view(out@) =~= spec_assets_params(
            status,
            match asset_class {
                Some(c) => Some(c@),
                None => None,
            },
        ));
    }
    out
}

} // verus!
