//! The realtime market-data protocol: what the client sends over the data
//! socket (authenticate, subscribe, unsubscribe), what the server answers
//! (control messages and data points), and the verified codec for both
//! directions.

use vstd::prelude::*;
use crate::entities::{
    TradeData, QuoteData, BarData, trade_ok, trade_rel, quote_ok, quote_rel, bar_ok, bar_rel,
    decode_trade, decode_quote, decode_bar,
};
use crate::errors::{Error, ProtocolError, RealtimeError, RealtimeErrorCode};
use crate::json::{Json, JsonValue, json_escape, push_lit, push_escaped, string_from_chars, str_eq};
use crate::utils::{
    sfield_str, sfield_u64, sfield_opt_str, sfield_opt_str_list, strs_view, view_opt_str, get_str,
    get_u64, get_opt_str, get_opt_str_list,
};

verus! {

/// The source feed of the realtime data.
#[derive(Clone, Copy, Debug, PartialEq, Eq, Structural)]
pub enum Source {
    /// The default feed, included in the free subscription plan.
    IEX,
    /// The consolidated feed, for the unlimited plan.
    SIP,
}

impl Source {
    /// The wire name of this source, as it appears in feed URLs.
    pub fn as_str(self) -> (r: &'static str)
        ensures
            self is IEX ==> r@ == "iex"@,
            self is SIP ==> r@ == "sip"@,
    {
        match self {
            Source::IEX => "iex",
            Source::SIP => "sip",
        }
    }
}

impl Default for Source {
    /// The source used when none is chosen: the free feed.
    fn default() -> (r: Source)
        ensures
            r == Source::IEX,
    {
        Source::IEX
    }
}

/// The aggregation window of a historical bar.
#[derive(Clone, Copy, Debug, PartialEq, Eq, Hash, Structural)]
pub enum TimeFrame {
    Minute,
    Hour,
    Day,
}

impl TimeFrame {
    /// The wire name of this window, as it appears in history queries.
    pub fn as_str(self) -> (r: &'static str)
        ensures
            self is Minute ==> r@ == "1Min"@,
            self is Hour ==> r@ == "1Hour"@,
            self is Day ==> r@ == "1Day"@,
    {
        match self {
            TimeFrame::Minute => "1Min",
            TimeFrame::Hour => "1Hour",
            TimeFrame::Day => "1Day",
        }
    }
}

/// The credentials frame's payload.
#[derive(Clone, Debug, PartialEq)]
pub struct AuthData {
    /// The key identifier.
    pub key: String,
    /// The secret key.
    pub secret: String,
}

/// Which feeds of which symbols a subscription frame names.  An absent
/// list leaves that category untouched on subscribe and unsubscribe.
#[derive(Clone, Debug, PartialEq)]
pub struct SubscriptionData {
    /// Symbols whose trades are wanted.
    pub trades: Option<Vec<String>>,
    /// Symbols whose quotes are wanted.
    pub quotes: Option<Vec<String>>,
    /// Symbols whose bars are wanted.
    pub bars: Option<Vec<String>>,
}

/// What the client can ask of the data socket.  Authentication must come
/// first; a subscribe message adds to the session's subscriptions, an
/// unsubscribe message subtracts from them.
#[derive(Clone, Debug, PartialEq)]
pub enum Action {
    /// Present credentials.
    Authenticate(AuthData),
    /// Add the named symbols to the session's subscriptions.
    Subscribe(SubscriptionData),
    /// Remove the named symbols from the session's subscriptions.
    Unsubscribe(SubscriptionData),
}

/// A string as it appears inside a JSON document: quoted and escaped.
pub open spec fn quoted(s: Seq<char>) -> Seq<char> {
    seq!['"'] + json_escape(s) + seq!['"']
}

/// A run of strings as it appears inside a JSON array: quoted, separated
/// by commas.
pub open spec fn strings_json(xs: Seq<Seq<char>>) -> Seq<char>
    decreases xs.len(),
{
    if xs.len() == 0 {
        Seq::empty()
    } else if xs.len() == 1 {
        quoted(xs[0])
    } else {
        quoted(xs[0]) + seq![','] + strings_json(xs.drop_first())
    }
}

/// A symbol list as an action frame carries it: a JSON array, or `null`
/// for an absent list.
pub open spec fn opt_list_json(o: Option<Seq<Seq<char>>>) -> Seq<char> {
    match o {
        None => "null"@,
        Some(xs) => seq!['['] + strings_json(xs) + seq![']'],
    }
}

/// One more string extends the array text at its end.
pub proof fn lemma_strings_json_snoc(xs: Seq<Seq<char>>, x: Seq<char>)
    ensures
        strings_json(xs.push(x)) == if xs.len() == 0 {
            quoted(x)
        } else {
            strings_json(xs) + seq![','] + quoted(x)
        },
    decreases xs.len(),
{
    let w = xs.push(x);
    if xs.len() == 0 {
        assert(w.len() == 1);
        assert(w[0] == x);
    } else {
        assert(w[0] == xs[0]);
        assert(w.drop_first() =~= xs.drop_first().push(x));
        lemma_strings_json_snoc(xs.drop_first(), x);
        if xs.len() == 1 {
            assert(strings_json(w) == quoted(xs[0]) + seq![','] + quoted(x));
            assert(strings_json(xs) == quoted(xs[0]));
        } else {
            assert(strings_json(w) == quoted(xs[0]) + seq![','] + (strings_json(xs.drop_first())
                + seq![','] + quoted(x)));
            assert(quoted(xs[0]) + seq![','] + (strings_json(xs.drop_first()) + seq![','] + quoted(
                x,
            )) =~= (quoted(xs[0]) + seq![','] + strings_json(xs.drop_first())) + seq![','] + quoted(
                x,
            ));
        }
    }
}

/// The exact frame text of an action, as [`encode_action`] produces it.
pub open spec fn spec_action_json(a: Action) -> Seq<char> {
    match a {
        Action::Authenticate(d) => "{\"action\":\"auth\",\"key\":\""@ + json_escape(d.key@)
            + "\",\"secret\":\""@ + json_escape(d.secret@) + "\"}"@,
        Action::Subscribe(d) => "{\"action\":\"subscribe\""@ + subscription_json(d),
        Action::Unsubscribe(d) => "{\"action\":\"unsubscribe\""@ + subscription_json(d),
    }
}

/// The common tail of a subscribe or unsubscribe frame.
pub open spec fn subscription_json(d: SubscriptionData) -> Seq<char> {
    ",\"trades\":"@ + opt_list_json(view_opt_strs(d.trades)) + ",\"quotes\":"@ + opt_list_json(
        view_opt_strs(d.quotes),
    ) + ",\"bars\":"@ + opt_list_json(view_opt_strs(d.bars)) + "}"@
}

/// The contents of an optional list of strings.
pub open spec fn view_opt_strs(o: Option<Vec<String>>) -> Option<Seq<Seq<char>>> {
    match o {
        Some(v) => Some(strs_view(v@)),
        None => None,
    }
}

/// Appends a quoted, escaped string.
fn push_quoted(out: &mut Vec<char>, s: &str)
    ensures
        final(out)@ == old(out)@ + quoted(s@),
{
    out.push('"');
    proof {
        assert(old(out)@.push('"') =~= old(out)@ + seq!['"']);
    }
    push_escaped(out, s);
    let ghost mid = out@;
    out.push('"');
    proof {
        assert(mid.push('"') =~= mid + seq!['"']);
        assert((old(out)@ + seq!['"'] + json_escape(s@)) + seq!['"'] =~= old(out)@ + quoted(s@));
    }
}

/// Appends a symbol list: a JSON array, or `null` when absent.
fn push_opt_list(out: &mut Vec<char>, o: &Option<Vec<String>>)
    ensures
        final(out)@ == old(out)@ + opt_list_json(view_opt_strs(*o)),
{
    match o {
        None => {
            push_lit(out, "null");
        },
        Some(xs) => {
            push_string_array(out, xs);
            proof {
                assert(old(out)@ + (seq!['['] + strings_json(strs_view(xs@)) + seq![']']) =~= old(
                    out,
                )@ + seq!['['] + strings_json(strs_view(xs@)) + seq![']']);
            }
        },
    }
}

/// Appends a JSON array of strings, quoted and escaped.
pub fn push_string_array(out: &mut Vec<char>, xs: &Vec<String>)
    ensures
        final(out)@ == old(out)@ + (seq!['['] + strings_json(strs_view(xs@)) + seq![']']),
{
    out.push('[');
    proof {
        assert(old(out)@.push('[') =~= old(out)@ + seq!['[']);
    }
    let n = xs.len();
    let mut i: usize = 0;
    while i < n
        invariant
            i <= n,
            n == xs@.len(),
            out@ == old(out)@ + seq!['['] + strings_json(strs_view(xs@).subrange(
                0,
                i as int,
            )),
        decreases n - i,
    {
        proof {
            assert(strs_view(xs@).subrange(0, i + 1) =~= strs_view(xs@).subrange(
                0,
                i as int,
            ).push(xs@[i as int]@));
            lemma_strings_json_snoc(
                strs_view(xs@).subrange(0, i as int),
                xs@[i as int]@,
            );
        }
        if i > 0 {
            out.push(',');
            proof {
                assert((old(out)@ + seq!['['] + strings_json(
                    strs_view(xs@).subrange(0, i as int),
                )).push(',') =~= old(out)@ + seq!['['] + (strings_json(
                    strs_view(xs@).subrange(0, i as int),
                ) + seq![',']));
            }
        }
        push_quoted(out, xs[i].as_str());
        proof {
            if i > 0 {
                assert(old(out)@ + seq!['['] + (strings_json(
                    strs_view(xs@).subrange(0, i as int),
                ) + seq![',']) + quoted(xs@[i as int]@) =~= old(out)@ + seq!['[']
                    + strings_json(strs_view(xs@).subrange(0, i + 1)));
            } else {
                assert(strs_view(xs@).subrange(0, 0) =~= Seq::<Seq<char>>::empty());
                assert(old(out)@ + seq!['['] + strings_json(
                    strs_view(xs@).subrange(0, 0),
                ) =~= old(out)@ + seq!['[']);
                assert(old(out)@ + seq!['['] + quoted(xs@[0]@) =~= old(out)@ + seq!['[']
                    + strings_json(strs_view(xs@).subrange(0, 1)));
            }
        }
        i = i + 1;
    }
    let ghost mid = out@;
    out.push(']');
    proof {
        assert(strs_view(xs@).subrange(0, n as int) =~= strs_view(xs@));
        assert(mid.push(']') =~= mid + seq![']']);
        assert(old(out)@ + seq!['['] + strings_json(strs_view(xs@)) + seq![']'] =~= old(
            out,
        )@ + (seq!['['] + strings_json(strs_view(xs@)) + seq![']']));
    }
}

/// Encodes an action as the frame text the socket transmits, exactly
/// [`spec_action_json`].
pub fn encode_action(a: &Action) -> (r: String)
    ensures
        r@ == spec_action_json(*a),
{
    let mut out: Vec<char> = Vec::new();
    match a {
        Action::Authenticate(d) => {
            push_lit(&mut out, "{\"action\":\"auth\",\"key\":\"");
            push_escaped(&mut out, d.key.as_str());
            push_lit(&mut out, "\",\"secret\":\"");
            push_escaped(&mut out, d.secret.as_str());
            push_lit(&mut out, "\"}");
        },
        Action::Subscribe(d) => {
            push_lit(&mut out, "{\"action\":\"subscribe\"");
            push_subscription(&mut out, d);
        },
        Action::Unsubscribe(d) => {
            push_lit(&mut out, "{\"action\":\"unsubscribe\"");
            push_subscription(&mut out, d);
        },
    }
    string_from_chars(&out)
}

/// Appends the common tail of a subscribe or unsubscribe frame.
fn push_subscription(out: &mut Vec<char>, d: &SubscriptionData)
    ensures
        final(out)@ == old(out)@ + subscription_json(*d),
{
    push_lit(out, ",\"trades\":");
    push_opt_list(out, &d.trades);
    push_lit(out, ",\"quotes\":");
    push_opt_list(out, &d.quotes);
    push_lit(out, ",\"bars\":");
    push_opt_list(out, &d.bars);
    push_lit(out, "}");
}

/// A payload together with the symbol it concerns.
#[derive(Clone, Debug, PartialEq)]
pub struct DataPoint<T> {
    /// The symbol.
    pub symbol: String,
    /// The payload.
    pub data: T,
}

/// Everything the data socket sends: control messages and data points,
/// discriminated by the frame's `T` field.
#[derive(Clone, Debug, PartialEq)]
pub enum Response {
    /// A protocol error the feed reports.
    Error(RealtimeError),
    /// A control message confirming the last action.
    Success {
        /// The feed's wording.
        message: String,
    },
    /// The session's entire subscription list, sent after every
    /// subscribe and unsubscribe.
    Subscription(SubscriptionData),
    /// One trade.
    Trade(DataPoint<TradeData>),
    /// One quote.
    Quote(DataPoint<QuoteData>),
    /// One bar.
    Bar(DataPoint<BarData>),
}

/// The frame discriminant of a data-socket frame.
pub open spec fn market_tag(j: Json) -> Option<Seq<char>> {
    sfield_str(j, "T"@)
}

/// Whether a discriminant names one of the data socket's variants.
pub open spec fn known_market_tag(t: Seq<char>) -> bool {
    ||| t == "error"@
    ||| t == "success"@
    ||| t == "subscription"@
    ||| t == "t"@
    ||| t == "q"@
    ||| t == "b"@
}

/// Whether `j` carries the feed's error message.
pub open spec fn realtime_error_ok(j: Json) -> bool {
    &&& match sfield_u64(j, "code"@) {
        Some(c) => c <= u16::MAX && RealtimeErrorCode::of_code(c as u16) is Some,
        None => false,
    }
    &&& sfield_str(j, "msg"@) is Some
}

/// How a decoded feed error mirrors its frame.
pub open spec fn realtime_error_rel(j: Json, e: RealtimeError) -> bool {
    &&& sfield_u64(j, "code"@) matches Some(c) && RealtimeErrorCode::of_code(c as u16) == Some(
        e.code,
    )
    &&& sfield_str(j, "msg"@) == Some(e.message@)
}

/// Whether `j` carries a subscription list.
pub open spec fn subscription_ok(j: Json) -> bool {
    &&& sfield_opt_str_list(j, "trades"@) is Some
    &&& sfield_opt_str_list(j, "quotes"@) is Some
    &&& sfield_opt_str_list(j, "bars"@) is Some
}

/// How a decoded subscription list mirrors its frame.
pub open spec fn subscription_rel(j: Json, d: SubscriptionData) -> bool {
    &&& sfield_opt_str_list(j, "trades"@) == Some(view_opt_strs(d.trades))
    &&& sfield_opt_str_list(j, "quotes"@) == Some(view_opt_strs(d.quotes))
    &&& sfield_opt_str_list(j, "bars"@) == Some(view_opt_strs(d.bars))
}

/// Whether the frame `j` decodes, given its discriminant.
pub open spec fn market_frame_ok(j: Json) -> bool {
    match market_tag(j) {
        None => false,
        Some(t) => if t == "error"@ {
            realtime_error_ok(j)
        } else if t == "success"@ {
            sfield_str(j, "msg"@) is Some
        } else if t == "subscription"@ {
            subscription_ok(j)
        } else if t == "t"@ {
            sfield_str(j, "S"@) is Some && trade_ok(j)
        } else if t == "q"@ {
            sfield_str(j, "S"@) is Some && quote_ok(j)
        } else if t == "b"@ {
            sfield_str(j, "S"@) is Some && bar_ok(j)
        } else {
            false
        },
    }
}

/// How a decoded data-socket frame mirrors its document: the variant is
/// selected by the discriminant alone, and its payload reads field for
/// field from the same frame.
pub open spec fn market_frame_rel(j: Json, resp: Response) -> bool {
    match resp {
        Response::Error(e) => market_tag(j) == Some("error"@) && realtime_error_rel(j, e),
        Response::Success { message } => market_tag(j) == Some("success"@) && sfield_str(
            j,
            "msg"@,
        ) == Some(message@),
        Response::Subscription(d) => market_tag(j) == Some("subscription"@) && subscription_rel(
            j,
            d,
        ),
        Response::Trade(dp) => market_tag(j) == Some("t"@) && sfield_str(j, "S"@) == Some(
            dp.symbol@,
        ) && trade_rel(j, dp.data),
        Response::Quote(dp) => market_tag(j) == Some("q"@) && sfield_str(j, "S"@) == Some(
            dp.symbol@,
        ) && quote_rel(j, dp.data),
        Response::Bar(dp) => market_tag(j) == Some("b"@) && sfield_str(j, "S"@) == Some(
            dp.symbol@,
        ) && bar_rel(j, dp.data),
    }
}

/// The error a rejected data-socket frame earns: an unrecognised
/// discriminant is reported as such, loudly, and anything else as a
/// malformed frame.
pub open spec fn spec_market_err(j: Json) -> Error {
    match market_tag(j) {
        None => Error::Protocol(ProtocolError::MalformedFrame),
        Some(t) => if known_market_tag(t) {
            Error::Protocol(ProtocolError::MalformedFrame)
        } else {
            Error::Protocol(ProtocolError::UnknownVariant)
        },
    }
}

/// Decodes one data-socket frame, dispatching on its `T` discriminant
/// alone.
pub fn decode_market_frame(v: &JsonValue) -> (r: Result<Response, Error>)
    ensures
        r is Ok <==> market_frame_ok(v@),
        r matches Ok(resp) ==> market_frame_rel(v@, resp),
        r matches Err(e) ==> e == spec_market_err(v@),
{
    let tag = match get_str(v, "T") {
        Some(s) => s,
        None => {
            return Err(Error::Protocol(ProtocolError::MalformedFrame));
        },
    };
    if str_eq(tag.as_str(), "error") {
        let code = match get_u64(v, "code") {
            Some(c) => c,
            None => {
                return Err(Error::Protocol(ProtocolError::MalformedFrame));
            },
        };
        if code > u16::MAX as u64 {
            return Err(Error::Protocol(ProtocolError::MalformedFrame));
        }
        let code = match RealtimeErrorCode::from_code(code as u16) {
            Some(c) => c,
            None => {
                return Err(Error::Protocol(ProtocolError::MalformedFrame));
            },
        };
        let message = match get_str(v, "msg") {
            Some(s) => s,
            None => {
                return Err(Error::Protocol(ProtocolError::MalformedFrame));
            },
        };
        Ok(Response::Error(RealtimeError { code, message }))
    } else if str_eq(tag.as_str(), "success") {
        let message = match get_str(v, "msg") {
            Some(s) => s,
            None => {
                return Err(Error::Protocol(ProtocolError::MalformedFrame));
            },
        };
        Ok(Response::Success { message })
    } else if str_eq(tag.as_str(), "subscription") {
        let trades = match get_opt_str_list(v, "trades") {
            Some(o) => o,
            None => {
                return Err(Error::Protocol(ProtocolError::MalformedFrame));
            },
        };
        let quotes = match get_opt_str_list(v, "quotes") {
            Some(o) => o,
            None => {
                return Err(Error::Protocol(ProtocolError::MalformedFrame));
            },
        };
        let bars = match get_opt_str_list(v, "bars") {
            Some(o) => o,
            None => {
                return Err(Error::Protocol(ProtocolError::MalformedFrame));
            },
        };
        Ok(Response::Subscription(SubscriptionData { trades, quotes, bars }))
    } else if str_eq(tag.as_str(), "t") {
        let symbol = match get_str(v, "S") {
            Some(s) => s,
            None => {
                return Err(Error::Protocol(ProtocolError::MalformedFrame));
            },
        };
        let data = match decode_trade(v) {
            Some(t) => t,
            None => {
                return Err(Error::Protocol(ProtocolError::MalformedFrame));
            },
        };
        Ok(Response::Trade(DataPoint { symbol, data }))
    } else if str_eq(tag.as_str(), "q") {
        let symbol = match get_str(v, "S") {
            Some(s) => s,
            None => {
                return Err(Error::Protocol(ProtocolError::MalformedFrame));
            },
        };
        let data = match decode_quote(v) {
            Some(q) => q,
            None => {
                return Err(Error::Protocol(ProtocolError::MalformedFrame));
            },
        };
        Ok(Response::Quote(DataPoint { symbol, data }))
    } else if str_eq(tag.as_str(), "b") {
        let symbol = match get_str(v, "S") {
            Some(s) => s,
            None => {
                return Err(Error::Protocol(ProtocolError::MalformedFrame));
            },
        };
        let data = match decode_bar(v) {
            Some(b) => b,
            None => {
                return Err(Error::Protocol(ProtocolError::MalformedFrame));
            },
        };
        Ok(Response::Bar(DataPoint { symbol, data }))
    } else {
        Err(Error::Protocol(ProtocolError::UnknownVariant))
    }
}

/// Decodes one data-socket frame from its text: parses the document and
/// dispatches on its discriminant.  Text that is not one well-formed JSON
/// document is reported as [`Error::Json`]; a decodable document with an
/// unknown discriminant is reported loudly as
/// [`ProtocolError::UnknownVariant`], never dropped.
pub fn decode_market_message(text: &str) -> (r: Result<Response, Error>)
    ensures
        ({
            let pj = crate::json::spec_parse_json(text@);
            match pj {
                None => r == Err::<Response, Error>(Error::Json),
                Some(j) => {
                    &&& (r is Ok <==> market_frame_ok(j))
                    &&& (r matches Ok(resp) ==> market_frame_rel(j, resp))
                    &&& (r matches Err(e) ==> e == spec_market_err(j))
                },
            }
        }),
{
    match crate::json::parse_json(text) {
        Some(v) => decode_market_frame(&v),
        None => Err(Error::Json),
    }
}

/// Whether every element of a batch decodes.
pub open spec fn all_frames_ok(es: Seq<Json>) -> bool {
    forall|k: int| 0 <= k < es.len() ==> market_frame_ok(#[trigger] es[k])
}

/// Decodes one data-socket delivery: control messages arrive in arrays
/// of size one, data points in arrays of any length, so a delivery is a
/// JSON array of tagged frames.  The first frame that does not decode
/// fails the whole delivery with its own error.
pub fn decode_market_batch(text: &str) -> (r: Result<Vec<Response>, Error>)
    ensures
        ({
            let pj = crate::json::spec_parse_json(text@);
            match pj {
                None => r == Err::<Vec<Response>, Error>(Error::Json),
                Some(j) => match j {
                    Json::Arr(es) => {
                        &&& (r is Ok <==> all_frames_ok(es))
                        &&& (r matches Ok(out) ==> out@.len() == es.len() && (forall|k: int|
                            0 <= k < es.len() ==> market_frame_rel(#[trigger] es[k], out@[k])))
                        &&& (r matches Err(e) ==> exists|k: int|
                            0 <= k < es.len() && !market_frame_ok(#[trigger] es[k]) && e
                                == spec_market_err(es[k]))
                    },
                    _ => r == Err::<Vec<Response>, Error>(
                        Error::Protocol(ProtocolError::MalformedFrame),
                    ),
                },
            }
        }),
{
    let doc = match crate::json::parse_json(text) {
        Some(v) => v,
        None => {
            return Err(Error::Json);
        },
    };
    match &doc {
        JsonValue::Arr(es) => {
            proof {
                crate::json::lemma_view_list(es@);
            }
            let n = es.len();
            let mut out: Vec<Response> = Vec::new();
            let mut i: usize = 0;
            while i < n
                invariant
                    i <= n,
                    n == es@.len(),
                    out@.len() == i,
                    crate::json::spec_parse_json(text@) == Some(
                        Json::Arr(crate::json::view_list(es@)),
                    ),
                    crate::json::view_list(es@).len() == n,
                    forall|k: int| 0 <= k < n ==> crate::json::view_list(es@)[k] == es@[k]@,
                    forall|k: int|
                        0 <= k < i ==> market_frame_ok(
                            #[trigger] crate::json::view_list(es@)[k],
                        ),
                    forall|k: int|
                        0 <= k < i ==> market_frame_rel(
                            #[trigger] crate::json::view_list(es@)[k],
                            out@[k],
                        ),
                decreases n - i,
            {
                match decode_market_frame(&es[i]) {
                    Ok(resp) => {
                        out.push(resp);
                    },
                    Err(e) => {
                        proof {
                            let esv = crate::json::view_list(es@);
                            assert(esv[i as int] == es@[i as int]@);
                            assert(!all_frames_ok(esv));
                            assert(0 <= i < esv.len() && !market_frame_ok(esv[i as int]) && e
                                == spec_market_err(esv[i as int]));
                        }
                        return Err(e);
                    },
                }
                i = i + 1;
            }
            proof {
                assert(all_frames_ok(crate::json::view_list(es@)));
            }
            Ok(out)
        },
        _ => Err(Error::Protocol(ProtocolError::MalformedFrame)),
    }
}

/// The latest state of one ticker: its latest trade and quote, and its
/// minute, daily and previous-daily bars.
#[derive(Clone, Debug, PartialEq)]
pub struct SnapshotData {
    /// Latest trade.
    pub latest_trade: TradeData,
    /// Latest quote.
    pub latest_quote: QuoteData,
    /// Current minute bar.
    pub minute_bar: BarData,
    /// Current daily bar.
    pub daily_bar: BarData,
    /// Previous trading day's bar.
    pub prev_daily_bar: BarData,
}

/// Whether `j` carries a snapshot.
pub open spec fn snapshot_ok(j: Json) -> bool {
    &&& crate::utils::sget(j, "latestTrade"@) matches Some(tj) && trade_ok(tj)
    &&& crate::utils::sget(j, "latestQuote"@) matches Some(qj) && quote_ok(qj)
    &&& crate::utils::sget(j, "minuteBar"@) matches Some(bj) && bar_ok(bj)
    &&& crate::utils::sget(j, "dailyBar"@) matches Some(bj) && bar_ok(bj)
    &&& crate::utils::sget(j, "prevDailyBar"@) matches Some(bj) && bar_ok(bj)
}

/// How a decoded snapshot mirrors its document.
pub open spec fn snapshot_rel(j: Json, s: SnapshotData) -> bool {
    &&& crate::utils::sget(j, "latestTrade"@) matches Some(tj) && trade_rel(tj, s.latest_trade)
    &&& crate::utils::sget(j, "latestQuote"@) matches Some(qj) && quote_rel(qj, s.latest_quote)
    &&& crate::utils::sget(j, "minuteBar"@) matches Some(bj) && bar_rel(bj, s.minute_bar)
    &&& crate::utils::sget(j, "dailyBar"@) matches Some(bj) && bar_rel(bj, s.daily_bar)
    &&& crate::utils::sget(j, "prevDailyBar"@) matches Some(bj) && bar_rel(bj, s.prev_daily_bar)
}

/// Reads a snapshot out of a parsed document.
pub fn decode_snapshot(v: &JsonValue) -> (r: Option<SnapshotData>)
    ensures
        r is Some <==> snapshot_ok(v@),
        r matches Some(s) ==> snapshot_rel(v@, s),
{
    let latest_trade = match v.get("latestTrade") {
        Some(f) => match decode_trade(f) {
            Some(t) => t,
            None => {
                return None;
            },
        },
        None => {
            return None;
        },
    };
    let latest_quote = match v.get("latestQuote") {
        Some(f) => match decode_quote(f) {
            Some(q) => q,
            None => {
                return None;
            },
        },
        None => {
            return None;
        },
    };
    let minute_bar = match v.get("minuteBar") {
        Some(f) => match decode_bar(f) {
            Some(b) => b,
            None => {
                return None;
            },
        },
        None => {
            return None;
        },
    };
    let daily_bar = match v.get("dailyBar") {
        Some(f) => match decode_bar(f) {
            Some(b) => b,
            None => {
                return None;
            },
        },
        None => {
            return None;
        },
    };
    let prev_daily_bar = match v.get("prevDailyBar") {
        Some(f) => match decode_bar(f) {
            Some(b) => b,
            None => {
                return None;
            },
        },
        None => {
            return None;
        },
    };
    Some(SnapshotData { latest_trade, latest_quote, minute_bar, daily_bar, prev_daily_bar })
}

/// A snapshot with the symbol it describes.  The vendor flattens the
/// snapshot's fields beside the symbol.
#[derive(Clone, Debug, PartialEq)]
pub struct SingleSnapshot {
    /// The symbol.
    pub symbol: String,
    /// The snapshot.
    pub data: SnapshotData,
}

/// Whether `j` carries a single-snapshot response.
pub open spec fn single_snapshot_ok(j: Json) -> bool {
    sfield_str(j, "symbol"@) is Some && snapshot_ok(j)
}

/// How a decoded single-snapshot response mirrors its document.
pub open spec fn single_snapshot_rel(j: Json, s: SingleSnapshot) -> bool {
    sfield_str(j, "symbol"@) == Some(s.symbol@) && snapshot_rel(j, s.data)
}

/// Reads a single-snapshot response.
pub fn decode_single_snapshot(v: &JsonValue) -> (r: Option<SingleSnapshot>)
    ensures
        r is Some <==> single_snapshot_ok(v@),
        r matches Some(s) ==> single_snapshot_rel(v@, s),
{
    let symbol = match get_str(v, "symbol") {
        Some(s) => s,
        None => {
            return None;
        },
    };
    let data = match decode_snapshot(v) {
        Some(s) => s,
        None => {
            return None;
        },
    };
    Some(SingleSnapshot { symbol, data })
}

/// One historical trade with its symbol.
#[derive(Clone, Debug, PartialEq)]
pub struct SingleTrade {
    /// The symbol.
    pub symbol: String,
    /// The payload.
    pub trade: TradeData,
}

/// Whether `j` carries a single-trade response.
pub open spec fn single_trade_ok(j: Json) -> bool {
    &&& sfield_str(j, "symbol"@) is Some
    &&& crate::utils::sget(j, "trade"@) matches Some(tj) && trade_ok(tj)
}

/// How a decoded single-trade response mirrors its document.
pub open spec fn single_trade_rel(j: Json, st: SingleTrade) -> bool {
    &&& sfield_str(j, "symbol"@) == Some(st.symbol@)
    &&& crate::utils::sget(j, "trade"@) matches Some(tj) && trade_rel(tj, st.trade)
}

/// Reads a single-trade response.
pub fn decode_single_trade(v: &JsonValue) -> (r: Option<SingleTrade>)
    ensures
        r is Some <==> single_trade_ok(v@),
        r matches Some(st) ==> single_trade_rel(v@, st),
{
    let symbol = match get_str(v, "symbol") {
        Some(s) => s,
        None => {
            return None;
        },
    };
    let trade = match v.get("trade") {
        Some(f) => match decode_trade(f) {
            Some(t) => t,
            None => {
                return None;
            },
        },
        None => {
            return None;
        },
    };
    Some(SingleTrade { symbol, trade })
}

/// One historical quote with its symbol.
#[derive(Clone, Debug, PartialEq)]
pub struct SingleQuote {
    /// The symbol.
    pub symbol: String,
    /// The payload.
    pub quote: QuoteData,
}

/// Whether `j` carries a single-quote response.
pub open spec fn single_quote_ok(j: Json) -> bool {
    &&& sfield_str(j, "symbol"@) is Some
    &&& crate::utils::sget(j, "quote"@) matches Some(qj) && quote_ok(qj)
}

/// How a decoded single-quote response mirrors its document.
pub open spec fn single_quote_rel(j: Json, sq: SingleQuote) -> bool {
    &&& sfield_str(j, "symbol"@) == Some(sq.symbol@)
    &&& crate::utils::sget(j, "quote"@) matches Some(qj) && quote_rel(qj, sq.quote)
}

/// Reads a single-quote response.
pub fn decode_single_quote(v: &JsonValue) -> (r: Option<SingleQuote>)
    ensures
        r is Some <==> single_quote_ok(v@),
        r matches Some(sq) ==> single_quote_rel(v@, sq),
{
    let symbol = match get_str(v, "symbol") {
        Some(s) => s,
        None => {
            return None;
        },
    };
    let quote = match v.get("quote") {
        Some(f) => match decode_quote(f) {
            Some(q) => q,
            None => {
                return None;
            },
        },
        None => {
            return None;
        },
    };
    Some(SingleQuote { symbol, quote })
}

/// One historical bar with its symbol.
#[derive(Clone, Debug, PartialEq)]
pub struct SingleBar {
    /// The payload.
    pub bar: BarData,
    /// The symbol.
    pub symbol: String,
}

/// Whether `j` carries a single-bar response.
pub open spec fn single_bar_ok(j: Json) -> bool {
    &&& sfield_str(j, "symbol"@) is Some
    &&& crate::utils::sget(j, "bar"@) matches Some(bj) && bar_ok(bj)
}

/// How a decoded single-bar response mirrors its document.
pub open spec fn single_bar_rel(j: Json, sb: SingleBar) -> bool {
    &&& sfield_str(j, "symbol"@) == Some(sb.symbol@)
    &&& crate::utils::sget(j, "bar"@) matches Some(bj) && bar_rel(bj, sb.bar)
}

/// Reads a single-bar response.
pub fn decode_single_bar(v: &JsonValue) -> (r: Option<SingleBar>)
    ensures
        r is Some <==> single_bar_ok(v@),
        r matches Some(sb) ==> single_bar_rel(v@, sb),
{
    let symbol = match get_str(v, "symbol") {
        Some(s) => s,
        None => {
            return None;
        },
    };
    let bar = match v.get("bar") {
        Some(f) => match decode_bar(f) {
            Some(b) => b,
            None => {
                return None;
            },
        },
        None => {
            return None;
        },
    };
    Some(SingleBar { bar, symbol })
}

/// One page of historical trades: a batch, its symbol, and the token for
/// the next page.  A `null` batch reads as empty, not as an error.
#[derive(Clone, Debug, PartialEq)]
pub struct MultiTrades {
    /// The batch, in the vendor's order.
    pub trades: Vec<TradeData>,
    /// The symbol.
    pub symbol: String,
    /// The continuation token, absent on the last page.
    pub token: Option<String>,
}

/// Whether every element of `es` carries a trade.
pub open spec fn all_trades_ok(es: Seq<Json>) -> bool {
    forall|k: int| 0 <= k < es.len() ==> trade_ok(#[trigger] es[k])
}

/// Whether `j` carries a trades page.
pub open spec fn multi_trades_ok(j: Json) -> bool {
    &&& match crate::utils::sget(j, "trades"@) {
        Some(Json::Null) => true,
        Some(Json::Arr(es)) => all_trades_ok(es),
        _ => false,
    }
    &&& sfield_str(j, "symbol"@) is Some
    &&& sfield_opt_str(j, "next_page_token"@) is Some
}

/// How a decoded trades page mirrors its document.
pub open spec fn multi_trades_rel(j: Json, m: MultiTrades) -> bool {
    &&& match crate::utils::sget(j, "trades"@) {
        Some(Json::Null) => m.trades@.len() == 0,
        Some(Json::Arr(es)) => m.trades@.len() == es.len() && (forall|k: int|
            0 <= k < es.len() ==> trade_rel(#[trigger] es[k], m.trades@[k])),
        _ => false,
    }
    &&& sfield_str(j, "symbol"@) == Some(m.symbol@)
    &&& sfield_opt_str(j, "next_page_token"@) == Some(view_opt_str(m.token))
}

/// Reads a trades page.
pub fn decode_multi_trades(v: &JsonValue) -> (r: Option<MultiTrades>)
    ensures
        r is Some <==> multi_trades_ok(v@),
        r matches Some(m) ==> multi_trades_rel(v@, m),
{
    let trades = match v.get("trades") {
        Some(f) => match f {
            JsonValue::Null => Vec::new(),
            JsonValue::Arr(es) => {
                proof {
                    crate::json::lemma_view_list(es@);
                }
                let n = es.len();
                let mut out: Vec<TradeData> = Vec::new();
                let mut i: usize = 0;
                while i < n
                    invariant
                        i <= n,
                        n == es@.len(),
                        out@.len() == i,
                        crate::utils::sget(v@, "trades"@) == Some(
                            Json::Arr(crate::json::view_list(es@)),
                        ),
                        crate::json::view_list(es@).len() == n,
                        forall|k: int| 0 <= k < n ==> crate::json::view_list(es@)[k] == es@[k]@,
                        forall|k: int|
                            0 <= k < i ==> trade_ok(#[trigger] crate::json::view_list(es@)[k]),
                        forall|k: int|
                            0 <= k < i ==> trade_rel(
                                #[trigger] crate::json::view_list(es@)[k],
                                out@[k],
                            ),
                    decreases n - i,
                {
                    match decode_trade(&es[i]) {
                        Some(t) => {
                            out.push(t);
                        },
                        None => {
                            proof {
                                let esv = crate::json::view_list(es@);
                                assert(esv[i as int] == es@[i as int]@);
                                assert(!trade_ok(esv[i as int]));
                                assert(!all_trades_ok(esv));
                            }
                            return None;
                        },
                    }
                    i = i + 1;
                }
                out
            },
            _ => {
                return None;
            },
        },
        None => {
            return None;
        },
    };
    let symbol = match get_str(v, "symbol") {
        Some(s) => s,
        None => {
            return None;
        },
    };
    let token = match get_opt_str(v, "next_page_token") {
        Some(o) => o,
        None => {
            return None;
        },
    };
    Some(MultiTrades { trades, symbol, token })
}

impl crate::rest::Paged for MultiTrades {
    type Item = TradeData;

    fn split(self) -> (Vec<TradeData>, Option<String>) {
        (self.trades, self.token)
    }
}

/// One page of historical quotes.
#[derive(Clone, Debug, PartialEq)]
pub struct MultiQuotes {
    /// The batch, in the vendor's order.
    pub quotes: Vec<QuoteData>,
    /// The symbol.
    pub symbol: String,
    /// The continuation token, absent on the last page.
    pub token: Option<String>,
}

/// Whether every element of `es` carries a quote.
pub open spec fn all_quotes_ok(es: Seq<Json>) -> bool {
    forall|k: int| 0 <= k < es.len() ==> quote_ok(#[trigger] es[k])
}

/// Whether `j` carries a quotes page.
pub open spec fn multi_quotes_ok(j: Json) -> bool {
    &&& match crate::utils::sget(j, "quotes"@) {
        Some(Json::Null) => true,
        Some(Json::Arr(es)) => all_quotes_ok(es),
        _ => false,
    }
    &&& sfield_str(j, "symbol"@) is Some
    &&& sfield_opt_str(j, "next_page_token"@) is Some
}

/// How a decoded quotes page mirrors its document.
pub open spec fn multi_quotes_rel(j: Json, m: MultiQuotes) -> bool {
    &&& match crate::utils::sget(j, "quotes"@) {
        Some(Json::Null) => m.quotes@.len() == 0,
        Some(Json::Arr(es)) => m.quotes@.len() == es.len() && (forall|k: int|
            0 <= k < es.len() ==> quote_rel(#[trigger] es[k], m.quotes@[k])),
        _ => false,
    }
    &&& sfield_str(j, "symbol"@) == Some(m.symbol@)
    &&& sfield_opt_str(j, "next_page_token"@) == Some(view_opt_str(m.token))
}

/// Reads a quotes page.
pub fn decode_multi_quotes(v: &JsonValue) -> (r: Option<MultiQuotes>)
    ensures
        r is Some <==> multi_quotes_ok(v@),
        r matches Some(m) ==> multi_quotes_rel(v@, m),
{
    let quotes = match v.get("quotes") {
        Some(f) => match f {
            JsonValue::Null => Vec::new(),
            JsonValue::Arr(es) => {
                proof {
                    crate::json::lemma_view_list(es@);
                }
                let n = es.len();
                let mut out: Vec<QuoteData> = Vec::new();
                let mut i: usize = 0;
                while i < n
                    invariant
                        i <= n,
                        n == es@.len(),
                        out@.len() == i,
                        crate::utils::sget(v@, "quotes"@) == Some(
                            Json::Arr(crate::json::view_list(es@)),
                        ),
                        crate::json::view_list(es@).len() == n,
                        forall|k: int| 0 <= k < n ==> crate::json::view_list(es@)[k] == es@[k]@,
                        forall|k: int|
                            0 <= k < i ==> quote_ok(#[trigger] crate::json::view_list(es@)[k]),
                        forall|k: int|
                            0 <= k < i ==> quote_rel(
                                #[trigger] crate::json::view_list(es@)[k],
                                out@[k],
                            ),
                    decreases n - i,
                {
                    match decode_quote(&es[i]) {
                        Some(q) => {
                            out.push(q);
                        },
                        None => {
                            proof {
                                let esv = crate::json::view_list(es@);
                                assert(esv[i as int] == es@[i as int]@);
                                assert(!quote_ok(esv[i as int]));
                                assert(!all_quotes_ok(esv));
                            }
                            return None;
                        },
                    }
                    i = i + 1;
                }
                out
            },
            _ => {
                return None;
            },
        },
        None => {
            return None;
        },
    };
    let symbol = match get_str(v, "symbol") {
        Some(s) => s,
        None => {
            return None;
        },
    };
    let token = match get_opt_str(v, "next_page_token") {
        Some(o) => o,
        None => {
            return None;
        },
    };
    Some(MultiQuotes { quotes, symbol, token })
}

impl crate::rest::Paged for MultiQuotes {
    type Item = QuoteData;

    fn split(self) -> (Vec<QuoteData>, Option<String>) {
        (self.quotes, self.token)
    }
}

/// One page of historical bars.
#[derive(Clone, Debug, PartialEq)]
pub struct MultiBars {
    /// The batch, in the vendor's order.
    pub bars: Vec<BarData>,
    /// The symbol.
    pub symbol: String,
    /// The continuation token, absent on the last page.
    pub token: Option<String>,
}

/// Whether every element of `es` carries a bar.
pub open spec fn all_bars_ok(es: Seq<Json>) -> bool {
    forall|k: int| 0 <= k < es.len() ==> bar_ok(#[trigger] es[k])
}

/// Whether `j` carries a bars page.
pub open spec fn multi_bars_ok(j: Json) -> bool {
    &&& match crate::utils::sget(j, "bars"@) {
        Some(Json::Null) => true,
        Some(Json::Arr(es)) => all_bars_ok(es),
        _ => false,
    }
    &&& sfield_str(j, "symbol"@) is Some
    &&& sfield_opt_str(j, "next_page_token"@) is Some
}

/// How a decoded bars page mirrors its document.
pub open spec fn multi_bars_rel(j: Json, m: MultiBars) -> bool {
    &&& match crate::utils::sget(j, "bars"@) {
        Some(Json::Null) => m.bars@.len() == 0,
        Some(Json::Arr(es)) => m.bars@.len() == es.len() && (forall|k: int|
            0 <= k < es.len() ==> bar_rel(#[trigger] es[k], m.bars@[k])),
        _ => false,
    }
    &&& sfield_str(j, "symbol"@) == Some(m.symbol@)
    &&& sfield_opt_str(j, "next_page_token"@) == Some(view_opt_str(m.token))
}

/// Reads a bars page.
pub fn decode_multi_bars(v: &JsonValue) -> (r: Option<MultiBars>)
    ensures
        r is Some <==> multi_bars_ok(v@),
        r matches Some(m) ==> multi_bars_rel(v@, m),
{
    let bars = match v.get("bars") {
        Some(f) => match f {
            JsonValue::Null => Vec::new(),
            JsonValue::Arr(es) => {
                proof {
                    crate::json::lemma_view_list(es@);
                }
                let n = es.len();
                let mut out: Vec<BarData> = Vec::new();
                let mut i: usize = 0;
                while i < n
                    invariant
                        i <= n,
                        n == es@.len(),
                        out@.len() == i,
                        crate::utils::sget(v@, "bars"@) == Some(
                            Json::Arr(crate::json::view_list(es@)),
                        ),
                        crate::json::view_list(es@).len() == n,
                        forall|k: int| 0 <= k < n ==> crate::json::view_list(es@)[k] == es@[k]@,
                        forall|k: int|
                            0 <= k < i ==> bar_ok(#[trigger] crate::json::view_list(es@)[k]),
                        forall|k: int|
                            0 <= k < i ==> bar_rel(
                                #[trigger] crate::json::view_list(es@)[k],
                                out@[k],
                            ),
                    decreases n - i,
                {
                    match decode_bar(&es[i]) {
                        Some(b) => {
                            out.push(b);
                        },
                        None => {
                            proof {
                                let esv = crate::json::view_list(es@);
                                assert(esv[i as int] == es@[i as int]@);
                                assert(!bar_ok(esv[i as int]));
                                assert(!all_bars_ok(esv));
                            }
                            return None;
                        },
                    }
                    i = i + 1;
                }
                out
            },
            _ => {
                return None;
            },
        },
        None => {
            return None;
        },
    };
    let symbol = match get_str(v, "symbol") {
        Some(s) => s,
        None => {
            return None;
        },
    };
    let token = match get_opt_str(v, "next_page_token") {
        Some(o) => o,
        None => {
            return None;
        },
    };
    Some(MultiBars { bars, symbol, token })
}

impl crate::rest::Paged for MultiBars {
    type Item = BarData;

    fn split(self) -> (Vec<BarData>, Option<String>) {
        (self.bars, self.token)
    }
}

} // verus!
