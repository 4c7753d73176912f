//! The order-update socket: the two frames the client sends
//! (authenticate, then listen), the frames the server answers
//! (authorization acknowledgements, listening acknowledgements, and order
//! updates), and the verified codec for both directions.
//!
//! A session splits one connection into an outbound half and an inbound
//! half with no shared mutable state: one task may write while another
//! reads, with nothing to synchronise.  The outbound half is modelled
//! here by [`FrameQueue`], whose contract pins the wire order of what is
//! sent; the inbound half is the pure decoder [`decode_stream_message`],
//! which reads one frame and touches no sender state.  The session does
//! not wait for acknowledgements: a send returns once its frame is
//! queued, and the caller observes the matching acknowledgement on the
//! receive side.

use vstd::prelude::*;
use crate::data::{quoted, strings_json, lemma_strings_json_snoc};
use crate::entities::{OrderData, order_ok, order_rel, decode_order};
use crate::errors::{Error, ProtocolError};
use crate::json::{Json, JsonValue, json_escape, push_lit, push_escaped, string_from_chars, str_eq};
use crate::num::Decimal;
use crate::utils::{sget, sfield_str, sfield_dec, get_str, get_dec};

verus! {

/// The streams a client may listen to.
#[derive(Clone, Copy, Debug, PartialEq, Eq, Structural)]
pub enum MessageStream {
    /// Lifecycle events of the account's orders.
    TradeUpdates,
}

impl MessageStream {
    /// The wire name of this stream.
    pub open spec fn wire(self) -> Seq<char> {
        match self {
            MessageStream::TradeUpdates => "trade_updates"@,
        }
    }

    /// The stream a wire name names.
    pub open spec fn of_wire(s: Seq<char>) -> Option<MessageStream> {
        if s == "trade_updates"@ {
            Some(MessageStream::TradeUpdates)
        } else {
            None
        }
    }

    /// Reads a stream from its wire name.
    pub fn from_wire(s: &str) -> (r: Option<MessageStream>)
        ensures
            r == MessageStream::of_wire(s@),
    {
        if str_eq(s, "trade_updates") {
            Some(MessageStream::TradeUpdates)
        } else {
            None
        }
    }

    /// The wire name of this stream.
    pub fn as_str(self) -> (r: &'static str)
        ensures
            r@ == self.wire(),
    {
        match self {
            MessageStream::TradeUpdates => "trade_updates",
        }
    }
}

/// The credentials frame's payload, keyed `key_id` and `secret_key` on
/// the wire.
#[derive(Clone, Debug, PartialEq)]
pub struct AuthData {
    /// The key identifier.
    pub key: String,
    /// The secret key.
    pub secret: String,
}

/// The set of streams a listen frame names; a listen replaces the
/// session's whole listening set, so a caller adding or removing a
/// stream sends the full desired set.
#[derive(Clone, Debug, PartialEq)]
pub struct StreamList {
    /// The streams, in the order sent.
    pub streams: Vec<MessageStream>,
}

/// What the client can ask of the order socket: authenticate first, then
/// listen.
#[derive(Clone, Debug, PartialEq)]
pub enum Request {
    /// Present credentials.
    Authenticate {
        /// The credentials.
        data: AuthData,
    },
    /// Replace the set of streams being listened to.
    Listen {
        /// The full desired set.
        data: StreamList,
    },
}

/// The wire names of a run of streams.
pub open spec fn streams_view(v: Seq<MessageStream>) -> Seq<Seq<char>> {
    Seq::new(v.len(), |i: int| v[i].wire())
}

/// The exact frame text of a request, as [`encode_request`] produces it.
pub open spec fn spec_request_json(r: Request) -> Seq<char> {
    match r {
        Request::Authenticate { data } => "{\"action\":\"authenticate\",\"data\":{\"key_id\":\""@
            + json_escape(data.key@) + "\",\"secret_key\":\""@ + json_escape(data.secret@)
            + "\"}}"@,
        Request::Listen { data } => "{\"action\":\"listen\",\"data\":{\"streams\":["@
            + strings_json(streams_view(data.streams@)) + "]}}"@,
    }
}

/// Encodes a request as the frame text the socket transmits, exactly
/// [`spec_request_json`].
pub fn encode_request(r: &Request) -> (out: String)
    ensures
        out@ == spec_request_json(*r),
{
    let mut buf: Vec<char> = Vec::new();
    match r {
        Request::Authenticate { data } => {
            push_lit(&mut buf, "{\"action\":\"authenticate\",\"data\":{\"key_id\":\"");
            push_escaped(&mut buf, data.key.as_str());
            push_lit(&mut buf, "\",\"secret_key\":\"");
            push_escaped(&mut buf, data.secret.as_str());
            push_lit(&mut buf, "\"}}");
        },
        Request::Listen { data } => {
            push_lit(&mut buf, "{\"action\":\"listen\",\"data\":{\"streams\":[");
            let xs = &data.streams;
            let n = xs.len();
            let mut i: usize = 0;
            let ghost head = buf@;
            while i < n
                invariant
                    i <= n,
                    n == xs@.len(),
                    buf@ == head + strings_json(streams_view(xs@).subrange(0, i as int)),
                decreases n - i,
            {
                proof {
                    assert(streams_view(xs@).subrange(0, i + 1) =~= streams_view(xs@).subrange(
                        0,
                        i as int,
                    ).push(xs@[i as int].wire()));
                    lemma_strings_json_snoc(
                        streams_view(xs@).subrange(0, i as int),
                        xs@[i as int].wire(),
                    );
                }
                let ghost before = buf@;
                if i > 0 {
                    buf.push(',');
                    proof {
                        assert(before.push(',') =~= before + seq![',']);
                    }
                }
                push_stream_quoted(&mut buf, xs[i]);
                proof {
                    if i > 0 {
                        assert(head + strings_json(streams_view(xs@).subrange(0, i as int))
                            + seq![','] + quoted(xs@[i as int].wire()) =~= head + (strings_json(
                            streams_view(xs@).subrange(0, i as int),
                        ) + seq![','] + quoted(xs@[i as int].wire())));
                    } else {
                        assert(streams_view(xs@).subrange(0, 0) =~= Seq::<Seq<char>>::empty());
                        assert(head + strings_json(streams_view(xs@).subrange(0, 0)) =~= head);
                        assert(head + quoted(xs@[0].wire()) =~= head + strings_json(
                            streams_view(xs@).subrange(0, 1),
                        ));
                    }
                }
                i = i + 1;
            }
            proof {
                assert(streams_view(xs@).subrange(0, n as int) =~= streams_view(xs@));
            }
            push_lit(&mut buf, "]}}");
        },
    }
    string_from_chars(&buf)
}

/// Appends one stream name, quoted.
fn push_stream_quoted(out: &mut Vec<char>, m: MessageStream)
    ensures
        final(out)@ == old(out)@ + quoted(m.wire()),
{
    let s = m.as_str();
    out.push('"');
    proof {
        assert(old(out)@.push('"') =~= old(out)@ + seq!['"']);
    }
    push_escaped(out, s);
    let ghost mid = out@;
    out.push('"');
    proof {
        assert(mid.push('"') =~= mid + seq!['"']);
        assert((old(out)@ + seq!['"'] + json_escape(m.wire())) + seq!['"'] =~= old(out)@ + quoted(
            m.wire(),
        ));
    }
}

/// The outbound half of a session, modelled: frames queue in the exact
/// order the sends are made, and nothing reads or reorders them.  The
/// transport drains the queue front first, so the queue order is the
/// wire order.
pub struct FrameQueue {
    frames: Vec<String>,
}

impl View for FrameQueue {
    type V = Seq<Seq<char>>;

    closed spec fn view(&self) -> Seq<Seq<char>> {
        Seq::new(self.frames@.len(), |i: int| self.frames@[i]@)
    }
}

impl FrameQueue {
    /// An empty outbound queue.
    pub fn new() -> (r: FrameQueue)
        ensures
            r@ == Seq::<Seq<char>>::empty(),
    {
        let q = FrameQueue { frames: Vec::new() };
        proof {
            assert(q@ =~= Seq::<Seq<char>>::empty());
        }
        q
    }

    /// Queues one request frame.  Fire and forget: nothing here waits
    /// for, reads, or depends on any acknowledgement.
    pub fn send(&mut self, r: &Request)
        ensures
            final(self)@ == old(self)@.push(spec_request_json(*r)),
    {
        let frame = encode_request(r);
        self.frames.push(frame);
        proof {
            assert(self@ =~= old(self)@.push(spec_request_json(*r)));
        }
    }

    /// Queues the credentials frame.
    pub fn authenticate(&mut self, key: String, secret: String)
        ensures
            final(self)@ == old(self)@.push(
                spec_request_json(Request::Authenticate { data: AuthData { key, secret } }),
            ),
    {
        let data = AuthData { key, secret };
        let r = Request::Authenticate { data };
        self.send(&r);
    }

    /// Queues a listen frame naming the full desired stream set.
    pub fn listen(&mut self, streams: Vec<MessageStream>)
        ensures
            final(self)@ == old(self)@.push(
                spec_request_json(Request::Listen { data: StreamList { streams } }),
            ),
    {
        let data = StreamList { streams };
        let r = Request::Listen { data };
        self.send(&r);
    }

    /// Hands the queued frames to the transport, oldest first.
    pub fn drain(&mut self) -> (r: Vec<String>)
        ensures
            final(self)@ == Seq::<Seq<char>>::empty(),
            Seq::new(r@.len(), |i: int| r@[i]@) == old(self)@,
    {
        let mut out: Vec<String> = Vec::new();
        core::mem::swap(&mut out, &mut self.frames);
        proof {
            assert(self@ =~= Seq::<Seq<char>>::empty());
            assert(Seq::new(out@.len(), |i: int| out@[i]@) =~= old(self)@);
        }
        out
    }
}

/// Handshake ordering needs no acknowledgement: queueing the credentials
/// frame and then a listen frame, without waiting in between, leaves the
/// two frames on the wire in exactly that order, after whatever was
/// queued before — and the receive side, which shares no state with the
/// queue, can neither block nor reorder them.
pub proof fn lemma_handshake_order(log: Seq<Seq<char>>, auth: Seq<char>, listen: Seq<char>)
    ensures
        ({
            let after = log.push(auth).push(listen);
            &&& after.len() == log.len() + 2
            &&& after[log.len() as int] == auth
            &&& after[log.len() as int + 1] == listen
            &&& after.subrange(0, log.len() as int) == log
        }),
{
    let after = log.push(auth).push(listen);
    assert(after.subrange(0, log.len() as int) =~= log);
}

/// Whether the client's authentication stands.
#[derive(Clone, Copy, Debug, PartialEq, Eq, Structural)]
pub enum AuthorizationStatus {
    Authorized,
    Unauthorized,
}

impl AuthorizationStatus {
    /// The status a wire string names.
    pub open spec fn of_wire(s: Seq<char>) -> Option<AuthorizationStatus> {
        if s == "authorized"@ {
            Some(AuthorizationStatus::Authorized)
        } else if s == "unauthorized"@ {
            Some(AuthorizationStatus::Unauthorized)
        } else {
            None
        }
    }

    /// Reads a status from its wire string.
    pub fn from_wire(s: &str) -> (r: Option<AuthorizationStatus>)
        ensures
            r == AuthorizationStatus::of_wire(s@),
    {
        if str_eq(s, "authorized") {
            Some(AuthorizationStatus::Authorized)
        } else if str_eq(s, "unauthorized") {
            Some(AuthorizationStatus::Unauthorized)
        } else {
            None
        }
    }
}

/// Which request an authorization acknowledgement answers.
#[derive(Clone, Copy, Debug, PartialEq, Eq, Structural)]
pub enum Action {
    Authenticate,
    Listen,
}

impl Action {
    /// The action a wire string names.
    pub open spec fn of_wire(s: Seq<char>) -> Option<Action> {
        if s == "authenticate"@ {
            Some(Action::Authenticate)
        } else if s == "listen"@ {
            Some(Action::Listen)
        } else {
            None
        }
    }

    /// Reads an action from its wire string.
    pub fn from_wire(s: &str) -> (r: Option<Action>)
        ensures
            r == Action::of_wire(s@),
    {
        if str_eq(s, "authenticate") {
            Some(Action::Authenticate)
        } else if str_eq(s, "listen") {
            Some(Action::Listen)
        } else {
            None
        }
    }
}

/// The payload of an authorization acknowledgement.
#[derive(Clone, Copy, Debug, PartialEq, Eq, Structural)]
pub struct AuthorizationData {
    /// Whether the session is authorized.
    pub status: AuthorizationStatus,
    /// The request being answered.
    pub action: Action,
}

/// One lifecycle event of an order, as the `trade_updates` stream sends
/// it.  Every variant carries the full order snapshot; fill events add
/// the fill time, price and resulting position quantity, and the other
/// dated events add their time.
pub enum OrderUpdate {
    /// The order was routed to exchanges for execution.
    New {
        /// The order concerned.
        order: OrderData,
    },
    /// The order is completely filled.
    Fill {
        /// The order concerned.
        order: OrderData,
        /// When the fill happened.
        timestamp: String,
        /// The average fill price per share.
        price: Decimal,
        /// The total position after this fill, negative when short.
        position_qty: Decimal,
    },
    /// Part of the order's quantity is filled.
    PartialFill {
        /// The order concerned.
        order: OrderData,
        /// When the shares were filled.
        timestamp: String,
        /// The average fill price per share.
        price: Decimal,
        /// The total position after this fill, negative when short.
        position_qty: Decimal,
    },
    /// The requested cancellation was processed.
    Canceled {
        /// The order concerned.
        order: OrderData,
        /// When the order was canceled.
        timestamp: String,
    },
    /// The order reached the end of its lifespan.
    Expired {
        /// The order concerned.
        order: OrderData,
        /// When the order expired.
        timestamp: String,
    },
    /// The order is done executing for the day.
    DoneForDay {
        /// The order concerned.
        order: OrderData,
    },
    /// The requested replacement was processed.
    Replaced {
        /// The order concerned.
        order: OrderData,
        /// When the order was replaced.
        timestamp: String,
    },
    /// The order was rejected.
    Rejected {
        /// The order concerned.
        order: OrderData,
        /// When the rejection occurred.
        timestamp: String,
    },
    /// Received and routed, but not yet accepted for execution.
    PendingNew {
        /// The order concerned.
        order: OrderData,
    },
    /// Stopped: a trade is guaranteed but has not yet occurred.
    Stopped {
        /// The order concerned.
        order: OrderData,
    },
    /// Awaiting cancellation.
    PendingCancel {
        /// The order concerned.
        order: OrderData,
    },
    /// Awaiting replacement.
    PendingReplace {
        /// The order concerned.
        order: OrderData,
    },
    /// Completed for the day, settlement calculations pending.
    Calculated {
        /// The order concerned.
        order: OrderData,
    },
    /// Suspended and not eligible for trading.
    Suspended {
        /// The order concerned.
        order: OrderData,
    },
    /// The requested replacement was rejected.
    OrderReplaceRejected {
        /// The order concerned.
        order: OrderData,
    },
    /// The requested cancellation was rejected.
    OrderCancelRejected {
        /// The order concerned.
        order: OrderData,
    },
}

/// The event discriminant of an order update.
pub open spec fn event_tag(j: Json) -> Option<Seq<char>> {
    sfield_str(j, "event"@)
}

/// Whether a discriminant names one of the sixteen order events.
pub open spec fn known_event_tag(t: Seq<char>) -> bool {
    ||| t == "new"@
    ||| t == "fill"@
    ||| t == "partial_fill"@
    ||| t == "canceled"@
    ||| t == "expired"@
    ||| t == "done_for_day"@
    ||| t == "replaced"@
    ||| t == "rejected"@
    ||| t == "pending_new"@
    ||| t == "stopped"@
    ||| t == "pending_cancel"@
    ||| t == "pending_replace"@
    ||| t == "calculated"@
    ||| t == "suspended"@
    ||| t == "order_replace_rejected"@
    ||| t == "order_cancel_rejected"@
}

/// Whether an event tag is one of the two fill events.
pub open spec fn fill_event(t: Seq<char>) -> bool {
    t == "fill"@ || t == "partial_fill"@
}

/// Whether an event tag carries a timestamp beside the order.
pub open spec fn dated_event(t: Seq<char>) -> bool {
    t == "canceled"@ || t == "expired"@ || t == "replaced"@ || t == "rejected"@
}

/// Whether `j` carries the order snapshot every event demands.
pub open spec fn update_order_ok(j: Json) -> bool {
    sget(j, "order"@) matches Some(oj) && order_ok(oj)
}

/// Whether `j` carries a decodable order update.
pub open spec fn order_update_ok(j: Json) -> bool {
    match event_tag(j) {
        None => false,
        Some(t) => {
            &&& known_event_tag(t)
            &&& update_order_ok(j)
            &&& fill_event(t) ==> sfield_str(j, "timestamp"@) is Some && sfield_dec(j, "price"@)
                is Some && sfield_dec(j, "position_qty"@) is Some
            &&& dated_event(t) ==> sfield_str(j, "timestamp"@) is Some
        },
    }
}

/// How the order snapshot of a decoded update mirrors its document.
pub open spec fn update_order_rel(j: Json, o: OrderData) -> bool {
    sget(j, "order"@) matches Some(oj) && order_rel(oj, o)
}

/// How a decoded order update mirrors its document: the variant is
/// selected by the `event` discriminant alone, and each payload reads
/// from the same frame.
pub open spec fn order_update_rel(j: Json, u: OrderUpdate) -> bool {
    match u {
        OrderUpdate::New { order } => event_tag(j) == Some("new"@) && update_order_rel(j, order),
        OrderUpdate::Fill { order, timestamp, price, position_qty } => {
            &&& event_tag(j) == Some("fill"@)
            &&& update_order_rel(j, order)
            &&& sfield_str(j, "timestamp"@) == Some(timestamp@)
            &&& sfield_dec(j, "price"@) == Some(price)
            &&& sfield_dec(j, "position_qty"@) == Some(position_qty)
        },
        OrderUpdate::PartialFill { order, timestamp, price, position_qty } => {
            &&& event_tag(j) == Some("partial_fill"@)
            &&& update_order_rel(j, order)
            &&& sfield_str(j, "timestamp"@) == Some(timestamp@)
            &&& sfield_dec(j, "price"@) == Some(price)
            &&& sfield_dec(j, "position_qty"@) == Some(position_qty)
        },
        OrderUpdate::Canceled { order, timestamp } => event_tag(j) == Some("canceled"@)
            && update_order_rel(j, order) && sfield_str(j, "timestamp"@) == Some(timestamp@),
        OrderUpdate::Expired { order, timestamp } => event_tag(j) == Some("expired"@)
            && update_order_rel(j, order) && sfield_str(j, "timestamp"@) == Some(timestamp@),
        OrderUpdate::DoneForDay { order } => event_tag(j) == Some("done_for_day"@)
            && update_order_rel(j, order),
        OrderUpdate::Replaced { order, timestamp } => event_tag(j) == Some("replaced"@)
            && update_order_rel(j, order) && sfield_str(j, "timestamp"@) == Some(timestamp@),
        OrderUpdate::Rejected { order, timestamp } => event_tag(j) == Some("rejected"@)
            && update_order_rel(j, order) && sfield_str(j, "timestamp"@) == Some(timestamp@),
        OrderUpdate::PendingNew { order } => event_tag(j) == Some("pending_new"@)
            && update_order_rel(j, order),
        OrderUpdate::Stopped { order } => event_tag(j) == Some("stopped"@) && update_order_rel(
            j,
            order,
        ),
        OrderUpdate::PendingCancel { order } => event_tag(j) == Some("pending_cancel"@)
            && update_order_rel(j, order),
        OrderUpdate::PendingReplace { order } => event_tag(j) == Some("pending_replace"@)
            && update_order_rel(j, order),
        OrderUpdate::Calculated { order } => event_tag(j) == Some("calculated"@)
            && update_order_rel(j, order),
        OrderUpdate::Suspended { order } => event_tag(j) == Some("suspended"@)
            && update_order_rel(j, order),
        OrderUpdate::OrderReplaceRejected { order } => event_tag(j) == Some(
            "order_replace_rejected"@,
        ) && update_order_rel(j, order),
        OrderUpdate::OrderCancelRejected { order } => event_tag(j) == Some(
            "order_cancel_rejected"@,
        ) && update_order_rel(j, order),
    }
}

/// The error a rejected order update earns.
pub open spec fn spec_update_err(j: Json) -> Error {
    match event_tag(j) {
        None => Error::Protocol(ProtocolError::MalformedFrame),
        Some(t) => if known_event_tag(t) {
            Error::Protocol(ProtocolError::MalformedFrame)
        } else {
            Error::Protocol(ProtocolError::UnknownVariant)
        },
    }
}

/// Decodes one order update, dispatching on its `event` discriminant
/// alone.
pub fn decode_order_update(v: &JsonValue) -> (r: Result<OrderUpdate, Error>)
    ensures
        r is Ok <==> order_update_ok(v@),
        r matches Ok(u) ==> order_update_rel(v@, u),
        r matches Err(e) ==> e == spec_update_err(v@),
{
    let tag = match get_str(v, "event") {
        Some(s) => s,
        None => {
            return Err(Error::Protocol(ProtocolError::MalformedFrame));
        },
    };
    let known = str_eq(tag.as_str(), "new") || str_eq(tag.as_str(), "fill") || str_eq(
        tag.as_str(),
        "partial_fill",
    ) || str_eq(tag.as_str(), "canceled") || str_eq(tag.as_str(), "expired") || str_eq(
        tag.as_str(),
        "done_for_day",
    ) || str_eq(tag.as_str(), "replaced") || str_eq(tag.as_str(), "rejected") || str_eq(
        tag.as_str(),
        "pending_new",
    ) || str_eq(tag.as_str(), "stopped") || str_eq(tag.as_str(), "pending_cancel") || str_eq(
        tag.as_str(),
        "pending_replace",
    ) || str_eq(tag.as_str(), "calculated") || str_eq(tag.as_str(), "suspended") || str_eq(
        tag.as_str(),
        "order_replace_rejected",
    ) || str_eq(tag.as_str(), "order_cancel_rejected");
    if !known {
        return Err(Error::Protocol(ProtocolError::UnknownVariant));
    }
    let order = match v.get("order") {
        Some(f) => match decode_order(f) {
            Some(o) => o,
            None => {
                return Err(Error::Protocol(ProtocolError::MalformedFrame));
            },
        },
        None => {
            return Err(Error::Protocol(ProtocolError::MalformedFrame));
        },
    };
    if str_eq(tag.as_str(), "fill") || str_eq(tag.as_str(), "partial_fill") {
        let timestamp = match get_str(v, "timestamp") {
            Some(s) => s,
            None => {
                return Err(Error::Protocol(ProtocolError::MalformedFrame));
            },
        };
        let price = match get_dec(v, "price") {
            Some(d) => d,
            None => {
                return Err(Error::Protocol(ProtocolError::MalformedFrame));
            },
        };
        let position_qty = match get_dec(v, "position_qty") {
            Some(d) => d,
            None => {
                return Err(Error::Protocol(ProtocolError::MalformedFrame));
            },
        };
        if str_eq(tag.as_str(), "fill") {
            Ok(OrderUpdate::Fill { order, timestamp, price, position_qty })
        } else {
            Ok(OrderUpdate::PartialFill { order, timestamp, price, position_qty })
        }
    } else if str_eq(tag.as_str(), "canceled") || str_eq(tag.as_str(), "expired") || str_eq(
        tag.as_str(),
        "replaced",
    ) || str_eq(tag.as_str(), "rejected") {
        let timestamp = match get_str(v, "timestamp") {
            Some(s) => s,
            None => {
                return Err(Error::Protocol(ProtocolError::MalformedFrame));
            },
        };
        if str_eq(tag.as_str(), "canceled") {
            Ok(OrderUpdate::Canceled { order, timestamp })
        } else if str_eq(tag.as_str(), "expired") {
            Ok(OrderUpdate::Expired { order, timestamp })
        } else if str_eq(tag.as_str(), "replaced") {
            Ok(OrderUpdate::Replaced { order, timestamp })
        } else {
            Ok(OrderUpdate::Rejected { order, timestamp })
        }
    } else if str_eq(tag.as_str(), "new") {
        Ok(OrderUpdate::New { order })
    } else if str_eq(tag.as_str(), "done_for_day") {
        Ok(OrderUpdate::DoneForDay { order })
    } else if str_eq(tag.as_str(), "pending_new") {
        Ok(OrderUpdate::PendingNew { order })
    } else if str_eq(tag.as_str(), "stopped") {
        Ok(OrderUpdate::Stopped { order })
    } else if str_eq(tag.as_str(), "pending_cancel") {
        Ok(OrderUpdate::PendingCancel { order })
    } else if str_eq(tag.as_str(), "pending_replace") {
        Ok(OrderUpdate::PendingReplace { order })
    } else if str_eq(tag.as_str(), "calculated") {
        Ok(OrderUpdate::Calculated { order })
    } else if str_eq(tag.as_str(), "suspended") {
        Ok(OrderUpdate::Suspended { order })
    } else if str_eq(tag.as_str(), "order_replace_rejected") {
        Ok(OrderUpdate::OrderReplaceRejected { order })
    } else {
        Ok(OrderUpdate::OrderCancelRejected { order })
    }
}

/// Everything the order socket sends, discriminated by the frame's
/// `stream` field; the payload sits under `data`.
pub enum Response {
    /// Answer to an authenticate (or premature listen) request.
    Authorization {
        /// The acknowledgement.
        data: AuthorizationData,
    },
    /// Acknowledgement naming the streams now listened to.
    Listening {
        /// The streams now listened to.
        data: StreamList,
    },
    /// One order lifecycle event.
    TradeUpdates {
        /// The event.
        data: OrderUpdate,
    },
}

/// The frame discriminant of an order-socket frame.
pub open spec fn stream_tag(j: Json) -> Option<Seq<char>> {
    sfield_str(j, "stream"@)
}

/// Whether a discriminant names one of the order socket's variants.
pub open spec fn known_stream_tag(t: Seq<char>) -> bool {
    t == "authorization"@ || t == "listening"@ || t == "trade_updates"@
}

/// Whether `j` carries an authorization acknowledgement.
pub open spec fn authorization_ok(j: Json) -> bool {
    sget(j, "data"@) matches Some(dj) && (match sfield_str(dj, "status"@) {
        Some(s) => AuthorizationStatus::of_wire(s) is Some,
        None => false,
    }) && (match sfield_str(dj, "action"@) {
        Some(s) => Action::of_wire(s) is Some,
        None => false,
    })
}

/// How a decoded authorization acknowledgement mirrors its frame.
pub open spec fn authorization_rel(j: Json, d: AuthorizationData) -> bool {
    sget(j, "data"@) matches Some(dj) && (sfield_str(dj, "status"@) matches Some(s)
        && AuthorizationStatus::of_wire(s) == Some(d.status)) && (sfield_str(
        dj,
        "action"@,
    ) matches Some(s) && Action::of_wire(s) == Some(d.action))
}

/// Whether every element of `es` names a stream.
pub open spec fn all_streams_ok(es: Seq<Json>) -> bool {
    forall|k: int|
        0 <= k < es.len() ==> (match crate::utils::sstr(#[trigger] es[k]) {
            Some(s) => MessageStream::of_wire(s) is Some,
            None => false,
        })
}

/// Whether `j` carries a listening acknowledgement.
pub open spec fn listening_ok(j: Json) -> bool {
    sget(j, "data"@) matches Some(dj) && (sget(dj, "streams"@) matches Some(Json::Arr(es))
        && all_streams_ok(es))
}

/// How a decoded listening acknowledgement mirrors its frame.
pub open spec fn listening_rel(j: Json, d: StreamList) -> bool {
    sget(j, "data"@) matches Some(dj) && (sget(dj, "streams"@) matches Some(Json::Arr(es))
        && d.streams@.len() == es.len() && (forall|k: int|
        0 <= k < es.len() ==> (crate::utils::sstr(#[trigger] es[k]) matches Some(s)
            && MessageStream::of_wire(s) == Some(d.streams@[k]))))
}

/// Whether the frame `j` decodes, given its discriminant.
pub open spec fn stream_frame_ok(j: Json) -> bool {
    match stream_tag(j) {
        None => false,
        Some(t) => if t == "authorization"@ {
            authorization_ok(j)
        } else if t == "listening"@ {
            listening_ok(j)
        } else if t == "trade_updates"@ {
            sget(j, "data"@) matches Some(dj) && order_update_ok(dj)
        } else {
            false
        },
    }
}

/// How a decoded order-socket frame mirrors its document.
pub open spec fn stream_frame_rel(j: Json, resp: Response) -> bool {
    match resp {
        Response::Authorization { data } => stream_tag(j) == Some("authorization"@)
            && authorization_rel(j, data),
        Response::Listening { data } => stream_tag(j) == Some("listening"@) && listening_rel(
            j,
            data,
        ),
        Response::TradeUpdates { data } => stream_tag(j) == Some("trade_updates"@) && (sget(
            j,
            "data"@,
        ) matches Some(dj) && order_update_rel(dj, data)),
    }
}

/// The error a rejected order-socket frame earns.
pub open spec fn spec_stream_err(j: Json) -> Error {
    match stream_tag(j) {
        None => Error::Protocol(ProtocolError::MalformedFrame),
        Some(t) => if t == "authorization"@ || t == "listening"@ {
            Error::Protocol(ProtocolError::MalformedFrame)
        } else if t == "trade_updates"@ {
            match sget(j, "data"@) {
                Some(dj) => spec_update_err(dj),
                None => Error::Protocol(ProtocolError::MalformedFrame),
            }
        } else {
            Error::Protocol(ProtocolError::UnknownVariant)
        },
    }
}

/// Decodes one order-socket frame, dispatching on its `stream`
/// discriminant alone.
pub fn decode_stream_frame(v: &JsonValue) -> (r: Result<Response, Error>)
    ensures
        r is Ok <==> stream_frame_ok(v@),
        r matches Ok(resp) ==> stream_frame_rel(v@, resp),
        r matches Err(e) ==> e == spec_stream_err(v@),
{
    let tag = match get_str(v, "stream") {
        Some(s) => s,
        None => {
            return Err(Error::Protocol(ProtocolError::MalformedFrame));
        },
    };
    if str_eq(tag.as_str(), "authorization") {
        let dj = match v.get("data") {
            Some(f) => f,
            None => {
                return Err(Error::Protocol(ProtocolError::MalformedFrame));
            },
        };
        let st = match get_str(dj, "status") {
            Some(s) => s,
            None => {
                return Err(Error::Protocol(ProtocolError::MalformedFrame));
            },
        };
        let status = match AuthorizationStatus::from_wire(st.as_str()) {
            Some(s) => s,
            None => {
                return Err(Error::Protocol(ProtocolError::MalformedFrame));
            },
        };
        let ac = match get_str(dj, "action") {
            Some(s) => s,
            None => {
                return Err(Error::Protocol(ProtocolError::MalformedFrame));
            },
        };
        let action = match Action::from_wire(ac.as_str()) {
            Some(a) => a,
            None => {
                return Err(Error::Protocol(ProtocolError::MalformedFrame));
            },
        };
        Ok(Response::Authorization { data: AuthorizationData { status, action } })
    } else if str_eq(tag.as_str(), "listening") {
        let dj = match v.get("data") {
            Some(f) => f,
            None => {
                return Err(Error::Protocol(ProtocolError::MalformedFrame));
            },
        };
        let es = match dj.get("streams") {
            Some(JsonValue::Arr(es)) => es,
            _ => {
                return Err(Error::Protocol(ProtocolError::MalformedFrame));
            },
        };
        proof {
            crate::json::lemma_view_list(es@);
            assert(stream_frame_ok(v@) <==> all_streams_ok(crate::json::view_list(es@)));
            assert(spec_stream_err(v@) == Error::Protocol(ProtocolError::MalformedFrame));
        }
        let n = es.len();
        let mut streams: Vec<MessageStream> = Vec::new();
        let mut i: usize = 0;
        while i < n
            invariant
                i <= n,
                n == es@.len(),
                streams@.len() == i,
                stream_frame_ok(v@) <==> all_streams_ok(crate::json::view_list(es@)),
                spec_stream_err(v@) == Error::Protocol(ProtocolError::MalformedFrame),
                crate::json::view_list(es@).len() == n,
                forall|k: int| 0 <= k < n ==> crate::json::view_list(es@)[k] == es@[k]@,
                forall|k: int|
                    0 <= k < i ==> (crate::utils::sstr(
                        #[trigger] crate::json::view_list(es@)[k],
                    ) matches Some(s) && MessageStream::of_wire(s) == Some(streams@[k])),
            decreases n - i,
        {
            let m = match &es[i] {
                JsonValue::Str(s) => match MessageStream::from_wire(s.as_str()) {
                    Some(m) => m,
                    None => {
                        proof {
                            let esv = crate::json::view_list(es@);
                            assert(esv[i as int] == es@[i as int]@);
                            assert(!all_streams_ok(esv));
                        }
                        return Err(Error::Protocol(ProtocolError::MalformedFrame));
                    },
                },
                _ => {
                    proof {
                        let esv = crate::json::view_list(es@);
                        assert(esv[i as int] == es@[i as int]@);
                        assert(!all_streams_ok(esv));
                    }
                    return Err(Error::Protocol(ProtocolError::MalformedFrame));
                },
            };
            streams.push(m);
            i = i + 1;
        }
        proof {
            assert(all_streams_ok(crate::json::view_list(es@)));
        }
        Ok(Response::Listening { data: StreamList { streams } })
    } else if str_eq(tag.as_str(), "trade_updates") {
        let dj = match v.get("data") {
            Some(f) => f,
            None => {
                return Err(Error::Protocol(ProtocolError::MalformedFrame));
            },
        };
        match decode_order_update(dj) {
            Ok(u) => Ok(Response::TradeUpdates { data: u }),
            Err(e) => Err(e),
        }
    } else {
        Err(Error::Protocol(ProtocolError::UnknownVariant))
    }
}

/// Decodes one order-socket frame from its text.  Text that is not one
/// well-formed JSON document is reported as [`Error::Json`]; a decodable
/// document with an unknown discriminant is reported loudly as
/// [`ProtocolError::UnknownVariant`], never dropped.  A malformed frame
/// is an error-valued item for the one frame concerned: it neither stops
/// the session nor touches the send path.
pub fn decode_stream_message(text: &str) -> (r: Result<Response, Error>)
    ensures
        ({
            let pj = crate::json::spec_parse_json(text@);
            match pj {
                None => r == Err::<Response, Error>(Error::Json),
                Some(j) => {
                    &&& (r is Ok <==> stream_frame_ok(j))
                    &&& (r matches Ok(resp) ==> stream_frame_rel(j, resp))
                    &&& (r matches Err(e) ==> e == spec_stream_err(j))
                },
            }
        }),
{
    match crate::json::parse_json(text) {
        Some(v) => decode_stream_frame(&v),
        None => Err(Error::Json),
    }
}

} // verus!
