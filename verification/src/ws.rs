//! The event side: strict decoding of inbound frames into envelopes, and
//! the two renderings — a minimal one-liner and the full structured dump.
//! The frame grammar is stated over named reads of the opaque JSON value,
//! so decoding is pinned field by field: success exactly on well-formed
//! frames, and every envelope field equal to the corresponding read.
#![allow(unused_imports)]

use vstd::prelude::*;
use vstd::string::*;

use crate::cli::{spec_should_emit, RenderMode, SubscribeArgs};
use crate::error::Error;
use crate::json::{json_as_array, json_as_i64, json_as_str, json_get, spec_value_arr,
    spec_value_get, spec_value_i64, spec_value_str};
use crate::paint::{bright_black_text, clock_text, colored_json_text, paint_bright_black,
    spec_clock_shape};
use crate::text::{has_match, lemma_has_match_concat};

verus! {

/// The closed set of event categories the service offers.
#[derive(Debug, Clone, Copy, PartialEq, Eq, Structural)]
pub enum EventKind {
    OnJsonApiEvent,
    OnLcdEvent,
}

/// The payload of one inbound frame: the changed data, the URI it is
/// about, and the kind of change.
#[derive(Debug, Clone)]
pub struct WebSocketPayload {
    pub data: serde_json::Value,
    pub uri: String,
    pub event_type: String,
}

/// One decoded inbound event. Constructed fresh for every frame, consumed
/// immediately, never retained across events. The timestamp is the
/// wall-clock millisecond count captured by the caller at receipt.
#[derive(Debug, Clone)]
pub struct WebSocketMessage {
    pub opcode: i64,
    pub event: String,
    pub data: serde_json::Value,
    pub uri: String,
    pub event_type: String,
    pub timestamp: u64,
}

/// A well-formed frame payload: an object with a `data` member, a string
/// `uri`, and a string `eventType`.
pub open spec fn spec_payload_ok(p: serde_json::Value) -> bool {
    &&& spec_value_get(p, "data"@) is Some
    &&& match spec_value_get(p, "uri"@) {
        Some(u) => spec_value_str(u) is Some,
        None => false,
    }
    &&& match spec_value_get(p, "eventType"@) {
        Some(t) => spec_value_str(t) is Some,
        None => false,
    }
}

/// The decoded payload `w` holds exactly what the frame payload `p` says:
/// its data member unchanged, and the text of its `uri` and `eventType`.
pub open spec fn spec_payload_of(p: serde_json::Value, w: WebSocketPayload) -> bool {
    &&& spec_value_get(p, "data"@) == Some(w.data)
    &&& match spec_value_get(p, "uri"@) {
        Some(u) => spec_value_str(u) == Some(w.uri@),
        None => false,
    }
    &&& match spec_value_get(p, "eventType"@) {
        Some(t) => spec_value_str(t) == Some(w.event_type@),
        None => false,
    }
}

/// A well-formed frame: a three-element array whose first element reads
/// as an integer, second as a string, and third as a well-formed payload.
pub open spec fn spec_frame_ok(v: serde_json::Value) -> bool {
    match spec_value_arr(v) {
        Some(a) => a.len() == 3 && spec_value_i64(a[0]) is Some && spec_value_str(a[1]) is Some
            && spec_payload_ok(a[2]),
        None => false,
    }
}

/// The envelope `m` holds exactly what the frame `v` says, stamped `ts`.
pub open spec fn spec_envelope_of_frame(v: serde_json::Value, ts: u64, m: WebSocketMessage) -> bool {
    match spec_value_arr(v) {
        Some(a) => {
            &&& a.len() == 3
            &&& spec_value_i64(a[0]) == Some(m.opcode)
            &&& spec_value_str(a[1]) == Some(m.event@)
            &&& spec_payload_of(
                a[2],
                WebSocketPayload { data: m.data, uri: m.uri, event_type: m.event_type },
            )
            &&& m.timestamp == ts
        },
        None => false,
    }
}

/// The `uri` text a well-formed frame carries (empty on any other value).
pub open spec fn spec_frame_uri(v: serde_json::Value) -> Seq<char> {
    match spec_value_arr(v) {
        Some(a) => match spec_value_get(a[2], "uri"@) {
            Some(u) => match spec_value_str(u) {
                Some(s) => s,
                None => Seq::empty(),
            },
            None => Seq::empty(),
        },
        None => Seq::empty(),
    }
}

/// The `eventType` text a well-formed frame carries (empty otherwise).
pub open spec fn spec_frame_event_type(v: serde_json::Value) -> Seq<char> {
    match spec_value_arr(v) {
        Some(a) => match spec_value_get(a[2], "eventType"@) {
            Some(t) => match spec_value_str(t) {
                Some(s) => s,
                None => Seq::empty(),
            },
            None => Seq::empty(),
        },
        None => Seq::empty(),
    }
}

/// An envelope decoded from a frame reads back the frame's own texts.
proof fn lemma_envelope_frame_views(v: serde_json::Value, ts: u64, m: WebSocketMessage)
    requires
        spec_envelope_of_frame(v, ts, m),
    ensures
        m.uri@ == spec_frame_uri(v),
        m.event_type@ == spec_frame_event_type(v),
        m.timestamp == ts,
{
}

/// Decode a frame's payload strictly: an object with a `data` member, a
/// string `uri`, and a string `eventType`; anything else is malformed.
pub fn decode_payload(v: &serde_json::Value) -> (r: Result<WebSocketPayload, Error>)
    ensures
        r is Ok <==> spec_payload_ok(*v),
        r matches Ok(w) ==> spec_payload_of(*v, w),
        r matches Err(e) ==> e matches Error::MalformedFrame,
{
    let data = match json_get(v, "data") {
        Some(d) => d.clone(),
        None => {
            return Err(Error::MalformedFrame);
        },
    };
    let uri = match json_get(v, "uri") {
        Some(u) => match json_as_str(u) {
            Some(s) => s.to_owned(),
            None => {
                return Err(Error::MalformedFrame);
            },
        },
        None => {
            return Err(Error::MalformedFrame);
        },
    };
    let event_type = match json_get(v, "eventType") {
        Some(t) => match json_as_str(t) {
            Some(s) => s.to_owned(),
            None => {
                return Err(Error::MalformedFrame);
            },
        },
        None => {
            return Err(Error::MalformedFrame);
        },
    };
    Ok(WebSocketPayload { data, uri, event_type })
}

impl WebSocketMessage {
    /// Decode one raw inbound frame, strictly a three-element array
    /// `[opcode, eventName, payload]` with an integer opcode and a string
    /// event name: success exactly on well-formed frames, every field
    /// equal to the frame's own reading, and a shape violation the
    /// recoverable `MalformedFrame`, never a crash — the consumer decides
    /// whether to continue. The receipt timestamp is handed in by the
    /// caller at frame arrival.
    pub fn decode_frame(v: &serde_json::Value, timestamp_millis: u64) -> (r: Result<
        WebSocketMessage,
        Error,
    >)
        ensures
            r is Ok <==> spec_frame_ok(*v),
            r matches Ok(m) ==> spec_envelope_of_frame(*v, timestamp_millis, m),
            r matches Err(e) ==> e matches Error::MalformedFrame,
    {
        let arr = match json_as_array(v) {
            Some(a) => a,
            None => {
                return Err(Error::MalformedFrame);
            },
        };
        if arr.len() != 3 {
            return Err(Error::MalformedFrame);
        }
        let opcode = match json_as_i64(&arr[0]) {
            Some(x) => x,
            None => {
                return Err(Error::MalformedFrame);
            },
        };
        let event = match json_as_str(&arr[1]) {
            Some(s) => s.to_owned(),
            None => {
                return Err(Error::MalformedFrame);
            },
        };
        let payload = match decode_payload(&arr[2]) {
            Ok(p) => p,
            Err(e) => {
                return Err(e);
            },
        };
        Ok(
            WebSocketMessage {
                opcode,
                event,
                data: payload.data,
                uri: payload.uri,
                event_type: payload.event_type,
                timestamp: timestamp_millis,
            },
        )
    }
}

/// The minimal one-line rendering: the receipt clock in bright black,
/// then the event type and URI in parentheses.
pub open spec fn spec_minimal_line(clock: Seq<char>, event_type: Seq<char>, uri: Seq<char>) -> Seq<
    char,
> {
    bright_black_text(clock) + " ("@ + event_type + ", "@ + uri + ")"@
}

/// A minimal line always shows the envelope's event type and its URI:
/// both occur in the rendered text as substrings, whatever the clock read.
pub proof fn lemma_minimal_line_contains(clock: Seq<char>, event_type: Seq<char>, uri: Seq<char>)
    ensures
        has_match(spec_minimal_line(clock, event_type, uri), uri),
        has_match(spec_minimal_line(clock, event_type, uri), event_type),
{
    let line = spec_minimal_line(clock, event_type, uri);
    let before_uri = bright_black_text(clock) + " ("@ + event_type + ", "@;
    assert(line =~= before_uri + uri + ")"@);
    lemma_has_match_concat(before_uri, uri, ")"@);
    let before_et = bright_black_text(clock) + " ("@;
    let after_et = ", "@ + uri + ")"@;
    assert(line =~= before_et + event_type + after_et);
    lemma_has_match_concat(before_et, event_type, after_et);
}

/// An envelope presented on one line.
pub struct MinimalMessage {
    pub message: WebSocketMessage,
}

impl MinimalMessage {
    /// Wrap an envelope for minimal presentation.
    pub fn from_message(message: WebSocketMessage) -> (r: Self)
        ensures
            r.message == message,
    {
        MinimalMessage { message }
    }

    /// The minimal line for a given clock reading.
    pub fn render_with_clock(&self, clock: &str) -> (r: String)
        ensures
            r@ == spec_minimal_line(clock@, self.message.event_type@, self.message.uri@),
    {
        let mut s = paint_bright_black(clock);
        s.append(" (");
        s.append(self.message.event_type.as_str());
        s.append(", ");
        s.append(self.message.uri.as_str());
        s.append(")");
        proof {
            assert(s@ =~= spec_minimal_line(clock@, self.message.event_type@, self.message.uri@));
        }
        s
    }

    /// The minimal line stamped with the wall clock read now: the exact
    /// line shape, for some clock text of the `HH:MM:SS.mmm` shape.
    pub fn to_line(&self) -> (r: String)
        ensures
            exists|clock: Seq<char>|
                spec_clock_shape(clock) && r@ == spec_minimal_line(
                    clock,
                    self.message.event_type@,
                    self.message.uri@,
                ),
    {
        let c = clock_text();
        let r = self.render_with_clock(c.as_str());
        proof {
            assert(spec_clock_shape(c@) && r@ == spec_minimal_line(
                c@,
                self.message.event_type@,
                self.message.uri@,
            ));
        }
        r
    }
}

/// The object the verbose dump is made from: every one of the envelope's
/// six fields readable back under its serialized key — the opcode and the
/// timestamp as integers, the event name, URI and event type as their
/// texts, and the data member unchanged.
pub open spec fn spec_envelope_value(r: serde_json::Value, m: WebSocketMessage) -> bool {
    &&& match spec_value_get(r, "opcode"@) {
        Some(o) => spec_value_i64(o) == Some(m.opcode),
        None => false,
    }
    &&& match spec_value_get(r, "event"@) {
        Some(e) => spec_value_str(e) == Some(m.event@),
        None => false,
    }
    &&& spec_value_get(r, "data"@) == Some(m.data)
    &&& match spec_value_get(r, "uri"@) {
        Some(u) => spec_value_str(u) == Some(m.uri@),
        None => false,
    }
    &&& match spec_value_get(r, "eventType"@) {
        Some(t) => spec_value_str(t) == Some(m.event_type@),
        None => false,
    }
    &&& match spec_value_get(r, "timestamp"@) {
        Some(n) => m.timestamp <= i64::MAX ==> spec_value_i64(n) == Some(m.timestamp as i64),
        None => false,
    }
}

/// Relies on serde_json's Map and Value constructors: an object holding
/// the envelope's six fields under their serialized keys, each readable
/// back by get exactly as it was put in.
#[verifier::external_body]
fn envelope_json(m: &WebSocketMessage) -> (r: serde_json::Value)
    ensures
        spec_envelope_value(r, *m),
{
    let mut o = serde_json::Map::new();
    o.insert("opcode".to_string(), serde_json::Value::from(m.opcode));
    o.insert("event".to_string(), serde_json::Value::from(m.event.clone()));
    o.insert("data".to_string(), m.data.clone());
    o.insert("uri".to_string(), serde_json::Value::from(m.uri.clone()));
    o.insert("eventType".to_string(), serde_json::Value::from(m.event_type.clone()));
    o.insert("timestamp".to_string(), serde_json::Value::from(m.timestamp));
    serde_json::Value::Object(o)
}

/// An envelope presented as a full structured dump.
pub struct VerboseMessage {
    pub message: WebSocketMessage,
}

impl VerboseMessage {
    /// Wrap an envelope for verbose presentation.
    pub fn from_message(message: WebSocketMessage) -> (r: Self)
        ensures
            r.message == message,
    {
        VerboseMessage { message }
    }

    /// The whole envelope as pretty-printed, syntax-colored JSON: the
    /// six-field object `envelope_json` pins down, handed to the
    /// colorizing formatter, whose text depends on the terminal.
    pub fn render(&self) -> (r: Result<String, Error>)
        ensures
            r matches Err(e) ==> e matches Error::Render { .. },
    {
        let value = envelope_json(&self.message);
        match colored_json_text(&value) {
            Ok(s) => Ok(s),
            Err(m) => Err(Error::Render { message: m }),
        }
    }
}

impl SubscribeArgs {
    /// One step of the subscription loop: decode the inbound frame, apply
    /// the filter to the frame's own URI, and render in the configured
    /// mode. A malformed frame is exactly the `MalformedFrame` error; a
    /// well-formed one is suppressed (`Ok(None)`) exactly when the filter
    /// rejects its URI; in minimal mode an emitted line is the minimal
    /// line of that frame's `eventType` and URI, and rendering cannot
    /// fail; in verbose mode a rendering failure is a `Render` error.
    pub fn handle_frame(&self, v: &serde_json::Value, timestamp_millis: u64) -> (r: Result<
        Option<String>,
        Error,
    >)
        ensures
            !spec_frame_ok(*v) ==> (r matches Err(e) && e matches Error::MalformedFrame),
            spec_frame_ok(*v) ==> (r matches Err(e) ==> e matches Error::Render { .. }),
            spec_frame_ok(*v) && !self.verbose ==> r is Ok,
            spec_frame_ok(*v) ==> (r matches Ok(line) ==> (line is Some <==> spec_should_emit(
                *self,
                spec_frame_uri(*v),
            ))),
            spec_frame_ok(*v) && !self.verbose && spec_should_emit(*self, spec_frame_uri(*v)) ==> (
            r matches Ok(line) && line matches Some(text) && exists|clock: Seq<char>|
                spec_clock_shape(clock) && text@ == spec_minimal_line(
                    clock,
                    spec_frame_event_type(*v),
                    spec_frame_uri(*v),
                )),
    {
        let m = match WebSocketMessage::decode_frame(v, timestamp_millis) {
            Ok(m) => m,
            Err(e) => {
                return Err(e);
            },
        };
        proof {
            lemma_envelope_frame_views(*v, timestamp_millis, m);
        }
        match self.decide(m.uri.as_str()) {
            Some(RenderMode::Verbose) => match VerboseMessage::from_message(m).render() {
                Ok(s) => Ok(Some(s)),
                Err(e) => Err(e),
            },
            Some(RenderMode::Minimal) => {
                let ghost uri_view = m.uri@;
                let ghost et_view = m.event_type@;
                let mm = MinimalMessage::from_message(m);
                let line = mm.to_line();
                proof {
                    let clock = choose|clock: Seq<char>|
                        spec_clock_shape(clock) && line@ == spec_minimal_line(
                            clock,
                            et_view,
                            uri_view,
                        );
                    assert(spec_clock_shape(clock) && line@ == spec_minimal_line(
                        clock,
                        spec_frame_event_type(*v),
                        spec_frame_uri(*v),
                    ));
                }
                Ok(Some(line))
            },
            None => Ok(None),
        }
    }
}

} // verus!
