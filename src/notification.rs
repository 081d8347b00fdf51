use vstd::prelude::*;

use crate::json::{
    drop_key, i64_from, i64_of, key_index, lookup, member, parse_document, parsed_document,
    FromJson, Json, JsonNumber, ShapeError,
};

verus! {

/// A field of a notification document that decoding reads.
#[derive(Debug, Clone, Copy, PartialEq, Eq)]
pub enum Field {
    Src,
    Dst,
    Method,
    Params,
    Timestamp,
    Events,
    Id,
    Event,
    Result,
    Error,
    Jsonrpc,
}

/// Why a document could not be decoded.
#[derive(Debug, PartialEq)]
pub enum DecodeError {
    /// The bytes are not well-formed JSON text; where the parser stopped.
    Malformed { line: usize, column: usize },
    /// The document is not a JSON object.
    NotAnObject,
    /// A required field is not there.
    MissingField(Field),
    /// A field is there but holds a value of another kind.
    InvalidType(Field),
    /// The `method` names no notification kind that is known.
    UnknownMethod(String),
}

/// A notification as it came over the wire: who sent it, to whom, and what.
#[derive(Debug)]
pub struct NotificationFrame {
    pub src: String,
    pub dst: String,
    pub payload: Notification,
}

/// The kinds of notification, chosen by the document's `method`.
#[derive(Debug)]
pub enum Notification {
    NotifyStatus(NotifyStatus),
    NotifyFullStatus(NotifyStatus),
    NotifyEvent(NotifyEvent),
}

/// A status snapshot: every member of `params` but `ts` is a component.
#[derive(Debug)]
pub struct NotifyStatus {
    pub timestamp: JsonNumber,
    pub components: Vec<(String, Json)>,
}

/// A batch of events, in the order they were emitted.
#[derive(Debug)]
pub struct NotifyEvent {
    pub timestamp: JsonNumber,
    pub events: Vec<Event>,
}

/// One event record. `payload` is the whole record, common fields included.
#[derive(Debug)]
pub struct Event {
    pub timestamp: JsonNumber,
    pub id: i64,
    pub event: String,
    pub payload: Json,
}

/// String member `k` of `v`.
pub open spec fn str_field(v: Json, k: Seq<char>, f: Field) -> Result<String, DecodeError> {
    match member(v, k) {
        Some(Json::Str(s)) => Ok(s),
        Some(_) => Err(DecodeError::InvalidType(f)),
        None => Err(DecodeError::MissingField(f)),
    }
}

/// Numeric member `k` of `v`.
pub open spec fn number_field(v: Json, k: Seq<char>, f: Field) -> Result<JsonNumber, DecodeError> {
    match member(v, k) {
        Some(Json::Number(n)) => Ok(n),
        Some(_) => Err(DecodeError::InvalidType(f)),
        None => Err(DecodeError::MissingField(f)),
    }
}

/// Signed 64-bit integer member `k` of `v`.
pub open spec fn i64_field(v: Json, k: Seq<char>, f: Field) -> Result<i64, DecodeError> {
    match member(v, k) {
        Some(Json::Number(n)) => match i64_of(n) {
            Some(i) => Ok(i),
            None => Err(DecodeError::InvalidType(f)),
        },
        Some(_) => Err(DecodeError::InvalidType(f)),
        None => Err(DecodeError::MissingField(f)),
    }
}

/// The event record that `v` holds.
pub open spec fn event_of(v: Json) -> Result<Event, DecodeError> {
    match v {
        Json::Object(_) => match number_field(v, "ts"@, Field::Timestamp) {
            Err(e) => Err(e),
            Ok(timestamp) => match i64_field(v, "id"@, Field::Id) {
                Err(e) => Err(e),
                Ok(id) => match str_field(v, "event"@, Field::Event) {
                    Err(e) => Err(e),
                    Ok(event) => Ok(Event { timestamp, id, event, payload: v }),
                },
            },
        },
        _ => Err(DecodeError::InvalidType(Field::Events)),
    }
}

/// The event records that `items` hold, in their order; the first failure otherwise.
pub open spec fn events_of(items: Seq<Json>) -> Result<Seq<Event>, DecodeError>
    decreases items.len(),
{
    if items.len() == 0 {
        Ok(Seq::empty())
    } else {
        match events_of(items.drop_last()) {
            Err(e) => Err(e),
            Ok(evs) => match event_of(items.last()) {
                Err(e) => Err(e),
                Ok(ev) => Ok(evs.push(ev)),
            },
        }
    }
}

/// Timestamp and components of a status snapshot's `params`.
pub open spec fn status_of(params: Json) -> Result<(JsonNumber, Seq<(String, Json)>), DecodeError> {
    match params {
        Json::Object(entries) => match number_field(params, "ts"@, Field::Timestamp) {
            Err(e) => Err(e),
            Ok(ts) => Ok((ts, drop_key(entries@, "ts"@))),
        },
        _ => Err(DecodeError::InvalidType(Field::Params)),
    }
}

/// Timestamp and events of an event batch's `params`.
pub open spec fn event_batch_of(params: Json) -> Result<(JsonNumber, Seq<Event>), DecodeError> {
    match params {
        Json::Object(_) => match number_field(params, "ts"@, Field::Timestamp) {
            Err(e) => Err(e),
            Ok(ts) => match member(params, "events"@) {
                Some(Json::Array(items)) => match events_of(items@) {
                    Err(e) => Err(e),
                    Ok(evs) => Ok((ts, evs)),
                },
                Some(_) => Err(DecodeError::InvalidType(Field::Events)),
                None => Err(DecodeError::MissingField(Field::Events)),
            },
        },
        _ => Err(DecodeError::InvalidType(Field::Params)),
    }
}

/// The method names that select a notification kind.
pub open spec fn is_known_method(m: Seq<char>) -> bool {
    m == "NotifyStatus"@ || m == "NotifyFullStatus"@ || m == "NotifyEvent"@
}

/// `p` is the payload that `params` gives under method `m`.
pub open spec fn payload_matches(m: Seq<char>, params: Json, p: Notification) -> bool {
    match p {
        Notification::NotifyStatus(s) => m == "NotifyStatus"@ && status_of(params) == Ok::<
            (JsonNumber, Seq<(String, Json)>),
            DecodeError,
        >((s.timestamp, s.components@)),
        Notification::NotifyFullStatus(s) => m == "NotifyFullStatus"@ && status_of(params) == Ok::<
            (JsonNumber, Seq<(String, Json)>),
            DecodeError,
        >((s.timestamp, s.components@)),
        Notification::NotifyEvent(b) => m == "NotifyEvent"@ && event_batch_of(params) == Ok::<
            (JsonNumber, Seq<Event>),
            DecodeError,
        >((b.timestamp, b.events@)),
    }
}

/// The error that decoding `params` under method `m` meets, if any.
pub open spec fn payload_error(m: Seq<char>, params: Json) -> Option<DecodeError> {
    if m == "NotifyEvent"@ {
        match event_batch_of(params) {
            Err(e) => Some(e),
            Ok(_) => None,
        }
    } else {
        match status_of(params) {
            Err(e) => Some(e),
            Ok(_) => None,
        }
    }
}

/// `r` is what decoding the document `doc` as a notification gives.
pub open spec fn decodes_to(doc: Json, r: Result<NotificationFrame, DecodeError>) -> bool {
    match doc {
        Json::Object(_) => match str_field(doc, "src"@, Field::Src) {
            Err(e) => r == Err::<NotificationFrame, DecodeError>(e),
            Ok(src) => match str_field(doc, "dst"@, Field::Dst) {
                Err(e) => r == Err::<NotificationFrame, DecodeError>(e),
                Ok(dst) => match str_field(doc, "method"@, Field::Method) {
                    Err(e) => r == Err::<NotificationFrame, DecodeError>(e),
                    Ok(m) => if !is_known_method(m@) {
                        r == Err::<NotificationFrame, DecodeError>(DecodeError::UnknownMethod(m))
                    } else {
                        match member(doc, "params"@) {
                            None => r == Err::<NotificationFrame, DecodeError>(
                                DecodeError::MissingField(Field::Params),
                            ),
                            Some(params) => match payload_error(m@, params) {
                                Some(e) => r == Err::<NotificationFrame, DecodeError>(e),
                                None => match r {
                                    Ok(f) => f.src == src && f.dst == dst && payload_matches(
                                        m@,
                                        params,
                                        f.payload,
                                    ),
                                    Err(_) => false,
                                },
                            },
                        }
                    },
                },
            },
        },
        _ => r == Err::<NotificationFrame, DecodeError>(DecodeError::NotAnObject),
    }
}

/// `r` is what decoding the bytes `b` as a notification gives.
pub open spec fn bytes_decode_to(b: Seq<u8>, r: Result<NotificationFrame, DecodeError>) -> bool {
    match parsed_document(b) {
        Some(doc) => decodes_to(doc, r),
        None => r matches Err(DecodeError::Malformed { .. }),
    }
}

/// The method name of a notification kind.
pub open spec fn method_name(n: Notification) -> Seq<char> {
    match n {
        Notification::NotifyStatus(_) => "NotifyStatus"@,
        Notification::NotifyFullStatus(_) => "NotifyFullStatus"@,
        Notification::NotifyEvent(_) => "NotifyEvent"@,
    }
}

pub(crate) fn copy_number(n: &JsonNumber) -> (r: JsonNumber)
    ensures
        r == *n,
{
    match n {
        JsonNumber::PosInt(u) => JsonNumber::PosInt(*u),
        JsonNumber::NegInt(i) => JsonNumber::NegInt(*i),
        JsonNumber::Float(s) => JsonNumber::Float(s.clone()),
    }
}

pub(crate) fn text_field(v: &Json, key: &str, f: Field) -> (r: Result<String, DecodeError>)
    ensures
        r == str_field(*v, key@, f),
{
    match v.get(key) {
        Some(Json::Str(s)) => Ok(s.clone()),
        Some(_) => Err(DecodeError::InvalidType(f)),
        None => Err(DecodeError::MissingField(f)),
    }
}

fn numeric_field(v: &Json, key: &str, f: Field) -> (r: Result<JsonNumber, DecodeError>)
    ensures
        r == number_field(*v, key@, f),
{
    match v.get(key) {
        Some(Json::Number(n)) => Ok(copy_number(n)),
        Some(_) => Err(DecodeError::InvalidType(f)),
        None => Err(DecodeError::MissingField(f)),
    }
}

fn integer_field(v: &Json, key: &str, f: Field) -> (r: Result<i64, DecodeError>)
    ensures
        r == i64_field(*v, key@, f),
{
    match v.get(key) {
        Some(Json::Number(n)) => match i64_from(n) {
            Some(i) => Ok(i),
            None => Err(DecodeError::InvalidType(f)),
        },
        Some(_) => Err(DecodeError::InvalidType(f)),
        None => Err(DecodeError::MissingField(f)),
    }
}

/// A failure among the first `j` items is the failure of all of them.
proof fn lemma_events_prefix_error(items: Seq<Json>, j: int)
    requires
        0 <= j <= items.len(),
        events_of(items.subrange(0, j)) is Err,
    ensures
        events_of(items) == events_of(items.subrange(0, j)),
    decreases items.len(),
{
    if j == items.len() {
        assert(items.subrange(0, j) == items);
    } else {
        assert(items.drop_last().subrange(0, j) == items.subrange(0, j));
        lemma_events_prefix_error(items.drop_last(), j);
    }
}

impl Event {
    /// Decodes one event record; the record itself becomes the payload.
    pub fn from_json(v: Json) -> (r: Result<Event, DecodeError>)
        ensures
            r == event_of(v),
    {
        match &v {
            Json::Object(_) => {},
            _ => return Err(DecodeError::InvalidType(Field::Events)),
        }
        let timestamp = numeric_field(&v, "ts", Field::Timestamp)?;
        let id = integer_field(&v, "id", Field::Id)?;
        let event = text_field(&v, "event", Field::Event)?;
        Ok(Event { timestamp, id, event, payload: v })
    }

    /// Reads the record as shape `T`. A missing field is a shape error here.
    pub fn payload<T: FromJson>(&self) -> (r: Result<T, ShapeError>)
        ensures
            match T::spec_from_json(self.payload) {
                Some(x) => r == Ok::<T, ShapeError>(x),
                None => r is Err,
            },
    {
        T::from_json(&self.payload)
    }
}

/// Decodes event records in order, stopping at the first that fails.
fn events_from(items: Vec<Json>) -> (r: Result<Vec<Event>, DecodeError>)
    ensures
        match events_of(items@) {
            Ok(evs) => r matches Ok(v) && v@ == evs,
            Err(e) => r == Err::<Vec<Event>, DecodeError>(e),
        },
{
    let ghost all = items@;
    let n = items.len();
    let mut rest = items;
    let mut out: Vec<Event> = Vec::new();
    let mut i: usize = 0;
    assert(all.subrange(0, 0) =~= Seq::<Json>::empty());
    assert(rest@ == all.subrange(0, n as int));
    while i < n
        invariant
            n == all.len(),
            all == items@,
            i <= n,
            rest@ == all.subrange(i as int, n as int),
            events_of(all.subrange(0, i as int)) == Ok::<Seq<Event>, DecodeError>(out@),
        decreases n - i,
    {
        let item = rest.remove(0);
        assert(all.subrange(0, i + 1).drop_last() == all.subrange(0, i as int));
        assert(all.subrange(0, i + 1).last() == item);
        match Event::from_json(item) {
            Ok(ev) => out.push(ev),
            Err(e) => {
                proof {
                    let sub = all.subrange(0, i + 1);
                    assert(sub.len() > 0);
                    assert(events_of(sub) == Err::<Seq<Event>, DecodeError>(e));
                    lemma_events_prefix_error(all, i + 1);
                    assert(events_of(all) == Err::<Seq<Event>, DecodeError>(e));
                }
                return Err(e);
            },
        }
        i = i + 1;
        assert(rest@ == all.subrange(i as int, n as int));
    }
    assert(all.subrange(0, n as int) == all);
    Ok(out)
}

impl NotifyStatus {
    /// Decodes a status snapshot's `params`: `ts` is the timestamp, every
    /// other member a component.
    pub fn from_json(params: Json) -> (r: Result<NotifyStatus, DecodeError>)
        ensures
            match status_of(params) {
                Ok((ts, comps)) => r matches Ok(s) && s.timestamp == ts && s.components@ == comps,
                Err(e) => r == Err::<NotifyStatus, DecodeError>(e),
            },
    {
        let timestamp = match &params {
            Json::Object(_) => numeric_field(&params, "ts", Field::Timestamp)?,
            _ => return Err(DecodeError::InvalidType(Field::Params)),
        };
        let entries = match params {
            Json::Object(entries) => entries,
            _ => Vec::new(),
        };
        let ts_key = "ts".to_owned();
        let ghost all = entries@;
        let n = entries.len();
        let mut rest = entries;
        let mut components: Vec<(String, Json)> = Vec::new();
        let mut i: usize = 0;
        assert(all.subrange(0, 0) =~= Seq::<(String, Json)>::empty());
        assert(rest@ == all.subrange(0, n as int));
        while i < n
            invariant
                n == all.len(),
                i <= n,
                ts_key@ == "ts"@,
                rest@ == all.subrange(i as int, n as int),
                components@ == drop_key(all.subrange(0, i as int), "ts"@),
            decreases n - i,
        {
            let entry = rest.remove(0);
            assert(all.subrange(0, i + 1).drop_last() == all.subrange(0, i as int));
            assert(all.subrange(0, i + 1).last() == entry);
            if entry.0 != ts_key {
                components.push(entry);
            }
            i = i + 1;
            assert(rest@ == all.subrange(i as int, n as int));
        }
        assert(all.subrange(0, n as int) == all);
        Ok(NotifyStatus { timestamp, components })
    }

    /// Reads component `name` as shape `T`: `None` where the snapshot has no
    /// such component, an error where it has one of another shape.
    pub fn component<T: FromJson>(&self, name: &str) -> (r: Result<Option<T>, ShapeError>)
        ensures
            match lookup(self.components@, name@) {
                None => r == Ok::<Option<T>, ShapeError>(None),
                Some(v) => match T::spec_from_json(v) {
                    Some(x) => r == Ok::<Option<T>, ShapeError>(Some(x)),
                    None => r is Err,
                },
            },
    {
        let key = name.to_owned();
        match key_index(&self.components, &key) {
            None => Ok(None),
            Some(i) => match T::from_json(&self.components[i].1) {
                Ok(x) => Ok(Some(x)),
                Err(e) => Err(e),
            },
        }
    }
}

impl NotifyEvent {
    /// Decodes an event batch's `params`: its timestamp and its events, in order.
    pub fn from_json(params: Json) -> (r: Result<NotifyEvent, DecodeError>)
        ensures
            match event_batch_of(params) {
                Ok((ts, evs)) => r matches Ok(b) && b.timestamp == ts && b.events@ == evs,
                Err(e) => r == Err::<NotifyEvent, DecodeError>(e),
            },
    {
        let timestamp = match &params {
            Json::Object(_) => numeric_field(&params, "ts", Field::Timestamp)?,
            _ => return Err(DecodeError::InvalidType(Field::Params)),
        };
        let ghost old_params = params;
        let mut entries = match params {
            Json::Object(entries) => entries,
            _ => Vec::new(),
        };
        let key = "events".to_owned();
        let items = match key_index(&entries, &key) {
            Some(i) => match entries.swap_remove(i).1 {
                Json::Array(items) => items,
                _ => return Err(DecodeError::InvalidType(Field::Events)),
            },
            None => return Err(DecodeError::MissingField(Field::Events)),
        };
        assert(member(old_params, "events"@) == Some(Json::Array(items)));
        let events = events_from(items)?;
        Ok(NotifyEvent { timestamp, events })
    }
}

impl NotificationFrame {
    /// Decodes a notification document: `src`, `dst`, and under `params` the
    /// payload of the kind that `method` names.
    pub fn from_json(doc: Json) -> (r: Result<NotificationFrame, DecodeError>)
        ensures
            decodes_to(doc, r),
    {
        match &doc {
            Json::Object(_) => {},
            _ => return Err(DecodeError::NotAnObject),
        }
        let src = text_field(&doc, "src", Field::Src)?;
        let dst = text_field(&doc, "dst", Field::Dst)?;
        let method = text_field(&doc, "method", Field::Method)?;
        let is_status = method == "NotifyStatus".to_owned();
        let is_full_status = method == "NotifyFullStatus".to_owned();
        let is_event = method == "NotifyEvent".to_owned();
        if !(is_status || is_full_status || is_event) {
            return Err(DecodeError::UnknownMethod(method));
        }
        let ghost old_doc = doc;
        let mut entries = match doc {
            Json::Object(entries) => entries,
            _ => Vec::new(),
        };
        let key = "params".to_owned();
        let params = match key_index(&entries, &key) {
            Some(i) => entries.swap_remove(i).1,
            None => return Err(DecodeError::MissingField(Field::Params)),
        };
        assert(member(old_doc, "params"@) == Some(params));
        let payload = if is_event {
            Notification::NotifyEvent(NotifyEvent::from_json(params)?)
        } else if is_status {
            Notification::NotifyStatus(NotifyStatus::from_json(params)?)
        } else {
            Notification::NotifyFullStatus(NotifyStatus::from_json(params)?)
        };
        Ok(NotificationFrame { src, dst, payload })
    }

    /// Decodes a notification from JSON text.
    pub fn decode(bytes: &[u8]) -> (r: Result<NotificationFrame, DecodeError>)
        ensures
            bytes_decode_to(bytes@, r),
    {
        match parse_document(bytes) {
            Ok(doc) => NotificationFrame::from_json(doc),
            Err(e) => Err(DecodeError::Malformed { line: e.line(), column: e.column() }),
        }
    }

    /// The method name of the payload's kind.
    pub fn method(&self) -> (r: &'static str)
        ensures
            r@ == method_name(self.payload),
    {
        self.payload.method()
    }
}

impl Notification {
    /// The method name that selects this kind on the wire.
    pub fn method(&self) -> (r: &'static str)
        ensures
            r@ == method_name(*self),
    {
        match self {
            Notification::NotifyStatus(_) => "NotifyStatus",
            Notification::NotifyFullStatus(_) => "NotifyFullStatus",
            Notification::NotifyEvent(_) => "NotifyEvent",
        }
    }
}

} // verus!
