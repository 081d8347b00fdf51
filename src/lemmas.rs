use vstd::prelude::*;

use crate::json::{lemma_drop_key_lookup, lookup, member, Json, JsonNumber};
use crate::notification::{
    bytes_decode_to, decodes_to, event_batch_of, event_of, events_of, is_known_method,
    status_of, DecodeError, Event, Notification, NotificationFrame, NotifyStatus,
};

verus! {

/// The status snapshot that a payload carries, of either status kind.
pub open spec fn status_part(p: Notification) -> Option<NotifyStatus> {
    match p {
        Notification::NotifyStatus(s) => Some(s),
        Notification::NotifyFullStatus(s) => Some(s),
        Notification::NotifyEvent(_) => None,
    }
}

/// What a payload holds: its method name, its timestamp, its components and
/// its events (the two last empty where the kind has none).
pub open spec fn payload_model(p: Notification) -> (Seq<char>, JsonNumber, Seq<(String, Json)>, Seq<Event>) {
    match p {
        Notification::NotifyStatus(s) => ("NotifyStatus"@, s.timestamp, s.components@, Seq::empty()),
        Notification::NotifyFullStatus(s) => ("NotifyFullStatus"@, s.timestamp, s.components@, Seq::empty()),
        Notification::NotifyEvent(b) => ("NotifyEvent"@, b.timestamp, Seq::empty(), b.events@),
    }
}

proof fn lemma_method_names_distinct()
    ensures
        "NotifyStatus"@ != "NotifyFullStatus"@,
        "NotifyStatus"@ != "NotifyEvent"@,
        "NotifyFullStatus"@ != "NotifyEvent"@,
{
    reveal_strlit("NotifyStatus");
    reveal_strlit("NotifyFullStatus");
    reveal_strlit("NotifyEvent");
    assert("NotifyStatus"@[6] == 'S');
    assert("NotifyFullStatus"@[6] == 'F');
    assert("NotifyEvent"@[6] == 'E');
}

/// In a decoded status snapshot of either kind, the component under `name` is
/// the very sub-document that `params` holds under it, `ts` aside; so typed
/// extraction of a present component reads what reading that sub-document
/// directly would.
pub proof fn lemma_status_component_present(doc: Json, f: NotificationFrame, name: Seq<char>)
    requires
        decodes_to(doc, Ok(f)),
        status_part(f.payload) is Some,
        name != "ts"@,
    ensures
        lookup(status_part(f.payload)->Some_0.components@, name) == member(
            member(doc, "params"@)->Some_0,
            name,
        ),
{
    let params = member(doc, "params"@)->Some_0;
    let entries = params->Object_0;
    lemma_drop_key_lookup(entries@, "ts"@, name);
}

/// In a decoded status snapshot, a name that `params` does not hold, or `ts`,
/// is no component: extraction under it reports absence, not an error.
pub proof fn lemma_status_component_absent(doc: Json, f: NotificationFrame, name: Seq<char>)
    requires
        decodes_to(doc, Ok(f)),
        status_part(f.payload) is Some,
        member(member(doc, "params"@)->Some_0, name) is None || name == "ts"@,
    ensures
        lookup(status_part(f.payload)->Some_0.components@, name) is None,
{
    let params = member(doc, "params"@)->Some_0;
    let entries = params->Object_0;
    lemma_drop_key_lookup(entries@, "ts"@, name);
}

proof fn lemma_events_of_in_order(items: Seq<Json>, evs: Seq<Event>)
    requires
        events_of(items) == Ok::<Seq<Event>, DecodeError>(evs),
    ensures
        evs.len() == items.len(),
        forall|i: int|
            0 <= i < items.len() ==> event_of(#[trigger] items[i]) == Ok::<Event, DecodeError>(
                evs[i],
            ) && evs[i].payload == items[i],
    decreases items.len(),
{
    if items.len() > 0 {
        let prev = events_of(items.drop_last())->Ok_0;
        lemma_events_of_in_order(items.drop_last(), prev);
        assert forall|i: int| 0 <= i < items.len() implies event_of(#[trigger] items[i]) == Ok::<
            Event,
            DecodeError,
        >(evs[i]) && evs[i].payload == items[i] by {
            if i < items.len() - 1 {
                assert(items.drop_last()[i] == items[i]);
            }
        }
    }
}

/// A decoded event batch holds one event per record of the wire array, in the
/// wire's order, each keeping its whole record as payload.
pub proof fn lemma_events_in_wire_order(params: Json, items: Seq<Json>, ts: JsonNumber, evs: Seq<Event>)
    requires
        member(params, "events"@) matches Some(Json::Array(a)) && a@ == items,
        event_batch_of(params) == Ok::<(JsonNumber, Seq<Event>), DecodeError>((ts, evs)),
    ensures
        evs.len() == items.len(),
        forall|i: int|
            0 <= i < items.len() ==> event_of(#[trigger] items[i]) == Ok::<Event, DecodeError>(
                evs[i],
            ) && evs[i].payload == items[i],
{
    lemma_events_of_in_order(items, evs);
}

/// Decoding depends on the bytes alone: decoding the same bytes twice succeeds
/// both times or fails both times, with the same frame or the same error
/// (where the parser stopped aside).
pub proof fn lemma_decode_deterministic(
    b1: Seq<u8>,
    b2: Seq<u8>,
    r1: Result<NotificationFrame, DecodeError>,
    r2: Result<NotificationFrame, DecodeError>,
)
    requires
        b1 == b2,
        bytes_decode_to(b1, r1),
        bytes_decode_to(b2, r2),
    ensures
        r1 is Ok <==> r2 is Ok,
        r1 is Ok ==> r1->Ok_0.src == r2->Ok_0.src && r1->Ok_0.dst == r2->Ok_0.dst
            && payload_model(r1->Ok_0.payload) == payload_model(r2->Ok_0.payload),
        r1 is Err && !(r1 matches Err(DecodeError::Malformed { .. })) ==> r1 == r2,
{
    lemma_method_names_distinct();
}

/// Dispatch on `method`: a name that selects no kind fails to decode, and
/// `NotifyStatus` and `NotifyFullStatus` both decode `params` by the one
/// status-snapshot rule.
pub proof fn lemma_method_dispatch(doc: Json, r: Result<NotificationFrame, DecodeError>, m: String)
    requires
        decodes_to(doc, r),
        member(doc, "method"@) == Some(Json::Str(m)),
    ensures
        !is_known_method(m@) ==> r is Err,
        (m@ == "NotifyStatus"@ || m@ == "NotifyFullStatus"@) && r is Ok ==> (status_part(
            r->Ok_0.payload,
        ) matches Some(s) && status_of(member(doc, "params"@)->Some_0) == Ok::<
            (JsonNumber, Seq<(String, Json)>),
            DecodeError,
        >((s.timestamp, s.components@))),
{
    lemma_method_names_distinct();
}

} // verus!
