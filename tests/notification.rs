use shelly_rpc::components::{Ble, Cloud, EventComponent, Mqtt, Switch};
use shelly_rpc::json::{Json, JsonNumber};
use shelly_rpc::notification::{DecodeError, Field, Notification, NotificationFrame};

fn seconds(n: &JsonNumber) -> f64 {
    match n {
        JsonNumber::PosInt(u) => *u as f64,
        JsonNumber::NegInt(i) => *i as f64,
        JsonNumber::Float(s) => s.parse::<f64>().unwrap(),
    }
}

fn decode(text: &str) -> Result<NotificationFrame, DecodeError> {
    NotificationFrame::decode(text.as_bytes())
}

#[test]
fn it_deserializes_a_status() {
    let raw = r#"{
       "src": "shellypro4pm-f008d1d8b8b8",
       "dst": "user_1",
       "method": "NotifyStatus",
       "params": {
          "ts": 1631186545.04,
          "switch:0": {
             "id": 0,
             "output": true,
             "source": "button"
          }
       }
    }"#;

    let status = decode(raw).unwrap();
    assert_eq!(&status.src, "shellypro4pm-f008d1d8b8b8");
    assert_eq!(&status.dst, "user_1");
    assert_eq!(status.method(), "NotifyStatus");
    assert!(matches!(status.payload, Notification::NotifyStatus(_)));
    let Notification::NotifyStatus(status) = status.payload else {
        panic!("payload is not NotifyStatus");
    };
    assert_eq!(seconds(&status.timestamp), 1631186545.04);
    let switch = status.component::<Switch>("switch:0").unwrap().unwrap();
    assert_eq!(switch.id, 0);
    assert_eq!(switch.output, true);
    assert_eq!(&switch.source, "button");
}

#[test]
fn it_deserializes_a_full_status() {
    let raw = r#"{
       "src": "shellyplusht-f008d1d8b8b8",
       "dst": "user_1",
       "method": "NotifyFullStatus",
       "params": {
          "ts": 1631186545.04,
          "ble": {},
          "cloud": {
             "connected": false
          },
          "mqtt": {
             "connected": false
          },
          "sys": {
             "mac": "F008D1E62338",
             "restart_required": false,
             "time": null,
             "unixtime": null,
             "uptime": 41,
             "ram_size": 254948,
             "ram_free": 146620,
             "fs_size": 458752,
             "fs_free": 229376,
             "cfg_rev": 0,
             "available_updates": {}
          },
          "wifi": {
             "sta_ip": null,
             "status": "disconnected",
             "ssid": null,
             "rssi": 0
          },
          "temperature:0": {
             "id": 0,
             "tC": 20.0,
             "tF": 68.0
          },
          "humidity:0": {
             "id": 0,
             "rh": 50.0
          },
          "devicepower:0": {
             "id": 0,
             "battery": {
                "V": 4.59,
                "percent": 11
             },
             "external": {
                "present": false
             }
          },
          "ht_ui": {}
       }
    }"#;

    let status = decode(raw).unwrap();
    assert_eq!(&status.src, "shellyplusht-f008d1d8b8b8");
    assert_eq!(&status.dst, "user_1");
    assert_eq!(status.method(), "NotifyFullStatus");
    assert!(matches!(status.payload, Notification::NotifyFullStatus(_)));
    let Notification::NotifyFullStatus(status) = status.payload else {
        panic!("payload is not NotifyFullStatus");
    };
    assert_eq!(seconds(&status.timestamp), 1631186545.04);

    status.component::<Ble>("ble").unwrap().unwrap();

    let Cloud { connected } = status.component::<Cloud>("cloud").unwrap().unwrap();
    assert!(!connected);

    let Mqtt { connected } = status.component::<Mqtt>("mqtt").unwrap().unwrap();
    assert!(!connected);
}

#[test]
fn it_deserializes_an_event() {
    let raw = r#"{
       "src": "shellypro4pm-f008d1d8b8b8",
       "dst": "user_1",
       "method": "NotifyEvent",
       "params": {
          "ts": 1631266595.44,
          "events": [
             {
                "component": "input:0",
                "id": 0,
                "event": "single_push",
                "ts": 1631266595.44
             }
          ]
       }
    }"#;

    let event = decode(raw).unwrap();
    assert_eq!(&event.src, "shellypro4pm-f008d1d8b8b8");
    assert_eq!(&event.dst, "user_1");
    assert_eq!(event.method(), "NotifyEvent");
    assert!(matches!(event.payload, Notification::NotifyEvent(_)));
    let Notification::NotifyEvent(event) = event.payload else {
        panic!("payload is not NotifyEvent");
    };
    assert_eq!(seconds(&event.timestamp), 1631266595.44);

    let event = event.events.first().unwrap();
    assert_eq!(seconds(&event.timestamp), 1631266595.44);
    assert_eq!(event.id, 0);
    assert_eq!(&event.event, "single_push");

    let EventComponent { component } = event.payload().unwrap();
    assert_eq!(&component, "input:0");
}

#[test]
fn status_snapshot_from_dev_1() {
    let raw = r#"{"src":"dev-1","dst":"user_1","method":"NotifyStatus","params":{"ts":1631186545.04,"switch:0":{"id":0,"output":true,"source":"button"}}}"#;
    let frame = decode(raw).unwrap();
    assert_eq!(&frame.src, "dev-1");
    let Notification::NotifyStatus(status) = frame.payload else {
        panic!("payload is not NotifyStatus");
    };
    assert_eq!(status.timestamp, JsonNumber::Float("1631186545.04".to_string()));
    let switch = status.component::<Switch>("switch:0").unwrap().unwrap();
    assert_eq!((switch.id, switch.output, switch.source.as_str()), (0, true, "button"));
}

#[test]
fn status_components_exclude_timestamp() {
    let raw = r#"{"src":"a","dst":"b","method":"NotifyStatus","params":{"ts":5,"cloud":{"connected":true}}}"#;
    let Notification::NotifyStatus(status) = decode(raw).unwrap().payload else {
        panic!("payload is not NotifyStatus");
    };
    assert_eq!(status.timestamp, JsonNumber::PosInt(5));
    assert_eq!(status.components.len(), 1);
    assert_eq!(&status.components[0].0, "cloud");
    assert!(status.component::<Ble>("ts").unwrap().is_none());
}

#[test]
fn absent_component_is_none() {
    let raw = r#"{"src":"a","dst":"b","method":"NotifyFullStatus","params":{"ts":1.5,"ble":{}}}"#;
    let Notification::NotifyFullStatus(status) = decode(raw).unwrap().payload else {
        panic!("payload is not NotifyFullStatus");
    };
    assert!(status.component::<Switch>("switch:7").unwrap().is_none());
    assert!(status.component::<Cloud>("cloud").unwrap().is_none());
    assert!(status.component::<Ble>("ble").unwrap().is_some());
}

#[test]
fn component_of_wrong_shape_is_an_error() {
    let raw = r#"{"src":"a","dst":"b","method":"NotifyStatus","params":{"ts":1,
        "switch:0":{"id":0,"output":"yes","source":"button"},
        "switch:1":{"id":-1,"output":true,"source":"button"},
        "switch:2":{"id":1,"output":true},
        "cloud":[],
        "mqtt":{"connected":true,"extra":1}}}"#;
    let Notification::NotifyStatus(status) = decode(raw).unwrap().payload else {
        panic!("payload is not NotifyStatus");
    };
    assert!(status.component::<Switch>("switch:0").is_err());
    assert!(status.component::<Switch>("switch:1").is_err());
    assert!(status.component::<Switch>("switch:2").is_err());
    assert!(status.component::<Cloud>("cloud").is_err());
    assert!(status.component::<Ble>("cloud").is_err());
    assert!(status.component::<Mqtt>("mqtt").unwrap().unwrap().connected);
    // the same component read again under another shape
    assert!(status.component::<Ble>("mqtt").unwrap().is_some());
}

#[test]
fn single_push_event_from_input_0() {
    let raw = r#"{"src":"dev-1","dst":"user_1","method":"NotifyEvent","params":{"ts":1631266595.44,"events":[{"component":"input:0","id":0,"event":"single_push","ts":1631266595.44}]}}"#;
    let Notification::NotifyEvent(batch) = decode(raw).unwrap().payload else {
        panic!("payload is not NotifyEvent");
    };
    assert_eq!(batch.events.len(), 1);
    let ev = &batch.events[0];
    assert_eq!(ev.id, 0);
    assert_eq!(&ev.event, "single_push");
    assert_eq!(seconds(&ev.timestamp), 1631266595.44);
    assert_eq!(ev.payload::<EventComponent>().unwrap().component, "input:0");
}

#[test]
fn events_keep_wire_order() {
    let raw = r#"{"src":"a","dst":"b","method":"NotifyEvent","params":{"ts":1,"events":[
        {"ts":1,"id":3,"event":"single_push","component":"input:0"},
        {"ts":2,"id":-1,"event":"double_push","component":"input:1"},
        {"ts":3,"id":2,"event":"long_push"}]}}"#;
    let Notification::NotifyEvent(batch) = decode(raw).unwrap().payload else {
        panic!("payload is not NotifyEvent");
    };
    let ids: Vec<i64> = batch.events.iter().map(|e| e.id).collect();
    assert_eq!(ids, vec![3, -1, 2]);
    let kinds: Vec<&str> = batch.events.iter().map(|e| e.event.as_str()).collect();
    assert_eq!(kinds, vec!["single_push", "double_push", "long_push"]);
    assert_eq!(batch.events[1].payload::<EventComponent>().unwrap().component, "input:1");
    // a missing field in the remainder is a shape error
    assert!(batch.events[2].payload::<EventComponent>().is_err());
    // the remainder still holds the common fields
    assert!(matches!(batch.events[0].payload.get("id"), Some(Json::Number(JsonNumber::PosInt(3)))));
}

#[test]
fn empty_event_batch() {
    let raw = r#"{"src":"a","dst":"b","method":"NotifyEvent","params":{"ts":1,"events":[]}}"#;
    let Notification::NotifyEvent(batch) = decode(raw).unwrap().payload else {
        panic!("payload is not NotifyEvent");
    };
    assert!(batch.events.is_empty());
}

#[test]
fn event_remainder_of_wrong_type() {
    let raw = r#"{"src":"a","dst":"b","method":"NotifyEvent","params":{"ts":1,"events":[{"ts":1,"id":0,"event":"x","component":7}]}}"#;
    let Notification::NotifyEvent(batch) = decode(raw).unwrap().payload else {
        panic!("payload is not NotifyEvent");
    };
    assert!(batch.events[0].payload::<EventComponent>().is_err());
}

#[test]
fn unknown_method_is_rejected() {
    let raw = r#"{"src":"a","dst":"b","method":"NotifyNothing","params":{"ts":1}}"#;
    assert_eq!(decode(raw).unwrap_err(), DecodeError::UnknownMethod("NotifyNothing".to_string()));
}

#[test]
fn both_status_methods_decode_alike() {
    let partial = decode(r#"{"src":"a","dst":"b","method":"NotifyStatus","params":{"ts":2,"ble":{}}}"#).unwrap();
    let full = decode(r#"{"src":"a","dst":"b","method":"NotifyFullStatus","params":{"ts":2,"ble":{}}}"#).unwrap();
    assert_eq!(partial.method(), "NotifyStatus");
    assert_eq!(full.method(), "NotifyFullStatus");
    let (Notification::NotifyStatus(p), Notification::NotifyFullStatus(f)) = (partial.payload, full.payload) else {
        panic!("payloads are not status snapshots");
    };
    assert_eq!(p.timestamp, f.timestamp);
    assert_eq!(p.components.len(), f.components.len());
}

#[test]
fn decoding_twice_gives_equal_frames() {
    let raw = br#"{"src":"a","dst":"b","method":"NotifyEvent","params":{"ts":1.25,"events":[{"ts":1,"id":9,"event":"e"}]}}"#;
    let one = NotificationFrame::decode(raw).unwrap();
    let two = NotificationFrame::decode(raw).unwrap();
    assert_eq!(format!("{:?}", one), format!("{:?}", two));
}

#[test]
fn malformed_bytes_report_position() {
    let err = decode("{\n  \"src\": }").unwrap_err();
    assert!(matches!(err, DecodeError::Malformed { line: 2, .. }));
    assert!(matches!(decode(""), Err(DecodeError::Malformed { .. })));
}

#[test]
fn structural_errors() {
    assert_eq!(decode("[1, 2]").unwrap_err(), DecodeError::NotAnObject);
    assert_eq!(
        decode(r#"{"dst":"b","method":"NotifyStatus","params":{"ts":1}}"#).unwrap_err(),
        DecodeError::MissingField(Field::Src)
    );
    assert_eq!(
        decode(r#"{"src":1,"dst":"b","method":"NotifyStatus","params":{"ts":1}}"#).unwrap_err(),
        DecodeError::InvalidType(Field::Src)
    );
    assert_eq!(
        decode(r#"{"src":"a","method":"NotifyStatus","params":{"ts":1}}"#).unwrap_err(),
        DecodeError::MissingField(Field::Dst)
    );
    assert_eq!(
        decode(r#"{"src":"a","dst":"b","params":{"ts":1}}"#).unwrap_err(),
        DecodeError::MissingField(Field::Method)
    );
    assert_eq!(
        decode(r#"{"src":"a","dst":"b","method":"NotifyStatus"}"#).unwrap_err(),
        DecodeError::MissingField(Field::Params)
    );
    assert_eq!(
        decode(r#"{"src":"a","dst":"b","method":"NotifyStatus","params":[]}"#).unwrap_err(),
        DecodeError::InvalidType(Field::Params)
    );
    assert_eq!(
        decode(r#"{"src":"a","dst":"b","method":"NotifyStatus","params":{}}"#).unwrap_err(),
        DecodeError::MissingField(Field::Timestamp)
    );
    assert_eq!(
        decode(r#"{"src":"a","dst":"b","method":"NotifyStatus","params":{"ts":"x"}}"#).unwrap_err(),
        DecodeError::InvalidType(Field::Timestamp)
    );
    assert_eq!(
        decode(r#"{"src":"a","dst":"b","method":"NotifyEvent","params":{"ts":1}}"#).unwrap_err(),
        DecodeError::MissingField(Field::Events)
    );
    assert_eq!(
        decode(r#"{"src":"a","dst":"b","method":"NotifyEvent","params":{"ts":1,"events":{}}}"#).unwrap_err(),
        DecodeError::InvalidType(Field::Events)
    );
    assert_eq!(
        decode(r#"{"src":"a","dst":"b","method":"NotifyEvent","params":{"ts":1,"events":[3]}}"#).unwrap_err(),
        DecodeError::InvalidType(Field::Events)
    );
    assert_eq!(
        decode(r#"{"src":"a","dst":"b","method":"NotifyEvent","params":{"ts":1,"events":[{"ts":1,"id":1.5,"event":"e"}]}}"#).unwrap_err(),
        DecodeError::InvalidType(Field::Id)
    );
    assert_eq!(
        decode(r#"{"src":"a","dst":"b","method":"NotifyEvent","params":{"ts":1,"events":[{"ts":1,"id":1}]}}"#).unwrap_err(),
        DecodeError::MissingField(Field::Event)
    );
}

#[test]
fn numbers_keep_their_kind() {
    let raw = r#"{"src":"a","dst":"b","method":"NotifyStatus","params":{"ts":-3,"n":{"big":18446744073709551615}}}"#;
    let Notification::NotifyStatus(status) = decode(raw).unwrap().payload else {
        panic!("payload is not NotifyStatus");
    };
    assert_eq!(status.timestamp, JsonNumber::NegInt(-3));
    let n = &status.components[0].1;
    assert!(matches!(n.get("big"), Some(Json::Number(JsonNumber::PosInt(u64::MAX)))));
}
