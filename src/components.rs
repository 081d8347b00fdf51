use vstd::prelude::*;

use crate::json::{
    bool_member, member, string_member, usize_member, usize_of, FromJson, Json, ShapeError,
};

verus! {

/// Bluetooth component: its presence is all it reports.
#[derive(Debug)]
pub struct Ble {}

/// Connection state to the vendor's cloud service.
#[derive(Debug)]
pub struct Cloud {
    pub connected: bool,
}

/// Connection state to the MQTT broker.
#[derive(Debug)]
pub struct Mqtt {
    pub connected: bool,
}

/// State of one switch output.
#[derive(Debug)]
pub struct Switch {
    pub id: usize,
    pub output: bool,
    pub source: String,
}

/// The component named in an event record, the one that fired it.
#[derive(Debug)]
pub struct EventComponent {
    pub component: String,
}

impl FromJson for Ble {
    open spec fn spec_from_json(v: Json) -> Option<Ble> {
        match v {
            Json::Object(_) => Some(Ble {  }),
            _ => None,
        }
    }

    fn from_json(v: &Json) -> (r: Result<Ble, ShapeError>) {
        match v {
            Json::Object(_) => Ok(Ble {  }),
            _ => Err(ShapeError::NotAnObject),
        }
    }
}

impl FromJson for Cloud {
    open spec fn spec_from_json(v: Json) -> Option<Cloud> {
        match member(v, "connected"@) {
            Some(Json::Bool(b)) => Some(Cloud { connected: b }),
            _ => None,
        }
    }

    fn from_json(v: &Json) -> (r: Result<Cloud, ShapeError>) {
        let connected = bool_member(v, "connected")?;
        Ok(Cloud { connected })
    }
}

impl FromJson for Mqtt {
    open spec fn spec_from_json(v: Json) -> Option<Mqtt> {
        match member(v, "connected"@) {
            Some(Json::Bool(b)) => Some(Mqtt { connected: b }),
            _ => None,
        }
    }

    fn from_json(v: &Json) -> (r: Result<Mqtt, ShapeError>) {
        let connected = bool_member(v, "connected")?;
        Ok(Mqtt { connected })
    }
}

impl FromJson for Switch {
    open spec fn spec_from_json(v: Json) -> Option<Switch> {
        match (member(v, "id"@), member(v, "output"@), member(v, "source"@)) {
            (Some(Json::Number(n)), Some(Json::Bool(output)), Some(Json::Str(source))) => {
                match usize_of(n) {
                    Some(id) => Some(Switch { id, output, source }),
                    None => None,
                }
            },
            _ => None,
        }
    }

    fn from_json(v: &Json) -> (r: Result<Switch, ShapeError>) {
        let id = usize_member(v, "id")?;
        let output = bool_member(v, "output")?;
        let source = string_member(v, "source")?;
        Ok(Switch { id, output, source })
    }
}

impl FromJson for EventComponent {
    open spec fn spec_from_json(v: Json) -> Option<EventComponent> {
        match member(v, "component"@) {
            Some(Json::Str(component)) => Some(EventComponent { component }),
            _ => None,
        }
    }

    fn from_json(v: &Json) -> (r: Result<EventComponent, ShapeError>) {
        let component = string_member(v, "component")?;
        Ok(EventComponent { component })
    }
}

} // verus!
