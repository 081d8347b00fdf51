use vstd::prelude::*;

use crate::json::{member, parse_document, parsed_document, FromJson, Json};
use crate::notification::{str_field, text_field, DecodeError, Field};

verus! {

/// An outbound call: envelope fields and, beside them in the same object,
/// the fields of the call's own payload.
#[derive(Debug)]
pub struct RequestFrame<T> {
    pub jsonrpc: Option<String>,
    pub id: String,
    pub src: String,
    pub payload: T,
}

/// The answer to a call: a result or an error, correlated by `id`.
#[derive(Debug)]
pub struct ResponseFrame<T, E> {
    pub id: String,
    pub src: String,
    pub dst: String,
    pub result: Option<T>,
    pub error: Option<E>,
}

/// An optional member of shape `T`: absent and `null` both mean none.
pub open spec fn optional_of<T: FromJson>(v: Option<Json>, f: Field) -> Result<Option<T>, DecodeError> {
    match v {
        None => Ok(None),
        Some(Json::Null) => Ok(None),
        Some(x) => match T::spec_from_json(x) {
            Some(t) => Ok(Some(t)),
            None => Err(DecodeError::InvalidType(f)),
        },
    }
}

/// An optional string member.
pub open spec fn optional_str(v: Option<Json>, f: Field) -> Result<Option<String>, DecodeError> {
    match v {
        None => Ok(None),
        Some(Json::Null) => Ok(None),
        Some(Json::Str(s)) => Ok(Some(s)),
        Some(_) => Err(DecodeError::InvalidType(f)),
    }
}

/// What decoding `doc` as a response gives.
pub open spec fn response_of<T: FromJson, E: FromJson>(doc: Json) -> Result<ResponseFrame<T, E>, DecodeError> {
    match doc {
        Json::Object(_) => match str_field(doc, "id"@, Field::Id) {
            Err(e) => Err(e),
            Ok(id) => match str_field(doc, "src"@, Field::Src) {
                Err(e) => Err(e),
                Ok(src) => match str_field(doc, "dst"@, Field::Dst) {
                    Err(e) => Err(e),
                    Ok(dst) => match optional_of::<T>(member(doc, "result"@), Field::Result) {
                        Err(e) => Err(e),
                        Ok(result) => match optional_of::<E>(member(doc, "error"@), Field::Error) {
                            Err(e) => Err(e),
                            Ok(error) => Ok(ResponseFrame { id, src, dst, result, error }),
                        },
                    },
                },
            },
        },
        _ => Err(DecodeError::NotAnObject),
    }
}

/// What decoding `doc` as a request gives; the payload is read from the
/// whole object.
pub open spec fn request_of<T: FromJson>(doc: Json) -> Result<RequestFrame<T>, DecodeError> {
    match doc {
        Json::Object(_) => match optional_str(member(doc, "jsonrpc"@), Field::Jsonrpc) {
            Err(e) => Err(e),
            Ok(jsonrpc) => match str_field(doc, "id"@, Field::Id) {
                Err(e) => Err(e),
                Ok(id) => match str_field(doc, "src"@, Field::Src) {
                    Err(e) => Err(e),
                    Ok(src) => match T::spec_from_json(doc) {
                        None => Err(DecodeError::InvalidType(Field::Params)),
                        Some(payload) => Ok(RequestFrame { jsonrpc, id, src, payload }),
                    },
                },
            },
        },
        _ => Err(DecodeError::NotAnObject),
    }
}

fn optional_member<T: FromJson>(doc: &Json, key: &str, f: Field) -> (r: Result<Option<T>, DecodeError>)
    ensures
        r == optional_of::<T>(member(*doc, key@), f),
{
    match doc.get(key) {
        None => Ok(None),
        Some(Json::Null) => Ok(None),
        Some(x) => match T::from_json(x) {
            Ok(t) => Ok(Some(t)),
            Err(_) => Err(DecodeError::InvalidType(f)),
        },
    }
}

fn optional_text(doc: &Json, key: &str, f: Field) -> (r: Result<Option<String>, DecodeError>)
    ensures
        r == optional_str(member(*doc, key@), f),
{
    match doc.get(key) {
        None => Ok(None),
        Some(Json::Null) => Ok(None),
        Some(Json::Str(s)) => Ok(Some(s.clone())),
        Some(_) => Err(DecodeError::InvalidType(f)),
    }
}

impl<T: FromJson> RequestFrame<T> {
    /// Decodes a request; the payload's fields sit beside the envelope's.
    pub fn from_json(doc: &Json) -> (r: Result<RequestFrame<T>, DecodeError>)
        ensures
            r == request_of::<T>(*doc),
    {
        match doc {
            Json::Object(_) => {},
            _ => return Err(DecodeError::NotAnObject),
        }
        let jsonrpc = optional_text(doc, "jsonrpc", Field::Jsonrpc)?;
        let id = text_field(doc, "id", Field::Id)?;
        let src = text_field(doc, "src", Field::Src)?;
        match T::from_json(doc) {
            Ok(payload) => Ok(RequestFrame { jsonrpc, id, src, payload }),
            Err(_) => Err(DecodeError::InvalidType(Field::Params)),
        }
    }
}

impl<T: FromJson, E: FromJson> ResponseFrame<T, E> {
    /// Decodes a response document.
    pub fn from_json(doc: &Json) -> (r: Result<ResponseFrame<T, E>, DecodeError>)
        ensures
            r == response_of::<T, E>(*doc),
    {
        match doc {
            Json::Object(_) => {},
            _ => return Err(DecodeError::NotAnObject),
        }
        let id = text_field(doc, "id", Field::Id)?;
        let src = text_field(doc, "src", Field::Src)?;
        let dst = text_field(doc, "dst", Field::Dst)?;
        let result = optional_member::<T>(doc, "result", Field::Result)?;
        let error = optional_member::<E>(doc, "error", Field::Error)?;
        Ok(ResponseFrame { id, src, dst, result, error })
    }

    /// Decodes a response from JSON text.
    pub fn decode(bytes: &[u8]) -> (r: Result<ResponseFrame<T, E>, DecodeError>)
        ensures
            match parsed_document(bytes@) {
                Some(doc) => r == response_of::<T, E>(doc),
                None => r matches Err(DecodeError::Malformed { .. }),
            },
    {
        match parse_document(bytes) {
            Ok(doc) => ResponseFrame::from_json(&doc),
            Err(e) => Err(DecodeError::Malformed { line: e.line(), column: e.column() }),
        }
    }
}

impl<T, E> ResponseFrame<T, E> {
    /// The outcome of the call: the result where there is one, else the error.
    /// A peer always sends one of the two; a response with neither is a defect
    /// of the peer, which callers rule out before asking for the outcome.
    pub fn into_result(self) -> (r: Result<T, E>)
        requires
            self.result is Some || self.error is Some,
        ensures
            match self.result {
                Some(x) => r == Ok::<T, E>(x),
                None => r == Err::<T, E>(self.error->Some_0),
            },
    {
        match self.result {
            Some(x) => Ok(x),
            None => Err(self.error.unwrap()),
        }
    }
}

} // verus!
