use crate::error::Error;
use crate::json::{json_string_literal, string_literal};
use vstd::prelude::*;
use vstd::string::StringExecFns;

verus! {

/// The headers that go out with every request, beyond those of the envelope.
#[derive(Clone, Copy, Default, Debug, PartialEq, Eq)]
pub struct Headers {

}

/// A request wrapper.
#[derive(Default, Clone, Debug, PartialEq)]
pub struct Request<T> {
    /// This is the name of the operation.
    pub service_type: String,
    /// This is a unique reference per request.
    pub request_ref: String,
    /// Data container.
    pub data: Option<T>,
}

/// A response wrapper.
#[derive(Default, Clone, Debug, PartialEq)]
pub struct Response<T> {
    pub request_reference: Option<String>,
    pub transaction_reference: Option<String>,
    pub response_code: Option<String>,
    /// Response status.
    pub status: bool,
    /// Response message.
    pub message: String,
    /// Data container.
    pub data: Option<T>,
}

/// The JSON document of a request whose payload is already JSON text: the
/// members `serviceType` and `requestRef`, then `data` where there is a
/// payload, and no such member where there is none.
pub open spec fn request_json(
    service_type: Seq<char>,
    request_ref: Seq<char>,
    data: Option<Seq<char>>,
) -> Seq<char> {
    "{\"serviceType\":"@ + json_string_literal(service_type) + ",\"requestRef\":"@
        + json_string_literal(request_ref) + match data {
        Some(payload) => ",\"data\":"@ + payload,
        None => Seq::<char>::empty(),
    } + "}"@
}

impl Request<String> {
    /// The payload as plain text, where there is one.
    pub open spec fn payload(&self) -> Option<Seq<char>> {
        match self.data {
            Some(payload) => Some(payload@),
            None => None,
        }
    }

    /// Writes the request, whose payload is JSON text, as one JSON document,
    /// which succeeds on every request.
    pub fn to_json(&self) -> (r: Result<String, Error>)
        ensures
            r matches Ok(text) && text@ == request_json(
                self.service_type@,
                self.request_ref@,
                self.payload(),
            ),
    {
        let service_type = string_literal(self.service_type.as_str())?;
        let request_ref = string_literal(self.request_ref.as_str())?;
        let mut text = String::from_str("{\"serviceType\":");
        text.append(service_type.as_str());
        text.append(",\"requestRef\":");
        text.append(request_ref.as_str());
        match &self.data {
            Some(payload) => {
                text.append(",\"data\":");
                text.append(payload.as_str());
            },
            None => {},
        }
        text.append("}");
        Ok(text)
    }
}

} // verus!
