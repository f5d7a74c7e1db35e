//! A call to another service, as it is logged.

use vstd::prelude::*;

use crate::clock::{Latency, Timestamp};
use crate::json::{clone_fields, members, LogFields};

verus! {

/// Headers as a JSON object.
pub type HeaderMapJson = LogFields;

/// The request that went out.
#[derive(Debug)]
pub struct TargetRequest {
    pub url: String,
    pub method: String,
    pub content_type: String,
    pub header: HeaderMapJson,
    pub body: Vec<u8>,
    pub timestamp: Timestamp,
}

/// The response that came back.
#[derive(Debug)]
pub struct TargetResponse {
    pub header: HeaderMapJson,
    pub body: Vec<u8>,
    pub status: u16,
    pub latency: Latency,
}

impl Clone for TargetRequest {
    fn clone(&self) -> (r: Self)
        ensures
            r.url@ == self.url@,
            r.method@ == self.method@,
            r.content_type@ == self.content_type@,
            members(r.header) == members(self.header),
            r.body@ == self.body@,
            r.timestamp == self.timestamp,
    {
        TargetRequest {
            url: self.url.clone(),
            method: self.method.clone(),
            content_type: self.content_type.clone(),
            header: clone_fields(&self.header),
            body: self.body.clone(),
            timestamp: self.timestamp,
        }
    }
}

impl Clone for TargetResponse {
    fn clone(&self) -> (r: Self)
        ensures
            members(r.header) == members(self.header),
            r.body@ == self.body@,
            r.status == self.status,
            r.latency == self.latency,
    {
        TargetResponse {
            header: clone_fields(&self.header),
            body: self.body.clone(),
            status: self.status,
            latency: self.latency,
        }
    }
}

} // verus!
