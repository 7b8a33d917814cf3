//! Failures of the session store.

use vstd::prelude::*;
use crate::text::concat2;

verus! {

/// A failure of the session store, with its cause's text.
#[derive(Debug, Clone, PartialEq, Eq)]
pub enum StoreError {
    NotFound(String),
    Serialization(String),
    Other(String),
}

/// The text of a store error, as its `Display` form renders it.
pub open spec fn store_error_text(e: StoreError) -> Seq<char> {
    match e {
        StoreError::NotFound(m) => "session not found: "@ + m@,
        StoreError::Serialization(m) => "serialization error: "@ + m@,
        StoreError::Other(m) => "store error: "@ + m@,
    }
}

impl StoreError {
    pub fn message(&self) -> (res: String)
        ensures
            res@ == store_error_text(*self),
    {
        match self {
            StoreError::NotFound(m) => concat2("session not found: ", m.as_str()),
            StoreError::Serialization(m) => concat2("serialization error: ", m.as_str()),
            StoreError::Other(m) => concat2("store error: ", m.as_str()),
        }
    }
}

/// A failure of the host itself.
#[derive(Debug, Clone, PartialEq, Eq)]
pub enum HostError {
    Io(String),
    Store(StoreError),
    AlreadyServed,
}

/// The text of a host error, as its `Display` form renders it.
pub open spec fn host_error_text(e: HostError) -> Seq<char> {
    match e {
        HostError::Io(m) => "io error: "@ + m@,
        HostError::Store(s) => "session store error: "@ + store_error_text(s),
        HostError::AlreadyServed => "host has already been served"@,
    }
}

impl HostError {
    pub fn message(&self) -> (res: String)
        ensures
            res@ == host_error_text(*self),
    {
        match self {
            HostError::Io(m) => concat2("io error: ", m.as_str()),
            HostError::Store(s) => {
                let inner = s.message();
                concat2("session store error: ", inner.as_str())
            },
            HostError::AlreadyServed => crate::text::owned("host has already been served"),
        }
    }
}

} // verus!
