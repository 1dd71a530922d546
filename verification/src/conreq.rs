//! The connection configuration that the caller hands in.

use crate::data::Utf8OrEmptyError;
use crate::helpers::{grab_str_not_null, utf8_error_of};
use crate::parameter::bytes_view;
use vstd::prelude::*;
use vstd::utf8::{decode_utf8, valid_utf8};

verus! {

/// The configuration of one connection, as the caller lays it out. The host
/// is a string of the caller: its bytes, or `None` for a null pointer.
#[derive(Debug, PartialEq, Eq)]
pub struct ConnectionRequest {
    pub host: Option<Vec<u8>>,
    pub port: u16,
    pub use_tls: bool,
    pub cluster_mode: bool,
}

/// A configuration that was checked and taken over: nothing in it points
/// into the caller's memory.
#[derive(Debug, PartialEq, Eq)]
pub struct ConnectionSettings {
    pub host: String,
    pub port: u16,
    pub use_tls: bool,
    pub cluster_mode: bool,
}

/// What is wrong with a host: it is missing where the pointer is null or the
/// string is empty, and it is unreadable where its bytes are not UTF-8.
pub open spec fn host_fault(host: Option<Seq<u8>>) -> Option<Utf8OrEmptyError> {
    match host {
        None => Some(Utf8OrEmptyError::Empty),
        Some(bytes) => if !valid_utf8(bytes) {
            Some(Utf8OrEmptyError::Utf8Error(utf8_error_of(bytes)))
        } else if bytes.len() == 0 {
            Some(Utf8OrEmptyError::Empty)
        } else {
            None
        },
    }
}

impl ConnectionRequest {
    /// Checks the configuration and takes it over.
    ///
    /// The host must be present, not empty and UTF-8. A null or empty host is
    /// the `Empty` error, a host that is not UTF-8 the `Utf8Error` error. The
    /// other fields are taken as they are.
    pub fn to_redis(&self) -> (res: Result<ConnectionSettings, Utf8OrEmptyError>)
        ensures
            match res {
                Ok(settings) => {
                    &&& host_fault(bytes_view(self.host)) is None
                    &&& settings.host@ == decode_utf8(self.host.unwrap()@)
                    &&& settings.port == self.port
                    &&& settings.use_tls == self.use_tls
                    &&& settings.cluster_mode == self.cluster_mode
                },
                Err(e) => host_fault(bytes_view(self.host)) == Some(e),
            },
    {
        let host = match &self.host {
            Some(bytes) => grab_str_not_null(Some(bytes.as_slice())),
            None => grab_str_not_null(None),
        };
        match host {
            Ok(host) => {
                proof {
                    vstd::utf8::decode_utf8_encode_utf8(self.host.unwrap()@);
                }
                if host.as_str().as_bytes().len() == 0 {
                    return Err(Utf8OrEmptyError::Empty);
                }
                Ok(
                    ConnectionSettings {
                        host,
                        port: self.port,
                        use_tls: self.use_tls,
                        cluster_mode: self.cluster_mode,
                    },
                )
            },
            Err(e) => Err(e),
        }
    }
}

} // verus!
