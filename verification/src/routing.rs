//! Routing directives: which node of a multi-node deployment a command is
//! meant for.

use crate::data::Utf8OrEmptyError;
use crate::helpers::grab_str_not_null;
use crate::parameter::{bytes_view, string_fault};
use vstd::prelude::*;
use vstd::utf8::decode_utf8;

verus! {

/// A routing directive as the caller lays it out. The host of an address is
/// a string of the caller: its bytes, or `None` for a null pointer.
#[derive(Debug, PartialEq, Eq)]
pub enum RoutingInfo {
    /// Any node.
    Random,
    /// Any primary node.
    RandomPrimary,
    /// Every node.
    AllNodes,
    /// Every primary node.
    AllPrimaries,
    /// The node that serves a slot: its primary, or a replica where `replica`
    /// is set.
    Slot { slot: u16, replica: bool },
    /// The node at an address.
    ByAddress { host: Option<Vec<u8>>, port: u16 },
}

/// A routing directive that was checked and taken over.
#[derive(Debug, PartialEq, Eq)]
pub enum Route {
    Random,
    RandomPrimary,
    AllNodes,
    AllPrimaries,
    Slot { slot: u16, replica: bool },
    ByAddress { host: String, port: u16 },
}

/// The mathematical value of a [`Route`].
pub enum RouteView {
    Random,
    RandomPrimary,
    AllNodes,
    AllPrimaries,
    Slot { slot: u16, replica: bool },
    ByAddress { host: Seq<char>, port: u16 },
}

impl Route {
    pub open spec fn view(&self) -> RouteView {
        match self {
            Route::Random => RouteView::Random,
            Route::RandomPrimary => RouteView::RandomPrimary,
            Route::AllNodes => RouteView::AllNodes,
            Route::AllPrimaries => RouteView::AllPrimaries,
            Route::Slot { slot, replica } => RouteView::Slot { slot: *slot, replica: *replica },
            Route::ByAddress { host, port } => RouteView::ByAddress { host: host@, port: *port },
        }
    }
}

impl RoutingInfo {
    /// Why the directive cannot be taken over: the error of the host of an
    /// address. `None` where it can.
    pub open spec fn failure(&self) -> Option<Utf8OrEmptyError> {
        match self {
            RoutingInfo::ByAddress { host, port } => string_fault(bytes_view(*host)),
            _ => None,
        }
    }

    /// The route that the directive decodes to.
    pub open spec fn decoded(&self) -> RouteView {
        match self {
            RoutingInfo::Random => RouteView::Random,
            RoutingInfo::RandomPrimary => RouteView::RandomPrimary,
            RoutingInfo::AllNodes => RouteView::AllNodes,
            RoutingInfo::AllPrimaries => RouteView::AllPrimaries,
            RoutingInfo::Slot { slot, replica } => RouteView::Slot {
                slot: *slot,
                replica: *replica,
            },
            RoutingInfo::ByAddress { host, port } => RouteView::ByAddress {
                host: decode_utf8(host.unwrap()@),
                port: *port,
            },
        }
    }

    /// Checks the directive and takes it over. The host of an address must be
    /// present and UTF-8.
    pub fn to_redis(&self) -> (res: Result<Route, Utf8OrEmptyError>)
        ensures
            match res {
                Ok(route) => self.failure() is None && route@ == self.decoded(),
                Err(e) => self.failure() == Some(e),
            },
    {
        match self {
            RoutingInfo::Random => Ok(Route::Random),
            RoutingInfo::RandomPrimary => Ok(Route::RandomPrimary),
            RoutingInfo::AllNodes => Ok(Route::AllNodes),
            RoutingInfo::AllPrimaries => Ok(Route::AllPrimaries),
            RoutingInfo::Slot { slot, replica } => Ok(
                Route::Slot { slot: *slot, replica: *replica },
            ),
            RoutingInfo::ByAddress { host, port } => {
                let text = match host {
                    Some(bytes) => grab_str_not_null(Some(bytes.as_slice())),
                    None => grab_str_not_null(None),
                };
                match text {
                    Ok(host) => Ok(Route::ByAddress { host, port: *port }),
                    Err(e) => Err(e),
                }
            },
        }
    }
}

} // verus!
