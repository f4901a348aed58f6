//! Polling the schema registry for a newer graph.
//!
//! The updater asks for the current graph at a fixed interval and replaces
//! the running gateway when the registry holds another version. Sending
//! the request and building the gateway are the caller's part; what to do
//! with each answer is decided here.

use vstd::prelude::*;
use vstd::string::*;
use crate::text::{parse_url, url_serialization};

verus! {

/// How often the registry is asked, in seconds.
pub const TICK_INTERVAL_SECS: u64 = 10;

/// How long an answer of the registry is waited for, in seconds.
pub const UPLINK_TIMEOUT_SECS: u64 = 10;

/// How long a connection may take to open, in seconds.
pub const CONNECT_TIMEOUT_SECS: u64 = 5;

/// The interval of the pings that keep a connection alive, in seconds.
pub const KEEPALIVE_INTERVAL_SECS: u64 = 1;

/// How long the acknowledgement of a ping is waited for, in seconds.
pub const KEEPALIVE_TIMEOUT_SECS: u64 = 5;

/// Whether pings are sent on an idle connection.
pub const KEEPALIVE_WHILE_IDLE: bool = true;

/// The host that graphs are loaded from unless another one is given.
pub open spec fn default_uplink_host() -> Seq<char> {
    "https://gdn.grafbase.com"@
}

/// The updater of one graph.
pub struct GraphUpdater {
    pub graph_ref: String,
    pub uplink_url: String,
    pub current_id: Option<u128>,
}

/// Why an updater could not be made.
#[derive(Debug)]
pub enum UpdaterError {
    /// The address of the graph is no URL.
    InvalidUrl(String),
}

/// How grave the note of a skipped poll is.
#[derive(Clone, Copy, Debug, PartialEq, Eq, Structural)]
pub enum PollNote {
    /// The graph has not changed.
    NoUpdates,
    /// No subgraph is registered yet.
    NoSubgraphs,
    /// The registry could not be asked or answered with an error.
    Error,
}

/// What follows the answer of the registry.
#[derive(Clone, Copy, Debug, PartialEq, Eq, Structural)]
pub enum AfterResponse {
    /// Read the body and build a gateway from it.
    ReadGraph,
    /// Wait for the next tick.
    Skip(PollNote),
}

/// The address of the current version of a graph: under the host, the
/// graph reference and, if one is given, the branch.
pub open spec fn uplink_address(host: Seq<char>, graph_ref: Seq<char>, branch: Option<Seq<char>>) -> Seq<char> {
    match branch {
        Some(branch) => host + "/graphs/"@ + graph_ref + "/"@ + branch + "/current"@,
        None => host + "/graphs/"@ + graph_ref + "/current"@,
    }
}

/// What follows an answer with this status: `304` means no change, `404`
/// that no subgraph is registered, any other status from `400` on an
/// error; every other answer carries a graph.
pub open spec fn after_status(status: u16) -> AfterResponse {
    if status == 304 {
        AfterResponse::Skip(PollNote::NoUpdates)
    } else if status == 404 {
        AfterResponse::Skip(PollNote::NoSubgraphs)
    } else if 400 <= status < 600 {
        AfterResponse::Skip(PollNote::Error)
    } else {
        AfterResponse::ReadGraph
    }
}

impl GraphUpdater {
    /// The updater for the graph `graph_ref`, on `branch` if one is given,
    /// loading from `host` or, without one, from the default host. It
    /// fails if the address of the graph is no URL.
    pub fn new(graph_ref: &str, branch: Option<&str>, host: Option<&str>) -> (updater: Result<Self, UpdaterError>)
        ensures
            ({
                let host = match host {
                    Some(host) => host@,
                    None => default_uplink_host(),
                };
                let branch = match branch {
                    Some(branch) => Some(branch@),
                    None => None,
                };
                let address = uplink_address(host, graph_ref@, branch);
                match url_serialization(address) {
                    Some(url) => {
                        &&& updater matches Ok(made)
                        &&& made.graph_ref@ == graph_ref@
                        &&& made.uplink_url@ == url
                        &&& made.current_id is None
                    },
                    None => updater matches Err(UpdaterError::InvalidUrl(text)) && text@ == address,
                }
            }),
    {
        let mut address = match host {
            Some(host) => String::from_str(host),
            None => String::from_str("https://gdn.grafbase.com"),
        };
        address.append("/graphs/");
        address.append(graph_ref);
        match branch {
            Some(branch) => {
                address.append("/");
                address.append(branch);
            },
            None => {},
        }
        address.append("/current");
        match parse_url(address.as_str()) {
            Some(uplink_url) => Ok(
                GraphUpdater { graph_ref: String::from_str(graph_ref), uplink_url, current_id: None },
            ),
            None => Err(UpdaterError::InvalidUrl(address)),
        }
    }

    /// The version that the next request names as the one it has, so that
    /// the registry answers `304` while nothing changed.
    pub fn if_none_match(&self) -> (version: Option<u128>)
        ensures
            version == self.current_id,
    {
        self.current_id
    }

    /// What follows a request that could not be sent or was not answered.
    pub fn after_failed_request(&self) -> (next: AfterResponse)
        ensures
            next == AfterResponse::Skip(PollNote::Error),
    {
        AfterResponse::Skip(PollNote::Error)
    }

    /// What follows an answer with this status.
    pub fn after_response(&self, status: u16) -> (next: AfterResponse)
        ensures
            next == after_status(status),
    {
        if status == 304 {
            AfterResponse::Skip(PollNote::NoUpdates)
        } else if status == 404 {
            AfterResponse::Skip(PollNote::NoSubgraphs)
        } else if status >= 400 && status < 600 {
            AfterResponse::Skip(PollNote::Error)
        } else {
            AfterResponse::ReadGraph
        }
    }

    /// Takes note of the graph that was read. If a gateway could be built
    /// from it, the version becomes the current one and the gateway is to
    /// be sent; else nothing changes.
    pub fn after_graph(&mut self, version_id: u128, gateway_built: bool) -> (send: bool)
        ensures
            send == gateway_built,
            final(self).graph_ref == old(self).graph_ref,
            final(self).uplink_url == old(self).uplink_url,
            final(self).current_id == if gateway_built {
                Some(version_id)
            } else {
                old(self).current_id
            },
    {
        if gateway_built {
            self.current_id = Some(version_id);
        }
        gateway_built
    }
}

} // verus!
