use vstd::prelude::*;
use vstd::string::*;
use crate::text::{decimal, push_decimal};

verus! {

/// A failure of the protocol layer, as far as this library tells its kinds apart.
#[derive(Debug)]
pub enum ProtocolFault {
    /// The target URL names no host.
    NoHostName,
    /// The target URL gives no port and its scheme implies none.
    UnsupportedUrlScheme,
    /// The upgrade request cannot take another header field.
    HeaderCapacity,
    /// Any other failure, in the protocol layer's own words.
    Reported(String),
}

pub enum ProtocolFaultView {
    NoHostName,
    UnsupportedUrlScheme,
    HeaderCapacity,
    Reported(Seq<char>),
}

impl View for ProtocolFault {
    type V = ProtocolFaultView;

    open spec fn view(&self) -> ProtocolFaultView {
        match *self {
            ProtocolFault::NoHostName => ProtocolFaultView::NoHostName,
            ProtocolFault::UnsupportedUrlScheme => ProtocolFaultView::UnsupportedUrlScheme,
            ProtocolFault::HeaderCapacity => ProtocolFaultView::HeaderCapacity,
            ProtocolFault::Reported(text) => ProtocolFaultView::Reported(text@),
        }
    }
}

/// Everything that opening a connection or sending on one can fail with.
#[derive(Debug)]
pub enum BridgeError {
    /// The protocol layer failed: a malformed URL, a refused upgrade, a broken stream.
    Websocket(ProtocolFault),
    /// No open connection goes by this handle.
    ConnectionNotFound(u32),
    /// The value configured for the header of this name is not a legal field value.
    InvalidHeaderValue(String),
    /// This configured header name is not a legal field name.
    InvalidHeaderName(String),
    /// The exchange with the proxy broke down.
    ProxyConnection(String),
    /// The proxy answered the tunnel request with this status, which is no success.
    ProxyStatus(u16),
    /// The transport to the proxy failed.
    ProxyIo(String),
    /// The tunnel request could not be put together.
    ProxyHttp(String),
    /// The task that drives the exchange with the proxy did not finish.
    ProxyJoinHandle(String),
}

pub enum BridgeErrorView {
    Websocket(ProtocolFaultView),
    ConnectionNotFound(u32),
    InvalidHeaderValue(Seq<char>),
    InvalidHeaderName(Seq<char>),
    ProxyConnection(Seq<char>),
    ProxyStatus(u16),
    ProxyIo(Seq<char>),
    ProxyHttp(Seq<char>),
    ProxyJoinHandle(Seq<char>),
}

impl View for BridgeError {
    type V = BridgeErrorView;

    open spec fn view(&self) -> BridgeErrorView {
        match *self {
            BridgeError::Websocket(fault) => BridgeErrorView::Websocket(fault@),
            BridgeError::ConnectionNotFound(handle) => BridgeErrorView::ConnectionNotFound(handle),
            BridgeError::InvalidHeaderValue(name) => BridgeErrorView::InvalidHeaderValue(name@),
            BridgeError::InvalidHeaderName(name) => BridgeErrorView::InvalidHeaderName(name@),
            BridgeError::ProxyConnection(text) => BridgeErrorView::ProxyConnection(text@),
            BridgeError::ProxyStatus(status) => BridgeErrorView::ProxyStatus(status),
            BridgeError::ProxyIo(text) => BridgeErrorView::ProxyIo(text@),
            BridgeError::ProxyHttp(text) => BridgeErrorView::ProxyHttp(text@),
            BridgeError::ProxyJoinHandle(text) => BridgeErrorView::ProxyJoinHandle(text@),
        }
    }
}

impl ProtocolFaultView {
    /// The failure in words. A failure that the protocol layer reported reads as it was
    /// reported.
    pub open spec fn description(self) -> Seq<char> {
        match self {
            ProtocolFaultView::NoHostName => "URL error: No host name in the URL"@,
            ProtocolFaultView::UnsupportedUrlScheme => "URL error: URL scheme not supported"@,
            ProtocolFaultView::HeaderCapacity => "HTTP format error: max size reached"@,
            ProtocolFaultView::Reported(text) => text,
        }
    }
}

impl BridgeErrorView {
    /// The error in words, as the host application is told of it. A handle and a status
    /// are written in decimal; a header is named as it was configured; a failure of a
    /// layer below reads as that layer described it.
    pub open spec fn description(self) -> Seq<char> {
        match self {
            BridgeErrorView::Websocket(fault) => fault.description(),
            BridgeErrorView::ConnectionNotFound(handle) => "connection not found for the given id: "@
                + decimal(handle as nat),
            BridgeErrorView::InvalidHeaderValue(name) => "invalid value for HTTP header: "@ + name,
            BridgeErrorView::InvalidHeaderName(name) => "invalid HTTP header name: "@ + name,
            BridgeErrorView::ProxyConnection(text) => text,
            BridgeErrorView::ProxyStatus(status) => "proxy returned status code: "@ + decimal(
                status as nat,
            ),
            BridgeErrorView::ProxyIo(text) => text,
            BridgeErrorView::ProxyHttp(text) => text,
            BridgeErrorView::ProxyJoinHandle(text) => text,
        }
    }
}

impl ProtocolFault {
    /// The failure in words.
    pub fn message(&self) -> (text: String)
        ensures
            text@ == self@.description(),
    {
        match self {
            ProtocolFault::NoHostName => String::from_str("URL error: No host name in the URL"),
            ProtocolFault::UnsupportedUrlScheme => String::from_str(
                "URL error: URL scheme not supported",
            ),
            ProtocolFault::HeaderCapacity => String::from_str(
                "HTTP format error: max size reached",
            ),
            ProtocolFault::Reported(text) => text.clone(),
        }
    }
}

impl BridgeError {
    /// The error in words, as the host application is told of it.
    pub fn message(&self) -> (text: String)
        ensures
            text@ == self@.description(),
    {
        match self {
            BridgeError::Websocket(fault) => fault.message(),
            BridgeError::ConnectionNotFound(handle) => {
                let mut text = String::from_str("connection not found for the given id: ");
                push_decimal(&mut text, *handle);
                text
            },
            BridgeError::InvalidHeaderValue(name) => {
                let mut text = String::from_str("invalid value for HTTP header: ");
                text.append(name.as_str());
                text
            },
            BridgeError::InvalidHeaderName(name) => {
                let mut text = String::from_str("invalid HTTP header name: ");
                text.append(name.as_str());
                text
            },
            BridgeError::ProxyConnection(text) => text.clone(),
            BridgeError::ProxyStatus(status) => {
                let mut text = String::from_str("proxy returned status code: ");
                push_decimal(&mut text, *status as u32);
                text
            },
            BridgeError::ProxyIo(text) => text.clone(),
            BridgeError::ProxyHttp(text) => text.clone(),
            BridgeError::ProxyJoinHandle(text) => text.clone(),
        }
    }
}

} // verus!
