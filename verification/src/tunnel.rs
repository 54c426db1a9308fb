use vstd::prelude::*;
use vstd::string::*;
use crate::error::{BridgeError, BridgeErrorView, ProtocolFault, ProtocolFaultView};
use crate::proxy::{ProxyConfiguration, ProxyConfigurationView};
use crate::text::{decimal, digit_char, push_decimal, reads_as};

verus! {

/// What a target URL says of where to connect: its scheme, its host as written (an IPv6
/// literal in its brackets) and its port, each where the URL has one.
pub struct Target {
    pub scheme: Option<String>,
    pub host: Option<String>,
    pub port: Option<u16>,
}

pub struct TargetView {
    pub scheme: Option<Seq<char>>,
    pub host: Option<Seq<char>>,
    pub port: Option<u16>,
}

impl View for Target {
    type V = TargetView;

    open spec fn view(&self) -> TargetView {
        TargetView {
            scheme: match self.scheme {
                Some(scheme) => Some(scheme@),
                None => None,
            },
            host: match self.host {
                Some(host) => Some(host@),
                None => None,
            },
            port: self.port,
        }
    }
}

/// Whether a host is written between square brackets, as an IPv6 literal is.
pub open spec fn is_bracketed(host: Seq<char>) -> bool {
    host.len() >= 2 && host.first() == '[' && host.last() == ']'
}

/// A host as it goes on the wire: an IPv6 literal without its brackets, any other host
/// as it is.
pub open spec fn unbracketed(host: Seq<char>) -> Seq<char> {
    if is_bracketed(host) {
        host.subrange(1, host.len() - 1)
    } else {
        host
    }
}

/// The port that a scheme stands for: 443 for `wss`, 80 for `ws`.
pub open spec fn implied_port(scheme: Option<Seq<char>>) -> Option<u16> {
    match scheme {
        Some(scheme) => if scheme == "wss"@ {
            Some(443u16)
        } else if scheme == "ws"@ {
            Some(80u16)
        } else {
            None
        },
        None => None,
    }
}

/// The port to connect to: the one the URL gives, else the one its scheme stands for.
pub open spec fn resolved_port(target: TargetView) -> Option<u16> {
    match target.port {
        Some(port) => Some(port),
        None => implied_port(target.scheme),
    }
}

/// A host and a port as one address: the host, a colon, the port in decimal.
pub open spec fn endpoint(host: Seq<char>, port: u16) -> Seq<char> {
    host + seq![':'] + decimal(port as nat)
}

/// The host of a target, as written, and its port, or why the target cannot be
/// reached: for want of a host first, for want of a port second.
pub open spec fn target_place(target: TargetView) -> Result<(Seq<char>, u16), ProtocolFaultView> {
    match target.host {
        None => Err(ProtocolFaultView::NoHostName),
        Some(host) => match resolved_port(target) {
            None => Err(ProtocolFaultView::UnsupportedUrlScheme),
            Some(port) => Ok((host, port)),
        },
    }
}

/// Whether a text holds a square bracket.
pub open spec fn has_bracket(text: Seq<char>) -> bool {
    exists|i: int| 0 <= i < text.len() && (#[trigger] text[i] == '[' || text[i] == ']')
}

/// The host of a target as it goes on the wire.
///
/// A target without a host is refused.
pub fn domain(target: &Target) -> (outcome: Result<String, BridgeError>)
    ensures
        match outcome {
            Ok(host) => target@.host matches Some(written) && host@ == unbracketed(written),
            Err(error) => target@.host is None && error@ == BridgeErrorView::Websocket(
                ProtocolFaultView::NoHostName,
            ),
        },
{
    match &target.host {
        Some(written) => {
            let written = written.as_str();
            let len = written.unicode_len();
            if len >= 2 && written.get_char(0) == '[' && written.get_char(len - 1) == ']' {
                Ok(written.substring_char(1, len - 1).to_owned())
            } else {
                Ok(written.to_owned())
            }
        },
        None => Err(BridgeError::Websocket(ProtocolFault::NoHostName)),
    }
}

/// The port of a target.
///
/// A target that gives no port, under a scheme that stands for none, is refused.
pub fn port(target: &Target) -> (outcome: Result<u16, BridgeError>)
    ensures
        match outcome {
            Ok(port) => resolved_port(target@) == Some(port),
            Err(error) => resolved_port(target@) is None && error@ == BridgeErrorView::Websocket(
                ProtocolFaultView::UnsupportedUrlScheme,
            ),
        },
{
    match target.port {
        Some(port) => Ok(port),
        None => {
            match &target.scheme {
                Some(scheme) => {
                    if reads_as(scheme.as_str(), "wss") {
                        Ok(443)
                    } else if reads_as(scheme.as_str(), "ws") {
                        Ok(80)
                    } else {
                        Err(BridgeError::Websocket(ProtocolFault::UnsupportedUrlScheme))
                    }
                },
                None => Err(BridgeError::Websocket(ProtocolFault::UnsupportedUrlScheme)),
            }
        },
    }
}

/// Writes a host and a port as one address.
pub fn join_endpoint(host: &str, port: u16) -> (address: String)
    ensures
        address@ == endpoint(host@, port),
{
    let mut address = host.to_owned();
    proof {
        reveal_strlit(":");
    }
    address.append(":");
    push_decimal(&mut address, port as u32);
    assert(address@ =~= endpoint(host@, port));
    address
}

/// How a tunnel through a proxy is asked for.
pub struct TunnelPlan {
    /// Where the proxy listens.
    pub proxy_address: String,
    /// The target that the proxy is asked to relay to.
    pub authority: String,
    /// The value of the `Proxy-Authorization` header, where the proxy wants credentials.
    pub authorization: Option<String>,
}

pub struct TunnelPlanView {
    pub proxy_address: Seq<char>,
    pub authority: Seq<char>,
    pub authorization: Option<Seq<char>>,
}

impl View for TunnelPlan {
    type V = TunnelPlanView;

    open spec fn view(&self) -> TunnelPlanView {
        TunnelPlanView {
            proxy_address: self.proxy_address@,
            authority: self.authority@,
            authorization: match self.authorization {
                Some(value) => Some(value@),
                None => None,
            },
        }
    }
}

/// How the byte stream to a target is obtained.
pub enum Route {
    /// By connecting to the target itself, at this address.
    Direct { address: String },
    /// By asking a proxy for a tunnel.
    Tunnel(TunnelPlan),
}

pub enum RouteView {
    Direct { address: Seq<char> },
    Tunnel(TunnelPlanView),
}

impl View for Route {
    type V = RouteView;

    open spec fn view(&self) -> RouteView {
        match *self {
            Route::Direct { address } => RouteView::Direct { address: address@ },
            Route::Tunnel(plan) => RouteView::Tunnel(plan@),
        }
    }
}

/// What is said of credentials that are too long to be put in a header.
pub open spec fn oversized_credentials() -> Seq<char> {
    "proxy credentials are too long to encode"@
}

/// The value of the `Proxy-Authorization` header for a proxy: `Basic` and the token of
/// its credentials, where it has credentials.
pub open spec fn authorization_for(proxy: ProxyConfigurationView) -> Option<Seq<char>> {
    match proxy.auth {
        Some(auth) => Some("Basic "@ + auth.token()),
        None => None,
    }
}

/// The route to a target, given the proxy that is configured, if one is.
///
/// Host and port of the target are worked out first, and a target without either is
/// refused for that. Without a proxy the route is direct, to the host as the URL writes
/// it. With one it is a tunnel: to the proxy's own address, for the target's host
/// without the brackets of an IPv6 literal, with the proxy's credentials.
pub open spec fn route_for(target: TargetView, proxy: Option<ProxyConfigurationView>) -> Result<
    RouteView,
    BridgeErrorView,
> {
    match target_place(target) {
        Err(fault) => Err(BridgeErrorView::Websocket(fault)),
        Ok((host, port)) => match proxy {
            None => Ok(RouteView::Direct { address: endpoint(host, port) }),
            Some(proxy) => if proxy.auth matches Some(auth) && !auth.fits() {
                Err(BridgeErrorView::ProxyHttp(oversized_credentials()))
            } else {
                Ok(
                    RouteView::Tunnel(
                        TunnelPlanView {
                            proxy_address: endpoint(proxy.proxy_url, proxy.proxy_port),
                            authority: endpoint(unbracketed(host), port),
                            authorization: authorization_for(proxy),
                        },
                    ),
                )
            },
        },
    }
}

/// The view of a proxy that may be configured.
pub open spec fn proxy_view(proxy: Option<&ProxyConfiguration>) -> Option<ProxyConfigurationView> {
    match proxy {
        Some(proxy) => Some(proxy@),
        None => None,
    }
}

/// An IPv6 literal goes to the proxy without its brackets: the tunnel is asked for the
/// literal itself, a colon and the port.
pub proof fn law_ipv6_literal_unbracketed(
    literal: Seq<char>,
    target: TargetView,
    proxy: ProxyConfigurationView,
)
    requires
        target.host == Some(seq!['['] + literal + seq![']']),
        resolved_port(target) is Some,
        proxy.auth matches Some(auth) ==> auth.fits(),
    ensures
        route_for(target, Some(proxy)) matches Ok(RouteView::Tunnel(plan)) && plan.authority
            == literal + seq![':'] + decimal(resolved_port(target)->0 as nat),
{
    let written = seq!['['] + literal + seq![']'];
    assert(is_bracketed(written));
    assert(written.subrange(1, written.len() - 1) =~= literal);
}

/// A number in decimal is written in digits alone: it holds no bracket.
proof fn lemma_decimal_has_no_bracket(number: nat)
    ensures
        forall|i: int|
            0 <= i < decimal(number).len() ==> #[trigger] decimal(number)[i] != '[' && decimal(
                number,
            )[i] != ']',
    decreases number,
{
    let written = decimal(number);
    if number >= 10 {
        lemma_decimal_has_no_bracket(number / 10);
        let front = decimal(number / 10);
        assert forall|i: int| 0 <= i < written.len() implies #[trigger] written[i] != '['
            && written[i] != ']' by {
            if i < front.len() {
                assert(written[i] == front[i]);
            } else {
                assert(written[i] == digit_char(number % 10));
            }
        }
    } else {
        assert(written[0] == digit_char(number));
    }
}

/// The target that a proxy is asked to relay to holds no square bracket, for every host
/// that holds none once the brackets around an IPv6 literal are taken off.
pub proof fn law_tunnel_target_has_no_bracket(target: TargetView, proxy: ProxyConfigurationView)
    requires
        target.host matches Some(host) && !has_bracket(unbracketed(host)),
        resolved_port(target) is Some,
        proxy.auth matches Some(auth) ==> auth.fits(),
    ensures
        route_for(target, Some(proxy)) matches Ok(RouteView::Tunnel(plan)) && !has_bracket(
            plan.authority,
        ),
{
    let host = unbracketed(target.host->0);
    let port = resolved_port(target)->0;
    let authority = endpoint(host, port);
    lemma_decimal_has_no_bracket(port as nat);
    assert forall|i: int| 0 <= i < authority.len() implies !(#[trigger] authority[i] == '['
        || authority[i] == ']') by {
        if i < host.len() {
            assert(authority[i] == host[i]);
        } else if i == host.len() {
            assert(authority[i] == ':');
        } else {
            assert(authority[i] == decimal(port as nat)[i - host.len() - 1]);
        }
    }
}

/// Plans the route to a target.
pub fn plan_route(target: &Target, proxy: Option<&ProxyConfiguration>) -> (outcome: Result<
    Route,
    BridgeError,
>)
    ensures
        match outcome {
            Ok(route) => route_for(target@, proxy_view(proxy)) == Ok::<RouteView, BridgeErrorView>(
                route@,
            ),
            Err(error) => route_for(target@, proxy_view(proxy)) == Err::<
                RouteView,
                BridgeErrorView,
            >(error@),
        },
{
    let host = match domain(target) {
        Ok(host) => host,
        Err(error) => return Err(error),
    };
    let port = match port(target) {
        Ok(port) => port,
        Err(error) => return Err(error),
    };
    match proxy {
        None => match &target.host {
            Some(written) => Ok(Route::Direct { address: join_endpoint(written.as_str(), port) }),
            None => Err(BridgeError::Websocket(ProtocolFault::NoHostName)),
        },
        Some(proxy) => {
            let authorization = match &proxy.auth {
                Some(auth) => match auth.try_encode() {
                    Some(token) => {
                        let mut value = String::from_str("Basic ");
                        value.append(token.as_str());
                        Some(value)
                    },
                    None => {
                        return Err(
                            BridgeError::ProxyHttp(
                                String::from_str("proxy credentials are too long to encode"),
                            ),
                        );
                    },
                },
                None => None,
            };
            let proxy_address = join_endpoint(proxy.proxy_url.as_str(), proxy.proxy_port);
            let authority = join_endpoint(host.as_str(), port);
            Ok(Route::Tunnel(TunnelPlan { proxy_address, authority, authorization }))
        },
    }
}

/// Whether a proxy's answer to a tunnel request grants the tunnel: a status from 200
/// to 299 does.
pub open spec fn grants_tunnel(status: u16) -> bool {
    200 <= status < 300
}

/// Judges a proxy's answer to a tunnel request by its status.
pub fn check_tunnel_status(status: u16) -> (outcome: Result<(), BridgeError>)
    ensures
        match outcome {
            Ok(()) => grants_tunnel(status),
            Err(error) => !grants_tunnel(status) && error@ == BridgeErrorView::ProxyStatus(status),
        },
{
    if 200 <= status && status < 300 {
        Ok(())
    } else {
        Err(BridgeError::ProxyStatus(status))
    }
}

} // verus!
