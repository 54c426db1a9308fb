use vstd::prelude::*;
use crate::config::{ConnectionConfig, ProtocolLimits};
use crate::error::{BridgeError, BridgeErrorView};
use crate::proxy::{ProxyConfiguration, ProxyConfigurationView};
use crate::pump::{Phase, Pump};
use crate::request::{
    attempted, capacity_error, field_room, first_defect, header_defect, header_error,
    merge_headers, request_headers, upgrade_field_count, upgrade_outcome, upgrade_request,
    with_headers, HeaderFields, HeaderPair,
};
use crate::tunnel::{plan_route, proxy_view, route_for, Route, RouteView, TargetView};

verus! {

/// Everything that is settled about a connection before any byte travels.
pub struct Preparation {
    /// The connection, under the handle drawn for it, not open yet.
    pub pump: Pump,
    /// The upgrade request, with the configured headers set.
    pub request: http::Request<()>,
    /// How the byte stream to the target is obtained.
    pub route: Route,
    /// The limits to run the connection under, where any were configured.
    pub limits: Option<ProtocolLimits>,
}

/// The headers that a configuration asks for, in order; none where it is silent.
pub open spec fn configured_headers(config: Option<ConnectionConfig>) -> Seq<HeaderPair> {
    match config {
        Some(config) => match config.headers {
            Some(headers) => headers.deep_view(),
            None => Seq::empty(),
        },
        None => Seq::empty(),
    }
}

/// The limits that a configuration asks for; none where there is no configuration.
pub open spec fn configured_limits(config: Option<ConnectionConfig>) -> Option<ProtocolLimits> {
    match config {
        Some(config) => Some(config.limits_spec()),
        None => None,
    }
}

/// Whether header fields are what a new upgrade request carries once a list of
/// configured headers has been set on it.
pub open spec fn carries(fields: HeaderFields, pairs: Seq<HeaderPair>) -> bool {
    exists|base: HeaderFields|
        base.dom().finite() && base.dom().len() == upgrade_field_count() && fields
            == #[trigger] with_headers(base, pairs)
}

/// The number of configured headers that a new upgrade request surely has room for.
pub open spec fn header_room() -> nat {
    (field_room() - upgrade_field_count()) as nat
}

/// Why a connection to a target cannot be prepared, if it cannot: for the first
/// configured header that is not legal, else for the route.
pub open spec fn preparation_refusal(
    target: TargetView,
    pairs: Seq<HeaderPair>,
    proxy: Option<ProxyConfigurationView>,
) -> Option<BridgeErrorView> {
    match first_defect(pairs) {
        Some(i) => Some(header_error(pairs[i].0, header_defect(pairs[i])->0)),
        None => match route_for(target, proxy) {
            Err(error) => Some(error),
            Ok(_) => None,
        },
    }
}

/// Settles how a connection to a URL is opened: makes the upgrade request, sets the
/// configured headers on it, plans the route, fixes the limits and draws a handle.
///
/// What can go wrong is looked at in this order. A URL that makes no upgrade request is
/// refused by the protocol layer, with its reason. Then the first configured header that
/// is not legal is refused by name. Then a target without host, or without port, is
/// refused, and then a proxy whose credentials are too long to encode. Where none of
/// these holds the connection is prepared; only a list of more headers than an upgrade
/// request has room for may end in the request being too full instead.
pub fn prepare(
    url: &str,
    config: &Option<ConnectionConfig>,
    proxy: Option<&ProxyConfiguration>,
) -> (outcome: Result<Preparation, BridgeError>)
    ensures
        match upgrade_outcome(url@) {
            Err(fault) => outcome matches Err(error) && error@ == BridgeErrorView::Websocket(
                fault,
            ),
            Ok(target) => match outcome {
                Ok(prepared) => {
                    &&& preparation_refusal(
                        target,
                        configured_headers(*config),
                        proxy_view(proxy),
                    ) is None
                    &&& prepared.pump.stage() == Phase::Connecting
                    &&& carries(request_headers(prepared.request), configured_headers(*config))
                    &&& route_for(target, proxy_view(proxy)) == Ok::<RouteView, BridgeErrorView>(
                        prepared.route@,
                    )
                    &&& prepared.limits == configured_limits(*config)
                },
                Err(error) => {
                    ||| preparation_refusal(
                        target,
                        configured_headers(*config),
                        proxy_view(proxy),
                    ) == Some(error@)
                    ||| error@ == capacity_error() && attempted(configured_headers(*config))
                        > header_room()
                },
            },
        },
{
    let (request, target) = match upgrade_request(url) {
        Ok(made) => made,
        Err(error) => return Err(error),
    };
    let ghost base = request_headers(request);
    let request = match config {
        Some(ConnectionConfig { headers: Some(headers), .. }) => {
            match merge_headers(request, headers) {
                Ok(merged) => merged,
                Err(error) => return Err(error),
            }
        },
        _ => request,
    };
    assert(request_headers(request) == with_headers(base, configured_headers(*config)));
    let route = match plan_route(&target, proxy) {
        Ok(route) => route,
        Err(error) => return Err(error),
    };
    let limits = match config {
        Some(config) => Some(config.limits()),
        None => None,
    };
    Ok(Preparation { pump: Pump::drawn(), request, route, limits })
}

} // verus!
