use vstd::prelude::*;
use crate::proxy::{ProxyConfiguration, ProxyConfigurationView};

verus! {

/// `tokio_tungstenite::Connector`, carried through unopened.
#[verifier::external_type_specification]
#[verifier::external_body]
pub struct ExConnector(tokio_tungstenite::Connector);

/// `Clone::clone` of `tokio_tungstenite::Connector`. Nothing is believed of the copy.
pub assume_specification[ <tokio_tungstenite::Connector as std::clone::Clone>::clone ](
    connector: &tokio_tungstenite::Connector,
) -> tokio_tungstenite::Connector
;

/// The settings that every new connection is opened under: how TLS is done, and the
/// proxy to go through. Either may be left unset.
pub struct Settings {
    pub tls_connector: Option<tokio_tungstenite::Connector>,
    pub proxy_configuration: Option<ProxyConfiguration>,
}

pub struct SettingsView {
    pub tls_connector: Option<tokio_tungstenite::Connector>,
    pub proxy_configuration: Option<ProxyConfigurationView>,
}

impl View for Settings {
    type V = SettingsView;

    open spec fn view(&self) -> SettingsView {
        SettingsView {
            tls_connector: self.tls_connector,
            proxy_configuration: match self.proxy_configuration {
                Some(proxy) => Some(proxy@),
                None => None,
            },
        }
    }
}

impl Clone for Settings {
    /// A snapshot of the settings: the same proxy, and a TLS setting where there is one.
    fn clone(&self) -> (copy: Self)
        ensures
            copy@.proxy_configuration == self@.proxy_configuration,
            copy@.tls_connector is Some <==> self@.tls_connector is Some,
    {
        Settings {
            tls_connector: match &self.tls_connector {
                Some(connector) => Some(connector.clone()),
                None => None,
            },
            proxy_configuration: match &self.proxy_configuration {
                Some(proxy) => Some(proxy.clone()),
                None => None,
            },
        }
    }
}

/// Puts the settings together, one at a time.
pub struct Builder {
    tls_connector: Option<tokio_tungstenite::Connector>,
    proxy_configuration: Option<ProxyConfiguration>,
}

impl Builder {
    /// The settings gathered so far.
    pub closed spec fn settings(self) -> Settings {
        Settings {
            tls_connector: self.tls_connector,
            proxy_configuration: self.proxy_configuration,
        }
    }

    /// A builder with nothing set.
    pub fn new() -> (builder: Self)
        ensures
            builder.settings().tls_connector is None,
            builder.settings().proxy_configuration is None,
    {
        Self { tls_connector: None, proxy_configuration: None }
    }

    /// Sets how TLS is done, in place of whatever was set.
    pub fn tls_connector(self, connector: tokio_tungstenite::Connector) -> (builder: Self)
        ensures
            builder.settings().tls_connector == Some(connector),
            builder.settings().proxy_configuration == self.settings().proxy_configuration,
    {
        let mut builder = self;
        builder.tls_connector = Some(connector);
        builder
    }

    /// Sets the proxy, in place of whatever was set.
    pub fn proxy_configuration(self, proxy_configuration: ProxyConfiguration) -> (builder: Self)
        ensures
            builder.settings().proxy_configuration == Some(proxy_configuration),
            builder.settings().tls_connector == self.settings().tls_connector,
    {
        let mut builder = self;
        builder.proxy_configuration = Some(proxy_configuration);
        builder
    }

    /// The settings as gathered.
    pub fn build(self) -> (settings: Settings)
        ensures
            settings == self.settings(),
    {
        Settings {
            tls_connector: self.tls_connector,
            proxy_configuration: self.proxy_configuration,
        }
    }
}

impl Default for Builder {
    fn default() -> (builder: Self)
        ensures
            builder.settings().tls_connector is None,
            builder.settings().proxy_configuration is None,
    {
        Builder::new()
    }
}

/// The settings to start with: nothing set.
pub fn init() -> (settings: Settings)
    ensures
        settings.tls_connector is None,
        settings.proxy_configuration is None,
{
    Builder::new().build()
}

/// Replaces the proxy setting, for the connections opened from now on. The TLS setting
/// stays.
pub fn reconfigure_proxy(settings: &mut Settings, proxy_config: Option<ProxyConfiguration>)
    ensures
        final(settings).proxy_configuration == proxy_config,
        final(settings).tls_connector == old(settings).tls_connector,
{
    settings.proxy_configuration = proxy_config;
}

/// Replaces the TLS setting, for the connections opened from now on. The proxy setting
/// stays.
pub fn reconfigure_tls_connector(
    settings: &mut Settings,
    tls_connector: Option<tokio_tungstenite::Connector>,
)
    ensures
        final(settings).tls_connector == tls_connector,
        final(settings).proxy_configuration == old(settings).proxy_configuration,
{
    settings.tls_connector = tls_connector;
}

} // verus!
