//! Settings for the client that fetches the cluster metadata.

use vstd::prelude::*;
use rdkafka::config::ClientConfig;

verus! {

/// The client configuration of `rdkafka`, which Verus does not look into.
#[verifier::external_type_specification]
#[verifier::external_body]
pub struct ExClientConfig(rdkafka::config::ClientConfig);

/// The parameters that a client configuration holds, each name with its
/// value.
pub uninterp spec fn config_parameters(config: ClientConfig) -> Map<Seq<char>, Seq<char>>;

/// The parameters of a configuration that holds none.
pub open spec fn no_parameters() -> Map<Seq<char>, Seq<char>> {
    Map::empty()
}

/// `ClientConfig::new` of `rdkafka`: the configuration it returns holds no
/// parameter. Believed, not proved.
pub assume_specification[ ClientConfig::new ]() -> (config: ClientConfig)
    ensures
        config_parameters(config) == no_parameters(),
;

/// `ClientConfig::set` of `rdkafka`: afterwards the configuration holds
/// `value` under `name`, in place of what it held under that name before,
/// and every other parameter as before. Believed, not proved.
#[verifier::external_body]
fn set_parameter(config: &mut ClientConfig, name: &str, value: &str)
    ensures
        config_parameters(*final(config)) == config_parameters(*old(config)).insert(name@, value@),
{
    config.set(name, value);
}

/// Name of the setting that lists the brokers to contact first.
pub const BOOTSTRAP_SERVERS: &'static str = "bootstrap.servers";

/// Name of the setting that selects the security protocol.
pub const SECURITY_PROTOCOL: &'static str = "security.protocol";

/// Name of the setting that holds the SASL user name.
pub const SASL_USERNAME: &'static str = "sasl.username";

/// Name of the setting that holds the SASL password.
pub const SASL_PASSWORD: &'static str = "sasl.password";

/// Longest time, in seconds, that one metadata fetch may take.
pub const METADATA_TIMEOUT_SECS: u64 = 30;

/// Why a configuration cannot be used.
#[derive(Clone, Copy, Debug, PartialEq, Eq, Structural)]
pub enum InvalidConfiguration {
    /// No broker list was given.
    MissingBootstrapServers,
    /// No security protocol was given.
    MissingSecurityProtocol,
    /// A user name was given without a password, or a password without a
    /// user name.
    IncompleteCredentials,
}

/// Model of a user name with its password.
pub struct CredentialsView {
    pub username: Seq<char>,
    pub password: Seq<char>,
}

/// Model of the settings of a client.
pub struct SettingsView {
    pub bootstrap_servers: Seq<char>,
    pub security_protocol: Seq<char>,
    pub credentials: Option<CredentialsView>,
}

impl SettingsView {
    /// The parameters that the settings amount to: the broker list and the
    /// protocol, and the user name and the password if there are
    /// credentials.
    pub open spec fn parameters(self) -> Map<Seq<char>, Seq<char>> {
        let connection = no_parameters().insert(BOOTSTRAP_SERVERS@, self.bootstrap_servers).insert(
            SECURITY_PROTOCOL@,
            self.security_protocol,
        );
        match self.credentials {
            Some(credentials) => connection.insert(SASL_USERNAME@, credentials.username).insert(
                SASL_PASSWORD@,
                credentials.password,
            ),
            None => connection,
        }
    }
}

/// What four optional arguments amount to: the settings they describe, or
/// the first thing that is wrong with them. A missing broker list is
/// reported before a missing protocol, and that before credentials of
/// which only one half is there.
pub open spec fn settings_from(
    bootstrap_servers: Option<Seq<char>>,
    security_protocol: Option<Seq<char>>,
    username: Option<Seq<char>>,
    password: Option<Seq<char>>,
) -> Result<SettingsView, InvalidConfiguration> {
    if bootstrap_servers is None {
        Err(InvalidConfiguration::MissingBootstrapServers)
    } else if security_protocol is None {
        Err(InvalidConfiguration::MissingSecurityProtocol)
    } else if username is Some != password is Some {
        Err(InvalidConfiguration::IncompleteCredentials)
    } else {
        Ok(
            SettingsView {
                bootstrap_servers: bootstrap_servers->0,
                security_protocol: security_protocol->0,
                credentials: if username is Some {
                    Some(CredentialsView { username: username->0, password: password->0 })
                } else {
                    None
                },
            },
        )
    }
}

/// The text of an optional string.
pub open spec fn text_of(value: Option<String>) -> Option<Seq<char>> {
    match value {
        Some(s) => Some(s@),
        None => None,
    }
}

/// A user name with its password.
#[derive(Debug, PartialEq, Eq)]
pub struct Credentials {
    pub username: String,
    pub password: String,
}

impl Clone for Credentials {
    fn clone(&self) -> (copy: Self)
        ensures
            copy@ == self@,
    {
        Credentials { username: self.username.clone(), password: self.password.clone() }
    }
}

impl View for Credentials {
    type V = CredentialsView;

    open spec fn view(&self) -> CredentialsView {
        CredentialsView { username: self.username@, password: self.password@ }
    }
}

/// Settings that a client can be created from.
#[derive(Debug, PartialEq, Eq)]
pub struct ClientSettings {
    pub bootstrap_servers: String,
    pub security_protocol: String,
    pub credentials: Option<Credentials>,
}

impl Clone for ClientSettings {
    fn clone(&self) -> (copy: Self)
        ensures
            copy@ == self@,
    {
        ClientSettings {
            bootstrap_servers: self.bootstrap_servers.clone(),
            security_protocol: self.security_protocol.clone(),
            credentials: match &self.credentials {
                Some(credentials) => Some(credentials.clone()),
                None => None,
            },
        }
    }
}

impl View for ClientSettings {
    type V = SettingsView;

    open spec fn view(&self) -> SettingsView {
        SettingsView {
            bootstrap_servers: self.bootstrap_servers@,
            security_protocol: self.security_protocol@,
            credentials: match self.credentials {
                Some(credentials) => Some(credentials@),
                None => None,
            },
        }
    }
}

/// The model of the outcome of a check: the model of the settings, or the
/// reason for which there are none.
pub open spec fn checked_view(
    checked: Result<ClientSettings, InvalidConfiguration>,
) -> Result<SettingsView, InvalidConfiguration> {
    match checked {
        Ok(settings) => Ok(settings@),
        Err(reason) => Err(reason),
    }
}

impl ClientSettings {
    /// Checks the arguments and builds the settings from them.
    ///
    /// Fails when the broker list or the protocol is missing, or when only
    /// one of user name and password is given.
    pub fn new(
        bootstrap_servers: Option<String>,
        security_protocol: Option<String>,
        username: Option<String>,
        password: Option<String>,
    ) -> (checked: Result<ClientSettings, InvalidConfiguration>)
        ensures
            checked_view(checked) == settings_from(
                text_of(bootstrap_servers),
                text_of(security_protocol),
                text_of(username),
                text_of(password),
            ),
    {
        let bootstrap_servers = match bootstrap_servers {
            Some(servers) => servers,
            None => { return Err(InvalidConfiguration::MissingBootstrapServers); },
        };
        let security_protocol = match security_protocol {
            Some(protocol) => protocol,
            None => { return Err(InvalidConfiguration::MissingSecurityProtocol); },
        };
        let credentials = match (username, password) {
            (None, None) => None,
            (Some(username), Some(password)) => Some(Credentials { username, password }),
            _ => { return Err(InvalidConfiguration::IncompleteCredentials); },
        };
        Ok(ClientSettings { bootstrap_servers, security_protocol, credentials })
    }

    /// The client configuration that holds the parameters of the settings
    /// and no others.
    pub fn client_config(&self) -> (config: ClientConfig)
        ensures
            config_parameters(config) == self@.parameters(),
    {
        let mut config = ClientConfig::new();
        set_parameter(&mut config, BOOTSTRAP_SERVERS, self.bootstrap_servers.as_str());
        set_parameter(&mut config, SECURITY_PROTOCOL, self.security_protocol.as_str());
        match &self.credentials {
            Some(credentials) => {
                set_parameter(&mut config, SASL_USERNAME, credentials.username.as_str());
                set_parameter(&mut config, SASL_PASSWORD, credentials.password.as_str());
            },
            None => {},
        }
        config
    }
}

} // verus!
