//! What the node is configured with before it starts.

use crate::fault::ConfigError;
use crate::nat64::{valid_prefix_length, AddressPrefix};
use crate::selector::AddressRule;
use crate::session::{
    copy_text, first_step, text_of, BrokerHost, Credentials, CredentialsView, PublishSession,
    SessionAction,
};
use vstd::prelude::*;

verus! {

/// The port on which a broker listens where the configuration names none.
pub const DEFAULT_MQTT_PORT: u16 = 1883;

/// The configuration of the node. A loader outside this library fills it.
#[derive(Clone, Debug, PartialEq, Eq)]
pub struct Config {
    /// The operational dataset of the mesh, as hexadecimal text.
    pub thread_dataset: String,
    /// The broker, by name or by IPv4 address.
    pub mqtt_host: BrokerHost,
    pub mqtt_port: u16,
    /// The user name for the broker, where it asks for one.
    pub mqtt_username: Option<String>,
    /// The password for the broker, where it asks for one.
    pub mqtt_password: Option<String>,
    pub mqtt_client_id: String,
    /// The prefix under which the mesh reaches IPv4 hosts.
    pub nat64_prefix: [u8; 16],
    /// The length of that prefix in bits.
    pub nat64_prefix_len: u8,
    /// The rule by which the node picks the address it binds.
    pub address_rule: AddressRule,
}

impl Config {
    /// What the configuration tells the node to present to the broker.
    pub open spec fn spec_credentials(&self) -> CredentialsView {
        CredentialsView {
            client_id: self.mqtt_client_id@,
            username: text_of(self.mqtt_username),
            password: text_of(self.mqtt_password),
        }
    }

    /// What the node presents to the broker.
    pub fn credentials(&self) -> (credentials: Credentials)
        ensures
            credentials@ == self.spec_credentials(),
    {
        Credentials {
            client_id: self.mqtt_client_id.clone(),
            username: copy_text(&self.mqtt_username),
            password: copy_text(&self.mqtt_password),
        }
    }

    /// The configured prefix, or the error that its length is.
    pub fn prefix(&self) -> (made: Result<AddressPrefix, ConfigError>)
        ensures
            match made {
                Ok(prefix) => valid_prefix_length(self.nat64_prefix_len) && prefix.spec_address()
                    == self.nat64_prefix@ && prefix.spec_length() == self.nat64_prefix_len,
                Err(error) => !valid_prefix_length(self.nat64_prefix_len) && error
                    == ConfigError::InvalidPrefixLength(self.nat64_prefix_len),
            },
    {
        AddressPrefix::new(self.nat64_prefix, self.nat64_prefix_len)
    }

    /// Starts a session that publishes `reading` to the configured broker,
    /// with its first step, or fails on a prefix length that is not valid.
    pub fn open_session(&self, reading: u32) -> (opened: Result<
        (PublishSession, SessionAction),
        ConfigError,
    >)
        ensures
            match opened {
                Ok(started) => valid_prefix_length(self.nat64_prefix_len)
                    && started.0.spec_prefix().spec_address() == self.nat64_prefix@
                    && started.0.spec_prefix().spec_length() == self.nat64_prefix_len
                    && started.0.spec_port() == self.mqtt_port && started.0.spec_credentials()
                    == self.spec_credentials() && started.0.spec_reading() == reading && (
                    started.0.spec_phase(),
                    started.1@,
                ) == first_step(
                    self.mqtt_host,
                    started.0.spec_prefix(),
                    self.mqtt_port,
                ),
                Err(error) => !valid_prefix_length(self.nat64_prefix_len) && error
                    == ConfigError::InvalidPrefixLength(self.nat64_prefix_len),
            },
    {
        match self.prefix() {
            Ok(prefix) => Ok(
                PublishSession::begin(
                    &self.mqtt_host,
                    prefix,
                    self.mqtt_port,
                    self.credentials(),
                    reading,
                ),
            ),
            Err(error) => Err(error),
        }
    }
}

} // verus!
