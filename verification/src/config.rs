//! Node roles and the runtime configuration.

use crate::chain::{ChainDescriptor, ChainDescriptorView};
use crate::error::{ConfigError, ConfigErrorView};
use crate::outcome::result_view;
use vstd::prelude::*;

verus! {

/// What a node does in its network.
#[derive(Clone, Copy, Debug, PartialEq, Eq, Structural)]
pub enum Role {
    /// Keeps the whole state and serves it to others.
    Full,
    /// Follows the chain without keeping its state, and asks peers for the rest.
    Light,
    /// A full node that also takes part in producing blocks.
    Authority,
}

impl Role {
    /// The name under which a role appears in diagnostics.
    pub open spec fn spec_name(self) -> Seq<char> {
        match self {
            Role::Full => "FULL"@,
            Role::Light => "LIGHT"@,
            Role::Authority => "AUTHORITY"@,
        }
    }

    pub fn name(self) -> (text: &'static str)
        ensures
            text@ == self.spec_name(),
    {
        match self {
            Role::Full => "FULL",
            Role::Light => "LIGHT",
            Role::Authority => "AUTHORITY",
        }
    }
}

/// What the configuration builder settles for the node that is to run a
/// chain.
#[derive(Debug, PartialEq, Eq)]
pub struct NodeSettings {
    /// The name under which the node shows itself.
    pub node_name: String,
    /// The version of the node's implementation.
    pub version: String,
    pub role: Role,
}

pub struct NodeSettingsView {
    pub node_name: Seq<char>,
    pub version: Seq<char>,
    pub role: Role,
}

impl View for NodeSettings {
    type V = NodeSettingsView;

    open spec fn view(&self) -> NodeSettingsView {
        NodeSettingsView { node_name: self.node_name@, version: self.version@, role: self.role }
    }
}

/// A chain together with the settings of the node that is to run it.
///
/// The role of a runtime configuration is light client: no value of this
/// type has another one.
#[derive(Debug, PartialEq, Eq)]
pub struct RuntimeConfiguration {
    chain: ChainDescriptor,
    node_name: String,
    version: String,
    role: Role,
}

pub struct RuntimeConfigurationView {
    pub chain: ChainDescriptorView,
    pub node_name: Seq<char>,
    pub version: Seq<char>,
    pub role: Role,
}

impl View for RuntimeConfiguration {
    type V = RuntimeConfigurationView;

    closed spec fn view(&self) -> RuntimeConfigurationView {
        RuntimeConfigurationView {
            chain: self.chain@,
            node_name: self.node_name@,
            version: self.version@,
            role: self.role,
        }
    }
}

impl RuntimeConfiguration {
    /// What holds of every runtime configuration: the node is a light client.
    #[verifier::type_invariant]
    pub open spec fn is_light_client(&self) -> bool {
        self@.role == Role::Light
    }

    pub fn chain(&self) -> (chain: &ChainDescriptor)
        ensures
            chain@ == self@.chain,
    {
        &self.chain
    }

    pub fn node_name(&self) -> (name: &str)
        ensures
            name@ == self@.node_name,
    {
        self.node_name.as_str()
    }

    pub fn version(&self) -> (version: &str)
        ensures
            version@ == self@.version,
    {
        self.version.as_str()
    }

    /// The role of the node: always light client.
    pub fn role(&self) -> (role: Role)
        ensures
            role == self@.role,
            role == Role::Light,
    {
        proof {
            use_type_invariant(self);
        }
        self.role
    }
}

/// The configuration that comes of a chain and of what the builder reported:
/// its failure, or the settings it arrived at.
pub open spec fn configured(
    chain: ChainDescriptorView,
    built: Result<NodeSettingsView, Seq<char>>,
) -> Result<RuntimeConfigurationView, ConfigErrorView> {
    match built {
        Err(reason) => Err(ConfigErrorView::Refused { reason }),
        Ok(settings) => if settings.role == Role::Light {
            Ok(
                RuntimeConfigurationView {
                    chain,
                    node_name: settings.node_name,
                    version: settings.version,
                    role: settings.role,
                },
            )
        } else {
            Err(ConfigErrorView::UnsupportedRole { role: settings.role })
        },
    }
}

/// Puts a chain and the builder's outcome together into a runtime
/// configuration.
///
/// A failure of the builder is passed on as [`ConfigError::Refused`].
/// Settings with another role than light client are refused: a configuration
/// that this function hands out is one of a light client, with the chain and
/// the settings as they were given.
pub fn build_configuration(chain: ChainDescriptor, built: Result<NodeSettings, String>) -> (outcome:
    Result<RuntimeConfiguration, ConfigError>)
    ensures
        match configured(chain@, result_view(built)) {
            Ok(expected) => outcome matches Ok(config) && config@ == expected,
            Err(expected) => outcome matches Err(error) && error@ == expected,
        },
        outcome matches Ok(config) ==> config@.role == Role::Light,
{
    match built {
        Err(reason) => Err(ConfigError::Refused { reason }),
        Ok(settings) => {
            let NodeSettings { node_name, version, role } = settings;
            match role {
                Role::Light => Ok(RuntimeConfiguration { chain, node_name, version, role }),
                Role::Full | Role::Authority => Err(ConfigError::UnsupportedRole { role }),
            }
        },
    }
}

/// Whatever the builder reports for whatever chain, a configuration that
/// comes of it has the role of a light client.
pub proof fn law_configuration_is_light(
    chain: ChainDescriptorView,
    built: Result<NodeSettingsView, Seq<char>>,
)
    ensures
        configured(chain, built) matches Ok(config) ==> config.role == Role::Light,
{
}

} // verus!
