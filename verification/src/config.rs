//! Forward targets and proxy configurations.
//!
//! A configuration is a message: it is made by whoever operates the proxy,
//! handed to the supervisor once and then dropped. The only rule on it is that
//! a proxy may not forward to the very port it listens on.

use crate::text::{append_decimal, decimal};
use vstd::prelude::*;
use vstd::string::StringExecFns;

verus! {

/// The host name under which the loopback interface is known.
pub open spec fn loopback_host() -> Seq<char> {
    "localhost"@
}

/// The text with which a configuration that forwards to its own listening
/// port is turned down.
pub open spec fn rejection_message() -> Seq<char> {
    "Cannot forward to listening port"@
}

/// What a forward target is: a host name and a port.
pub struct TargetView {
    pub host: Seq<char>,
    pub port: u16,
}

/// What a configuration is: the proxy is off, or it listens on a loopback
/// port and forwards to a target.
pub enum ConfigView {
    Disabled,
    Enabled { listen_port: u16, target: TargetView },
}

impl TargetView {
    /// The target is reached through the loopback host name.
    pub open spec fn is_loopback(self) -> bool {
        self.host == loopback_host()
    }

    /// The text under which the target is dialled: the host, a colon and the
    /// port in decimal notation.
    pub open spec fn address(self) -> Seq<char> {
        self.host + seq![':'] + decimal(self.port as nat)
    }
}

impl ConfigView {
    /// The configuration would make the proxy forward to the port it listens
    /// on.
    pub open spec fn forwards_to_itself(self) -> bool {
        self matches ConfigView::Enabled { listen_port, target }
            && target.is_loopback() && target.port == listen_port
    }

    /// The one rule on a configuration.
    pub open spec fn is_valid(self) -> bool {
        !self.forwards_to_itself()
    }
}

/// The remote end that traffic is forwarded to.
#[derive(Debug, PartialEq)]
pub struct ForwardTarget {
    pub domain: String,
    pub port: u16,
}

impl View for ForwardTarget {
    type V = TargetView;

    open spec fn view(&self) -> TargetView {
        TargetView { host: self.domain@, port: self.port }
    }
}

impl Clone for ForwardTarget {
    fn clone(&self) -> (copy: Self)
        ensures
            copy == *self,
    {
        ForwardTarget { domain: self.domain.clone(), port: self.port }
    }
}

impl Default for ForwardTarget {
    /// Port 0 on the loopback host.
    fn default() -> (target: Self)
        ensures
            target@ == (TargetView { host: loopback_host(), port: 0 }),
    {
        ForwardTarget { domain: "localhost".to_owned(), port: 0 }
    }
}

impl ForwardTarget {
    /// True iff the host is anything but the loopback host name.
    pub fn is_external(&self) -> (external: bool)
        ensures
            external == !self@.is_loopback(),
    {
        let loopback = "localhost".to_owned();
        !(self.domain == loopback)
    }

    /// The text under which the target is dialled, such as
    /// `localhost:9100`.
    pub fn address(&self) -> (text: String)
        ensures
            text@ == self@.address(),
    {
        let mut text = self.domain.clone();
        proof {
            reveal_strlit(":");
        }
        text.append(":");
        assert(text@ =~= self@.host + seq![':']);
        append_decimal(&mut text, self.port);
        text
    }
}

/// A configuration update for a proxy that relays raw bytes: `None` switches
/// the proxy off, `Some((listen_port, target))` switches it on.
#[derive(Debug, PartialEq)]
pub struct ProxyConfig(pub Option<(u16, ForwardTarget)>);

impl View for ProxyConfig {
    type V = ConfigView;

    open spec fn view(&self) -> ConfigView {
        match self.0 {
            None => ConfigView::Disabled,
            Some((listen_port, target)) => ConfigView::Enabled { listen_port, target: target@ },
        }
    }
}

impl Clone for ProxyConfig {
    fn clone(&self) -> (copy: Self)
        ensures
            copy == *self,
    {
        match &self.0 {
            Some((listen_port, target)) => ProxyConfig(Some((*listen_port, target.clone()))),
            None => ProxyConfig(None),
        }
    }
}

impl Default for ProxyConfig {
    /// The proxy is off.
    fn default() -> (config: Self)
        ensures
            config@ == ConfigView::Disabled,
    {
        ProxyConfig(None)
    }
}

impl ProxyConfig {
    pub fn is_off(&self) -> (off: bool)
        ensures
            off == (self@ is Disabled),
    {
        self.0.is_none()
    }

    pub fn is_on(&self) -> (on: bool)
        ensures
            on == (self@ is Enabled),
    {
        self.0.is_some()
    }

    /// The port to listen on, if the proxy is to be on.
    pub fn listen_port(&self) -> (port: Option<u16>)
        ensures
            match self@ {
                ConfigView::Disabled => port is None,
                ConfigView::Enabled { listen_port, .. } => port == Some(listen_port),
            },
    {
        match &self.0 {
            Some((listen_port, _)) => Some(*listen_port),
            None => None,
        }
    }

    /// The target to forward to, if the proxy is to be on.
    pub fn forward_port(&self) -> (forward: Option<ForwardTarget>)
        ensures
            match self@ {
                ConfigView::Disabled => forward is None,
                ConfigView::Enabled { target, .. } => forward is Some && forward->0@ == target,
            },
    {
        match &self.0 {
            Some((_, target)) => Some(target.clone()),
            None => None,
        }
    }

    /// Turns down exactly the configurations that forward to the port they
    /// listen on, through the loopback host. A target on another host is
    /// accepted whatever its port.
    pub fn validate(&self) -> (verdict: Result<(), String>)
        ensures
            verdict is Ok <==> self@.is_valid(),
            verdict is Err ==> verdict->Err_0@ == rejection_message(),
    {
        match &self.0 {
            Some((listen_port, target)) => {
                if !target.is_external() && target.port == *listen_port {
                    Err("Cannot forward to listening port".to_owned())
                } else {
                    Ok(())
                }
            },
            None => Ok(()),
        }
    }
}

/// A configuration update for a proxy that relays HTTP exchanges to a port of
/// this machine: `None` switches the proxy off, `Some((listen_port,
/// forward_port))` switches it on.
#[derive(Debug, PartialEq, Eq, Clone, Copy)]
pub struct BackEndConfig(pub Option<(u16, u16)>);

impl View for BackEndConfig {
    type V = ConfigView;

    /// The target of such a configuration is always on the loopback host.
    open spec fn view(&self) -> ConfigView {
        match self.0 {
            None => ConfigView::Disabled,
            Some((listen_port, forward_port)) => ConfigView::Enabled {
                listen_port,
                target: TargetView { host: loopback_host(), port: forward_port },
            },
        }
    }
}

impl Default for BackEndConfig {
    /// The proxy is off.
    fn default() -> (config: Self)
        ensures
            config@ == ConfigView::Disabled,
    {
        BackEndConfig(None)
    }
}

impl BackEndConfig {
    pub fn off(&self) -> (off: bool)
        ensures
            off == (self@ is Disabled),
    {
        self.0.is_none()
    }

    pub fn on(&self) -> (on: bool)
        ensures
            on == (self@ is Enabled),
    {
        self.0.is_some()
    }

    /// The port to listen on, if the proxy is to be on.
    pub fn listen_port(&self) -> (port: Option<u16>)
        ensures
            match self@ {
                ConfigView::Disabled => port is None,
                ConfigView::Enabled { listen_port, .. } => port == Some(listen_port),
            },
    {
        match self.0 {
            Some((listen_port, _)) => Some(listen_port),
            None => None,
        }
    }

    /// The loopback port to forward to, if the proxy is to be on.
    pub fn forward_port(&self) -> (port: Option<u16>)
        ensures
            match self@ {
                ConfigView::Disabled => port is None,
                ConfigView::Enabled { target, .. } => port == Some(target.port),
            },
    {
        match self.0 {
            Some((_, forward_port)) => Some(forward_port),
            None => None,
        }
    }

    /// Turns down exactly the configurations whose two ports are equal.
    pub fn validate(&self) -> (verdict: Result<(), String>)
        ensures
            verdict is Ok <==> self@.is_valid(),
            verdict is Err ==> verdict->Err_0@ == rejection_message(),
    {
        match self.0 {
            Some((listen_port, forward_port)) => {
                if forward_port == listen_port {
                    Err("Cannot forward to listening port".to_owned())
                } else {
                    Ok(())
                }
            },
            None => Ok(()),
        }
    }

    /// The same update, with the loopback host written out.
    pub fn to_proxy_config(&self) -> (config: ProxyConfig)
        ensures
            config@ == self@,
    {
        match self.0 {
            Some((listen_port, forward_port)) => ProxyConfig(
                Some((listen_port, ForwardTarget { domain: "localhost".to_owned(), port: forward_port })),
            ),
            None => ProxyConfig(None),
        }
    }
}

/// A target on any host but the loopback host makes a valid configuration
/// with every listening port, the target's own port included.
pub proof fn lemma_external_target_is_valid(listen_port: u16, target: TargetView)
    requires
        !target.is_loopback(),
    ensures
        (ConfigView::Enabled { listen_port, target }).is_valid(),
{
}

/// A configuration is turned down if and only if it is on, its target is on
/// the loopback host and its two ports are equal.
pub proof fn lemma_invalid_iff_loopback_same_port(config: ConfigView)
    ensures
        !config.is_valid() <==> (config is Enabled && config->target.host == loopback_host()
            && config->target.port == config->listen_port),
{
}

} // verus!
