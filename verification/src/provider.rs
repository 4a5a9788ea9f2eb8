//! The network registry: which networks are configured, and the connection
//! to use for a request.

use vstd::prelude::*;
use crate::abi::name_view;
use crate::config::{Config, NetworkConfig, NetworkConfigView};
use crate::error::{EngineError, ErrorKind, ErrorView};
use crate::text::views;
use crate::utils::{interpret_rpc_error, rpc_error_text};

verus! {

/// What the address parser says of a text that is no address of a service;
/// none for a text that is one.
pub uninterp spec fn url_failure(url: Seq<char>) -> Option<Seq<char>>;

/// `Url::parse`: none where `url` is the address of a service, else the
/// parser's message.
#[verifier::external_body]
fn check_url(url: &str) -> (r: Option<String>)
    ensures
        match r {
            Some(e) => url_failure(url@) == Some(e@),
            None => url_failure(url@) is None,
        },
{
    reqwest::Url::parse(url).err().map(|e| e.to_string())
}

/// The connection to use: the network's name and the address of its node
/// service.
#[derive(Debug)]
pub struct Connection {
    pub network: String,
    pub rpc_url: String,
}

impl Clone for Connection {
    fn clone(&self) -> (r: Self)
        ensures
            r.network@ == self.network@,
            r.rpc_url@ == self.rpc_url@,
    {
        Connection { network: self.network.clone(), rpc_url: self.rpc_url.clone() }
    }
}

/// What the parser says of the first of the `n` first networks whose address
/// is no address of a service.
pub open spec fn first_bad_url(
    names: Seq<Seq<char>>,
    url_of: spec_fn(Seq<char>) -> Seq<char>,
    n: nat,
) -> Option<Seq<char>>
    decreases n,
{
    if n == 0 || n > names.len() {
        None
    } else {
        match first_bad_url(names, url_of, (n - 1) as nat) {
            Some(e) => Some(e),
            None => url_failure(url_of(names[n - 1])),
        }
    }
}

/// The registry of the configured networks.
#[derive(Debug)]
pub struct ProviderManager {
    config: Config,
}

impl ProviderManager {
    /// The names of the configured networks, in their order.
    pub closed spec fn names(&self) -> Seq<Seq<char>> {
        self.config.networks.names()
    }

    /// The profile of the network named `name`.
    pub closed spec fn profile(&self, name: Seq<char>) -> Option<NetworkConfigView> {
        self.config.networks.profile(name)
    }

    /// The name of the default network.
    pub closed spec fn default_network(&self) -> Seq<char> {
        self.config.default_network@
    }

    /// The name that is meant: the given one, or the default network.
    pub open spec fn resolved_name(&self, network: Option<Seq<char>>) -> Seq<char> {
        match network {
            Some(n) => n,
            None => self.default_network(),
        }
    }

    /// A registry for the networks of `config`. Fails where the address of a
    /// network is no address of a service, with the parser's message for the
    /// first such network.
    pub fn new(config: Config) -> (r: Result<Self, EngineError>)
        ensures
            match first_bad_url(
                config.networks.names(),
                |name: Seq<char>| config.networks.profile(name)->0.rpc_url,
                config.networks.names().len(),
            ) {
                Some(e) => r is Err && r->Err_0@ == (ErrorView {
                    kind: ErrorKind::Configuration,
                    message: e,
                }),
                None => r is Ok && r->Ok_0.names() == config.networks.names() && r->Ok_0.default_network()
                    == config.default_network@ && forall|name: Seq<char>|
                    #![trigger r->Ok_0.profile(name)]
                    r->Ok_0.profile(name) == config.networks.profile(name),
            },
    {
        let ghost url_of = |name: Seq<char>| config.networks.profile(name)->0.rpc_url;
        let mut i: usize = 0;
        while i < config.networks.len()
            invariant
                i <= config.networks.names().len(),
                url_of == |name: Seq<char>| config.networks.profile(name)->0.rpc_url,
                first_bad_url(config.networks.names(), url_of, i as nat) is None,
            decreases config.networks.names().len() - i,
        {
            let entry = config.networks.entry(i);
            match check_url(entry.1.rpc_url.as_str()) {
                Some(e) => {
                    assert(first_bad_url(config.networks.names(), url_of, (i + 1) as nat) == Some(
                        e@,
                    ));
                    proof {
                        Self::bad_url_persists(
                            config.networks.names(),
                            url_of,
                            (i + 1) as nat,
                            config.networks.names().len(),
                        );
                    }
                    return Err(EngineError::new(ErrorKind::Configuration, e));
                },
                None => {},
            }
            i += 1;
        }
        Ok(ProviderManager { config })
    }

    proof fn bad_url_persists(
        names: Seq<Seq<char>>,
        url_of: spec_fn(Seq<char>) -> Seq<char>,
        n: nat,
        m: nat,
    )
        requires
            n <= m <= names.len(),
            first_bad_url(names, url_of, n) is Some,
        ensures
            first_bad_url(names, url_of, m) == first_bad_url(names, url_of, n),
        decreases m,
    {
        if n < m {
            Self::bad_url_persists(names, url_of, n, (m - 1) as nat);
        }
    }

    /// The connection for `network`, or for the default network where none is
    /// named. Fails where no network of that name is configured: the name is
    /// matched letter for letter, and no network is made up.
    pub fn get_provider(&self, network: Option<&str>) -> (r: Result<Connection, EngineError>)
        ensures
            match self.profile(self.resolved_name(name_view(network))) {
                Some(p) => r is Ok && r->Ok_0.network@ == self.resolved_name(name_view(network))
                    && r->Ok_0.rpc_url@ == p.rpc_url,
                None => r is Err && r->Err_0@ == (ErrorView {
                    kind: ErrorKind::UnknownNetwork,
                    message: "Network '"@ + self.resolved_name(name_view(network)) + "' not found"@,
                }),
            },
    {
        let name: &str = match network {
            Some(n) => n,
            None => self.config.default_network.as_str(),
        };
        match self.config.networks.get(name) {
            Some(p) => Ok(Connection { network: String::from_str(name), rpc_url: p.rpc_url.clone() }),
            None => {
                let mut m = String::from_str("Network '");
                m.append(name);
                m.append("' not found");
                Err(EngineError::new(ErrorKind::UnknownNetwork, m))
            },
        }
    }

    /// The profile of `network`, or of the default network where none is
    /// named.
    pub fn get_network_config(&self, network: Option<&str>) -> (r: Result<
        NetworkConfig,
        EngineError,
    >)
        ensures
            match self.profile(self.resolved_name(name_view(network))) {
                Some(p) => r is Ok && r->Ok_0@ == p,
                None => r is Err && r->Err_0@ == (ErrorView {
                    kind: ErrorKind::UnknownNetwork,
                    message: "Network '"@ + self.resolved_name(name_view(network)) + "' not configured"@,
                }),
            },
    {
        let name: &str = match network {
            Some(n) => n,
            None => self.config.default_network.as_str(),
        };
        match self.config.networks.get(name) {
            Some(p) => Ok(p.clone()),
            None => {
                let mut m = String::from_str("Network '");
                m.append(name);
                m.append("' not configured");
                Err(EngineError::new(ErrorKind::UnknownNetwork, m))
            },
        }
    }

    /// The name of the default network.
    pub fn default_network_name(&self) -> (r: String)
        ensures
            r@ == self.default_network(),
    {
        self.config.default_network.clone()
    }

    /// The names of the configured networks.
    pub fn list_networks(&self) -> (r: Vec<String>)
        ensures
            views(r@) == self.names(),
    {
        self.config.networks.names_list()
    }

    /// The names of the configured networks.
    pub fn get_available_networks(&self) -> (r: Vec<String>)
        ensures
            views(r@) == self.names(),
    {
        self.config.networks.names_list()
    }

    /// The connection whose liveness is to be probed for `network`.
    pub fn check_connection(&self, network: Option<&str>) -> (r: Result<Connection, EngineError>)
        ensures
            match self.profile(self.resolved_name(name_view(network))) {
                Some(p) => r is Ok && r->Ok_0.network@ == self.resolved_name(name_view(network))
                    && r->Ok_0.rpc_url@ == p.rpc_url,
                None => r is Err && r->Err_0@ == (ErrorView {
                    kind: ErrorKind::UnknownNetwork,
                    message: "Failed to get provider for connection check: Network '"@
                        + self.resolved_name(name_view(network)) + "' not found"@,
                }),
            },
    {
        match self.get_provider(network) {
            Ok(c) => Ok(c),
            Err(e) => {
                let r = e.context("Failed to get provider for connection check: ");
                proof {
                    assert(r@.message =~= "Failed to get provider for connection check: Network '"@
                        + self.resolved_name(name_view(network)) + "' not found"@) by {
                        reveal_strlit("Failed to get provider for connection check: ");
                        reveal_strlit("Network '");
                        reveal_strlit("Failed to get provider for connection check: Network '");
                    }
                }
                Err(r)
            },
        }
    }

    /// Whether the probed network is alive: the probe gave the current block
    /// height.
    pub fn connection_alive(probe: &Result<u64, String>) -> (r: bool)
        ensures
            r == probe is Ok,
    {
        probe.is_ok()
    }

    /// What the liveness probe of `network` shows: nothing where it gave the
    /// current block height, else the failure in prose.
    pub fn validate_network_connection(&self, network: Option<&str>, probe: &Result<u64, String>) -> (r:
        Result<(), EngineError>)
        ensures
            match probe {
                Ok(_) => r is Ok,
                Err(e) => r is Err && r->Err_0@ == (ErrorView {
                    kind: ErrorKind::NetworkAction,
                    message: "Cannot connect to network '"@ + self.resolved_name(name_view(network)) + "': "@
                        + rpc_error_text(e@)
                        + ". Please check your RPC endpoint configuration and network connectivity."@,
                }),
            },
    {
        let name: &str = match network {
            Some(n) => n,
            None => self.config.default_network.as_str(),
        };
        match probe {
            Ok(_) => Ok(()),
            Err(e) => {
                let mut m = String::from_str("Cannot connect to network '");
                m.append(name);
                m.append("': ");
                m.append(interpret_rpc_error(e.as_str()).as_str());
                m.append(
                    ". Please check your RPC endpoint configuration and network connectivity.",
                );
                Err(EngineError::new(ErrorKind::NetworkAction, m))
            },
        }
    }

    /// The chain identifier of `network` as its node service reported it in
    /// `reply`. Fails where the network is not configured, or with the
    /// service's failure.
    pub fn get_chain_id(&self, network: Option<&str>, reply: Result<u64, String>) -> (r: Result<
        u64,
        EngineError,
    >)
        ensures
            match self.profile(self.resolved_name(name_view(network))) {
                Some(p) => match reply {
                    Ok(id) => r is Ok && r->Ok_0 == id,
                    Err(e) => r is Err && r->Err_0@ == (ErrorView {
                        kind: ErrorKind::NetworkAction,
                        message: e@,
                    }),
                },
                None => r is Err && r->Err_0@ == (ErrorView {
                    kind: ErrorKind::UnknownNetwork,
                    message: "Network '"@ + self.resolved_name(name_view(network)) + "' not found"@,
                }),
            },
    {
        match self.get_provider(network) {
            Err(e) => Err(e),
            Ok(_) => match reply {
                Ok(id) => Ok(id),
                Err(e) => Err(EngineError::new(ErrorKind::NetworkAction, e)),
            },
        }
    }
}

} // verus!
