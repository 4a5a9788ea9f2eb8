//! Process configuration: the connection profile of each named network, the
//! default network, and the security and server settings.

use vstd::prelude::*;
use crate::text::{
    chars_contain_str, chars_eq, contains, replace_all, replaced, to_chars, views,
};

verus! {

/// The gas policy of a network.
#[derive(Clone, Copy, Debug, PartialEq, Eq, Structural)]
pub struct GasConfig {
    pub default_gas_limit: u64,
    pub max_gas_price: Option<u64>,
    pub priority_fee: Option<u64>,
}

/// The connection profile of a network.
#[derive(Debug)]
pub struct NetworkConfig {
    pub rpc_url: String,
    pub chain_id: u64,
    pub explorer_url: Option<String>,
    pub gas: GasConfig,
}

/// What a [`NetworkConfig`] holds, as mathematical values.
pub struct NetworkConfigView {
    pub rpc_url: Seq<char>,
    pub chain_id: u64,
    pub explorer_url: Option<Seq<char>>,
    pub gas: GasConfig,
}

impl View for NetworkConfig {
    type V = NetworkConfigView;

    open spec fn view(&self) -> NetworkConfigView {
        NetworkConfigView {
            rpc_url: self.rpc_url@,
            chain_id: self.chain_id,
            explorer_url: match self.explorer_url {
                Some(u) => Some(u@),
                None => None,
            },
            gas: self.gas,
        }
    }
}

impl Clone for NetworkConfig {
    fn clone(&self) -> (r: Self)
        ensures
            r@ == self@,
    {
        NetworkConfig {
            rpc_url: self.rpc_url.clone(),
            chain_id: self.chain_id,
            explorer_url: match &self.explorer_url {
                Some(u) => Some(u.clone()),
                None => None,
            },
            gas: self.gas,
        }
    }
}

/// What may be done and what must be confirmed.
#[derive(Debug)]
pub struct SecurityConfig {
    pub allow_write_operations: bool,
    pub require_confirmation: bool,
    pub max_transaction_value: Option<String>,
}

/// The settings of the standard input and output transport.
#[derive(Clone, Copy, Debug, PartialEq, Eq, Structural)]
pub struct StdioConfig {
    pub buffer_size: Option<usize>,
}

/// The settings of the server.
#[derive(Debug)]
pub struct ServerConfig {
    pub transport: String,
    pub stdio: StdioConfig,
}

/// The address `url` with the key `api_key` in the place that is kept for it:
/// in place of `demo` at the end of a demonstration address, or in place of
/// the words that stand for the key.
pub open spec fn with_api_key(url: Seq<char>, api_key: Seq<char>) -> Seq<char> {
    if contains(url, "alchemy.com/v2/demo"@) {
        replaced(url, "/demo"@, "/"@ + api_key)
    } else if contains(url, "YOUR_API_KEY_HERE"@) {
        replaced(url, "YOUR_API_KEY_HERE"@, api_key)
    } else {
        url
    }
}

/// The profile `p` with the key `api_key` in its address.
pub open spec fn profile_with_api_key(p: NetworkConfigView, api_key: Seq<char>) -> NetworkConfigView {
    NetworkConfigView {
        rpc_url: with_api_key(p.rpc_url, api_key),
        chain_id: p.chain_id,
        explorer_url: p.explorer_url,
        gas: p.gas,
    }
}

/// The address `url` with the key `api_key` in the place that is kept for it.
pub fn url_with_api_key(url: &str, api_key: &str) -> (r: String)
    ensures
        r@ == with_api_key(url@, api_key@),
{
    let chars = to_chars(url);
    proof {
        reveal_strlit("/demo");
        reveal_strlit("YOUR_API_KEY_HERE");
    }
    if chars_contain_str(&chars, "alchemy.com/v2/demo") {
        let mut to = String::from_str("/");
        to.append(api_key);
        replace_all(url, "/demo", to.as_str())
    } else if chars_contain_str(&chars, "YOUR_API_KEY_HERE") {
        replace_all(url, "YOUR_API_KEY_HERE", api_key)
    } else {
        String::from_str(url)
    }
}

/// The profile of the first entry of `entries` that is named `name`.
pub open spec fn profile_of(entries: Seq<(String, NetworkConfig)>, name: Seq<char>) -> Option<
    NetworkConfigView,
>
    decreases entries.len(),
{
    if entries.len() == 0 {
        None
    } else if entries[0].0@ == name {
        Some(entries[0].1@)
    } else {
        profile_of(entries.drop_first(), name)
    }
}

/// The connection profiles by network name. No name occurs twice; the names
/// keep the order in which they were first added.
#[derive(Debug)]
pub struct NetworkTable {
    entries: Vec<(String, NetworkConfig)>,
}

impl NetworkTable {
    #[verifier::type_invariant]
    spec fn distinct_names(&self) -> bool {
        forall|i: int, j: int|
            0 <= i < j < self.entries.len() ==> (#[trigger] self.entries@[i]).0@
                != (#[trigger] self.entries@[j]).0@
    }

    /// The names, in the order in which they were first added.
    pub closed spec fn names(&self) -> Seq<Seq<char>> {
        Seq::new(self.entries@.len(), |i: int| self.entries@[i].0@)
    }

    /// The profile of the network named `name`.
    pub closed spec fn profile(&self, name: Seq<char>) -> Option<NetworkConfigView> {
        profile_of(self.entries@, name)
    }

    /// A network has a profile exactly if its name is among the names, and no
    /// name occurs twice.
    pub proof fn names_are_the_profiled(&self, name: Seq<char>)
        ensures
            self.profile(name) is Some <==> self.names().contains(name),
    {
        Self::profiled_iff_named(self.entries@, name);
        if self.names().contains(name) {
            let i = choose|i: int| 0 <= i < self.names().len() && self.names()[i] == name;
            assert(self.entries@[i].0@ == name);
        }
        if exists|i: int| 0 <= i < self.entries@.len() && (#[trigger] self.entries@[i]).0@ == name {
            let i = choose|i: int|
                0 <= i < self.entries@.len() && (#[trigger] self.entries@[i]).0@ == name;
            assert(self.names()[i] == name);
        }
    }

    proof fn profiled_iff_named(entries: Seq<(String, NetworkConfig)>, name: Seq<char>)
        ensures
            profile_of(entries, name) is Some <==> exists|i: int|
                0 <= i < entries.len() && (#[trigger] entries[i]).0@ == name,
        decreases entries.len(),
    {
        if entries.len() > 0 {
            Self::profiled_iff_named(entries.drop_first(), name);
            if entries[0].0@ != name {
                if profile_of(entries, name) is Some {
                    let i = choose|i: int|
                        0 <= i < entries.drop_first().len() && (
                        #[trigger] entries.drop_first()[i]).0@ == name;
                    assert(entries[i + 1].0@ == name);
                }
                if exists|i: int| 0 <= i < entries.len() && (#[trigger] entries[i]).0@ == name {
                    let i = choose|i: int|
                        0 <= i < entries.len() && (#[trigger] entries[i]).0@ == name;
                    assert(entries.drop_first()[i - 1].0@ == name);
                }
            }
        }
    }

    /// A table without networks.
    pub fn new() -> (r: Self)
        ensures
            r.names() == Seq::<Seq<char>>::empty(),
            forall|name: Seq<char>| r.profile(name) is None,
    {
        let r = NetworkTable { entries: Vec::new() };
        proof {
            assert(r.names() =~= Seq::<Seq<char>>::empty());
        }
        r
    }

    /// The position of the entry named `name`.
    fn position(&self, name: &str) -> (r: Option<usize>)
        ensures
            match r {
                Some(i) => i < self.entries.len() && self.entries@[i as int].0@ == name@
                    && profile_of(self.entries@, name@) == Some(self.entries@[i as int].1@),
                None => profile_of(self.entries@, name@) is None && forall|k: int|
                    0 <= k < self.entries.len() ==> (#[trigger] self.entries@[k]).0@ != name@,
            },
    {
        let wanted = to_chars(name);
        let mut i: usize = 0;
        proof {
            assert(self.entries@.subrange(0, self.entries.len() as int) == self.entries@);
        }
        while i < self.entries.len()
            invariant
                i <= self.entries.len(),
                wanted@ == name@,
                forall|k: int| 0 <= k < i ==> (#[trigger] self.entries@[k]).0@ != name@,
                profile_of(self.entries@, name@) == profile_of(
                    self.entries@.subrange(i as int, self.entries.len() as int),
                    name@,
                ),
            decreases self.entries.len() - i,
        {
            let have = to_chars(self.entries[i].0.as_str());
            proof {
                let rest = self.entries@.subrange(i as int, self.entries.len() as int);
                assert(rest[0] == self.entries@[i as int]);
                assert(rest.drop_first() == self.entries@.subrange(
                    i + 1,
                    self.entries.len() as int,
                ));
            }
            if chars_eq(&have, &wanted) {
                return Some(i);
            }
            i += 1;
        }
        None
    }

    /// The profile of the network named `name`, by exact match.
    pub fn get(&self, name: &str) -> (r: Option<&NetworkConfig>)
        ensures
            r is Some <==> self.profile(name@) is Some,
            r is Some ==> r->0@ == self.profile(name@)->0,
    {
        match self.position(name) {
            Some(i) => Some(&self.entries[i].1),
            None => None,
        }
    }

    /// Whether a network named `name` has a profile.
    pub fn contains(&self, name: &str) -> (r: bool)
        ensures
            r == self.profile(name@) is Some,
    {
        self.position(name).is_some()
    }

    /// The name and the profile at position `i`, in the order of the names.
    pub fn entry(&self, i: usize) -> (r: (&String, &NetworkConfig))
        requires
            i < self.names().len(),
        ensures
            r.0@ == self.names()[i as int],
            self.profile(r.0@) == Some(r.1@),
    {
        proof {
            use_type_invariant(self);
            Self::profile_at(self.entries@, i as int);
        }
        (&self.entries[i].0, &self.entries[i].1)
    }

    proof fn profile_at(entries: Seq<(String, NetworkConfig)>, i: int)
        requires
            0 <= i < entries.len(),
            forall|x: int, y: int|
                0 <= x < y < entries.len() ==> (#[trigger] entries[x]).0@ != (
                #[trigger] entries[y]).0@,
        ensures
            profile_of(entries, entries[i].0@) == Some(entries[i].1@),
        decreases entries.len(),
    {
        if i > 0 {
            assert(entries[0].0@ != entries[i].0@);
            assert forall|x: int, y: int| 0 <= x < y < entries.drop_first().len() implies (
            #[trigger] entries.drop_first()[x]).0@ != (#[trigger] entries.drop_first()[y]).0@ by {
                assert(entries[x + 1].0@ != entries[y + 1].0@);
            }
            Self::profile_at(entries.drop_first(), i - 1);
        }
    }

    /// The number of networks.
    pub fn len(&self) -> (r: usize)
        ensures
            r == self.names().len(),
    {
        self.entries.len()
    }

    /// The names, in the order in which they were first added.
    pub fn names_list(&self) -> (r: Vec<String>)
        ensures
            views(r@) == self.names(),
    {
        let mut out: Vec<String> = Vec::new();
        let mut i: usize = 0;
        while i < self.entries.len()
            invariant
                i <= self.entries.len(),
                out.len() == i,
                forall|k: int| 0 <= k < i ==> (#[trigger] out@[k])@ == self.entries@[k].0@,
            decreases self.entries.len() - i,
        {
            out.push(self.entries[i].0.clone());
            i += 1;
        }
        proof {
            assert(views(out@) =~= self.names());
        }
        out
    }

    /// Gives the network named `name` the profile `config`: in place of the
    /// one it had, or as a new network behind the others.
    pub fn insert(&mut self, name: String, config: NetworkConfig)
        ensures
            final(self).profile(name@) == Some(config@),
            forall|other: Seq<char>| other != name@ ==> final(self).profile(other) == old(
                self,
            ).profile(other),
            old(self).profile(name@) is Some ==> final(self).names() == old(self).names(),
            old(self).profile(name@) is None ==> final(self).names() == old(self).names().push(
                name@,
            ),
    {
        proof {
            use_type_invariant(&*self);
        }
        let ghost before = self.entries@;
        let ghost key = name@;
        let ghost profile = config@;
        match self.position(name.as_str()) {
            Some(i) => {
                let mut rebuilt: Vec<(String, NetworkConfig)> = Vec::new();
                let mut k: usize = 0;
                let mut pending: Option<(String, NetworkConfig)> = Some((name, config));
                while k < self.entries.len()
                    invariant
                        k <= self.entries.len(),
                        i < self.entries.len(),
                        self.entries@ == before,
                        before[i as int].0@ == key,
                        rebuilt.len() == k,
                        pending is Some <==> k <= i,
                        pending matches Some(e) ==> e.0@ == key && e.1@ == profile,
                        forall|m: int| 0 <= m < k ==> (#[trigger] rebuilt@[m]).0@ == before[m].0@,
                        forall|m: int|
                            0 <= m < k && m != i ==> (#[trigger] rebuilt@[m]).1@ == before[m].1@,
                        k > i ==> rebuilt@[i as int].1@ == profile,
                    decreases self.entries.len() - k,
                {
                    if k == i {
                        match pending.take() {
                            Some(entry) => {
                                rebuilt.push(entry);
                            },
                            None => {},
                        }
                    } else {
                        rebuilt.push((self.entries[k].0.clone(), self.entries[k].1.clone()));
                    }
                    k += 1;
                }
                proof {
                    Self::same_names_same_profiles(before, rebuilt@, i as int, profile, key);
                    assert forall|a: int, b: int| 0 <= a < b < rebuilt.len() implies (
                    #[trigger] rebuilt@[a]).0@ != (#[trigger] rebuilt@[b]).0@ by {
                        assert(before[a].0@ != before[b].0@);
                    }
                }
                self.entries = rebuilt;
                proof {
                    assert(self.names() =~= old(self).names());
                    assert forall|other: Seq<char>| other != key implies self.profile(other) == old(
                        self,
                    ).profile(other) by {
                        Self::same_names_same_profiles(before, self.entries@, i as int, profile, other);
                    }
                }
            },
            None => {
                let mut rebuilt: Vec<(String, NetworkConfig)> = Vec::new();
                let mut k: usize = 0;
                while k < self.entries.len()
                    invariant
                        k <= self.entries.len(),
                        self.entries@ == before,
                        rebuilt.len() == k,
                        forall|m: int|
                            0 <= m < k ==> (#[trigger] rebuilt@[m]).0@ == before[m].0@
                                && rebuilt@[m].1@ == before[m].1@,
                    decreases self.entries.len() - k,
                {
                    rebuilt.push((self.entries[k].0.clone(), self.entries[k].1.clone()));
                    k += 1;
                }
                let ghost copied = rebuilt@;
                rebuilt.push((name, config));
                proof {
                    assert(rebuilt@.drop_last() == copied);
                    assert forall|a: int, b: int| 0 <= a < b < rebuilt.len() implies (
                    #[trigger] rebuilt@[a]).0@ != (#[trigger] rebuilt@[b]).0@ by {
                        if b < before.len() {
                            assert(before[a].0@ != before[b].0@);
                        } else {
                            assert(before[a].0@ != key);
                        }
                    }
                }
                self.entries = rebuilt;
                proof {
                    assert(self.names() =~= old(self).names().push(key));
                    assert forall|other: Seq<char>| true implies #[trigger] self.profile(other) == (
                    if other == key {
                        Some(profile)
                    } else {
                        old(self).profile(other)
                    }) by {
                        Self::equal_views_equal_profiles(before, copied, other);
                        Self::profile_after_push(copied, self.entries@.last(), other);
                        assert(self.entries@ == copied.push(self.entries@.last()));
                    }
                }
            },
        }
    }

    /// Puts the key `api_key` into the address of every network that has a
    /// place for it.
    pub fn substitute_api_key(&mut self, api_key: &str)
        ensures
            final(self).names() == old(self).names(),
            forall|name: Seq<char>|
                #![trigger final(self).profile(name)]
                final(self).profile(name) == match old(self).profile(name) {
                    Some(p) => Some(profile_with_api_key(p, api_key@)),
                    None => None,
                },
    {
        proof {
            use_type_invariant(&*self);
        }
        let ghost before = self.entries@;
        let mut rebuilt: Vec<(String, NetworkConfig)> = Vec::new();
        let mut k: usize = 0;
        while k < self.entries.len()
            invariant
                k <= self.entries.len(),
                self.entries@ == before,
                rebuilt.len() == k,
                forall|m: int|
                    0 <= m < k ==> (#[trigger] rebuilt@[m]).0@ == before[m].0@ && rebuilt@[m].1@
                        == profile_with_api_key(before[m].1@, api_key@),
            decreases self.entries.len() - k,
        {
            let old_profile = &self.entries[k].1;
            let url = url_with_api_key(old_profile.rpc_url.as_str(), api_key);
            let profile = NetworkConfig {
                rpc_url: url,
                chain_id: old_profile.chain_id,
                explorer_url: match &old_profile.explorer_url {
                    Some(u) => Some(u.clone()),
                    None => None,
                },
                gas: old_profile.gas,
            };
            rebuilt.push((self.entries[k].0.clone(), profile));
            k += 1;
        }
        proof {
            assert forall|a: int, b: int| 0 <= a < b < rebuilt.len() implies (
            #[trigger] rebuilt@[a]).0@ != (#[trigger] rebuilt@[b]).0@ by {
                assert(before[a].0@ != before[b].0@);
            }
        }
        self.entries = rebuilt;
        proof {
            assert(self.names() =~= old(self).names());
            assert forall|name: Seq<char>| true implies #[trigger] self.profile(name) == (
            match old(self).profile(name) {
                Some(p) => Some(profile_with_api_key(p, api_key@)),
                None => None,
            }) by {
                Self::substituted_profiles(before, self.entries@, api_key@, name);
            }
        }
    }

    proof fn substituted_profiles(
        a: Seq<(String, NetworkConfig)>,
        b: Seq<(String, NetworkConfig)>,
        api_key: Seq<char>,
        name: Seq<char>,
    )
        requires
            a.len() == b.len(),
            forall|m: int|
                0 <= m < a.len() ==> (#[trigger] b[m]).0@ == a[m].0@ && b[m].1@
                    == profile_with_api_key(a[m].1@, api_key),
        ensures
            profile_of(b, name) == match profile_of(a, name) {
                Some(p) => Some(profile_with_api_key(p, api_key)),
                None => None,
            },
        decreases a.len(),
    {
        if a.len() > 0 {
            assert(b[0].0@ == a[0].0@ && b[0].1@ == profile_with_api_key(a[0].1@, api_key));
            assert forall|m: int| 0 <= m < a.drop_first().len() implies (#[trigger] b.drop_first()[m]).0@
                == a.drop_first()[m].0@ && b.drop_first()[m].1@ == profile_with_api_key(
                a.drop_first()[m].1@,
                api_key,
            ) by {
                assert(b[m + 1].0@ == a[m + 1].0@);
            }
            Self::substituted_profiles(a.drop_first(), b.drop_first(), api_key, name);
        }
    }

    proof fn profile_after_push(
        entries: Seq<(String, NetworkConfig)>,
        entry: (String, NetworkConfig),
        name: Seq<char>,
    )
        ensures
            profile_of(entries.push(entry), name) == (if profile_of(entries, name) is Some {
                profile_of(entries, name)
            } else if name == entry.0@ {
                Some(entry.1@)
            } else {
                None
            }),
        decreases entries.len(),
    {
        let all = entries.push(entry);
        if entries.len() == 0 {
            assert(all[0] == entry);
            assert(all.drop_first() =~= Seq::<(String, NetworkConfig)>::empty());
            assert(profile_of(all.drop_first(), name) is None);
        } else {
            assert(all[0] == entries[0]);
            assert(all.drop_first() =~= entries.drop_first().push(entry));
            Self::profile_after_push(entries.drop_first(), entry, name);
        }
    }

    proof fn same_names_same_profiles(
        a: Seq<(String, NetworkConfig)>,
        b: Seq<(String, NetworkConfig)>,
        i: int,
        profile: NetworkConfigView,
        name: Seq<char>,
    )
        requires
            a.len() == b.len(),
            0 <= i < a.len(),
            forall|m: int| 0 <= m < a.len() ==> (#[trigger] b[m]).0@ == a[m].0@,
            forall|m: int| 0 <= m < a.len() && m != i ==> (#[trigger] b[m]).1@ == a[m].1@,
            b[i].1@ == profile,
            forall|x: int, y: int|
                0 <= x < y < a.len() ==> (#[trigger] a[x]).0@ != (#[trigger] a[y]).0@,
        ensures
            name == a[i].0@ ==> profile_of(b, name) == Some(profile),
            name != a[i].0@ ==> profile_of(b, name) == profile_of(a, name),
        decreases a.len(),
    {
        if i == 0 {
            if name != a[0].0@ {
                Self::equal_views_equal_profiles(a.drop_first(), b.drop_first(), name);
            }
        } else {
            assert(a[0].0@ != a[i].0@);
            assert(b[0].1@ == a[0].1@);
            assert forall|m: int| 0 <= m < a.drop_first().len() implies (#[trigger] b.drop_first()[m]).0@
                == a.drop_first()[m].0@ by {
                assert(b[m + 1].0@ == a[m + 1].0@);
            }
            assert forall|m: int|
                0 <= m < a.drop_first().len() && m != i - 1 implies (#[trigger] b.drop_first()[m]).1@
                == a.drop_first()[m].1@ by {
                assert(b[m + 1].1@ == a[m + 1].1@);
            }
            assert forall|x: int, y: int| 0 <= x < y < a.drop_first().len() implies (
            #[trigger] a.drop_first()[x]).0@ != (#[trigger] a.drop_first()[y]).0@ by {
                assert(a[x + 1].0@ != a[y + 1].0@);
            }
            Self::same_names_same_profiles(a.drop_first(), b.drop_first(), i - 1, profile, name);
        }
    }

    proof fn equal_views_equal_profiles(
        a: Seq<(String, NetworkConfig)>,
        b: Seq<(String, NetworkConfig)>,
        name: Seq<char>,
    )
        requires
            a.len() == b.len(),
            forall|m: int| 0 <= m < a.len() ==> (#[trigger] b[m]).0@ == a[m].0@ && b[m].1@ == a[m].1@,
        ensures
            profile_of(b, name) == profile_of(a, name),
        decreases a.len(),
    {
        if a.len() > 0 {
            assert(b[0].0@ == a[0].0@ && b[0].1@ == a[0].1@);
            assert forall|m: int| 0 <= m < a.drop_first().len() implies (#[trigger] b.drop_first()[m]).0@
                == a.drop_first()[m].0@ && b.drop_first()[m].1@ == a.drop_first()[m].1@ by {
                assert(b[m + 1].0@ == a[m + 1].0@ && b[m + 1].1@ == a[m + 1].1@);
            }
            Self::equal_views_equal_profiles(a.drop_first(), b.drop_first(), name);
        }
    }
}

/// The whole configuration.
#[derive(Debug)]
pub struct Config {
    pub networks: NetworkTable,
    pub default_network: String,
    pub security: SecurityConfig,
    pub server: ServerConfig,
}

/// The profile that a network has when nothing was configured.
pub open spec fn default_profile(name: Seq<char>) -> Option<NetworkConfigView> {
    if name == "ethereum"@ {
        Some(
            NetworkConfigView {
                rpc_url: "https://eth-mainnet.g.alchemy.com/v2/demo"@,
                chain_id: 1,
                explorer_url: Some("https://etherscan.io"@),
                gas: GasConfig {
                    default_gas_limit: 100000,
                    max_gas_price: Some(50_000_000_000),
                    priority_fee: Some(2_000_000_000),
                },
            },
        )
    } else if name == "sepolia"@ {
        Some(
            NetworkConfigView {
                rpc_url: "https://eth-sepolia.g.alchemy.com/v2/demo"@,
                chain_id: 11155111,
                explorer_url: Some("https://sepolia.etherscan.io"@),
                gas: GasConfig {
                    default_gas_limit: 100000,
                    max_gas_price: Some(20_000_000_000),
                    priority_fee: Some(1_000_000_000),
                },
            },
        )
    } else if name == "polygon"@ {
        Some(
            NetworkConfigView {
                rpc_url: "https://polygon-mainnet.g.alchemy.com/v2/demo"@,
                chain_id: 137,
                explorer_url: Some("https://polygonscan.com"@),
                gas: GasConfig {
                    default_gas_limit: 100000,
                    max_gas_price: Some(500_000_000_000),
                    priority_fee: Some(30_000_000_000),
                },
            },
        )
    } else if name == "arbitrum"@ {
        Some(
            NetworkConfigView {
                rpc_url: "https://arb-mainnet.g.alchemy.com/v2/demo"@,
                chain_id: 42161,
                explorer_url: Some("https://arbiscan.io"@),
                gas: GasConfig {
                    default_gas_limit: 100000,
                    max_gas_price: Some(5_000_000_000),
                    priority_fee: Some(100_000_000),
                },
            },
        )
    } else {
        None
    }
}

/// The names of the networks that are there when nothing was configured.
pub open spec fn default_names() -> Seq<Seq<char>> {
    seq!["ethereum"@, "sepolia"@, "polygon"@, "arbitrum"@]
}

/// A profile with the given address, chain and gas policy.
fn profile(rpc_url: &str, chain_id: u64, explorer_url: &str, max_gas_price: u64, priority_fee: u64) -> (r:
    NetworkConfig)
    ensures
        r@ == (NetworkConfigView {
            rpc_url: rpc_url@,
            chain_id,
            explorer_url: Some(explorer_url@),
            gas: GasConfig {
                default_gas_limit: 100000,
                max_gas_price: Some(max_gas_price),
                priority_fee: Some(priority_fee),
            },
        }),
{
    NetworkConfig {
        rpc_url: String::from_str(rpc_url),
        chain_id,
        explorer_url: Some(String::from_str(explorer_url)),
        gas: GasConfig {
            default_gas_limit: 100000,
            max_gas_price: Some(max_gas_price),
            priority_fee: Some(priority_fee),
        },
    }
}

impl Default for Config {
    /// Four networks with demonstration addresses, `ethereum` as the default
    /// network, write operations switched off.
    fn default() -> (r: Self)
        ensures
            r.networks.names() == default_names(),
            forall|name: Seq<char>| #[trigger] r.networks.profile(name) == default_profile(name),
            r.default_network@ == "ethereum"@,
            !r.security.allow_write_operations,
            r.security.require_confirmation,
            r.security.max_transaction_value is None,
            r.server.transport@ == "stdio"@,
            r.server.stdio.buffer_size == Some(1048576usize),
    {
        let mut networks = NetworkTable::new();
        proof {
            reveal_strlit("ethereum");
            reveal_strlit("sepolia");
            reveal_strlit("polygon");
            reveal_strlit("arbitrum");
            assert("ethereum"@.len() == 8 && "arbitrum"@.len() == 8);
            assert("ethereum"@[0] != "arbitrum"@[0]);
            assert("sepolia"@[0] != "polygon"@[0]);
            assert("ethereum"@ != "arbitrum"@);
            assert("sepolia"@ != "polygon"@);
            assert("sepolia"@ != "ethereum"@ && "sepolia"@ != "arbitrum"@);
            assert("polygon"@ != "ethereum"@ && "polygon"@ != "arbitrum"@);
        }
        networks.insert(
            String::from_str("ethereum"),
            profile(
                "https://eth-mainnet.g.alchemy.com/v2/demo",
                1,
                "https://etherscan.io",
                50_000_000_000,
                2_000_000_000,
            ),
        );
        assert(networks.names() =~= seq!["ethereum"@]);
        assert(networks.profile("sepolia"@) is None);
        networks.insert(
            String::from_str("sepolia"),
            profile(
                "https://eth-sepolia.g.alchemy.com/v2/demo",
                11155111,
                "https://sepolia.etherscan.io",
                20_000_000_000,
                1_000_000_000,
            ),
        );
        assert(networks.names() =~= seq!["ethereum"@, "sepolia"@]);
        assert(networks.profile("polygon"@) is None);
        networks.insert(
            String::from_str("polygon"),
            profile(
                "https://polygon-mainnet.g.alchemy.com/v2/demo",
                137,
                "https://polygonscan.com",
                500_000_000_000,
                30_000_000_000,
            ),
        );
        assert(networks.names() =~= seq!["ethereum"@, "sepolia"@, "polygon"@]);
        assert(networks.profile("arbitrum"@) is None);
        networks.insert(
            String::from_str("arbitrum"),
            profile(
                "https://arb-mainnet.g.alchemy.com/v2/demo",
                42161,
                "https://arbiscan.io",
                5_000_000_000,
                100_000_000,
            ),
        );
        proof {
            assert(networks.names() =~= default_names());
        }
        Config {
            networks,
            default_network: String::from_str("ethereum"),
            security: SecurityConfig {
                allow_write_operations: false,
                require_confirmation: true,
                max_transaction_value: None,
            },
            server: ServerConfig {
                transport: String::from_str("stdio"),
                stdio: StdioConfig { buffer_size: Some(1024 * 1024) },
            },
        }
    }
}

/// A sample of the configuration file.
pub const SAMPLE_CONFIG: &'static str = r#"# Contract MCP Server Configuration File
# This file configures networks, security settings, and server behavior

# Default network to use when none is specified
default_network = "ethereum"

# Network configurations
[networks.ethereum]
rpc_url = "https://eth-mainnet.g.alchemy.com/v2/YOUR_API_KEY_HERE"
chain_id = 1
explorer_url = "https://etherscan.io"

[networks.ethereum.gas]
default_gas_limit = 100000
max_gas_price = 50_000_000_000  # 50 Gwei
priority_fee = 2_000_000_000    # 2 Gwei

[networks.sepolia]
rpc_url = "https://eth-sepolia.g.alchemy.com/v2/YOUR_API_KEY_HERE"
chain_id = 11155111
explorer_url = "https://sepolia.etherscan.io"

[networks.sepolia.gas]
default_gas_limit = 100000
max_gas_price = 20_000_000_000  # 20 Gwei
priority_fee = 1_000_000_000    # 1 Gwei

[networks.polygon]
rpc_url = "https://polygon-mainnet.g.alchemy.com/v2/YOUR_API_KEY_HERE"
chain_id = 137
explorer_url = "https://polygonscan.com"

[networks.polygon.gas]
default_gas_limit = 100000
max_gas_price = 500_000_000_000  # 500 Gwei
priority_fee = 30_000_000_000    # 30 Gwei

[networks.arbitrum]
rpc_url = "https://arb-mainnet.g.alchemy.com/v2/YOUR_API_KEY_HERE"
chain_id = 42161
explorer_url = "https://arbiscan.io"

[networks.arbitrum.gas]
default_gas_limit = 100000
max_gas_price = 5_000_000_000   # 5 Gwei
priority_fee = 100_000_000      # 0.1 Gwei

# Security settings
[security]
allow_write_operations = false
require_confirmation = true
# max_transaction_value = "1000000000000000000"  # 1 ETH in wei

# Server configuration
[server]
transport = "stdio"

[server.stdio]
buffer_size = 1048576  # 1MB

# Environment variables that can be used:
# ETHERSCAN_API_KEY - Your Etherscan API key for ABI resolution
# ALCHEMY_API_KEY - Your Alchemy API key (replace YOUR_API_KEY_HERE above)
# INFURA_API_KEY - Your Infura API key (alternative to Alchemy)
"#;

impl Config {
    /// Adds a network, or gives a network that is there a new profile.
    pub fn add_network(&mut self, name: String, config: NetworkConfig)
        ensures
            final(self).networks.profile(name@) == Some(config@),
            forall|other: Seq<char>|
                other != name@ ==> final(self).networks.profile(other) == old(
                    self,
                ).networks.profile(other),
            old(self).networks.profile(name@) is Some ==> final(self).networks.names() == old(
                self,
            ).networks.names(),
            old(self).networks.profile(name@) is None ==> final(self).networks.names() == old(
                self,
            ).networks.names().push(name@),
            final(self).default_network == old(self).default_network,
            final(self).security == old(self).security,
            final(self).server == old(self).server,
    {
        self.networks.insert(name, config);
    }

    /// Puts the key of the node service, where there is one, into the address
    /// of every network that has a place for it.
    pub fn apply_env_vars(&mut self, alchemy_api_key: Option<&str>)
        ensures
            final(self).networks.names() == old(self).networks.names(),
            forall|name: Seq<char>|
                #![trigger final(self).networks.profile(name)]
                final(self).networks.profile(name) == match (
                    alchemy_api_key,
                    old(self).networks.profile(name),
                ) {
                    (Some(k), Some(p)) => Some(profile_with_api_key(p, k@)),
                    (None, Some(p)) => Some(p),
                    (_, None) => None,
                },
            final(self).default_network == old(self).default_network,
            final(self).security == old(self).security,
            final(self).server == old(self).server,
    {
        match alchemy_api_key {
            Some(k) => {
                self.networks.substitute_api_key(k);
            },
            None => {},
        }
    }

    /// The configuration to run with: the one that was loaded, or the default
    /// where none was loaded; in either case with the key of the node service
    /// put in.
    pub fn load_or_default(loaded: Option<Config>, alchemy_api_key: Option<&str>) -> (r: Config)
        ensures
            match loaded {
                Some(c) => r.networks.names() == c.networks.names() && r.default_network
                    == c.default_network && r.security == c.security && r.server == c.server
                    && forall|name: Seq<char>|
                    #![trigger r.networks.profile(name)]
                    r.networks.profile(name) == match (alchemy_api_key, c.networks.profile(name)) {
                        (Some(k), Some(p)) => Some(profile_with_api_key(p, k@)),
                        (None, Some(p)) => Some(p),
                        (_, None) => None,
                    },
                None => r.networks.names() == default_names() && r.default_network@ == "ethereum"@
                    && forall|name: Seq<char>|
                    #![trigger r.networks.profile(name)]
                    r.networks.profile(name) == match (alchemy_api_key, default_profile(name)) {
                        (Some(k), Some(p)) => Some(profile_with_api_key(p, k@)),
                        (None, Some(p)) => Some(p),
                        (_, None) => None,
                    },
            },
    {
        let mut config = match loaded {
            Some(c) => c,
            None => Config::default(),
        };
        config.apply_env_vars(alchemy_api_key);
        config
    }

    /// A sample of the configuration file.
    pub fn generate_sample() -> (r: String)
        ensures
            r@ == SAMPLE_CONFIG@,
    {
        String::from_str(SAMPLE_CONFIG)
    }
}

} // verus!
