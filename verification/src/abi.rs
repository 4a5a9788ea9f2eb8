//! Resolution of interface descriptions: a memory tier in front of a store on
//! disk and a remote lookup service.
//!
//! The resolver performs no input or output itself. It says what is to be
//! read or fetched next, and takes what came back.

use vstd::prelude::*;
use crate::error::{EngineError, ErrorKind, ErrorView};
use crate::interface::{
    EventSignature, FunctionSignature, InterfaceDescription, InterfaceView, Parameter,
};
use crate::json::{member, text_of, JsonValue, JsonView};
use crate::text::{chars_eq, lowercase, str_eq, to_chars, unicode_lowercase};

verus! {

/// `Event` of alloy: an event item of an interface description. Nothing of
/// its inside is known here.
#[verifier::external_type_specification]
#[verifier::external_body]
pub struct ExEvent(alloy::json_abi::Event);

/// What the interface parser makes of a JSON document: the functions and
/// events in the parser's order, or the parser's message.
pub uninterp spec fn parsed_interface(text: Seq<char>) -> Result<InterfaceView, Seq<char>>;

/// Reads a parameter item of `alloy` into the library's parameter, components
/// included.
#[verifier::external_body]
fn parameter_of(p: &alloy::json_abi::Param) -> (r: Parameter) {
    Parameter {
        name: p.name.clone(),
        ty: p.ty.clone(),
        components: p.components.iter().map(parameter_of).collect(),
    }
}

/// Reads a function item of `alloy` into the library's signature.
#[verifier::external_body]
fn function_of(f: &alloy::json_abi::Function) -> (r: FunctionSignature) {
    FunctionSignature {
        name: f.name.clone(),
        inputs: f.inputs.iter().map(parameter_of).collect(),
        outputs: f.outputs.iter().map(parameter_of).collect(),
    }
}

/// Reads an event item of `alloy` into the library's signature.
#[verifier::external_body]
fn event_of(e: &alloy::json_abi::Event) -> (r: EventSignature) {
    let input = |p: &alloy::json_abi::EventParam| Parameter {
        name: p.name.clone(),
        ty: p.ty.clone(),
        components: p.components.iter().map(parameter_of).collect(),
    };
    EventSignature { name: e.name.clone(), inputs: e.inputs.iter().map(input).collect() }
}

/// `serde_json::from_str` into the `JsonAbi` of `alloy`: the functions and the
/// events that the document declares, as `JsonAbi::functions` and
/// `JsonAbi::events` hand them out (by name, and those of one name in the
/// order in which they are declared), together with the document itself; or
/// the parser's message.
#[verifier::external_body]
fn parse_interface(text: &str) -> (r: Result<InterfaceDescription, String>)
    ensures
        match r {
            Ok(d) => parsed_interface(text@) == Ok::<InterfaceView, Seq<char>>(d@),
            Err(e) => parsed_interface(text@) == Err::<InterfaceView, Seq<char>>(e@),
        },
        r is Ok ==> r->Ok_0@.document == text@,
{
    let abi: alloy::json_abi::JsonAbi = serde_json::from_str(text).map_err(|e| e.to_string())?;
    Ok(InterfaceDescription {
        functions: abi.functions().map(function_of).collect(),
        events: abi.events().map(event_of).collect(),
        document: text.to_string(),
    })
}

impl InterfaceDescription {
    /// Reads an interface description from its JSON document.
    pub fn from_json(text: &str) -> (r: Result<InterfaceDescription, EngineError>)
        ensures
            match r {
                Ok(d) => parsed_interface(text@) == Ok::<InterfaceView, Seq<char>>(d@),
                Err(e) => parsed_interface(text@) is Err && e@ == (ErrorView {
                    kind: ErrorKind::InterfaceUnavailable,
                    message: "Failed to parse ABI JSON: "@ + parsed_interface(text@)->Err_0,
                }),
            },
            r is Ok ==> r->Ok_0@.document == text@,
    {
        match parse_interface(text) {
            Ok(d) => Ok(d),
            Err(e) => {
                let mut m = String::from_str("Failed to parse ABI JSON: ");
                m.append(e.as_str());
                Err(EngineError::new(ErrorKind::InterfaceUnavailable, m))
            },
        }
    }
}

/// Where interface descriptions come from: the key for the lookup service, if
/// there is one, and the directory of the store on disk.
#[derive(Debug)]
pub struct AbiSource {
    pub etherscan_api_key: Option<String>,
    pub cache_dir: String,
}

impl Clone for AbiSource {
    fn clone(&self) -> (r: Self)
        ensures
            r.cache_dir@ == self.cache_dir@,
            r.etherscan_api_key is Some <==> self.etherscan_api_key is Some,
            r.etherscan_api_key is Some ==> r.etherscan_api_key->0@ == self.etherscan_api_key->0@,
    {
        let key = match &self.etherscan_api_key {
            Some(k) => Some(k.clone()),
            None => None,
        };
        AbiSource { etherscan_api_key: key, cache_dir: self.cache_dir.clone() }
    }
}

/// The name that an optional text gives, if any.
pub open spec fn name_view(name: Option<&str>) -> Option<Seq<char>> {
    match name {
        Some(n) => Some(n@),
        None => None,
    }
}

/// The key under which the description of the contract at `address` on the
/// network named `network` is kept: the network's name, an underscore, the
/// address in lower case.
pub open spec fn key_of(address: Seq<char>, network: Seq<char>) -> Seq<char> {
    network + "_"@ + unicode_lowercase(address)
}

/// The name of the file that holds the description kept under `key`.
pub open spec fn file_of(key: Seq<char>) -> Seq<char> {
    key + ".json"@
}

/// The description that the last entry of `entries` under `key` holds.
pub open spec fn last_entry(entries: Seq<(String, InterfaceDescription)>, key: Seq<char>) -> Option<
    InterfaceView,
>
    decreases entries.len(),
{
    if entries.len() == 0 {
        None
    } else if entries.last().0@ == key {
        Some(entries.last().1@)
    } else {
        last_entry(entries.drop_last(), key)
    }
}

/// The base address of the lookup service for a network, if it has one.
pub open spec fn service_of(network: Seq<char>) -> Option<Seq<char>> {
    if network == "mainnet"@ || network == "ethereum"@ {
        Some("https://api.etherscan.io"@)
    } else if network == "sepolia"@ {
        Some("https://api-sepolia.etherscan.io"@)
    } else if network == "goerli"@ {
        Some("https://api-goerli.etherscan.io"@)
    } else if network == "polygon"@ {
        Some("https://api.polygonscan.com"@)
    } else if network == "arbitrum"@ {
        Some("https://api.arbiscan.io"@)
    } else if network == "optimism"@ {
        Some("https://api-optimistic.etherscan.io"@)
    } else {
        None
    }
}

/// The address of the lookup request for the contract at `address`, with the
/// key of the service behind it where there is one.
pub open spec fn request_url(base: Seq<char>, address: Seq<char>, api_key: Option<Seq<char>>) -> Seq<
    char,
> {
    let plain = base + "/api?module=contract&action=getabi&address="@ + address + "&format=json"@;
    match api_key {
        Some(k) => plain + "&apikey="@ + k,
        None => plain,
    }
}

/// What the lookup service answered.
#[derive(Debug)]
pub enum RemoteReply {
    /// The request could not be sent or no answer came; with the failure's text.
    Unreachable(String),
    /// The answer was no JSON document; with the failure's text.
    Unreadable(String),
    /// The answer: an envelope with a status, a message and a result.
    Envelope(JsonValue),
}

/// The text that the lookup service gives as its result for a contract whose
/// source is not verified.
pub open spec fn unverified_mark() -> Seq<char> {
    "Contract source code not verified"@
}

/// The document of the interface description that the reply `envelope`
/// carries, or why it carries none. A reply whose result is the mark of an
/// unverified source is read as that, whatever its status says.
pub open spec fn reply_document(envelope: JsonView) -> Result<Seq<char>, ErrorView> {
    let result = member(envelope, "result"@);
    let status = member(envelope, "status"@);
    let message = member(envelope, "message"@);
    if result is Some && text_of(result->0) == Some(unverified_mark()) {
        Err(
            ErrorView {
                kind: ErrorKind::InterfaceUnavailable,
                message: "Contract source code is not verified on Etherscan"@,
            },
        )
    } else if !(status is Some && text_of(status->0) == Some("1"@)) {
        Err(
            ErrorView {
                kind: ErrorKind::RemoteService,
                message: "Etherscan API error: "@ + (if message is Some && text_of(message->0)
                    is Some {
                    text_of(message->0)->0
                } else {
                    "Unknown error"@
                }),
            },
        )
    } else if !(result is Some && text_of(result->0) is Some) {
        Err(ErrorView { kind: ErrorKind::RemoteService, message: "No ABI found in response"@ })
    } else {
        Ok(text_of(result->0)->0)
    }
}

/// The interface description that a reply of the lookup service gives, or why
/// it gives none.
pub open spec fn reply_outcome(reply: RemoteReply) -> Result<InterfaceView, ErrorView> {
    match reply {
        RemoteReply::Unreachable(e) => Err(
            ErrorView {
                kind: ErrorKind::RemoteService,
                message: "Failed to fetch from Etherscan: "@ + e@,
            },
        ),
        RemoteReply::Unreadable(e) => Err(
            ErrorView {
                kind: ErrorKind::RemoteService,
                message: "Failed to parse Etherscan response: "@ + e@,
            },
        ),
        RemoteReply::Envelope(v) => match reply_document(v@) {
            Err(e) => Err(e),
            Ok(text) => match parsed_interface(text) {
                Ok(d) => Ok(d),
                Err(e) => Err(
                    ErrorView {
                        kind: ErrorKind::InterfaceUnavailable,
                        message: "Failed to parse ABI JSON: "@ + e,
                    },
                ),
            },
        },
    }
}

/// A reply whose result is the mark of an unverified source gives no
/// interface description, and the failure is of the kind "interface
/// unavailable", whatever else the reply holds.
pub proof fn unverified_reply_is_unavailable(envelope: JsonValue)
    requires
        member(envelope@, "result"@) == Some(JsonView::Text(unverified_mark())),
    ensures
        reply_outcome(RemoteReply::Envelope(envelope)) == Err::<InterfaceView, ErrorView>(
            ErrorView {
                kind: ErrorKind::InterfaceUnavailable,
                message: "Contract source code is not verified on Etherscan"@,
            },
        ),
{
}

/// One change of the memory tier.
pub enum CacheEvent {
    /// A description was read from the store on disk or fetched from the
    /// lookup service, and kept under the key. This happens only for a key
    /// that the memory tier lacks.
    Resolved(Seq<char>, InterfaceView),
    /// A description was registered by hand under the key.
    Registered(Seq<char>, InterfaceView),
    /// The cache was cleared.
    Cleared,
}

/// The memory tier after the change `e`.
pub open spec fn apply(cache: Map<Seq<char>, InterfaceView>, e: CacheEvent) -> Map<
    Seq<char>,
    InterfaceView,
> {
    match e {
        CacheEvent::Resolved(k, d) => cache.insert(k, d),
        CacheEvent::Registered(k, d) => cache.insert(k, d),
        CacheEvent::Cleared => Map::empty(),
    }
}

/// The change `e` can happen to the memory tier `cache`: the resolver reads
/// or fetches only what the memory tier lacks.
pub open spec fn admissible(cache: Map<Seq<char>, InterfaceView>, e: CacheEvent) -> bool {
    match e {
        CacheEvent::Resolved(k, _) => !cache.contains_key(k),
        _ => true,
    }
}

/// What the memory tier says of a key.
#[derive(Debug)]
pub enum AbiLookup {
    /// The description is in memory: nothing is to be read or fetched.
    Cached(InterfaceDescription),
    /// The description is not in memory: the file of this name is to be read
    /// from the store on disk.
    ReadCache { cache_key: String, file_name: String },
}

/// What is to be written to the store on disk.
#[derive(Debug)]
pub struct CacheWrite {
    pub file_name: String,
    pub content: String,
}

/// The resolver: the memory tier and the source's settings.
#[derive(Debug)]
pub struct AbiResolver {
    config: AbiSource,
    default_network: String,
    memory_cache: Vec<(String, InterfaceDescription)>,
}

impl AbiResolver {
    /// The memory tier: the description kept under each key.
    pub closed spec fn cache(&self) -> Map<Seq<char>, InterfaceView> {
        Map::new(
            |k: Seq<char>| last_entry(self.memory_cache@, k) is Some,
            |k: Seq<char>| last_entry(self.memory_cache@, k)->0,
        )
    }

    /// The key of the lookup service, if there is one.
    pub closed spec fn api_key(&self) -> Option<Seq<char>> {
        match self.config.etherscan_api_key {
            Some(k) => Some(k@),
            None => None,
        }
    }

    /// The directory of the store on disk.
    pub closed spec fn store(&self) -> Seq<char> {
        self.config.cache_dir@
    }

    /// The name of the default network.
    pub closed spec fn default_network(&self) -> Seq<char> {
        self.default_network@
    }

    /// The name of the network that is meant: the given one, or the default
    /// network where none is given.
    pub open spec fn network_name(&self, network: Option<Seq<char>>) -> Seq<char> {
        match network {
            Some(n) => n,
            None => self.default_network(),
        }
    }

    /// A resolver with an empty memory tier, for a configuration whose default
    /// network is `default_network`.
    pub fn new(config: AbiSource, default_network: &str) -> (r: Self)
        ensures
            r.cache() == Map::<Seq<char>, InterfaceView>::empty(),
            r.store() == config.cache_dir@,
            r.default_network() == default_network@,
            r.api_key() == match config.etherscan_api_key {
                Some(k) => Some(k@),
                None => None,
            },
    {
        let r = AbiResolver {
            config,
            default_network: String::from_str(default_network),
            memory_cache: Vec::new(),
        };
        proof {
            assert(r.cache() =~= Map::<Seq<char>, InterfaceView>::empty());
        }
        r
    }

    /// The key under which the description of the contract at `address` on
    /// `network` is kept; without a network, on the default network.
    pub fn cache_key(&self, address: &str, network: Option<&str>) -> (r: String)
        ensures
            r@ == key_of(address@, self.network_name(name_view(network))),
    {
        let mut key = match network {
            Some(n) => String::from_str(n),
            None => self.default_network.clone(),
        };
        key.append("_");
        key.append(lowercase(address).as_str());
        key
    }

    /// The name of the file that holds the description kept under `cache_key`.
    pub fn cache_file_name(cache_key: &str) -> (r: String)
        ensures
            r@ == file_of(cache_key@),
    {
        let mut name = String::from_str(cache_key);
        name.append(".json");
        name
    }

    /// The position of the last entry under `key`.
    fn position(&self, key: &str) -> (r: Option<usize>)
        ensures
            match r {
                Some(i) => i < self.memory_cache.len() && self.memory_cache@[i as int].0@ == key@
                    && last_entry(self.memory_cache@, key@) == Some(
                    self.memory_cache@[i as int].1@,
                ) && forall|j: int|
                    i < j < self.memory_cache.len() ==> (#[trigger] self.memory_cache@[j]).0@
                        != key@,
                None => last_entry(self.memory_cache@, key@) is None,
            },
    {
        let wanted = to_chars(key);
        let mut i: usize = self.memory_cache.len();
        proof {
            assert(self.memory_cache@.subrange(0, i as int) == self.memory_cache@);
        }
        while i > 0
            invariant
                i <= self.memory_cache.len(),
                wanted@ == key@,
                last_entry(self.memory_cache@, key@) == last_entry(
                    self.memory_cache@.subrange(0, i as int),
                    key@,
                ),
                forall|j: int|
                    i <= j < self.memory_cache.len() ==> (#[trigger] self.memory_cache@[j]).0@
                        != key@,
            decreases i,
        {
            let have = to_chars(self.memory_cache[i - 1].0.as_str());
            proof {
                let upto = self.memory_cache@.subrange(0, i as int);
                assert(upto.last() == self.memory_cache@[i - 1]);
                assert(upto.drop_last() == self.memory_cache@.subrange(0, i - 1));
            }
            if chars_eq(&have, &wanted) {
                return Some(i - 1);
            }
            i -= 1;
        }
        None
    }

    /// Keeps `abi` under `key` in the memory tier, in place of what was there.
    fn remember(&mut self, key: String, abi: InterfaceDescription)
        ensures
            final(self).cache() == old(self).cache().insert(key@, abi@),
            final(self).api_key() == old(self).api_key(),
            final(self).store() == old(self).store(),
            final(self).default_network() == old(self).default_network(),
    {
        let ghost before = self.memory_cache@;
        let ghost k = key@;
        let ghost d = abi@;
        match self.position(key.as_str()) {
            Some(i) => {
                self.memory_cache.set(i, (key, abi));
                proof {
                    assert forall|other: Seq<char>| true implies #[trigger] last_entry(
                        self.memory_cache@,
                        other,
                    ) == (if other == k {
                        Some(d)
                    } else {
                        last_entry(before, other)
                    }) by {
                        Self::entry_replaced(before, self.memory_cache@, i as int, other);
                    }
                    assert(self.cache() =~= old(self).cache().insert(k, d));
                }
            },
            None => {
                self.memory_cache.push((key, abi));
                proof {
                    assert(self.memory_cache@.drop_last() == before);
                    assert(self.cache() =~= old(self).cache().insert(k, d));
                }
            },
        }
    }

    /// Replacing the entry at `i` by one of the same key changes what is kept
    /// under that key, where `i` is the last entry of the key, and nothing else.
    proof fn entry_replaced(
        a: Seq<(String, InterfaceDescription)>,
        b: Seq<(String, InterfaceDescription)>,
        i: int,
        key: Seq<char>,
    )
        requires
            0 <= i < a.len(),
            b == a.update(i, b[i]),
            b[i].0@ == a[i].0@,
            forall|j: int| i < j < a.len() ==> (#[trigger] a[j]).0@ != a[i].0@,
        ensures
            key == a[i].0@ ==> last_entry(b, key) == Some(b[i].1@),
            key != a[i].0@ ==> last_entry(b, key) == last_entry(a, key),
        decreases a.len(),
    {
        if i == a.len() - 1 {
            assert(b.drop_last() =~= a.drop_last());
        } else {
            assert(b.last() == a.last());
            assert(a.last() == a[a.len() - 1]);
            assert(b.drop_last() =~= a.drop_last().update(i, b[i]));
            assert forall|j: int| i < j < a.drop_last().len() implies (#[trigger] a.drop_last()[j]).0@
                != a.drop_last()[i].0@ by {
                assert(a[j].0@ != a[i].0@);
            }
            Self::entry_replaced(a.drop_last(), b.drop_last(), i, key);
        }
    }

    /// The memory tier's answer for the contract at `address` on `network`.
    ///
    /// Where the description is in memory it is handed out, and nothing is to
    /// be read or fetched. Where it is not, the result names the file of the
    /// store on disk that is to be read next.
    pub fn get_abi(&self, address: &str, network: Option<&str>) -> (r: AbiLookup)
        ensures
            match r {
                AbiLookup::Cached(d) => self.cache().contains_key(key_of(address@, self.network_name(name_view(network))))
                    && d@ == self.cache()[key_of(address@, self.network_name(name_view(network)))],
                AbiLookup::ReadCache { cache_key, file_name } => !self.cache().contains_key(
                    key_of(address@, self.network_name(name_view(network))),
                ) && cache_key@ == key_of(address@, self.network_name(name_view(network))) && file_name@ == file_of(
                    key_of(address@, self.network_name(name_view(network))),
                ),
            },
    {
        let key = self.cache_key(address, network);
        match self.position(key.as_str()) {
            Some(i) => AbiLookup::Cached(self.memory_cache[i].1.clone()),
            None => {
                let file_name = Self::cache_file_name(key.as_str());
                AbiLookup::ReadCache { cache_key: key, file_name }
            },
        }
    }

    /// Takes what the store on disk holds under `cache_key`: the content of
    /// the file, or none where the file is absent or cannot be read.
    ///
    /// Content that is an interface description is kept in the memory tier and
    /// handed out. Anything else is a miss, not an error.
    pub fn load_cached_abi(&mut self, cache_key: &str, content: Option<&str>) -> (r: Option<
        InterfaceDescription,
    >)
        ensures
            final(self).api_key() == old(self).api_key(),
            final(self).store() == old(self).store(),
            final(self).default_network() == old(self).default_network(),
            match r {
                Some(d) => content is Some && parsed_interface(content->0@) == Ok::<
                    InterfaceView,
                    Seq<char>,
                >(d@) && final(self).cache() == apply(
                    old(self).cache(),
                    CacheEvent::Resolved(cache_key@, d@),
                ),
                None => (content is None || parsed_interface(content->0@) is Err)
                    && final(self).cache() == old(self).cache(),
            },
    {
        match content {
            None => None,
            Some(text) => match parse_interface(text) {
                Ok(d) => {
                    self.remember(String::from_str(cache_key), d.clone());
                    Some(d)
                },
                Err(_) => None,
            },
        }
    }

    /// The address of the lookup request for the contract at `address` on
    /// `network`. A network without a lookup service fails at once.
    pub fn fetch_from_etherscan(&self, address: &str, network: Option<&str>) -> (r: Result<
        String,
        EngineError,
    >)
        ensures
            match service_of(self.network_name(name_view(network))) {
                Some(base) => r is Ok && r->Ok_0@ == request_url(base, address@, self.api_key()),
                None => r is Err && r->Err_0@ == (ErrorView {
                    kind: ErrorKind::InterfaceUnavailable,
                    message: "Unsupported network for Etherscan: "@ + self.network_name(
                        name_view(network),
                    ),
                }),
            },
    {
        let name: &str = match network {
            Some(n) => n,
            None => self.default_network.as_str(),
        };
        let base: &str = if str_eq(name, "mainnet") || str_eq(name, "ethereum") {
            "https://api.etherscan.io"
        } else if str_eq(name, "sepolia") {
            "https://api-sepolia.etherscan.io"
        } else if str_eq(name, "goerli") {
            "https://api-goerli.etherscan.io"
        } else if str_eq(name, "polygon") {
            "https://api.polygonscan.com"
        } else if str_eq(name, "arbitrum") {
            "https://api.arbiscan.io"
        } else if str_eq(name, "optimism") {
            "https://api-optimistic.etherscan.io"
        } else {
            let mut m = String::from_str("Unsupported network for Etherscan: ");
            m.append(name);
            return Err(EngineError::new(ErrorKind::InterfaceUnavailable, m));
        };
        let mut url = String::from_str(base);
        url.append("/api?module=contract&action=getabi&address=");
        url.append(address);
        url.append("&format=json");
        match &self.config.etherscan_api_key {
            Some(k) => {
                url.append("&apikey=");
                url.append(k.as_str());
            },
            None => {},
        }
        Ok(url)
    }

    /// Reads the reply of the lookup service: the interface description that
    /// it carries, or why it carries none.
    pub fn read_reply(reply: &RemoteReply) -> (r: Result<InterfaceDescription, EngineError>)
        ensures
            match r {
                Ok(d) => reply_outcome(*reply) == Ok::<InterfaceView, ErrorView>(d@),
                Err(e) => reply_outcome(*reply) == Err::<InterfaceView, ErrorView>(e@),
            },
    {
        match reply {
            RemoteReply::Unreachable(e) => {
                let mut m = String::from_str("Failed to fetch from Etherscan: ");
                m.append(e.as_str());
                Err(EngineError::new(ErrorKind::RemoteService, m))
            },
            RemoteReply::Unreadable(e) => {
                let mut m = String::from_str("Failed to parse Etherscan response: ");
                m.append(e.as_str());
                Err(EngineError::new(ErrorKind::RemoteService, m))
            },
            RemoteReply::Envelope(v) => {
                let result = v.get("result");
                let result_text: Option<&str> = match result {
                    Some(x) => x.as_str(),
                    None => None,
                };
                match result_text {
                    Some(t) => {
                        if str_eq(t, "Contract source code not verified") {
                            return Err(
                                EngineError::new(
                                    ErrorKind::InterfaceUnavailable,
                                    String::from_str(
                                        "Contract source code is not verified on Etherscan",
                                    ),
                                ),
                            );
                        }
                    },
                    None => {},
                }
                let status_ok = match v.get("status") {
                    Some(x) => match x.as_str() {
                        Some(t) => str_eq(t, "1"),
                        None => false,
                    },
                    None => false,
                };
                if !status_ok {
                    let mut m = String::from_str("Etherscan API error: ");
                    let said: Option<&str> = match v.get("message") {
                        Some(x) => x.as_str(),
                        None => None,
                    };
                    match said {
                        Some(t) => {
                            m.append(t);
                        },
                        None => {
                            m.append("Unknown error");
                        },
                    }
                    return Err(EngineError::new(ErrorKind::RemoteService, m));
                }
                match result_text {
                    None => Err(
                        EngineError::new(
                            ErrorKind::RemoteService,
                            String::from_str("No ABI found in response"),
                        ),
                    ),
                    Some(text) => InterfaceDescription::from_json(text),
                }
            },
        }
    }

    /// Keeps a description that the lookup service gave under `cache_key` in
    /// the memory tier, and says what is to be written to the store on disk.
    pub fn cache_abi(&mut self, cache_key: &str, abi: &InterfaceDescription) -> (r: CacheWrite)
        ensures
            final(self).cache() == apply(old(self).cache(), CacheEvent::Resolved(cache_key@, abi@)),
            final(self).api_key() == old(self).api_key(),
            final(self).store() == old(self).store(),
            final(self).default_network() == old(self).default_network(),
            r.file_name@ == file_of(cache_key@),
            r.content@ == abi@.document,
    {
        self.remember(String::from_str(cache_key), abi.clone());
        CacheWrite { file_name: Self::cache_file_name(cache_key), content: abi.document.clone() }
    }

    /// Registers a description by hand, for a contract whose source is not
    /// verified. It stays in the memory tier until the cache is cleared.
    pub fn add_manual_abi(&mut self, address: &str, network: Option<&str>, abi: InterfaceDescription)
        ensures
            final(self).cache() == apply(
                old(self).cache(),
                CacheEvent::Registered(
                    key_of(address@, old(self).network_name(name_view(network))),
                    abi@,
                ),
            ),
            final(self).api_key() == old(self).api_key(),
            final(self).store() == old(self).store(),
            final(self).default_network() == old(self).default_network(),
    {
        let key = self.cache_key(address, network);
        self.remember(key, abi);
    }

    /// Whether a description for the contract is at hand without fetching: in
    /// the memory tier, or in the store on disk as `on_disk` says.
    pub fn has_abi(&self, address: &str, network: Option<&str>, on_disk: bool) -> (r: bool)
        ensures
            r == (self.cache().contains_key(key_of(address@, self.network_name(name_view(network)))) || on_disk),
    {
        let key = self.cache_key(address, network);
        match self.position(key.as_str()) {
            Some(_) => true,
            None => on_disk,
        }
    }

    /// The directory of the store on disk.
    pub fn cache_dir(&self) -> (r: String)
        ensures
            r@ == self.store(),
    {
        self.config.cache_dir.clone()
    }

    /// Empties the memory tier. `removal` is how the removal of the store on
    /// disk went: none where it went well or there was nothing to remove, else
    /// the failure's text, which is reported.
    pub fn clear_cache(&mut self, removal: Option<&str>) -> (r: Result<(), EngineError>)
        ensures
            final(self).cache() == apply(old(self).cache(), CacheEvent::Cleared),
            final(self).api_key() == old(self).api_key(),
            final(self).store() == old(self).store(),
            final(self).default_network() == old(self).default_network(),
            match removal {
                None => r is Ok,
                Some(e) => r is Err && r->Err_0@ == (ErrorView {
                    kind: ErrorKind::InterfaceUnavailable,
                    message: "Failed to clear cache directory: "@ + e@,
                }),
            },
    {
        self.memory_cache = Vec::new();
        proof {
            assert(self.cache() =~= Map::<Seq<char>, InterfaceView>::empty());
        }
        match removal {
            None => Ok(()),
            Some(e) => {
                let mut m = String::from_str("Failed to clear cache directory: ");
                m.append(e);
                Err(EngineError::new(ErrorKind::InterfaceUnavailable, m))
            },
        }
    }
}

} // verus!
