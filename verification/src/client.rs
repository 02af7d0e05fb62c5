//! The client: a resolved version, the service's base address and the cache
//! directory, fixed at construction, and the requests that follow from them.

use vstd::prelude::*;
use vstd::string::StringExecFns;

use crate::address::{
    build_data_path, data_root, document_address, join_url, normalize, resolve, url_join,
    url_parse, VERSIONS_PATH,
};
use crate::error::{DDragonClientError, Reply};
use crate::retrieval::{dir_text, Retrieval};
use crate::versions::{json_string_list, refusal, resolve_version, resolved};

verus! {

/// The address of the production service.
pub const BASE_URL: &'static str = "https://ddragon.leagueoflegends.com";

/// The file of the challenges document, relative to the document root.
pub const CHALLENGES: &'static str = "./challenges.json";

/// The file of the champions document.
pub const CHAMPIONS: &'static str = "./champion.json";

/// The file of the items document.
pub const ITEMS: &'static str = "./item.json";

/// The file of the runes document.
pub const RUNES: &'static str = "./runesReforged.json";

/// The file of the summoner-spells document.
pub const SUMMONER_SPELLS: &'static str = "./summoner.json";

/// The file of the translations document.
pub const TRANSLATIONS: &'static str = "./language.json";

/// A client of the service at one resolved version.
#[derive(Debug)]
pub struct DDragonClient {
    /// The version that scopes every request of this client.
    pub version: String,
    base_url: String,
    cache_dir: Option<String>,
}

impl DDragonClient {
    /// The version that scopes every request of this client.
    pub closed spec fn resolved_version(&self) -> Seq<char> {
        self.version@
    }

    /// The base address of the service.
    pub closed spec fn base(&self) -> Seq<char> {
        self.base_url@
    }

    /// The cache directory, or `None` where nothing is cached.
    pub closed spec fn cache(&self) -> Option<Seq<char>> {
        dir_text(self.cache_dir)
    }

    /// Whether `r` is what construction owes for a base address, a cache
    /// directory and the reply to the version-list request: an address error
    /// where the version list has no address under the base; else the reply's
    /// own error where it resolves to no version; else a client at the reply's
    /// first version that keeps the base and the cache directory.
    pub open spec fn constructed(
        cache_dir: Option<Seq<char>>,
        base_url: Seq<char>,
        reply: Reply,
        r: Result<DDragonClient, DDragonClientError>,
    ) -> bool {
        if url_join(base_url, VERSIONS_PATH@) is None {
            r matches Err(e) && e is UrlParse
        } else {
            match resolved(reply) {
                Some(version) => r matches Ok(client) && client.resolved_version() == version
                    && client.base() == base_url && client.cache() == cache_dir,
                None => r matches Err(e) && refusal(reply, e),
            }
        }
    }

    /// Whether `r` is what construction at the production address owes.
    pub open spec fn constructed_at_default(
        cache_dir: Option<Seq<char>>,
        reply: Reply,
        r: Result<DDragonClient, DDragonClientError>,
    ) -> bool {
        match url_parse(BASE_URL@) {
            Some(base) => DDragonClient::constructed(cache_dir, base, reply, r),
            None => r matches Err(e) && e is UrlParse,
        }
    }

    /// Whether `r` is the start of the retrieval of `endpoint`: at the
    /// endpoint's address, with this client's cache directory, before anything
    /// was done; or an address error where the endpoint has no address.
    pub open spec fn retrieves<T>(
        &self,
        endpoint: Seq<char>,
        r: Result<Retrieval<T>, DDragonClientError>,
    ) -> bool {
        match document_address(self.base(), self.resolved_version(), endpoint) {
            Some(address) => r matches Ok(retrieval) && retrieval.starts(address, self.cache())
                && retrieval.wf(),
            None => r matches Err(e) && e is UrlParse,
        }
    }

    /// Where the version list has an address and the reply carries a list,
    /// construction goes by the list alone: on every list with at least one
    /// entry it succeeds, at the first entry, whatever the length of the list
    /// and whatever follows; on the empty list it fails for want of a version.
    pub proof fn construction_follows_the_list(
        cache_dir: Option<Seq<char>>,
        base_url: Seq<char>,
        text: String,
        list: Seq<Seq<char>>,
        r: Result<DDragonClient, DDragonClientError>,
    )
        requires
            url_join(base_url, VERSIONS_PATH@) is Some,
            json_string_list(text@) == Some(list),
            DDragonClient::constructed(cache_dir, base_url, Reply::Body(text), r),
        ensures
            list.len() >= 1 ==> (r matches Ok(client) && client.resolved_version() == list[0]
                && client.base() == base_url && client.cache() == cache_dir),
            list.len() == 0 ==> (r matches Err(e) && e is NoLatestVersion),
    {
    }

    /// Where the reply carries no list, construction fails with the reply's
    /// own error: a decode error for a body that is no list of strings, a
    /// request error where the service could not be reached, a read error for
    /// a body that is no text.
    pub proof fn construction_fails_with_the_reply(
        cache_dir: Option<Seq<char>>,
        base_url: Seq<char>,
        reply: Reply,
        r: Result<DDragonClient, DDragonClientError>,
    )
        requires
            url_join(base_url, VERSIONS_PATH@) is Some,
            DDragonClient::constructed(cache_dir, base_url, reply, r),
        ensures
            (reply matches Reply::Body(text) && json_string_list(text@) is None) ==> (r matches Err(
                e,
            ) && e is JSONParse),
            reply matches Reply::RequestFailed(why) ==> (r matches Err(e) && e
                == DDragonClientError::Request(why)),
            reply matches Reply::BodyUnreadable(why) ==> (r matches Err(e) && e
                == DDragonClientError::Parse(why)),
    {
    }

    /// The address to request the version list from, for a service at
    /// `base_url`.
    pub fn versions_url(base_url: &str) -> (r: Result<String, DDragonClientError>)
        ensures
            match r {
                Ok(address) => url_join(base_url@, VERSIONS_PATH@) == Some(address@),
                Err(e) => url_join(base_url@, VERSIONS_PATH@) is None && e is UrlParse,
            },
    {
        resolve(base_url, VERSIONS_PATH)
    }

    /// Constructs a client of the service at `base_url` from the reply to the
    /// version-list request. There is no partially constructed client: every
    /// failure ends construction.
    pub fn create(cache_dir: Option<String>, base_url: String, reply: Reply) -> (r: Result<
        DDragonClient,
        DDragonClientError,
    >)
        ensures
            DDragonClient::constructed(dir_text(cache_dir), base_url@, reply, r),
    {
        let _ = DDragonClient::versions_url(base_url.as_str())?;
        let version = resolve_version(reply)?;
        Ok(DDragonClient { version, base_url, cache_dir })
    }

    /// Constructs a client of the production service with an optional cache
    /// directory, from the reply that the caller's transport got for the
    /// version list.
    pub fn with_agent(reply: Reply, cache_dir: Option<String>) -> (r: Result<
        DDragonClient,
        DDragonClientError,
    >)
        ensures
            DDragonClient::constructed_at_default(dir_text(cache_dir), reply, r),
    {
        let base_url = normalize(BASE_URL)?;
        DDragonClient::create(cache_dir, base_url, reply)
    }

    /// Constructs a client of the production service that caches under
    /// `cache_dir`.
    pub fn with_cache(cache_dir: &str, reply: Reply) -> (r: Result<
        DDragonClient,
        DDragonClientError,
    >)
        ensures
            DDragonClient::constructed_at_default(Some(cache_dir@), reply, r),
    {
        let dir = String::from_str(cache_dir);
        DDragonClient::with_agent(reply, Some(dir))
    }

    /// Constructs a client of the production service that caches nothing.
    pub fn new(reply: Reply) -> (r: Result<DDragonClient, DDragonClientError>)
        ensures
            DDragonClient::constructed_at_default(None, reply, r),
    {
        DDragonClient::with_agent(reply, None)
    }

    /// The resolved version.
    pub fn version(&self) -> (r: &str)
        ensures
            r@ == self.resolved_version(),
    {
        self.version.as_str()
    }

    /// The base address of the service.
    pub fn base_url(&self) -> (r: &str)
        ensures
            r@ == self.base(),
    {
        self.base_url.as_str()
    }

    /// The cache directory, or `None` where nothing is cached.
    pub fn cache_dir(&self) -> (r: &Option<String>)
        ensures
            dir_text(*r) == self.cache(),
    {
        &self.cache_dir
    }

    /// The address of the document root of this client's version: the path
    /// `/cdn/{version}/data/en_US/` resolved against the base address.
    pub fn get_data_url(&self) -> (r: Result<String, url::ParseError>)
        ensures
            match r {
                Ok(root) => data_root(self.base(), self.resolved_version()) == Some(root@),
                Err(_) => data_root(self.base(), self.resolved_version()) is None,
            },
    {
        let path = build_data_path(self.version.as_str());
        join_url(self.base_url.as_str(), path.as_str())
    }

    /// Starts the retrieval of the document `endpoint`, a file name relative
    /// to the document root.
    pub fn get_data<T>(&self, endpoint: &str) -> (r: Result<Retrieval<T>, DDragonClientError>)
        ensures
            self.retrieves(endpoint@, r),
    {
        let root = match self.get_data_url() {
            Ok(root) => root,
            Err(e) => {
                return Err(DDragonClientError::UrlParse(e));
            },
        };
        let address = resolve(root.as_str(), endpoint)?;
        let cache_dir = match &self.cache_dir {
            Some(dir) => Some(dir.clone()),
            None => None,
        };
        Ok(Retrieval::start(address, cache_dir))
    }

    /// Starts the retrieval of the challenges document.
    pub fn challenges<T>(&self) -> (r: Result<Retrieval<T>, DDragonClientError>)
        ensures
            self.retrieves(CHALLENGES@, r),
    {
        self.get_data(CHALLENGES)
    }

    /// Starts the retrieval of the champions document.
    pub fn champions<T>(&self) -> (r: Result<Retrieval<T>, DDragonClientError>)
        ensures
            self.retrieves(CHAMPIONS@, r),
    {
        self.get_data(CHAMPIONS)
    }

    /// Starts the retrieval of the items document.
    pub fn items<T>(&self) -> (r: Result<Retrieval<T>, DDragonClientError>)
        ensures
            self.retrieves(ITEMS@, r),
    {
        self.get_data(ITEMS)
    }

    /// Starts the retrieval of the runes document.
    pub fn runes<T>(&self) -> (r: Result<Retrieval<T>, DDragonClientError>)
        ensures
            self.retrieves(RUNES@, r),
    {
        self.get_data(RUNES)
    }

    /// Starts the retrieval of the summoner-spells document.
    pub fn summoner_spells<T>(&self) -> (r: Result<Retrieval<T>, DDragonClientError>)
        ensures
            self.retrieves(SUMMONER_SPELLS@, r),
    {
        self.get_data(SUMMONER_SPELLS)
    }

    /// Starts the retrieval of the translations document.
    pub fn translations<T>(&self) -> (r: Result<Retrieval<T>, DDragonClientError>)
        ensures
            self.retrieves(TRANSLATIONS@, r),
    {
        self.get_data(TRANSLATIONS)
    }
}

} // verus!
