//! The catalog client: the transport it sends through, the limiter that all
//! its requests share, and the request of each of its operations.

use std::sync::Arc;

use vstd::prelude::*;

use super::error::{MbError, MbErrorView, MbResult};
use super::limiter::RateLimiter;
use super::text::{
    decimal_text, hyphenated, hyphenated_text, percent_encode, percent_encoded, push_decimal,
    uuid_bytes,
};

verus! {

/// The address of the catalog service.
pub const DEFAULT_BASE_URL: &'static str = "https://musicbrainz.org/ws/2";

/// How the client names itself to the service where the caller gives no
/// name.
pub const DEFAULT_USER_AGENT: &'static str =
    "OpenMusicPlayer/0.1.0 (https://github.com/openmusicplayer)";

/// The time that one call may take in all, in seconds.
pub const REQUEST_TIMEOUT_SECS: u64 = 30;

/// The size of a page of search results where the caller gives none.
pub const DEFAULT_LIMIT: u32 = 25;

/// The largest page of search results that the service hands out.
pub const MAX_LIMIT: u32 = 100;

#[verifier::external_type_specification]
#[verifier::external_body]
pub struct ExTransport(reqwest::Client);

#[verifier::external_type_specification]
#[verifier::external_body]
#[verifier::reject_recursive_types(T)]
pub struct ExGuard<T: ?Sized>(tokio::sync::Mutex<T>);

/// `reqwest::Client`'s `clone`, which hands out another handle to the same
/// transport. Trusted: nothing is claimed of the result.
pub assume_specification[ <reqwest::Client as Clone>::clone ](transport: &reqwest::Client) -> (handle:
    reqwest::Client)
;

/// Builds the transport with `reqwest`'s `ClientBuilder`: the given user
/// agent, the given timeout for a whole call.
///
/// Trusted: nothing is claimed of the result. The builder refuses a user
/// agent that is no header value, and fails where it cannot set itself up.
#[verifier::external_body]
fn build_transport(user_agent: &str, timeout_secs: u64) -> (transport: Result<
    reqwest::Client,
    reqwest::Error,
>) {
    reqwest::Client::builder().user_agent(user_agent).timeout(
        std::time::Duration::from_secs(timeout_secs),
    ).build()
}

/// Puts a limiter behind `tokio`'s `Mutex`, unlocked.
///
/// Trusted: nothing is claimed of the result.
#[verifier::external_body]
fn guarded(limiter: RateLimiter) -> (guard: tokio::sync::Mutex<RateLimiter>) {
    tokio::sync::Mutex::new(limiter)
}

/// The size of the page that is asked for: the caller's, or the default,
/// and never more than the service hands out.
pub open spec fn page_limit(limit: Option<u32>) -> u32 {
    let asked = match limit {
        Some(asked) => asked,
        None => DEFAULT_LIMIT,
    };
    if asked <= MAX_LIMIT {
        asked
    } else {
        MAX_LIMIT
    }
}

/// The number of results that are skipped: the caller's, or none.
pub open spec fn page_offset(offset: Option<u32>) -> u32 {
    match offset {
        Some(asked) => asked,
        None => 0,
    }
}

/// The address of a search for `query` among the entities of one kind.
pub open spec fn search_url(
    base: Seq<char>,
    entity: Seq<char>,
    query: Seq<char>,
    limit: Option<u32>,
    offset: Option<u32>,
) -> Seq<char> {
    base + "/"@ + entity + "?query="@ + percent_encoded(query) + "&limit="@ + decimal_text(
        page_limit(limit) as nat,
    ) + "&offset="@ + decimal_text(page_offset(offset) as nat) + "&fmt=json"@
}

/// The address of the entity of one kind with the identifier `id`, with
/// the related entities `inc` in the answer.
pub open spec fn lookup_url(base: Seq<char>, entity: Seq<char>, id: Seq<u8>, inc: Seq<char>) -> Seq<
    char,
> {
    base + "/"@ + entity + "/"@ + hyphenated_text(id) + "?inc="@ + inc + "&fmt=json"@
}

/// A page larger than the service hands out is asked for as the largest
/// one, and a search without an offset starts at the first result.
pub proof fn lemma_search_url_clamps(
    base: Seq<char>,
    entity: Seq<char>,
    query: Seq<char>,
    limit: u32,
    offset: Option<u32>,
)
    requires
        limit >= MAX_LIMIT,
    ensures
        search_url(base, entity, query, Some(limit), offset) == search_url(
            base,
            entity,
            query,
            Some(MAX_LIMIT),
            offset,
        ),
        search_url(base, entity, query, Some(limit), None) == search_url(
            base,
            entity,
            query,
            Some(limit),
            Some(0),
        ),
{
}

/// The catalog client.
///
/// Clones of a client share its limiter: however many there are, their
/// requests leave one interval apart.
#[derive(Clone)]
pub struct MusicBrainzClient {
    client: reqwest::Client,
    base_url: String,
    rate_limiter: Arc<tokio::sync::Mutex<RateLimiter>>,
}

/// What the requests of a client depend on.
pub struct ClientView {
    pub base_url: Seq<char>,
}

impl View for MusicBrainzClient {
    type V = ClientView;

    closed spec fn view(&self) -> ClientView {
        ClientView { base_url: self.base_url@ }
    }
}

impl MusicBrainzClient {
    /// The transport of the client.
    pub closed spec fn transport(&self) -> reqwest::Client {
        self.client
    }

    /// The handle of the client to the limiter that it shares with its
    /// clones.
    pub closed spec fn limiter_handle(&self) -> Arc<tokio::sync::Mutex<RateLimiter>> {
        self.rate_limiter
    }

    /// A client for the catalog service under the default name.
    pub fn new() -> (client: MbResult<Self>)
        ensures
            client matches Ok(made) ==> made@.base_url == DEFAULT_BASE_URL@,
            client matches Err(failure) ==> failure@ is Request,
    {
        Self::with_user_agent(DEFAULT_USER_AGENT)
    }

    /// A client for the catalog service under the name `user_agent`.
    pub fn with_user_agent(user_agent: &str) -> (client: MbResult<Self>)
        ensures
            client matches Ok(made) ==> made@.base_url == DEFAULT_BASE_URL@,
            client matches Err(failure) ==> failure@ is Request,
    {
        Self::with_base_url(user_agent, DEFAULT_BASE_URL)
    }

    /// A client for the service at `base_url` under the name `user_agent`.
    pub fn with_base_url(user_agent: &str, base_url: &str) -> (client: MbResult<Self>)
        ensures
            client matches Ok(made) ==> made@.base_url == base_url@,
            client matches Err(failure) ==> failure@ is Request,
    {
        Self::assemble(build_transport(user_agent, REQUEST_TIMEOUT_SECS), base_url)
    }

    /// Makes a client of what building its transport gave: with the
    /// transport, a client for `base_url` behind a new limiter; without, the
    /// failure of the transport.
    pub fn assemble(transport: Result<reqwest::Client, reqwest::Error>, base_url: &str) -> (client:
        MbResult<Self>)
        ensures
            match transport {
                Ok(built) => client matches Ok(made) && made@.base_url == base_url@
                    && made.transport() == built,
                Err(e) => client matches Err(failure) && failure@ == MbErrorView::Request(e),
            },
    {
        match transport {
            Ok(client) => Ok(
                MusicBrainzClient {
                    client,
                    base_url: base_url.to_owned(),
                    rate_limiter: Arc::new(guarded(RateLimiter::new())),
                },
            ),
            Err(e) => Err(MbError::from(e)),
        }
    }

    /// The address of the service.
    pub fn base_url(&self) -> (base_url: &str)
        ensures
            base_url@ == self@.base_url,
    {
        self.base_url.as_str()
    }

    /// The transport through which the requests of the client go.
    pub fn http(&self) -> (transport: &reqwest::Client)
        ensures
            *transport == self.transport(),
    {
        &self.client
    }

    /// The limiter that the client and its clones share.
    pub fn rate_limiter(&self) -> (handle: &Arc<tokio::sync::Mutex<RateLimiter>>)
        ensures
            *handle == self.limiter_handle(),
    {
        &self.rate_limiter
    }

    fn search(&self, entity: &str, query: &str, limit: Option<u32>, offset: Option<u32>) -> (url:
        String)
        ensures
            url@ == search_url(self@.base_url, entity@, query@, limit, offset),
    {
        let asked = match limit {
            Some(asked) => asked,
            None => DEFAULT_LIMIT,
        };
        let limit = if asked <= MAX_LIMIT {
            asked
        } else {
            MAX_LIMIT
        };
        let offset = match offset {
            Some(asked) => asked,
            None => 0,
        };
        let mut url = self.base_url.clone();
        url.append("/");
        url.append(entity);
        url.append("?query=");
        url.append(percent_encode(query).as_str());
        url.append("&limit=");
        push_decimal(&mut url, limit as u64);
        url.append("&offset=");
        push_decimal(&mut url, offset as u64);
        url.append("&fmt=json");
        url
    }

    fn lookup(&self, entity: &str, mbid: &uuid::Uuid, inc: &str) -> (url: String)
        ensures
            url@ == lookup_url(self@.base_url, entity@, uuid_bytes(*mbid), inc@),
    {
        let mut url = self.base_url.clone();
        url.append("/");
        url.append(entity);
        url.append("/");
        url.append(hyphenated(mbid).as_str());
        url.append("?inc=");
        url.append(inc);
        url.append("&fmt=json");
        url
    }

    /// The request of a search for recordings: `limit` is 25 where none is
    /// given and at most 100, `offset` is 0 where none is given.
    pub fn search_recordings(&self, query: &str, limit: Option<u32>, offset: Option<u32>) -> (url:
        String)
        ensures
            url@ == search_url(self@.base_url, "recording"@, query@, limit, offset),
    {
        self.search("recording", query, limit, offset)
    }

    /// The request of a search for artists.
    pub fn search_artists(&self, query: &str, limit: Option<u32>, offset: Option<u32>) -> (url:
        String)
        ensures
            url@ == search_url(self@.base_url, "artist"@, query@, limit, offset),
    {
        self.search("artist", query, limit, offset)
    }

    /// The request of a search for releases.
    pub fn search_releases(&self, query: &str, limit: Option<u32>, offset: Option<u32>) -> (url:
        String)
        ensures
            url@ == search_url(self@.base_url, "release"@, query@, limit, offset),
    {
        self.search("release", query, limit, offset)
    }

    /// The request of a recording, with its artists and releases.
    pub fn lookup_recording(&self, mbid: uuid::Uuid) -> (url: String)
        ensures
            url@ == lookup_url(
                self@.base_url,
                "recording"@,
                uuid_bytes(mbid),
                "artists+releases"@,
            ),
    {
        self.lookup("recording", &mbid, "artists+releases")
    }

    /// The request of an artist, with its recordings and releases.
    pub fn lookup_artist(&self, mbid: uuid::Uuid) -> (url: String)
        ensures
            url@ == lookup_url(
                self@.base_url,
                "artist"@,
                uuid_bytes(mbid),
                "recordings+releases"@,
            ),
    {
        self.lookup("artist", &mbid, "recordings+releases")
    }

    /// The request of a release, with its artists.
    pub fn lookup_release(&self, mbid: uuid::Uuid) -> (url: String)
        ensures
            url@ == lookup_url(self@.base_url, "release"@, uuid_bytes(mbid), "artists"@),
    {
        self.lookup("release", &mbid, "artists")
    }
}

} // verus!
