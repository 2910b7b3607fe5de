//! Servers the client uploads to.

use vstd::prelude::*;
use crate::client::{HealthCheckError, HealthCheckStatus};
use crate::errors::DbError;
use crate::ids::{is_canonical_id, new_random_id, parse_uuid, utc_now_micros, uuid_parse_result};
use crate::text::{trim, trimmed};

verus! {

/// A Miku Push! server known to the client. Times are microseconds since
/// the Unix epoch.
#[derive(Debug)]
pub struct Server {
    pub id: String,
    pub url: String,
    pub name: String,
    pub icon: Option<String>,
    pub alias: Option<String>,
    pub use_alias: bool,
    pub added_at: i64,
    pub connected_at: Option<i64>,
    pub testing: bool,
    pub connected: bool,
    pub healthy: bool,
}

/// Copies an optional text.
pub fn clone_opt_string(s: &Option<String>) -> (r: Option<String>)
    ensures
        r == *s,
{
    match s {
        Some(t) => Some(t.clone()),
        None => None,
    }
}

impl Clone for Server {
    fn clone(&self) -> (r: Self)
        ensures
            r == *self,
    {
        Server {
            id: self.id.clone(),
            url: self.url.clone(),
            name: self.name.clone(),
            icon: clone_opt_string(&self.icon),
            alias: clone_opt_string(&self.alias),
            use_alias: self.use_alias,
            added_at: self.added_at,
            connected_at: self.connected_at,
            testing: self.testing,
            connected: self.connected,
            healthy: self.healthy,
        }
    }
}

/// A server freshly added with the given id, url, name and time: no icon,
/// no alias, not testing, not connected, not healthy.
pub open spec fn fresh_server(id: Seq<char>, url: Seq<char>, name: Seq<char>, added_at: i64, s: Server) -> bool {
    &&& s.id@ == id
    &&& s.url@ == url
    &&& s.name@ == name
    &&& s.icon is None
    &&& s.alias is None
    &&& !s.use_alias
    &&& s.added_at == added_at
    &&& s.connected_at is None
    &&& !s.testing
    &&& !s.connected
    &&& !s.healthy
}

impl Server {
    /// A server added at the given time.
    pub fn new_added_at(id: String, url: String, name: String, added_at: i64) -> (s: Server)
        ensures
            fresh_server(id@, url@, name@, added_at, s),
    {
        Server {
            id,
            url,
            name,
            icon: None,
            alias: None,
            use_alias: false,
            added_at,
            connected_at: None,
            testing: false,
            connected: false,
            healthy: false,
        }
    }

    /// A server added now.
    pub fn new(id: String, url: String, name: String) -> (s: Server)
        ensures
            fresh_server(id@, url@, name@, s.added_at, s),
    {
        let now = utc_now_micros();
        Server::new_added_at(id, url, name, now)
    }
}

/// What `url::Url::parse` makes of a text: the parse error's message, or
/// the URL's host as `host_str` gives it (`None` when it has none).
pub uninterp spec fn url_host_result(url: Seq<char>) -> Result<Option<Seq<char>>, Seq<char>>;

/// `url::Url::parse(url)`, then `host_str()`. Trusted: the result is
/// `url_host_result` of the text.
#[verifier::external_body]
fn url_host(url: &str) -> (r: Result<Option<String>, String>)
    ensures
        match r {
            Ok(Some(h)) => url_host_result(url@) == Ok::<Option<Seq<char>>, Seq<char>>(Some(h@)),
            Ok(None) => url_host_result(url@) == Ok::<Option<Seq<char>>, Seq<char>>(None),
            Err(e) => url_host_result(url@) == Err::<Option<Seq<char>>, Seq<char>>(e@),
        },
{
    match url::Url::parse(url) {
        Ok(parsed) => match parsed.host_str() {
            Some(host) => Ok(Some(host.to_string())),
            None => Ok(None),
        },
        Err(err) => Err(err.to_string()),
    }
}

/// The name a server gets from its URL: the URL's host, or nothing.
pub open spec fn name_from_host(host: Option<Seq<char>>) -> Seq<char> {
    match host {
        Some(h) => h,
        None => Seq::empty(),
    }
}

impl Server {
    /// A server for the given URL, added now with a fresh random id and named
    /// after the URL's host; an error with the parser's message when the
    /// text is not a URL.
    pub fn new_from_url(url: String) -> (r: Result<Server, String>)
        ensures
            match url_host_result(url@) {
                Err(e) => r is Err && r->Err_0@ == e,
                Ok(host) => r is Ok && fresh_server(
                    r->Ok_0.id@,
                    url@,
                    name_from_host(host),
                    r->Ok_0.added_at,
                    r->Ok_0,
                ) && is_canonical_id(r->Ok_0.id@),
            },
    {
        let host = match url_host(url.as_str()) {
            Err(e) => return Err(e),
            Ok(Some(h)) => h,
            Ok(None) => String::new(),
        };
        Ok(Server::new(new_random_id(), url, host))
    }

    /// A server on the local machine for tests: `http://localhost:8080`,
    /// named `Test Server`, with a fresh random id.
    pub fn test() -> (s: Server)
        ensures
            fresh_server(s.id@, "http://localhost:8080"@, "Test Server"@, s.added_at, s),
            is_canonical_id(s.id@),
    {
        Server::new(
            new_random_id(),
            String::from_str("http://localhost:8080"),
            String::from_str("Test Server"),
        )
    }
}

impl Default for Server {
    /// A server with a fresh random id and an empty URL and name.
    fn default() -> (s: Server)
        ensures
            fresh_server(s.id@, Seq::empty(), Seq::empty(), s.added_at, s),
            is_canonical_id(s.id@),
    {
        Server::new(new_random_id(), String::new(), String::new())
    }
}

/// The key of the message shown when a server cannot be added.
pub const CREATE_SERVER_ERROR_KEY: &'static str = "errors.server.create_server";

/// What the user asks for when adding a server.
#[derive(Debug)]
pub struct CreateServer {
    pub use_alias: bool,
    pub alias: Option<String>,
    pub url: String,
}

/// The alias a server is given: the one asked for, trimmed, unless that is
/// empty.
pub open spec fn kept_alias(alias: Option<String>) -> Option<Seq<char>> {
    match alias {
        Some(a) => if trimmed(a@).len() == 0 {
            None
        } else {
            Some(trimmed(a@))
        },
        None => None,
    }
}

impl CreateServer {
    /// The server to add: made from the URL as `Server::new_from_url` does,
    /// with the alias asked for (trimmed; an empty one is dropped), used only
    /// when asked for and present. A text that is not a URL gives the
    /// message key `errors.server.create_server`.
    pub fn into_server(self) -> (r: Result<Server, String>)
        ensures
            match url_host_result(self.url@) {
                Err(_) => r is Err && r->Err_0@ == CREATE_SERVER_ERROR_KEY@,
                Ok(host) => r is Ok && {
                    let s = r->Ok_0;
                    &&& s.url@ == self.url@
                    &&& s.name@ == name_from_host(host)
                    &&& s.icon is None
                    &&& crate::client::opt_view(s.alias) == kept_alias(self.alias)
                    &&& s.use_alias == (self.use_alias && kept_alias(self.alias) is Some)
                    &&& s.connected_at is None
                    &&& !s.testing && !s.connected && !s.healthy
                },
            },
    {
        let alias = match self.alias {
            Some(a) => {
                let t = trim(a.as_str());
                if t.unicode_len() == 0 {
                    None
                } else {
                    Some(t)
                }
            },
            None => None,
        };
        let use_alias = self.use_alias && alias.is_some();
        let mut server = match Server::new_from_url(self.url) {
            Ok(server) => server,
            Err(_) => return Err(String::from_str(CREATE_SERVER_ERROR_KEY)),
        };
        server.alias = alias;
        server.use_alias = use_alias;
        Ok(server)
    }
}

/// The server with what it tells of itself: its reported name and its
/// downloaded icon, each kept as it was when it is missing.
pub fn enrich_server_metadata(server: Server, info_name: Option<String>, icon: Option<String>) -> (r: Server)
    ensures
        r == (Server {
            name: match info_name {
                Some(n) => n,
                None => server.name,
            },
            icon: match icon {
                Some(i) => Some(i),
                None => server.icon,
            },
            ..server
        }),
{
    let mut r = server;
    match info_name {
        Some(n) => r.name = n,
        None => {},
    }
    match icon {
        Some(i) => r.icon = Some(i),
        None => {},
    }
    r
}

/// The length of a media type's essence: everything before the first `;`.
pub open spec fn essence_len(s: Seq<char>) -> nat
    decreases s.len(),
{
    if s.len() == 0 || s[0] == ';' {
        0
    } else {
        1 + essence_len(s.drop_first())
    }
}

/// The file extension for a server icon of the given media type (only PNG,
/// JPEG, WebP, GIF and SVG are kept).
pub open spec fn icon_extension_of(essence: Seq<char>) -> Option<Seq<char>> {
    if essence == "image/png"@ {
        Some(".png"@)
    } else if essence == "image/jpeg"@ {
        Some(".jpg"@)
    } else if essence == "image/webp"@ {
        Some(".webp"@)
    } else if essence == "image/gif"@ {
        Some(".gif"@)
    } else if essence == "image/svg+xml"@ {
        Some(".svg"@)
    } else {
        None
    }
}

/// The essence of an optional content type: the text before any `;`, empty
/// when there is no content type.
pub open spec fn media_essence(content_type: Option<&str>) -> Seq<char> {
    match content_type {
        Some(c) => c@.take(essence_len(c@) as int),
        None => Seq::empty(),
    }
}

proof fn lemma_essence_len(s: Seq<char>, p: int)
    requires
        0 <= p <= s.len(),
        forall|i: int| 0 <= i < p ==> #[trigger] s[i] != ';',
        p == s.len() || s[p] == ';',
    ensures
        essence_len(s) == p,
    decreases s.len(),
{
    if s.len() > 0 && p > 0 {
        let t = s.drop_first();
        assert forall|i: int| 0 <= i < p - 1 implies #[trigger] t[i] != ';' by {
            assert(t[i] == s[i + 1]);
        }
        if p < s.len() {
            assert(t[p - 1] == s[p]);
        }
        lemma_essence_len(t, p - 1);
    }
}

/// The file extension for a server icon sent with the given content type
/// (parameters after `;` ignored; no content type counts as empty).
pub fn icon_extension(content_type: Option<&str>) -> (r: Option<&'static str>)
    ensures
        match r {
            Some(e) => icon_extension_of(media_essence(content_type)) == Some(e@),
            None => icon_extension_of(media_essence(content_type)) is None,
        },
{
    let ct = match content_type {
        Some(c) => c,
        None => "",
    };
    let n = ct.unicode_len();
    let mut p: usize = 0;
    while p < n && ct.get_char(p) != ';'
        invariant
            p <= n,
            n == ct@.len(),
            forall|i: int| 0 <= i < p ==> #[trigger] ct@[i] != ';',
        decreases n - p,
    {
        p = p + 1;
    }
    proof {
        lemma_essence_len(ct@, p as int);
        reveal_strlit("");
        if content_type is None {
            assert(ct@.take(p as int) =~= Seq::<char>::empty());
        }
    }
    let essence = ct.substring_char(0, p);
    if crate::text::str_eq(essence, "image/png") {
        Some(".png")
    } else if crate::text::str_eq(essence, "image/jpeg") {
        Some(".jpg")
    } else if crate::text::str_eq(essence, "image/webp") {
        Some(".webp")
    } else if crate::text::str_eq(essence, "image/gif") {
        Some(".gif")
    } else if crate::text::str_eq(essence, "image/svg+xml") {
        Some(".svg")
    } else {
        None
    }
}

impl Server {
    /// The server once the user has connected to it and it answered its
    /// health check: healthy, connected, connected at the given time.
    pub fn mark_connected(self, connected_at: i64) -> (r: Server)
        ensures
            r == (Server { healthy: true, connected: true, connected_at: Some(connected_at), ..self }),
    {
        let mut r = self;
        r.healthy = true;
        r.connected = true;
        r.connected_at = Some(connected_at);
        r
    }
}

/// Server icons larger than this (2 MiB) are discarded.
pub const SERVER_ICON_MAX_SIZE_BYTES: u64 = 2097152;

/// What to do with the server's answer to a request for its icon.
#[derive(Debug, Clone, Copy, PartialEq, Eq, Structural)]
pub enum IconResponse {
    /// The server has no icon (404).
    Absent,
    /// The server answered with an error status.
    Failed,
    /// The announced icon is too large; it is not downloaded.
    TooLarge,
    /// The icon is to be downloaded.
    Download,
}

/// The decision on an icon response of the given status and announced
/// length: 404 means no icon, any other status outside 200..=299 is an
/// error, a length above `SERVER_ICON_MAX_SIZE_BYTES` is refused.
pub fn icon_response(status: u16, content_length: Option<u64>) -> (r: IconResponse)
    ensures
        r == if status == 404 {
            IconResponse::Absent
        } else if !(200 <= status <= 299) {
            IconResponse::Failed
        } else if content_length matches Some(n) && n > SERVER_ICON_MAX_SIZE_BYTES {
            IconResponse::TooLarge
        } else {
            IconResponse::Download
        },
{
    if status == 404 {
        IconResponse::Absent
    } else if status < 200 || status > 299 {
        IconResponse::Failed
    } else {
        match content_length {
            Some(n) => if n > SERVER_ICON_MAX_SIZE_BYTES {
                IconResponse::TooLarge
            } else {
                IconResponse::Download
            },
            None => IconResponse::Download,
        }
    }
}

/// Adds a downloaded chunk of the icon unless the icon would grow beyond
/// `SERVER_ICON_MAX_SIZE_BYTES`; tells whether it was added (when not, the
/// icon is left as it was and is to be discarded).
pub fn append_icon_chunk(bytes: &mut Vec<u8>, chunk: &[u8]) -> (added: bool)
    ensures
        added == (old(bytes)@.len() + chunk@.len() <= SERVER_ICON_MAX_SIZE_BYTES),
        added ==> final(bytes)@ == old(bytes)@ + chunk@,
        !added ==> final(bytes)@ == old(bytes)@,
{
    if bytes.len() > SERVER_ICON_MAX_SIZE_BYTES as usize || chunk.len() > SERVER_ICON_MAX_SIZE_BYTES as usize
        - bytes.len() {
        return false;
    }
    let ghost start = bytes@;
    let mut i: usize = 0;
    while i < chunk.len()
        invariant
            i <= chunk@.len(),
            bytes@ == start + chunk@.take(i as int),
        decreases chunk@.len() - i,
    {
        bytes.push(chunk[i]);
        assert(chunk@.take(i + 1) =~= chunk@.take(i as int).push(chunk@[i as int]));
        i = i + 1;
    }
    assert(chunk@.take(i as int) =~= chunk@);
    true
}

/// The name of the file a server's icon is kept in: the server's id and the
/// icon's extension.
pub fn icon_file_name(server_id: &str, extension: &str) -> (r: String)
    ensures
        r@ == server_id@ + extension@,
{
    String::from_str(server_id).concat(extension)
}

/// A server as the local database stores it: the id as text. The stored row
/// has no alias switch and no connection time.
#[derive(Debug)]
pub struct ServerModel {
    pub id: String,
    pub url: String,
    pub name: String,
    pub icon: Option<String>,
    pub alias: Option<String>,
    pub added_at: i64,
    pub testing: bool,
    pub connected: bool,
    pub healthy: bool,
}

impl Clone for ServerModel {
    fn clone(&self) -> (r: Self)
        ensures
            r == *self,
    {
        ServerModel {
            id: self.id.clone(),
            url: self.url.clone(),
            name: self.name.clone(),
            icon: clone_opt_string(&self.icon),
            alias: clone_opt_string(&self.alias),
            added_at: self.added_at,
            testing: self.testing,
            connected: self.connected,
            healthy: self.healthy,
        }
    }
}

/// Whether a stored server can be read back: its id parses as a UUID.
pub open spec fn server_model_readable(m: ServerModel) -> bool {
    uuid_parse_result(m.id@) is Ok
}

/// `s` is the server that the readable row `m` holds: the id in hyphenated
/// form, the other stored fields as they are, no alias switch and no
/// connection time.
pub open spec fn server_read_from(m: ServerModel, s: Server) -> bool {
    &&& s.id@ == uuid_parse_result(m.id@)->Ok_0
    &&& s.url == m.url
    &&& s.name == m.name
    &&& s.icon == m.icon
    &&& s.alias == m.alias
    &&& !s.use_alias
    &&& s.added_at == m.added_at
    &&& s.connected_at is None
    &&& s.testing == m.testing
    &&& s.connected == m.connected
    &&& s.healthy == m.healthy
}

impl ServerModel {
    /// The server that a stored row holds; a `MapError` with the parser's
    /// message when its id is not a UUID.
    pub fn to_server(self) -> (r: Result<Server, DbError>)
        ensures
            match uuid_parse_result(self.id@) {
                Err(e) => r matches Err(DbError::MapError { message }) && message@ == e,
                Ok(_) => r is Ok && server_read_from(self, r->Ok_0),
            },
    {
        let id = match parse_uuid(self.id.as_str()) {
            Ok(id) => id,
            Err(message) => return Err(DbError::MapError { message }),
        };
        Ok(Server {
            id,
            url: self.url,
            name: self.name,
            icon: self.icon,
            alias: self.alias,
            use_alias: false,
            added_at: self.added_at,
            connected_at: None,
            testing: self.testing,
            connected: self.connected,
            healthy: self.healthy,
        })
    }
}

impl Server {
    /// The stored form of this server (the alias switch and the connection
    /// time are not stored).
    pub fn to_model(self) -> (m: ServerModel)
        ensures
            m == (ServerModel {
                id: self.id,
                url: self.url,
                name: self.name,
                icon: self.icon,
                alias: self.alias,
                added_at: self.added_at,
                testing: self.testing,
                connected: self.connected,
                healthy: self.healthy,
            }),
    {
        ServerModel {
            id: self.id,
            url: self.url,
            name: self.name,
            icon: self.icon,
            alias: self.alias,
            added_at: self.added_at,
            testing: self.testing,
            connected: self.connected,
            healthy: self.healthy,
        }
    }
}

/// The rows that can be read back, in order.
pub open spec fn readable_server_models(models: Seq<ServerModel>) -> Seq<ServerModel> {
    models.filter(|m: ServerModel| server_model_readable(m))
}

/// The servers that stored rows hold, in order; rows that cannot be read
/// back are skipped.
pub fn readable_servers(models: &Vec<ServerModel>) -> (servers: Vec<Server>)
    ensures
        servers@.len() == readable_server_models(models@).len(),
        forall|i: int|
            0 <= i < servers@.len() ==> server_read_from(
                readable_server_models(models@)[i],
                #[trigger] servers@[i],
            ),
{
    let ghost pred = |m: ServerModel| server_model_readable(m);
    let mut servers: Vec<Server> = Vec::new();
    let mut k: usize = 0;
    proof {
        reveal(Seq::filter);
        assert(models@.take(0) =~= Seq::<ServerModel>::empty());
    }
    while k < models.len()
        invariant
            k <= models.len(),
            pred == (|m: ServerModel| server_model_readable(m)),
            servers@.len() == models@.take(k as int).filter(pred).len(),
            forall|i: int|
                0 <= i < servers@.len() ==> server_read_from(
                    #[trigger] models@.take(k as int).filter(pred)[i],
                    servers@[i],
                ),
        decreases models.len() - k,
    {
        proof {
            reveal(Seq::filter);
            assert(models@.take(k + 1).drop_last() =~= models@.take(k as int));
            assert(models@.take(k + 1).last() == models@[k as int]);
        }
        let ghost before = servers@;
        match models[k].clone().to_server() {
            Ok(server) => {
                servers.push(server);
            },
            Err(_) => {},
        }
        proof {
            let prev = models@.take(k as int).filter(pred);
            let next = models@.take(k + 1).filter(pred);
            if pred(models@[k as int]) {
                assert(next =~= prev.push(models@[k as int]));
            } else {
                assert(next =~= prev);
            }
            assert forall|i: int| 0 <= i < servers@.len() implies server_read_from(
                next[i],
                #[trigger] servers@[i],
            ) by {
                if i < before.len() {
                    assert(next[i] == prev[i]);
                }
            }
        }
        k = k + 1;
    }
    assert(models@.take(k as int) =~= models@);
    servers
}

/// Why a server could not be made the one the client is connected to.
#[derive(Debug, Clone, Copy, PartialEq, Eq, Structural)]
pub enum ServerSelectError {
    /// The id given is not a UUID.
    InvalidId,
    /// No stored server has that id.
    NotFound,
    /// The server's health could not be checked.
    HealthCheck,
    /// The server reports that it is down.
    HealthCheckDown,
}

impl ServerSelectError {
    /// The key of the message shown to the user, in the interface's
    /// translations.
    pub fn message_key(&self) -> (r: &'static str)
        ensures
            r@ == match *self {
                ServerSelectError::InvalidId => "errors.server.invalid_server_id"@,
                ServerSelectError::NotFound => "errors.server.server_not_found"@,
                ServerSelectError::HealthCheck => "errors.server.health_check"@,
                ServerSelectError::HealthCheckDown => "errors.server.health_check_down"@,
            },
    {
        match self {
            ServerSelectError::InvalidId => "errors.server.invalid_server_id",
            ServerSelectError::NotFound => "errors.server.server_not_found",
            ServerSelectError::HealthCheck => "errors.server.health_check",
            ServerSelectError::HealthCheckDown => "errors.server.health_check_down",
        }
    }
}

/// The id of the server to connect to, as the user gives it: in hyphenated
/// form when it is a UUID, else an `InvalidId` error.
pub fn parse_server_id(id: &str) -> (r: Result<String, ServerSelectError>)
    ensures
        match uuid_parse_result(id@) {
            Ok(c) => r is Ok && r->Ok_0@ == c,
            Err(_) => r == Err::<String, ServerSelectError>(ServerSelectError::InvalidId),
        },
{
    match parse_uuid(id) {
        Ok(c) => Ok(c),
        Err(_) => Err(ServerSelectError::InvalidId),
    }
}

/// The server to connect to, once it was looked up and its health was
/// checked: an error when it was not found, when the check failed or when
/// it is down; else the server, marked connected at the given time.
pub fn connect_after_health_check(
    found: Option<Server>,
    health: Result<HealthCheckStatus, HealthCheckError>,
    connected_at: i64,
) -> (r: Result<Server, ServerSelectError>)
    ensures
        match (found, health) {
            (None, _) => r == Err::<Server, ServerSelectError>(ServerSelectError::NotFound),
            (Some(_), Err(_)) => r == Err::<Server, ServerSelectError>(ServerSelectError::HealthCheck),
            (Some(_), Ok(HealthCheckStatus::Down)) => r == Err::<Server, ServerSelectError>(
                ServerSelectError::HealthCheckDown,
            ),
            (Some(s), Ok(HealthCheckStatus::Up)) => r == Ok::<Server, ServerSelectError>(
                (Server { healthy: true, connected: true, connected_at: Some(connected_at), ..s }),
            ),
        },
{
    let server = match found {
        Some(s) => s,
        None => return Err(ServerSelectError::NotFound),
    };
    match health {
        Err(_) => Err(ServerSelectError::HealthCheck),
        Ok(HealthCheckStatus::Down) => Err(ServerSelectError::HealthCheckDown),
        Ok(HealthCheckStatus::Up) => Ok(server.mark_connected(connected_at)),
    }
}

/// The server the client starts connected to: the stored server marked
/// connected, else the first stored server (none when the stored servers
/// cannot be read).
pub fn initial_current_server(connected: Option<Server>, all: Result<Vec<Server>, String>) -> (r: Option<Server>)
    ensures
        r == match connected {
            Some(s) => Some(s),
            None => match all {
                Ok(v) => if v@.len() > 0 {
                    Some(v@[0])
                } else {
                    None::<Server>
                },
                Err(_) => None::<Server>,
            },
        },
{
    match connected {
        Some(s) => Some(s),
        None => match all {
            Ok(v) => if v.len() > 0 {
                Some(v[0].clone())
            } else {
                None
            },
            Err(_) => None,
        },
    }
}

} // verus!
