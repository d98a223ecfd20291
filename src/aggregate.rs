//! The connection-manager aggregate: its state, the commands that ask for a
//! connection, the events that record one, and the operation messages it serves.

use vstd::prelude::*;

verus! {

/// Whether a connection pool has been built for the aggregate's urls.
#[derive(Debug, Clone, Copy, PartialEq, Eq, Structural)]
pub enum RedisState {
    Uninitialized,
    Initialized,
}

impl Default for RedisState {
    fn default() -> (r: Self)
        ensures
            r == RedisState::Uninitialized,
    {
        RedisState::Uninitialized
    }
}

/// Credentials used to reach the store.
#[derive(Debug, Clone, PartialEq)]
pub enum RedisAuth {
    NoAuth,
    Userpass { username: String, password: String },
}

impl Default for RedisAuth {
    fn default() -> (r: Self)
        ensures
            r == RedisAuth::NoAuth,
    {
        RedisAuth::NoAuth
    }
}

/// Commands for the connection manager.
#[derive(Debug)]
pub enum RedisCommand {
    ReconnectRedisServer { urls: Vec<String> },
    ConnectRedisServer { urls: Vec<String> },
}

/// Events of the connection manager: the only values that change its state.
#[derive(Debug, Clone, PartialEq)]
pub enum RedisEvent {
    RedisServerReconnected { urls: Vec<String> },
    RedisServerConnected { urls: Vec<String> },
}

/// The connection manager: its state and the urls of the cluster's nodes.
#[derive(Debug, Clone, PartialEq)]
pub struct Redis {
    pub state: RedisState,
    pub urls: Vec<String>,
    pub redis_auth: RedisAuth,
}

/// The one event that a command gives.
pub open spec fn event_of(command: RedisCommand) -> RedisEvent {
    match command {
        RedisCommand::ReconnectRedisServer { urls } => RedisEvent::RedisServerReconnected { urls },
        RedisCommand::ConnectRedisServer { urls } => RedisEvent::RedisServerConnected { urls },
    }
}

/// The aggregate after an event has been applied to it.
pub open spec fn applied(s: Redis, event: RedisEvent) -> Redis {
    match event {
        RedisEvent::RedisServerConnected { urls } => Redis {
            state: RedisState::Initialized,
            urls,
            redis_auth: s.redis_auth,
        },
        RedisEvent::RedisServerReconnected { urls } => Redis { urls, ..s },
    }
}

/// Copies a list of urls, string by string.
pub fn copy_urls(urls: &Vec<String>) -> (r: Vec<String>)
    ensures
        r@ == urls@,
{
    let mut r: Vec<String> = Vec::new();
    let mut i: usize = 0;
    while i < urls.len()
        invariant
            i <= urls@.len(),
            r@ == urls@.subrange(0, i as int),
        decreases urls@.len() - i,
    {
        r.push(urls[i].clone());
        i = i + 1;
        assert(r@ =~= urls@.subrange(0, i as int));
    }
    assert(r@ =~= urls@);
    r
}

impl Default for Redis {
    fn default() -> (r: Self)
        ensures
            r.state == RedisState::Uninitialized,
            r.urls@.len() == 0,
            r.redis_auth == RedisAuth::NoAuth,
    {
        Redis { state: RedisState::Uninitialized, urls: Vec::new(), redis_auth: RedisAuth::NoAuth }
    }
}

impl Redis {
    /// A manager that has not connected yet, for the given urls.
    pub fn with_urls(urls: Vec<String>) -> (r: Self)
        ensures
            r.state == RedisState::Uninitialized,
            r.urls == urls,
            r.redis_auth == RedisAuth::NoAuth,
    {
        Redis { state: RedisState::Uninitialized, urls, redis_auth: RedisAuth::NoAuth }
    }

    /// The current connection state.
    pub fn get_state(&self) -> (r: RedisState)
        ensures
            r == self.state,
    {
        self.state
    }

    /// The urls of the cluster's nodes.
    pub fn get_urls(&self) -> (r: Vec<String>)
        ensures
            r@ == self.urls@,
    {
        copy_urls(&self.urls)
    }

    /// The kind of aggregate this is.
    pub fn aggregate_type() -> (r: String)
        ensures
            r@ == "redis"@,
    {
        String::from_str("redis")
    }

    /// The events that a command gives: exactly one, its counterpart.
    pub fn handle(&self, command: RedisCommand) -> (events: Vec<RedisEvent>)
        ensures
            events@ == seq![event_of(command)],
    {
        let mut events: Vec<RedisEvent> = Vec::new();
        match command {
            RedisCommand::ReconnectRedisServer { urls } => {
                events.push(RedisEvent::RedisServerReconnected { urls });
            },
            RedisCommand::ConnectRedisServer { urls } => {
                events.push(RedisEvent::RedisServerConnected { urls });
            },
        }
        events
    }

    /// Applies an event: a connection marks the manager initialized and sets
    /// its urls; a reconnection only sets the urls.
    pub fn apply(&mut self, event: RedisEvent)
        ensures
            *final(self) == applied(*old(self), event),
    {
        match event {
            RedisEvent::RedisServerConnected { urls } => {
                self.state = RedisState::Initialized;
                self.urls = urls;
            },
            RedisEvent::RedisServerReconnected { urls } => {
                self.urls = urls;
            },
        }
    }
}

/// Asks for a key to be removed.
#[derive(Debug, Clone, PartialEq)]
pub struct RedisDelete {
    pub key: String,
}

impl Default for RedisDelete {
    fn default() -> (r: Self)
        ensures
            r.key@.len() == 0,
    {
        RedisDelete { key: String::new() }
    }
}

impl RedisDelete {
    /// The key to remove.
    pub fn key(&self) -> (r: String)
        ensures
            r == self.key,
    {
        self.key.clone()
    }
}

/// Asks for the value stored under a key.
#[derive(Debug, Clone, PartialEq)]
pub struct RedisQuery {
    pub key: String,
}

impl Default for RedisQuery {
    fn default() -> (r: Self)
        ensures
            r.key@.len() == 0,
    {
        RedisQuery { key: String::new() }
    }
}

impl RedisQuery {
    /// The key to look up.
    pub fn key(&self) -> (r: String)
        ensures
            r == self.key,
    {
        self.key.clone()
    }
}

/// Asks for a value to be stored under a key, with an optional expiry in seconds.
#[derive(Debug, Clone, PartialEq)]
pub struct RedisInsert {
    pub key: String,
    pub value: Vec<u8>,
    pub expire_time: Option<usize>,
}

impl Default for RedisInsert {
    fn default() -> (r: Self)
        ensures
            r.key@.len() == 0,
            r.value@.len() == 0,
            r.expire_time.is_none(),
    {
        RedisInsert { key: String::new(), value: Vec::new(), expire_time: None }
    }
}

impl RedisInsert {
    /// An insertion of an empty value under `key`, with no expiry.
    pub fn new(key: String) -> (r: Self)
        ensures
            r.key == key,
            r.value@.len() == 0,
            r.expire_time.is_none(),
    {
        RedisInsert { key, value: Vec::new(), expire_time: None }
    }
}

/// What `{:?}` writes for a list of strings.
pub uninterp spec fn debug_listing(items: Seq<Seq<char>>) -> Seq<char>;

/// Relies on std's `Debug` for `Vec<String>` (through `format!("{:?}")`): the
/// text depends on the strings alone.
#[verifier::external_body]
fn debug_urls(urls: &Vec<String>) -> (r: String)
    ensures
        r@ == debug_listing(urls.deep_view()),
{
    format!("{:?}", urls)
}

/// The text that introduces the node list in an event's description.
pub open spec fn event_prefix(event: RedisEvent) -> Seq<char> {
    match event {
        RedisEvent::RedisServerReconnected { .. } => "Redis reconnect to cluster server: "@,
        RedisEvent::RedisServerConnected { .. } => "Redis connect to cluster server: "@,
    }
}

/// The urls that an event carries.
pub open spec fn event_urls(event: RedisEvent) -> Vec<String> {
    match event {
        RedisEvent::RedisServerReconnected { urls } => urls,
        RedisEvent::RedisServerConnected { urls } => urls,
    }
}

impl RedisEvent {
    /// The event's description, given the listing of its urls.
    pub fn describe(&self, listing: &str) -> (r: String)
        ensures
            r@ == event_prefix(*self) + listing@,
    {
        let prefix = match self {
            RedisEvent::RedisServerReconnected { .. } => String::from_str(
                "Redis reconnect to cluster server: ",
            ),
            RedisEvent::RedisServerConnected { .. } => String::from_str(
                "Redis connect to cluster server: ",
            ),
        };
        prefix.concat(listing)
    }

    /// The event's description: its kind, then its urls as `{:?}` lists them.
    pub fn event_type(&self) -> (r: String)
        ensures
            r@ == event_prefix(*self) + debug_listing(event_urls(*self).deep_view()),
    {
        let listing = match self {
            RedisEvent::RedisServerReconnected { urls } => debug_urls(urls),
            RedisEvent::RedisServerConnected { urls } => debug_urls(urls),
        };
        self.describe(listing.as_str())
    }

    /// The version of the event format.
    pub fn event_version(&self) -> (r: String)
        ensures
            r@ == "1.0"@,
    {
        String::from_str("1.0")
    }
}

} // verus!
