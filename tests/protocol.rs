use redis_actor::aggregate::{
    Redis, RedisCommand, RedisDelete, RedisEvent, RedisInsert, RedisQuery, RedisState,
};
use redis_actor::protocol::{Action, Message, ACTOR_NAME};
use std::collections::{HashMap, VecDeque};

/// Drives the manager's steps the way the message loop does, against an
/// in-memory store.
struct Harness {
    redis: Redis,
    store: HashMap<String, Vec<u8>>,
    queue: VecDeque<Message>,
    pool_urls: Vec<String>,
}

fn urls(items: &[&str]) -> Vec<String> {
    items.iter().map(|s| s.to_string()).collect()
}

impl Harness {
    /// Starts the loop: builds the pool from the urls, then sends the bootstrap command.
    fn start(redis: Redis) -> Harness {
        let mut h = Harness {
            pool_urls: redis.get_urls(),
            redis,
            store: HashMap::new(),
            queue: VecDeque::new(),
        };
        h.restart();
        h
    }

    fn restart(&mut self) {
        self.pool_urls = self.redis.get_urls();
        let boot = self.redis.bootstrap();
        self.queue.push_back(Message::Command(boot));
        self.drain();
    }

    fn deliver(&mut self, m: Message) -> Option<Vec<u8>> {
        let mut reply = None;
        for a in self.redis.step(m) {
            match a {
                Action::Publish(e) => self.queue.push_back(Message::Event(e)),
                Action::RebuildPool => self.pool_urls = self.redis.get_urls(),
                Action::Lookup(k) => reply = self.store.get(&k).cloned(),
                Action::Store(k, v) => {
                    self.store.insert(k, v);
                }
                Action::Expire(k, t) => {
                    if t == 0 {
                        self.store.remove(&k);
                    }
                }
                Action::Remove(k) => {
                    self.store.remove(&k);
                }
            }
        }
        reply
    }

    fn send(&mut self, m: Message) -> Option<Vec<u8>> {
        let reply = self.deliver(m);
        self.drain();
        reply
    }

    fn drain(&mut self) {
        while let Some(m) = self.queue.pop_front() {
            self.deliver(m);
        }
    }

    fn insert(&mut self, key: &str, value: &[u8], expire_time: Option<usize>) {
        self.send(Message::Insert(RedisInsert {
            key: key.to_string(),
            value: value.to_vec(),
            expire_time,
        }));
    }

    fn query(&mut self, key: &str) -> Option<Vec<u8>> {
        self.send(Message::Query(RedisQuery { key: key.to_string() }))
    }

    fn delete(&mut self, key: &str) {
        self.send(Message::Delete(RedisDelete { key: key.to_string() }));
    }
}

#[test]
fn actor_name_is_well_known() {
    assert_eq!(ACTOR_NAME, "redis_actor");
}

#[test]
fn bootstrap_connects_to_own_urls() {
    let r = Redis::with_urls(urls(&["node-a", "node-b"]));
    match r.bootstrap() {
        RedisCommand::ConnectRedisServer { urls: u } => assert_eq!(u, urls(&["node-a", "node-b"])),
        other => panic!("unexpected command {other:?}"),
    }
}

#[test]
fn command_step_publishes_its_event() {
    let mut r = Redis::default();
    let acts = r.step(Message::Command(RedisCommand::ConnectRedisServer { urls: urls(&["l"]) }));
    assert_eq!(acts.len(), 1);
    assert!(matches!(&acts[0], Action::Publish(RedisEvent::RedisServerConnected { urls: u }) if *u == urls(&["l"])));
    assert_eq!(r.get_state(), RedisState::Uninitialized);
}

#[test]
fn connect_initializes_with_urls() {
    let mut h = Harness::start(Redis::default());
    h.send(Message::Command(RedisCommand::ConnectRedisServer { urls: urls(&["n1", "n2"]) }));
    assert_eq!(h.redis.get_state(), RedisState::Initialized);
    assert_eq!(h.redis.get_urls(), urls(&["n1", "n2"]));
}

#[test]
fn reconnect_updates_urls_and_pool() {
    let mut h = Harness::start(Redis::with_urls(urls(&["node-a"])));
    h.send(Message::Command(RedisCommand::ReconnectRedisServer { urls: urls(&["node-b", "node-c"]) }));
    assert_eq!(h.redis.get_state(), RedisState::Initialized);
    assert_eq!(h.redis.get_urls(), urls(&["node-b", "node-c"]));
    assert_eq!(h.pool_urls, urls(&["node-b", "node-c"]));
}

#[test]
fn reconnected_event_asks_for_pool_rebuild() {
    let mut r = Redis::default();
    let acts = r.step(Message::Event(RedisEvent::RedisServerReconnected { urls: urls(&["z"]) }));
    assert_eq!(acts.len(), 1);
    assert!(matches!(acts[0], Action::RebuildPool));
    let acts = r.step(Message::Event(RedisEvent::RedisServerConnected { urls: urls(&["z"]) }));
    assert!(acts.is_empty());
}

#[test]
fn insert_then_query_round_trip() {
    let mut h = Harness::start(Redis::with_urls(urls(&["node-a"])));
    h.insert("key", b"value", None);
    assert_eq!(h.query("key"), Some(b"value".to_vec()));
    h.insert("bytes", &[0, 255, 7], Some(60));
    assert_eq!(h.query("bytes"), Some(vec![0, 255, 7]));
}

#[test]
fn insert_with_expiry_sets_then_expires() {
    let mut r = Redis::default();
    r.apply(RedisEvent::RedisServerConnected { urls: urls(&["a"]) });
    let acts = r.step(Message::Insert(RedisInsert {
        key: "k".to_string(),
        value: b"v".to_vec(),
        expire_time: Some(30),
    }));
    assert_eq!(acts.len(), 2);
    assert!(matches!(&acts[0], Action::Store(k, v) if k == "k" && v == b"v"));
    assert!(matches!(&acts[1], Action::Expire(k, 30) if k == "k"));
}

#[test]
fn zero_expiry_removes_key() {
    let mut h = Harness::start(Redis::with_urls(urls(&["node-a"])));
    h.insert("k", b"v", Some(0));
    assert_eq!(h.query("k"), None);
}

#[test]
fn delete_then_query_gives_nothing() {
    let mut h = Harness::start(Redis::with_urls(urls(&["node-a"])));
    h.insert("k", b"v", None);
    h.delete("k");
    assert_eq!(h.query("k"), None);
}

#[test]
fn query_before_initialized_gives_nothing() {
    let mut r = Redis::with_urls(urls(&["node-a"]));
    let acts = r.step(Message::Query(RedisQuery { key: "k".to_string() }));
    assert!(acts.is_empty());
    let acts = r.step(Message::Insert(RedisInsert::new("k".to_string())));
    assert!(acts.is_empty());
    let acts = r.step(Message::Delete(RedisDelete { key: "k".to_string() }));
    assert!(acts.is_empty());
}

#[test]
fn unknown_message_keeps_loop_going() {
    let mut h = Harness::start(Redis::with_urls(urls(&["node-a"])));
    assert_eq!(h.send(Message::Unknown), None);
    assert_eq!(h.redis.get_state(), RedisState::Initialized);
    h.insert("k", b"after", None);
    assert_eq!(h.query("k"), Some(b"after".to_vec()));
}

#[test]
fn scenario_connect_insert_reconnect_delete() {
    let mut h = Harness::start(Redis::with_urls(urls(&["node-a"])));
    assert_eq!(h.redis.get_state(), RedisState::Initialized);
    assert_eq!(h.redis.get_urls(), urls(&["node-a"]));
    h.insert("k", b"hello", None);
    assert_eq!(h.query("k"), Some(b"hello".to_vec()));
    h.send(Message::Command(RedisCommand::ReconnectRedisServer { urls: urls(&["node-b"]) }));
    assert_eq!(h.redis.get_urls(), urls(&["node-b"]));
    assert_eq!(h.redis.get_state(), RedisState::Initialized);
    h.delete("k");
    assert_eq!(h.query("k"), None);
}

#[test]
fn restart_keeps_state_and_values() {
    let mut h = Harness::start(Redis::with_urls(urls(&["node-a"])));
    h.insert("k", b"v", None);
    h.restart();
    assert_eq!(h.redis.get_state(), RedisState::Initialized);
    assert_eq!(h.redis.get_urls(), urls(&["node-a"]));
    assert_eq!(h.query("k"), Some(b"v".to_vec()));
}
