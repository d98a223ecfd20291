//! The decisions of the connection manager's message loop. The loop itself
//! (receiving, replying, talking to the store) runs outside; for each message it
//! asks `Redis::step` what to do and performs the returned actions in order.

use vstd::prelude::*;
use crate::aggregate::{
    applied, copy_urls, event_of, Redis, RedisCommand, RedisDelete, RedisEvent, RedisInsert,
    RedisQuery, RedisState,
};

verus! {

/// The well-known name under which the connection manager is addressed.
pub const ACTOR_NAME: &'static str = "redis_actor";

/// A message delivered to the connection manager.
#[derive(Debug)]
pub enum Message {
    Command(RedisCommand),
    Event(RedisEvent),
    Query(RedisQuery),
    Insert(RedisInsert),
    Delete(RedisDelete),
    /// A message of a kind that the manager does not handle.
    Unknown,
}

/// What the loop does on behalf of the manager after a step.
#[derive(Debug)]
pub enum Action {
    /// Send this event to the manager itself, to be applied later.
    Publish(RedisEvent),
    /// Build the connection pool anew from the manager's current urls.
    RebuildPool,
    /// Look the key up through the pooled connection and reply with the value if found.
    Lookup(String),
    /// Store the value under the key.
    Store(String, Vec<u8>),
    /// Give the key a time to live, in seconds.
    Expire(String, usize),
    /// Remove the key.
    Remove(String),
}

/// The manager after it has handled a message.
pub open spec fn state_after(s: Redis, m: Message) -> Redis {
    match m {
        Message::Event(e) => applied(s, e),
        _ => s,
    }
}

/// The actions that the manager asks for when it handles a message.
pub open spec fn actions_for(s: Redis, m: Message) -> Seq<Action> {
    match m {
        Message::Command(c) => seq![Action::Publish(event_of(c))],
        Message::Event(e) => match e {
            RedisEvent::RedisServerReconnected { .. } => seq![Action::RebuildPool],
            RedisEvent::RedisServerConnected { .. } => Seq::empty(),
        },
        Message::Query(q) => if s.state == RedisState::Initialized {
            seq![Action::Lookup(q.key)]
        } else {
            Seq::empty()
        },
        Message::Insert(ins) => if s.state == RedisState::Initialized {
            match ins.expire_time {
                Some(t) => seq![Action::Store(ins.key, ins.value), Action::Expire(ins.key, t)],
                None => seq![Action::Store(ins.key, ins.value)],
            }
        } else {
            Seq::empty()
        },
        Message::Delete(d) => if s.state == RedisState::Initialized {
            seq![Action::Remove(d.key)]
        } else {
            Seq::empty()
        },
        Message::Unknown => Seq::empty(),
    }
}

/// The events wrapped as actions that publish them, in order.
pub open spec fn publish_all(events: Seq<RedisEvent>) -> Seq<Action> {
    events.map_values(|e: RedisEvent| Action::Publish(e))
}

/// The store's contents after the loop performs one action through the pooled
/// connection: a key set, removed, or given a time to live (a zero time removes it
/// at once; a longer one has not run out yet).
pub open spec fn store_after(store: Map<Seq<char>, Seq<u8>>, a: Action) -> Map<Seq<char>, Seq<u8>> {
    match a {
        Action::Store(k, v) => store.insert(k@, v@),
        Action::Remove(k) => store.remove(k@),
        Action::Expire(k, t) => if t == 0 {
            store.remove(k@)
        } else {
            store
        },
        _ => store,
    }
}

/// The store's contents after the loop performs the actions in order.
pub open spec fn store_after_all(store: Map<Seq<char>, Seq<u8>>, acts: Seq<Action>) -> Map<
    Seq<char>,
    Seq<u8>,
>
    decreases acts.len(),
{
    if acts.len() == 0 {
        store
    } else {
        store_after_all(store_after(store, acts[0]), acts.drop_first())
    }
}

/// The reply that the loop sends for the actions of a query: the stored value
/// when the first action looks up a key that is present, and none otherwise.
pub open spec fn reply_of(store: Map<Seq<char>, Seq<u8>>, acts: Seq<Action>) -> Option<Seq<u8>> {
    if acts.len() > 0 && acts[0] is Lookup && store.contains_key(acts[0]->Lookup_0@) {
        Some(store[acts[0]->Lookup_0@])
    } else {
        None
    }
}

/// A connection command, handled and then its published event applied, leaves the
/// manager initialized with exactly the command's urls, whatever its state was.
pub proof fn lemma_connect_initializes(s: Redis, urls: Vec<String>)
    ensures
        ({
            let m = Message::Command(RedisCommand::ConnectRedisServer { urls });
            let e = RedisEvent::RedisServerConnected { urls };
            let s2 = state_after(state_after(s, m), Message::Event(e));
            &&& actions_for(s, m) == seq![Action::Publish(e)]
            &&& s2.state == RedisState::Initialized
            &&& s2.urls == urls
        }),
{
}

/// A reconnection command sent to an initialized manager keeps it initialized,
/// replaces its urls, and has the pool rebuilt from the new urls when its event
/// is applied.
pub proof fn lemma_reconnect_updates_urls(s: Redis, urls: Vec<String>)
    requires
        s.state == RedisState::Initialized,
    ensures
        ({
            let m = Message::Command(RedisCommand::ReconnectRedisServer { urls });
            let e = RedisEvent::RedisServerReconnected { urls };
            let s1 = state_after(s, m);
            let s2 = state_after(s1, Message::Event(e));
            &&& actions_for(s, m) == seq![Action::Publish(e)]
            &&& s2.state == RedisState::Initialized
            &&& s2.urls == urls
            &&& actions_for(s1, Message::Event(e)) == seq![Action::RebuildPool]
        }),
{
}

/// Once the manager is initialized, a query that follows an insertion under the
/// same key is answered with exactly the inserted value (unless the insertion
/// gave the key a zero time to live).
pub proof fn lemma_insert_then_query(
    s: Redis,
    store: Map<Seq<char>, Seq<u8>>,
    ins: RedisInsert,
    q: RedisQuery,
)
    requires
        s.state == RedisState::Initialized,
        q.key@ == ins.key@,
        ins.expire_time != Some(0usize),
    ensures
        ({
            let m = Message::Insert(ins);
            let store1 = store_after_all(store, actions_for(s, m));
            reply_of(store1, actions_for(state_after(s, m), Message::Query(q))) == Some(ins.value@)
        }),
{
    let acts = actions_for(s, Message::Insert(ins));
    reveal_with_fuel(store_after_all, 3);
    assert(acts.drop_first().len() == 0 ==> acts.drop_first() =~= Seq::<Action>::empty());
    if ins.expire_time is Some {
        assert(acts.drop_first().drop_first() =~= Seq::<Action>::empty());
    }
}

/// After a deletion, a query for the deleted key gets no value.
pub proof fn lemma_delete_then_query(
    s: Redis,
    store: Map<Seq<char>, Seq<u8>>,
    d: RedisDelete,
    q: RedisQuery,
)
    requires
        q.key@ == d.key@,
    ensures
        ({
            let m = Message::Delete(d);
            let store1 = store_after_all(store, actions_for(s, m));
            reply_of(store1, actions_for(state_after(s, m), Message::Query(q))) is None
        }),
{
    reveal_with_fuel(store_after_all, 2);
    assert(seq![Action::Remove(d.key)].drop_first() =~= Seq::<Action>::empty());
}

/// A query sent while the manager is not initialized never gets a value.
pub proof fn lemma_query_uninitialized(s: Redis, store: Map<Seq<char>, Seq<u8>>, q: RedisQuery)
    requires
        s.state == RedisState::Uninitialized,
    ensures
        actions_for(s, Message::Query(q)).len() == 0,
        reply_of(store, actions_for(s, Message::Query(q))) is None,
{
}

/// A message of an unknown kind changes nothing and asks for nothing, and the
/// message after it is handled exactly as if it had not come.
pub proof fn lemma_unknown_is_harmless(s: Redis, m: Message)
    ensures
        state_after(s, Message::Unknown) == s,
        actions_for(s, Message::Unknown).len() == 0,
        state_after(state_after(s, Message::Unknown), m) == state_after(s, m),
        actions_for(state_after(s, Message::Unknown), m) == actions_for(s, m),
{
}

/// After a restart the loop sends itself its bootstrap command again; for an
/// initialized manager that holds a value inserted earlier, handling the command
/// and applying its event leave the manager and the store as they were, so a
/// query for the inserted key is still answered with the inserted value.
pub proof fn lemma_restart_keeps_serving(
    s: Redis,
    store: Map<Seq<char>, Seq<u8>>,
    ins: RedisInsert,
    urls: Vec<String>,
    q: RedisQuery,
)
    requires
        s.state == RedisState::Initialized,
        urls@ == s.urls@,
        q.key@ == ins.key@,
        ins.expire_time != Some(0usize),
    ensures
        ({
            let s1 = state_after(s, Message::Insert(ins));
            let store1 = store_after_all(store, actions_for(s, Message::Insert(ins)));
            let boot = Message::Command(RedisCommand::ConnectRedisServer { urls });
            let e = RedisEvent::RedisServerConnected { urls };
            let s2 = state_after(state_after(s1, boot), Message::Event(e));
            let store2 = store_after_all(
                store1,
                actions_for(s1, boot) + actions_for(state_after(s1, boot), Message::Event(e)),
            );
            &&& s2.state == RedisState::Initialized
            &&& s2.urls@ == s.urls@
            &&& store2 == store1
            &&& reply_of(store2, actions_for(s2, Message::Query(q))) == Some(ins.value@)
        }),
{
    lemma_insert_then_query(s, store, ins, q);
    let s1 = state_after(s, Message::Insert(ins));
    let store1 = store_after_all(store, actions_for(s, Message::Insert(ins)));
    let boot = Message::Command(RedisCommand::ConnectRedisServer { urls });
    let e = RedisEvent::RedisServerConnected { urls };
    let acts = actions_for(s1, boot) + actions_for(state_after(s1, boot), Message::Event(e));
    assert(acts =~= seq![Action::Publish(e)]);
    reveal_with_fuel(store_after_all, 2);
    assert(acts.drop_first() =~= Seq::<Action>::empty());
}

impl Redis {
    /// The command the manager sends itself when its loop starts: connect to its urls.
    pub fn bootstrap(&self) -> (r: RedisCommand)
        ensures
            r matches RedisCommand::ConnectRedisServer { urls } && urls@ == self.urls@,
    {
        RedisCommand::ConnectRedisServer { urls: copy_urls(&self.urls) }
    }

    /// Handles one message: a command gives events to publish, an event is
    /// applied (and a reconnection rebuilds the pool), and the store operations
    /// are passed on only once the manager is initialized.
    pub fn step(&mut self, m: Message) -> (acts: Vec<Action>)
        ensures
            *final(self) == state_after(*old(self), m),
            acts@ == actions_for(*old(self), m),
    {
        let mut acts: Vec<Action> = Vec::new();
        match m {
            Message::Command(c) => {
                let mut events = self.handle(c);
                let ghost all = events@;
                while events.len() > 0
                    invariant
                        acts@ + publish_all(events@) == publish_all(all),
                    decreases events@.len(),
                {
                    let ghost before = events@;
                    let e = events.remove(0);
                    proof {
                        assert(publish_all(before) =~= seq![Action::Publish(e)] + publish_all(
                            events@,
                        ));
                    }
                    acts.push(Action::Publish(e));
                }
                assert(acts@ =~= publish_all(all));
            },
            Message::Event(e) => {
                let rebuild = match e {
                    RedisEvent::RedisServerReconnected { .. } => true,
                    RedisEvent::RedisServerConnected { .. } => false,
                };
                self.apply(e);
                if rebuild {
                    acts.push(Action::RebuildPool);
                }
            },
            Message::Query(q) => {
                if self.state == RedisState::Initialized {
                    acts.push(Action::Lookup(q.key));
                }
            },
            Message::Insert(ins) => {
                if self.state == RedisState::Initialized {
                    let key = ins.key.clone();
                    acts.push(Action::Store(key, ins.value));
                    match ins.expire_time {
                        Some(t) => acts.push(Action::Expire(ins.key, t)),
                        None => {},
                    }
                }
            },
            Message::Delete(d) => {
                if self.state == RedisState::Initialized {
                    acts.push(Action::Remove(d.key));
                }
            },
            Message::Unknown => {},
        }
        acts
    }
}

} // verus!
