//! Settings of an actor's supervisor and of the children group that runs it.
//! A state type declares its own children settings; a builder may override any
//! of them, and an override wins over the type's setting, field by field.

use vstd::prelude::*;
use bastion::dispatcher::Dispatcher;
use bastion::distributor::Distributor;
use bastion::resizer::OptimalSizeExploringResizer;
use bastion::supervisor::{RestartStrategy, SupervisionStrategy};
use bastion::Callbacks;
use std::time::Duration;

verus! {

/// Declares bastion's lifecycle callbacks, carried through unopened.
#[verifier::external_type_specification]
#[verifier::external_body]
pub struct ExCallbacks(Callbacks);

/// Declares bastion's dispatcher, carried through unopened.
#[verifier::external_type_specification]
#[verifier::external_body]
pub struct ExDispatcher(Dispatcher);

/// Declares bastion's distributor, the name by which actors are reached, carried through unopened.
#[verifier::external_type_specification]
#[verifier::external_body]
pub struct ExDistributor(Distributor);

/// Declares bastion's resizer, carried through unopened.
#[verifier::external_type_specification]
#[verifier::external_body]
pub struct ExOptimalSizeExploringResizer(OptimalSizeExploringResizer);

/// Declares bastion's restart strategy, carried through unopened.
#[verifier::external_type_specification]
#[verifier::external_body]
pub struct ExRestartStrategy(RestartStrategy);

/// Declares bastion's supervision strategy, carried through unopened.
#[verifier::external_type_specification]
#[verifier::external_body]
pub struct ExSupervisionStrategy(SupervisionStrategy);

/// The setting that wins: the override where there is one, else the base.
pub open spec fn prefer<T>(over: Option<T>, base: Option<T>) -> Option<T> {
    if over is Some {
        over
    } else {
        base
    }
}

fn pick<T>(over: Option<T>, base: Option<T>) -> (r: Option<T>)
    ensures
        r == prefer(over, base),
{
    match over {
        Some(v) => Some(v),
        None => base,
    }
}

/// Settings of the supervisor that an actor's children run under. A field left
/// unset keeps the supervisor's own default.
pub struct SupervisorConfig {
    pub callbacks: Option<Callbacks>,
    pub restart_strategy: Option<RestartStrategy>,
    pub strategy: Option<SupervisionStrategy>,
}

impl SupervisorConfig {
    /// Settings with every field unset.
    pub fn unset() -> (r: Self)
        ensures
            r.callbacks is None,
            r.restart_strategy is None,
            r.strategy is None,
    {
        SupervisorConfig { callbacks: None, restart_strategy: None, strategy: None }
    }

    /// Sets the supervisor's callbacks.
    pub fn with_supervisor_callbacks(self, callbacks: Callbacks) -> (r: Self)
        ensures
            r == (SupervisorConfig { callbacks: Some(callbacks), ..self }),
    {
        SupervisorConfig { callbacks: Some(callbacks), ..self }
    }

    /// Sets the supervision strategy.
    pub fn with_stategy(self, strategy: SupervisionStrategy) -> (r: Self)
        ensures
            r == (SupervisorConfig { strategy: Some(strategy), ..self }),
    {
        SupervisorConfig { strategy: Some(strategy), ..self }
    }

    /// Sets the restart strategy.
    pub fn with_restart_strategy(self, restart_strategy: RestartStrategy) -> (r: Self)
        ensures
            r == (SupervisorConfig { restart_strategy: Some(restart_strategy), ..self }),
    {
        SupervisorConfig { restart_strategy: Some(restart_strategy), ..self }
    }
}

/// Settings of the children group that runs an actor. A field left unset keeps
/// the runtime's own default.
pub struct ChildrenConfig {
    pub callbacks: Option<Callbacks>,
    pub dispatcher: Option<Dispatcher>,
    pub distributor: Option<Distributor>,
    pub heartbeat_tick: Option<Duration>,
    pub name: Option<String>,
    pub redundancy: Option<usize>,
    pub resizer: Option<OptimalSizeExploringResizer>,
}

/// The settings that result from laying `over` on top of `base`, field by field.
pub open spec fn layered(base: ChildrenConfig, over: ChildrenConfig) -> ChildrenConfig {
    ChildrenConfig {
        callbacks: prefer(over.callbacks, base.callbacks),
        dispatcher: prefer(over.dispatcher, base.dispatcher),
        distributor: prefer(over.distributor, base.distributor),
        heartbeat_tick: prefer(over.heartbeat_tick, base.heartbeat_tick),
        name: prefer(over.name, base.name),
        redundancy: prefer(over.redundancy, base.redundancy),
        resizer: prefer(over.resizer, base.resizer),
    }
}

/// Whether every field is unset.
pub open spec fn all_unset(c: ChildrenConfig) -> bool {
    &&& c.callbacks is None
    &&& c.dispatcher is None
    &&& c.distributor is None
    &&& c.heartbeat_tick is None
    &&& c.name is None
    &&& c.redundancy is None
    &&& c.resizer is None
}

impl ChildrenConfig {
    /// Settings with every field unset.
    pub fn unset() -> (r: Self)
        ensures
            all_unset(r),
    {
        ChildrenConfig {
            callbacks: None,
            dispatcher: None,
            distributor: None,
            heartbeat_tick: None,
            name: None,
            redundancy: None,
            resizer: None,
        }
    }

    /// Lays `overrides` on top of these settings: each field that the overrides
    /// set wins, each that they leave unset keeps its value here.
    pub fn merged(self, overrides: ChildrenConfig) -> (r: Self)
        ensures
            r == layered(self, overrides),
    {
        ChildrenConfig {
            callbacks: pick(overrides.callbacks, self.callbacks),
            dispatcher: pick(overrides.dispatcher, self.dispatcher),
            distributor: pick(overrides.distributor, self.distributor),
            heartbeat_tick: pick(overrides.heartbeat_tick, self.heartbeat_tick),
            name: pick(overrides.name, self.name),
            redundancy: pick(overrides.redundancy, self.redundancy),
            resizer: pick(overrides.resizer, self.resizer),
        }
    }

    /// Sets the children's callbacks.
    pub fn with_children_callbacks(self, callbacks: Callbacks) -> (r: Self)
        ensures
            r == (ChildrenConfig { callbacks: Some(callbacks), ..self }),
    {
        ChildrenConfig { callbacks: Some(callbacks), ..self }
    }

    /// Sets the dispatcher of the children.
    pub fn with_dispatcher(self, dispatcher: Dispatcher) -> (r: Self)
        ensures
            r == (ChildrenConfig { dispatcher: Some(dispatcher), ..self }),
    {
        ChildrenConfig { dispatcher: Some(dispatcher), ..self }
    }

    /// Sets the distributor by which the children are addressed.
    pub fn with_distributor(self, distributor: Distributor) -> (r: Self)
        ensures
            r == (ChildrenConfig { distributor: Some(distributor), ..self }),
    {
        ChildrenConfig { distributor: Some(distributor), ..self }
    }

    /// Sets the heartbeat interval.
    pub fn with_heartbeat_tick(self, interval: Duration) -> (r: Self)
        ensures
            r == (ChildrenConfig { heartbeat_tick: Some(interval), ..self }),
    {
        ChildrenConfig { heartbeat_tick: Some(interval), ..self }
    }

    /// Sets the name of the children group.
    pub fn with_name(self, name: String) -> (r: Self)
        ensures
            r == (ChildrenConfig { name: Some(name), ..self }),
    {
        ChildrenConfig { name: Some(name), ..self }
    }

    /// Sets the number of children in the group.
    pub fn with_redundancy(self, redundancy: usize) -> (r: Self)
        ensures
            r == (ChildrenConfig { redundancy: Some(redundancy), ..self }),
    {
        ChildrenConfig { redundancy: Some(redundancy), ..self }
    }

    /// Sets the resizer that scales the group.
    pub fn with_resizer(self, resizer: OptimalSizeExploringResizer) -> (r: Self)
        ensures
            r == (ChildrenConfig { resizer: Some(resizer), ..self }),
    {
        ChildrenConfig { resizer: Some(resizer), ..self }
    }
}

/// Overrides that set nothing leave a type's settings as they are; settings that
/// a type leaves unset take the overrides as they are.
pub proof fn lemma_unset_layers(c: ChildrenConfig, unset: ChildrenConfig)
    requires
        all_unset(unset),
    ensures
        layered(c, unset) == c,
        layered(unset, c) == c,
{
}

} // verus!
