//! The stale-container reaper.
//!
//! Reaping is a short protocol against the container engine: acquire a
//! client, list the containers matching the label triple (only when running
//! ones are to be force-stopped), stop the running matches, prune the
//! stopped matches, and finally hand back the label triple to stamp onto the
//! outgoing request. The engine calls themselves are asynchronous I/O and
//! are performed by the caller; this module decides, step by step, which
//! call comes next and what to do with its outcome.
//!
//! The decisions are made by [`Reaper`], a state machine: the caller starts
//! it with [`Reaper::new`], performs each [`EngineAction`] it is handed, and
//! feeds the outcome back through [`Reaper::step`] until the action is
//! [`EngineAction::FinishLabeling`] or [`EngineAction::ReturnError`].

use vstd::prelude::*;

use crate::labels::container_key_spec;
use crate::labels::container_label_key;
use crate::labels::label_map_of;
use crate::labels::labeled_map;
use crate::labels::prune_key_spec;
use crate::labels::prune_label_key;
use crate::labels::scope_key_spec;
use crate::labels::scope_label_key;
use vstd::string::StringExecFns;

verus! {

/// What the engine reports of one existing container: its identifier and its
/// state, either of which the engine may omit.
#[derive(Debug)]
pub struct ContainerInfo {
    pub id: Option<String>,
    pub state: Option<String>,
}

/// Whether a reported container is to be stopped: it is running and carries
/// an identifier to address the stop call to.
pub open spec fn is_stop_target(c: ContainerInfo) -> bool {
    &&& c.state is Some
    &&& c.state->0@ == "running"@
    &&& c.id is Some
}

/// The identifiers of the running containers in a listing, in listing order.
pub open spec fn running_ids_spec(containers: Seq<ContainerInfo>) -> Seq<Seq<char>>
    decreases containers.len(),
{
    if containers.len() == 0 {
        Seq::empty()
    } else {
        let rest = running_ids_spec(containers.drop_last());
        if is_stop_target(containers.last()) {
            rest.push(containers.last().id->0@)
        } else {
            rest
        }
    }
}

fn state_is_running(state: &Option<String>) -> (b: bool)
    ensures
        b == (state is Some && state->0@ == "running"@),
{
    match state {
        Some(s) => {
            let running: String = "running".to_owned();
            *s == running
        },
        None => false,
    }
}

/// The identifiers of the running containers in a listing: the containers a
/// forced reap stops before it prunes.
pub fn running_container_ids(containers: &Vec<ContainerInfo>) -> (ids: Vec<String>)
    ensures
        ids.deep_view() == running_ids_spec(containers@),
{
    let mut ids: Vec<String> = Vec::new();
    proof {
        assert(ids.deep_view() =~= running_ids_spec(containers@.take(0)));
    }
    let mut i: usize = 0;
    while i < containers.len()
        invariant
            i <= containers@.len(),
            ids.deep_view() == running_ids_spec(containers@.take(i as int)),
        decreases containers@.len() - i,
    {
        let ghost before = ids.deep_view();
        proof {
            assert(containers@.take(i + 1).drop_last() =~= containers@.take(i as int));
            assert(containers@.take(i + 1).last() == containers@[i as int]);
        }
        if state_is_running(&containers[i].state) {
            match &containers[i].id {
                Some(id) => {
                    ids.push(id.clone());
                    proof {
                        assert(ids.deep_view() =~= before.push(containers@[i as int].id->0@));
                    }
                },
                None => {},
            }
        }
        i = i + 1;
    }
    proof {
        assert(containers@.take(containers@.len() as int) =~= containers@);
    }
    ids
}

/// The three engine filter terms built from the label triple, in the order
/// they are assembled: prune sentinel, scope, role. Each term has the form
/// `key=value`, the conjunction of which the engine's label filter applies.
pub open spec fn filter_strings_spec(scope: Seq<char>, role: Seq<char>) -> Seq<Seq<char>> {
    seq![
        prune_key_spec(scope) + "=true"@,
        scope_key_spec(scope) + "="@ + scope,
        container_key_spec(scope) + "="@ + role,
    ]
}

/// Builds the label filter for `scope` and `role`, constructed fresh for
/// every engine query that uses it.
pub fn label_filter_strings(scope: &str, role: &str) -> (filters: Vec<String>)
    ensures
        filters.deep_view() == filter_strings_spec(scope@, role@),
{
    let mut filters: Vec<String> = Vec::new();
    filters.push(prune_label_key(scope).concat("=true"));
    filters.push(scope_label_key(scope).concat("=").concat(scope));
    filters.push(container_label_key(scope).concat("=").concat(role));
    proof {
        assert(filters.deep_view() =~= filter_strings_spec(scope@, role@));
    }
    filters
}

/// The label triple for `scope` and `role` as key/value entries, in the
/// order the outgoing request is stamped: prune sentinel, scope, role.
pub open spec fn label_triple_spec(scope: Seq<char>, role: Seq<char>) -> Seq<
    (Seq<char>, Seq<char>),
> {
    seq![
        (prune_key_spec(scope), "true"@),
        (scope_key_spec(scope), scope),
        (container_key_spec(scope), role),
    ]
}

/// Builds the label triple to stamp onto an outgoing container request.
pub fn label_triple(scope: &str, role: &str) -> (labels: Vec<(String, String)>)
    ensures
        labels.deep_view() == label_triple_spec(scope@, role@),
{
    let mut labels: Vec<(String, String)> = Vec::new();
    labels.push((prune_label_key(scope), "true".to_owned()));
    labels.push((scope_label_key(scope), scope.to_owned()));
    labels.push((container_label_key(scope), role.to_owned()));
    proof {
        assert(labels.deep_view() =~= label_triple_spec(scope@, role@));
    }
    labels
}

/// Inserting the label triple entries into a label map, in order, completes
/// the map exactly as the labeling step describes: whatever was there
/// before, the three keys now carry the scope, the role, and `"true"`.
pub proof fn lemma_label_triple_entries_complete(
    entries: Seq<(Seq<char>, Seq<char>)>,
    scope: Seq<char>,
    role: Seq<char>,
)
    ensures
        label_map_of(entries + label_triple_spec(scope, role)) == labeled_map(
            label_map_of(entries),
            scope,
            role,
        ),
{
    reveal_with_fuel(label_map_of, 4);
    let triple = label_triple_spec(scope, role);
    let all = entries + triple;
    assert(all.drop_last() =~= entries + seq![triple[0], triple[1]]);
    assert(all.drop_last().drop_last() =~= entries + seq![triple[0]]);
    assert(all.drop_last().drop_last().drop_last() =~= entries);
    assert(all.drop_last().drop_last().last() == triple[0]);
    assert(all.drop_last().last() == triple[1]);
    assert(all.last() == triple[2]);
}

/// Which engine operation failed. Every engine-originating failure surfaces
/// as one of these; the underlying cause travels with the caller that made
/// the call.
#[derive(Clone, Copy, Debug, PartialEq, Eq, Structural)]
pub enum ReapError {
    /// A client handle to the engine could not be acquired.
    ClientUnavailable,
    /// The label-filtered listing failed.
    ListFailed,
    /// Stopping one of the running matches failed.
    StopFailed,
    /// The prune call failed.
    PruneFailed,
}

/// The next call the caller is to make against the engine, or the final
/// outcome of the run.
pub enum EngineAction {
    /// Acquire a client handle to the engine.
    AcquireClient,
    /// List the containers matching the filter, running or not, and report
    /// the result through [`EngineEvent::Listed`].
    ListMatching { filters: Vec<String> },
    /// Stop each of these containers; the stops may run concurrently, and
    /// one failure fails the run as a whole.
    StopContainers { ids: Vec<String> },
    /// Prune (remove) the stopped containers matching the filter.
    PruneMatching { filters: Vec<String> },
    /// The run succeeded: stamp these labels onto the outgoing request, in
    /// order, and return it.
    FinishLabeling { labels: Vec<(String, String)> },
    /// The run failed; no labeled request is produced.
    ReturnError { error: ReapError },
}

/// The outcome of the engine call the caller was asked to make.
pub enum EngineEvent {
    /// A client handle was acquired.
    ClientReady,
    /// No client handle could be acquired.
    ClientFailed,
    /// The listing returned these containers.
    Listed { containers: Vec<ContainerInfo> },
    /// The listing failed.
    ListFailed,
    /// Every stop call completed.
    StopsDone,
    /// At least one stop call failed.
    StopFailed,
    /// The prune call completed, removing these containers.
    Pruned { removed: Vec<String> },
    /// The prune call failed.
    PruneFailed,
}

/// Where a reap run stands.
#[derive(Clone, Copy, Debug, PartialEq, Eq, Structural)]
pub enum ReapPhase {
    /// Waiting for a client handle.
    AcquiringClient,
    /// Waiting for the label-filtered listing.
    Listing,
    /// Waiting for the stop calls to complete.
    Stopping,
    /// Waiting for the prune call.
    Pruning,
    /// The run succeeded and the labels were handed out.
    Finished,
    /// The run failed; nothing further happens.
    Failed,
}

/// One reap-and-label run for a scope and role.
///
/// The run is driven by the caller: [`Reaper::new`] hands out the first
/// action, and each engine outcome fed to [`Reaper::step`] hands out the
/// next. A run that has finished or failed accepts no further event, so no
/// engine call can follow the final outcome.
pub struct Reaper {
    pub scope: String,
    pub role: String,
    pub prune: bool,
    pub force: bool,
    pub phase: ReapPhase,
}

impl Reaper {
    /// The phases a run can reach: with pruning disabled the run is over
    /// before any engine phase, and without `force` the listing and
    /// stopping phases are never entered.
    pub open spec fn inv(self) -> bool {
        &&& !self.prune ==> (self.phase is Finished || self.phase is Failed)
        &&& !self.force ==> !(self.phase is Listing) && !(self.phase is Stopping)
    }

    /// Whether `event` is the outcome the run is waiting for.
    pub open spec fn accepts(self, event: EngineEvent) -> bool {
        match self.phase {
            ReapPhase::AcquiringClient => event is ClientReady || event is ClientFailed,
            ReapPhase::Listing => event is Listed || event is ListFailed,
            ReapPhase::Stopping => event is StopsDone || event is StopFailed,
            ReapPhase::Pruning => event is Pruned || event is PruneFailed,
            ReapPhase::Finished => false,
            ReapPhase::Failed => false,
        }
    }

    /// Whether `event` is the outcome the run is waiting for; a caller that
    /// is unsure can test before calling [`Reaper::step`].
    pub fn accepts_event(&self, event: &EngineEvent) -> (b: bool)
        ensures
            b == self.accepts(*event),
    {
        match self.phase {
            ReapPhase::AcquiringClient => matches!(
                event,
                EngineEvent::ClientReady | EngineEvent::ClientFailed
            ),
            ReapPhase::Listing => matches!(
                event,
                EngineEvent::Listed { .. } | EngineEvent::ListFailed
            ),
            ReapPhase::Stopping => matches!(event, EngineEvent::StopsDone | EngineEvent::StopFailed),
            ReapPhase::Pruning => matches!(
                event,
                EngineEvent::Pruned { .. } | EngineEvent::PruneFailed
            ),
            ReapPhase::Finished => false,
            ReapPhase::Failed => false,
        }
    }

    /// Starts a run. With `prune` false the run is already over: the first
    /// action hands out the label triple and no engine call of any kind is
    /// requested. Otherwise the run begins by acquiring a client handle.
    pub fn new(scope: &str, role: &str, prune: bool, force: bool) -> (r: (Reaper, EngineAction))
        ensures
            r.0.inv(),
            r.0.scope@ == scope@,
            r.0.role@ == role@,
            r.0.prune == prune,
            r.0.force == force,
            !prune ==> r.0.phase is Finished && (r.1 matches EngineAction::FinishLabeling {
                labels,
            } && labels.deep_view() == label_triple_spec(scope@, role@)),
            prune ==> r.0.phase is AcquiringClient && r.1 is AcquireClient,
    {
        if prune {
            let reaper = Reaper {
                scope: scope.to_owned(),
                role: role.to_owned(),
                prune,
                force,
                phase: ReapPhase::AcquiringClient,
            };
            (reaper, EngineAction::AcquireClient)
        } else {
            let labels = label_triple(scope, role);
            let reaper = Reaper {
                scope: scope.to_owned(),
                role: role.to_owned(),
                prune,
                force,
                phase: ReapPhase::Finished,
            };
            (reaper, EngineAction::FinishLabeling { labels })
        }
    }

    /// Advances the run by the outcome of the requested engine call and
    /// hands out the next action.
    ///
    /// The clauses below pin the whole protocol down: which phase follows
    /// which outcome, that stopping is only ever requested on a forced run,
    /// that the stop set is exactly the running containers of the listing,
    /// that a failure of any call ends the run with the matching error and
    /// in particular that no prune is requested once a stop has failed, and
    /// that the labels handed out on success are exactly the label triple.
    pub fn step(&mut self, event: EngineEvent) -> (action: EngineAction)
        requires
            old(self).inv(),
            old(self).accepts(event),
        ensures
            final(self).inv(),
            final(self).scope == old(self).scope,
            final(self).role == old(self).role,
            final(self).prune == old(self).prune,
            final(self).force == old(self).force,
            action is StopContainers ==> old(self).force,
            event is StopFailed ==> final(self).phase is Failed,
            (old(self).phase is AcquiringClient && event is ClientReady && old(self).force) ==> (
            final(self).phase is Listing && (action matches EngineAction::ListMatching { filters }
                && filters.deep_view() == filter_strings_spec(
                old(self).scope@,
                old(self).role@,
            ))),
            (old(self).phase is AcquiringClient && event is ClientReady && !old(self).force) ==> (
            final(self).phase is Pruning && (action matches EngineAction::PruneMatching { filters }
                && filters.deep_view() == filter_strings_spec(
                old(self).scope@,
                old(self).role@,
            ))),
            (old(self).phase is AcquiringClient && event is ClientFailed) ==> (
            final(self).phase is Failed && (action matches EngineAction::ReturnError { error }
                && error is ClientUnavailable)),
            old(self).phase is Listing ==> (event matches EngineEvent::Listed { containers } ==> (
            final(self).phase is Stopping && (action matches EngineAction::StopContainers { ids }
                && ids.deep_view() == running_ids_spec(containers@)))),
            (old(self).phase is Listing && event is ListFailed) ==> (final(self).phase is Failed
                && (action matches EngineAction::ReturnError { error } && error is ListFailed)),
            (old(self).phase is Stopping && event is StopsDone) ==> (final(self).phase is Pruning
                && (action matches EngineAction::PruneMatching { filters }
                && filters.deep_view() == filter_strings_spec(
                old(self).scope@,
                old(self).role@,
            ))),
            (old(self).phase is Stopping && event is StopFailed) ==> (final(self).phase is Failed
                && (action matches EngineAction::ReturnError { error } && error is StopFailed)),
            (old(self).phase is Pruning && event is Pruned) ==> (final(self).phase is Finished && (
            action matches EngineAction::FinishLabeling { labels } && labels.deep_view()
                == label_triple_spec(old(self).scope@, old(self).role@))),
            (old(self).phase is Pruning && event is PruneFailed) ==> (final(self).phase is Failed
                && (action matches EngineAction::ReturnError { error } && error is PruneFailed)),
    {
        let phase = self.phase;
        match (phase, event) {
            (ReapPhase::AcquiringClient, EngineEvent::ClientReady) => {
                let filters = label_filter_strings(self.scope.as_str(), self.role.as_str());
                if self.force {
                    self.phase = ReapPhase::Listing;
                    EngineAction::ListMatching { filters }
                } else {
                    self.phase = ReapPhase::Pruning;
                    EngineAction::PruneMatching { filters }
                }
            },
            (ReapPhase::AcquiringClient, EngineEvent::ClientFailed) => {
                self.phase = ReapPhase::Failed;
                EngineAction::ReturnError { error: ReapError::ClientUnavailable }
            },
            (ReapPhase::Listing, EngineEvent::Listed { containers }) => {
                self.phase = ReapPhase::Stopping;
                EngineAction::StopContainers { ids: running_container_ids(&containers) }
            },
            (ReapPhase::Listing, EngineEvent::ListFailed) => {
                self.phase = ReapPhase::Failed;
                EngineAction::ReturnError { error: ReapError::ListFailed }
            },
            (ReapPhase::Stopping, EngineEvent::StopsDone) => {
                self.phase = ReapPhase::Pruning;
                EngineAction::PruneMatching {
                    filters: label_filter_strings(self.scope.as_str(), self.role.as_str()),
                }
            },
            (ReapPhase::Stopping, EngineEvent::StopFailed) => {
                self.phase = ReapPhase::Failed;
                EngineAction::ReturnError { error: ReapError::StopFailed }
            },
            (ReapPhase::Pruning, EngineEvent::Pruned { removed: _ }) => {
                self.phase = ReapPhase::Finished;
                let labels = label_triple(self.scope.as_str(), self.role.as_str());
                EngineAction::FinishLabeling { labels }
            },
            (ReapPhase::Pruning, EngineEvent::PruneFailed) => {
                self.phase = ReapPhase::Failed;
                EngineAction::ReturnError { error: ReapError::PruneFailed }
            },
            _ => vstd::pervasive::unreached(),
        }
    }
}

/// With pruning disabled a run makes no engine contact at all: it starts
/// finished (its first action already hands out the label triple), and a
/// finished run accepts no event, so no step and hence no engine call can
/// ever be requested of the caller.
pub proof fn lemma_disabled_run_is_inert(r: Reaper, event: EngineEvent)
    requires
        r.inv(),
        !r.prune,
    ensures
        !r.accepts(event),
{
}

/// A run that has delivered its outcome is over: once it has finished, or
/// failed — in particular as soon as one stop call fails — it accepts no
/// further event, so no prune or any other engine call can follow.
pub proof fn lemma_final_phase_ends_run(r: Reaper, event: EngineEvent)
    requires
        r.phase is Finished || r.phase is Failed,
    ensures
        !r.accepts(event),
{
}

} // verus!
