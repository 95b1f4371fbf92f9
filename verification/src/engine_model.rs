//! A mathematical model of the container engine, and proofs of the reaping
//! policy against it.
//!
//! The engine is modeled as the sequence of containers it holds, each with
//! an identifier, a label map, and a running flag. The three primitives the
//! reaper relies on are modeled directly from their documented behavior:
//! a label-filtered listing returns the containers carrying the full label
//! triple, a stop marks the addressed containers as no longer running, and a
//! prune removes the matching containers that are not running — and only
//! those. The proofs below establish the policy the reaper is built on:
//! an unforced reap never removes a running container, a forced reap stops
//! every running match and then removes every match, and reaping twice is
//! the same as reaping once.

use vstd::prelude::*;

use crate::labels::container_key_spec;
use crate::labels::prune_key_spec;
use crate::labels::scope_key_spec;
use crate::reaper::is_stop_target;
use crate::reaper::running_ids_spec;
use crate::reaper::ContainerInfo;

verus! {

/// One container as the engine holds it.
pub struct EngineContainer {
    /// The identifier stop calls are addressed to.
    pub id: Seq<char>,
    /// The labels stamped on the container when it was created.
    pub labels: Map<Seq<char>, Seq<char>>,
    /// Whether the container is currently running.
    pub running: bool,
}

/// Whether a container carries the full label triple for `scope` and
/// `role`. All three labels must be present and exactly matching: a partial
/// match is no membership.
pub open spec fn matches_triple(c: EngineContainer, scope: Seq<char>, role: Seq<char>) -> bool {
    &&& c.labels.contains_key(scope_key_spec(scope)) && c.labels[scope_key_spec(scope)] == scope
    &&& c.labels.contains_key(container_key_spec(scope)) && c.labels[container_key_spec(scope)]
        == role
    &&& c.labels.contains_key(prune_key_spec(scope)) && c.labels[prune_key_spec(scope)] == "true"@
}

/// What a label-filtered listing returns: the containers carrying the full
/// triple, running or not, in engine order.
pub open spec fn list_matching(
    engine: Seq<EngineContainer>,
    scope: Seq<char>,
    role: Seq<char>,
) -> Seq<EngineContainer>
    decreases engine.len(),
{
    if engine.len() == 0 {
        Seq::empty()
    } else {
        let rest = list_matching(engine.drop_last(), scope, role);
        if matches_triple(engine.last(), scope, role) {
            rest.push(engine.last())
        } else {
            rest
        }
    }
}

/// The identifiers a forced reap addresses its stop calls to: those of the
/// running containers carrying the full triple.
pub open spec fn running_matching_ids(
    engine: Seq<EngineContainer>,
    scope: Seq<char>,
    role: Seq<char>,
) -> Set<Seq<char>> {
    Set::new(
        |id: Seq<char>|
            exists|i: int|
                0 <= i < engine.len() && (#[trigger] engine[i]).id == id && engine[i].running
                    && matches_triple(engine[i], scope, role),
    )
}

/// One container after a set of stop calls: stopped if one was addressed to
/// it, untouched otherwise. A stop changes nothing but the running flag.
pub open spec fn after_stop(c: EngineContainer, ids: Set<Seq<char>>) -> EngineContainer {
    if ids.contains(c.id) {
        EngineContainer { id: c.id, labels: c.labels, running: false }
    } else {
        c
    }
}

/// The engine after stop calls addressed to `ids`.
pub open spec fn stop_ids(engine: Seq<EngineContainer>, ids: Set<Seq<char>>) -> Seq<
    EngineContainer,
> {
    engine.map_values(|c: EngineContainer| after_stop(c, ids))
}

/// Whether a prune scoped by the triple keeps a container: prune removes
/// exactly the matching containers that are not running.
pub open spec fn survives_prune(c: EngineContainer, scope: Seq<char>, role: Seq<char>) -> bool {
    c.running || !matches_triple(c, scope, role)
}

/// The engine after a prune scoped by the triple for `scope` and `role`.
pub open spec fn prune_matching(
    engine: Seq<EngineContainer>,
    scope: Seq<char>,
    role: Seq<char>,
) -> Seq<EngineContainer>
    decreases engine.len(),
{
    if engine.len() == 0 {
        Seq::empty()
    } else {
        let rest = prune_matching(engine.drop_last(), scope, role);
        if survives_prune(engine.last(), scope, role) {
            rest.push(engine.last())
        } else {
            rest
        }
    }
}

/// The engine after a full reap with force: every running match is stopped,
/// then the (now stopped) matches are pruned.
pub open spec fn forced_reap(
    engine: Seq<EngineContainer>,
    scope: Seq<char>,
    role: Seq<char>,
) -> Seq<EngineContainer> {
    prune_matching(stop_ids(engine, running_matching_ids(engine, scope, role)), scope, role)
}

/// The engine after a reap without force: a prune alone.
pub open spec fn unforced_reap(
    engine: Seq<EngineContainer>,
    scope: Seq<char>,
    role: Seq<char>,
) -> Seq<EngineContainer> {
    prune_matching(engine, scope, role)
}

proof fn lemma_push_contains<A>(s: Seq<A>, x: A, c: A)
    ensures
        s.push(x).contains(c) <==> (s.contains(c) || c == x),
{
    if s.contains(c) {
        let i = choose|i: int| 0 <= i < s.len() && s[i] == c;
        assert(s.push(x)[i] == c);
    }
    assert(s.push(x)[s.len() as int] == x);
    if s.push(x).contains(c) {
        let i = choose|i: int| 0 <= i < s.push(x).len() && s.push(x)[i] == c;
        if i < s.len() {
            assert(s[i] == c);
        }
    }
}

/// A listing holds a container exactly when the engine holds it and it
/// carries the full triple.
pub proof fn lemma_list_matching_contains(
    engine: Seq<EngineContainer>,
    scope: Seq<char>,
    role: Seq<char>,
    c: EngineContainer,
)
    ensures
        list_matching(engine, scope, role).contains(c) <==> (engine.contains(c) && matches_triple(
            c,
            scope,
            role,
        )),
    decreases engine.len(),
{
    if engine.len() > 0 {
        lemma_list_matching_contains(engine.drop_last(), scope, role, c);
        if matches_triple(engine.last(), scope, role) {
            lemma_push_contains(list_matching(engine.drop_last(), scope, role), engine.last(), c);
        }
        assert(engine.contains(c) <==> (engine.drop_last().contains(c) || c == engine.last())) by {
            if engine.contains(c) {
                let i = choose|i: int| 0 <= i < engine.len() && engine[i] == c;
                if i < engine.len() - 1 {
                    assert(engine.drop_last()[i] == c);
                }
            }
            if engine.drop_last().contains(c) {
                let i = choose|i: int|
                    0 <= i < engine.drop_last().len() && engine.drop_last()[i] == c;
                assert(engine[i] == c);
            }
        }
    }
}

/// A pruned engine holds a container exactly when the engine held it and
/// the prune kept it.
pub proof fn lemma_prune_matching_contains(
    engine: Seq<EngineContainer>,
    scope: Seq<char>,
    role: Seq<char>,
    c: EngineContainer,
)
    ensures
        prune_matching(engine, scope, role).contains(c) <==> (engine.contains(c) && survives_prune(
            c,
            scope,
            role,
        )),
    decreases engine.len(),
{
    if engine.len() > 0 {
        lemma_prune_matching_contains(engine.drop_last(), scope, role, c);
        if survives_prune(engine.last(), scope, role) {
            lemma_push_contains(prune_matching(engine.drop_last(), scope, role), engine.last(), c);
        }
        assert(engine.contains(c) <==> (engine.drop_last().contains(c) || c == engine.last())) by {
            if engine.contains(c) {
                let i = choose|i: int| 0 <= i < engine.len() && engine[i] == c;
                if i < engine.len() - 1 {
                    assert(engine.drop_last()[i] == c);
                }
            }
            if engine.drop_last().contains(c) {
                let i = choose|i: int|
                    0 <= i < engine.drop_last().len() && engine.drop_last()[i] == c;
                assert(engine[i] == c);
            }
        }
    }
}

/// A prune that keeps every container changes nothing.
proof fn lemma_prune_keeps_all(engine: Seq<EngineContainer>, scope: Seq<char>, role: Seq<char>)
    requires
        forall|i: int|
            0 <= i < engine.len() ==> survives_prune(#[trigger] engine[i], scope, role),
    ensures
        prune_matching(engine, scope, role) =~= engine,
    decreases engine.len(),
{
    if engine.len() > 0 {
        lemma_prune_keeps_all(engine.drop_last(), scope, role);
    }
}

/// Prune does not remove running containers: a reap without force keeps
/// every running container, matching or not, exactly where the engine
/// held it.
pub proof fn lemma_prune_excludes_running(
    engine: Seq<EngineContainer>,
    scope: Seq<char>,
    role: Seq<char>,
    i: int,
)
    requires
        0 <= i < engine.len(),
        engine[i].running,
    ensures
        unforced_reap(engine, scope, role).contains(engine[i]),
{
    lemma_prune_matching_contains(engine, scope, role, engine[i]);
}

/// A forced reap stops every running match and then removes every match:
/// afterwards a listing scoped by the same triple returns nothing.
pub proof fn lemma_forced_reap_clears(
    engine: Seq<EngineContainer>,
    scope: Seq<char>,
    role: Seq<char>,
)
    ensures
        forall|c: EngineContainer|
            #[trigger] forced_reap(engine, scope, role).contains(c) ==> !matches_triple(
                c,
                scope,
                role,
            ),
        list_matching(forced_reap(engine, scope, role), scope, role) =~= Seq::<
            EngineContainer,
        >::empty(),
{
    let ids = running_matching_ids(engine, scope, role);
    let stopped = stop_ids(engine, ids);
    let after = forced_reap(engine, scope, role);
    assert forall|c: EngineContainer| #[trigger] after.contains(c) implies !matches_triple(
        c,
        scope,
        role,
    ) by {
        lemma_prune_matching_contains(stopped, scope, role, c);
        if matches_triple(c, scope, role) {
            // the prune kept it, so it is still running; but a running match
            // would have had its identifier in the stop set.
            let j = choose|j: int| 0 <= j < stopped.len() && stopped[j] == c;
            assert(c == after_stop(engine[j], ids));
            assert(engine[j].running && matches_triple(engine[j], scope, role));
            assert(ids.contains(engine[j].id));
        }
    }
    let cleared = list_matching(after, scope, role);
    if cleared.len() > 0 {
        lemma_list_matching_contains(after, scope, role, cleared[0]);
        assert(cleared.contains(cleared[0]));
        assert forall|c: EngineContainer| #[trigger] cleared.contains(c) implies after.contains(c)
            && matches_triple(c, scope, role) by {
            lemma_list_matching_contains(after, scope, role, c);
        }
    }
    assert(cleared =~= Seq::<EngineContainer>::empty());
}

/// A stopped match is both stopped and absent afterwards: on a forced reap,
/// the identifier of a running match is in the stop set, and the container
/// is gone from the engine once the reap is over.
pub proof fn lemma_force_stops_then_removes(
    engine: Seq<EngineContainer>,
    scope: Seq<char>,
    role: Seq<char>,
    i: int,
)
    requires
        0 <= i < engine.len(),
        engine[i].running,
        matches_triple(engine[i], scope, role),
    ensures
        running_matching_ids(engine, scope, role).contains(engine[i].id),
        !stop_ids(engine, running_matching_ids(engine, scope, role))[i].running,
        !forced_reap(engine, scope, role).contains(engine[i]),
{
    lemma_forced_reap_clears(engine, scope, role);
}

/// Reaping is idempotent: a second reap over the state a successful reap
/// left behind finds nothing to stop and nothing to prune, and leaves the
/// engine unchanged. This holds of the forced and the unforced reap alike.
pub proof fn lemma_reap_idempotent(
    engine: Seq<EngineContainer>,
    scope: Seq<char>,
    role: Seq<char>,
)
    ensures
        running_matching_ids(forced_reap(engine, scope, role), scope, role) =~= Set::<
            Seq<char>,
        >::empty(),
        forced_reap(forced_reap(engine, scope, role), scope, role) =~= forced_reap(
            engine,
            scope,
            role,
        ),
        unforced_reap(unforced_reap(engine, scope, role), scope, role) =~= unforced_reap(
            engine,
            scope,
            role,
        ),
{
    let once = forced_reap(engine, scope, role);
    lemma_forced_reap_clears(engine, scope, role);
    assert forall|i: int| 0 <= i < once.len() implies !matches_triple(
        #[trigger] once[i],
        scope,
        role,
    ) by {
        assert(once.contains(once[i]));
    }
    let again_ids = running_matching_ids(once, scope, role);
    assert(again_ids =~= Set::<Seq<char>>::empty());
    assert(stop_ids(once, again_ids) =~= once);
    lemma_prune_keeps_all(once, scope, role);

    let pruned = unforced_reap(engine, scope, role);
    assert forall|i: int| 0 <= i < pruned.len() implies survives_prune(
        #[trigger] pruned[i],
        scope,
        role,
    ) by {
        assert(pruned.contains(pruned[i]));
        lemma_prune_matching_contains(engine, scope, role, pruned[i]);
    }
    lemma_prune_keeps_all(pruned, scope, role);
}

/// How a listing entry reports an engine container: same identifier, and a
/// state string of `"running"` exactly when the container is running.
pub open spec fn reports(c: ContainerInfo, m: EngineContainer) -> bool {
    &&& c.id is Some && c.id->0@ == m.id
    &&& c.state is Some && ((c.state->0@ == "running"@) <==> m.running)
}

/// The identifiers of the running containers of a model listing, in order.
pub open spec fn running_ids_model(ms: Seq<EngineContainer>) -> Seq<Seq<char>>
    decreases ms.len(),
{
    if ms.len() == 0 {
        Seq::empty()
    } else {
        let rest = running_ids_model(ms.drop_last());
        if ms.last().running {
            rest.push(ms.last().id)
        } else {
            rest
        }
    }
}

/// The running identifiers taken from a label-filtered listing are exactly
/// the identifiers a forced reap is to stop: those of the running containers
/// carrying the full triple.
pub proof fn lemma_listing_yields_stop_set(
    engine: Seq<EngineContainer>,
    scope: Seq<char>,
    role: Seq<char>,
)
    ensures
        running_ids_model(list_matching(engine, scope, role)).to_set() =~= running_matching_ids(
            engine,
            scope,
            role,
        ),
    decreases engine.len(),
{
    let listed = list_matching(engine, scope, role);
    let ids = running_ids_model(listed);
    if engine.len() == 0 {
        assert forall|id: Seq<char>| !(#[trigger] ids.to_set().contains(id)) by {}
    } else {
        let prior = engine.drop_last();
        let last = engine.last();
        lemma_listing_yields_stop_set(prior, scope, role);
        let listed_prior = list_matching(prior, scope, role);
        let ids_prior = running_ids_model(listed_prior);
        if matches_triple(last, scope, role) {
            assert(listed_prior.push(last).drop_last() =~= listed_prior);
            if last.running {
                assert(ids =~= ids_prior.push(last.id));
                assert forall|id: Seq<char>| #[trigger]
                    ids.to_set().contains(id) <==> (ids_prior.to_set().contains(id) || id
                        == last.id) by {
                    lemma_push_contains(ids_prior, last.id, id);
                }
            } else {
                assert(ids =~= ids_prior);
            }
        } else {
            assert(listed =~= listed_prior);
        }
        assert forall|id: Seq<char>| #[trigger]
            running_matching_ids(engine, scope, role).contains(id) <==> (running_matching_ids(
                prior,
                scope,
                role,
            ).contains(id) || (last.running && matches_triple(last, scope, role) && id
                == last.id)) by {
            if running_matching_ids(engine, scope, role).contains(id) {
                let i = choose|i: int|
                    0 <= i < engine.len() && (#[trigger] engine[i]).id == id && engine[i].running
                        && matches_triple(engine[i], scope, role);
                if i < engine.len() - 1 {
                    assert(prior[i] == engine[i]);
                }
            }
            if running_matching_ids(prior, scope, role).contains(id) {
                let i = choose|i: int|
                    0 <= i < prior.len() && (#[trigger] prior[i]).id == id && prior[i].running
                        && matches_triple(prior[i], scope, role);
                assert(engine[i] == prior[i]);
            }
            if last.running && matches_triple(last, scope, role) && id == last.id {
                assert(engine[engine.len() - 1].id == id);
            }
        }
    }
}

/// What the reaper stops is exactly what the engine reported running: if a
/// listing faithfully reports a sequence of engine containers, the
/// identifiers the reaper selects to stop are precisely those of the
/// running ones among them, in the same order.
pub proof fn lemma_stop_selection_faithful(cs: Seq<ContainerInfo>, ms: Seq<EngineContainer>)
    requires
        cs.len() == ms.len(),
        forall|i: int| 0 <= i < cs.len() ==> reports(#[trigger] cs[i], ms[i]),
    ensures
        running_ids_spec(cs) =~= running_ids_model(ms),
    decreases cs.len(),
{
    if cs.len() > 0 {
        lemma_stop_selection_faithful(cs.drop_last(), ms.drop_last());
        assert(reports(cs[cs.len() - 1], ms[ms.len() - 1]));
        assert(is_stop_target(cs.last()) <==> ms.last().running);
    }
}

} // verus!
