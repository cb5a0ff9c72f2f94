//! What holds of every pipeline: the order of a run, its determinism, what a
//! registration decides, where a run stops, and how nested pipelines compose.

use vstd::prelude::*;
use crate::manager::StageManager;
use crate::registry::constructs;
use crate::stage::error_of;
use crate::stage::FromArgs;
use crate::stage::Outcome;
use crate::stage::Stage;
use crate::stage::StageError;

verus! {

/// The context that the first `k` stages of the pipeline leave behind, each
/// working on what the one before it left.
pub open spec fn context_after<C, V>(m: StageManager<C, V>, k: int, c: C) -> C
    decreases k,
{
    if k <= 0 {
        c
    } else {
        m.step(k - 1, context_after(m, k - 1, c)).context
    }
}

/// Whether each of the first `k` stages succeeds on the context that the
/// stages before it left.
pub open spec fn succeeds_through<C, V>(m: StageManager<C, V>, k: int, c: C) -> bool {
    forall|j: int| 0 <= j < k ==> (#[trigger] m.step(j, context_after(m, j, c))).error.is_none()
}

/// Two outcomes with the same context that agree on whether the run failed.
pub open spec fn same_effect<C>(a: Outcome<C>, b: Outcome<C>) -> bool {
    a.context == b.context && a.error.is_some() == b.error.is_some()
}

/// What is left when the stages of `m` from `from` on carry on after `first`:
/// nothing more happens after a failure.
pub open spec fn carry_on<C, V>(first: Outcome<C>, m: StageManager<C, V>, from: int) -> Outcome<C> {
    if first.error.is_some() {
        first
    } else {
        m.run_from(from, first.context)
    }
}

/// Stages run in declared order: as long as the first `k` stages succeed, the
/// run is the run of the remaining stages on the context that stage 0, then
/// stage 1, and so on up to stage `k - 1` have worked on.
pub proof fn lemma_runs_in_declared_order<C, V>(m: StageManager<C, V>, k: int, c: C)
    requires
        0 <= k <= m.stage_count(),
        succeeds_through(m, k, c),
    ensures
        m.pipeline_outcome(c) == m.run_from(k, context_after(m, k, c)),
    decreases k,
{
    if k > 0 {
        lemma_runs_in_declared_order(m, k - 1, c);
        assert(m.step(k - 1, context_after(m, k - 1, c)).error.is_none());
    }
}

/// Where every stage succeeds, the run succeeds and leaves the context that
/// all the stages have worked on, in declared order.
pub proof fn lemma_all_stages_applied<C, V>(m: StageManager<C, V>, c: C)
    requires
        succeeds_through(m, m.stage_count(), c),
    ensures
        m.pipeline_outcome(c) == (Outcome {
            context: context_after(m, m.stage_count(), c),
            error: None,
        }),
{
    lemma_runs_in_declared_order(m, m.stage_count(), c);
}

/// The first stage that fails ends the run: the run's outcome is that
/// stage's, on the context that the stages before it left, and no later
/// stage has any part in it.
pub proof fn lemma_first_failure_ends_run<C, V>(m: StageManager<C, V>, k: int, c: C)
    requires
        0 <= k < m.stage_count(),
        succeeds_through(m, k, c),
        m.step(k, context_after(m, k, c)).error.is_some(),
    ensures
        m.pipeline_outcome(c) == m.step(k, context_after(m, k, c)),
{
    lemma_runs_in_declared_order(m, k, c);
}

/// A descriptor whose name is not registered makes the run fail.
pub proof fn lemma_unresolved_name_fails<C, V>(m: StageManager<C, V>, k: int, c: C)
    requires
        0 <= k < m.stage_count(),
        !m.registry().contains_key(m.file.stages@[k].name@),
    ensures
        m.pipeline_outcome(c).error.is_some(),
{
    lemma_fails_from(m, 0, k, c);
}

/// A run from `from` fails where a descriptor at or after `from` is not
/// registered.
proof fn lemma_fails_from<C, V>(m: StageManager<C, V>, from: int, k: int, c: C)
    requires
        0 <= from <= k < m.stage_count(),
        !m.registry().contains_key(m.file.stages@[k].name@),
    ensures
        m.run_from(from, c).error.is_some(),
    decreases k - from,
{
    if from < k {
        if m.step(from, c).error.is_none() {
            lemma_fails_from(m, from + 1, k, m.step(from, c).context);
        }
    }
}

/// A descriptor whose name is not registered, reached after stages that all
/// succeeded, ends the run there: the error names its place, the context is
/// as the stages before it left it, and no later descriptor is looked at.
pub proof fn lemma_unresolved_name_stops_run<C, V>(m: StageManager<C, V>, k: int, c: C)
    requires
        0 <= k < m.stage_count(),
        succeeds_through(m, k, c),
        !m.registry().contains_key(m.file.stages@[k].name@),
    ensures
        m.pipeline_outcome(c) == (Outcome {
            context: context_after(m, k, c),
            error: Some(StageError::Unresolved { index: k as usize }),
        }),
{
    lemma_first_failure_ends_run(m, k, c);
}

/// A run is determined by the manager and the context it starts from: two
/// runs of one manager from equal contexts end with equal contexts and equal
/// results.
pub proof fn lemma_run_is_determined<C, V>(
    m: StageManager<C, V>,
    start: C,
    first_end: C,
    first_result: Result<(), StageError>,
    second_end: C,
    second_result: Result<(), StageError>,
)
    requires
        m.pipeline_outcome(start) == (Outcome { context: first_end, error: error_of(first_result) }),
        m.pipeline_outcome(start) == (Outcome {
            context: second_end,
            error: error_of(second_result),
        }),
    ensures
        first_end == second_end,
        first_result == second_result,
{
    assert(error_of(first_result) == error_of(second_result));
    match (first_result, second_result) {
        (Ok(a), Ok(b)) => {
            assert(a == b);
        },
        _ => {},
    }
}

/// Whether `after` is `before` with the stage type `S` registered under
/// `name`: the pipeline is the same, and the registries differ at most in
/// what stands under `name`, which in `after` constructs stages of type `S`.
pub open spec fn registered<C, V, S: Stage<C> + FromArgs<V>>(
    before: StageManager<C, V>,
    after: StageManager<C, V>,
    name: Seq<char>,
) -> bool {
    &&& after.file == before.file
    &&& after.registry() == before.registry().insert(name, after.registry()[name])
    &&& constructs::<C, V, S>(after.registry()[name])
}

/// The latest registration under a name decides alone what a descriptor of
/// that name does: whatever stood under the name before, and whether
/// anything did, the descriptor is refused where its arguments describe no
/// `S`, and otherwise runs as the `S` that they describe. A descriptor of
/// another name does what it did before.
pub proof fn lemma_latest_registration_decides<C, V, S: Stage<C> + FromArgs<V>>(
    before: StageManager<C, V>,
    after: StageManager<C, V>,
    name: Seq<char>,
    i: int,
    c: C,
)
    requires
        registered::<C, V, S>(before, after, name),
        0 <= i < after.stage_count(),
    ensures
        after.file.stages@[i].name@ == name ==> after.step(i, c) == match S::described(
            &after.file.stages@[i].args,
        ) {
            None => Outcome { context: c, error: Some(StageError::Malformed { index: i as usize }) },
            Some(s) => s.outcome_once_set_up(c),
        },
        after.file.stages@[i].name@ != name ==> after.step(i, c) == before.step(i, c),
{
}

/// Whether `inlined` is `parent` with the stage at place `k` replaced by the
/// stages of `nested`: the stage at `k` of `parent` runs the pipeline of
/// `nested`, and the stages of `inlined` are those of `parent` before `k`,
/// then those of `nested`, then those of `parent` after `k`.
pub open spec fn inlines<C, V>(
    inlined: StageManager<C, V>,
    parent: StageManager<C, V>,
    nested: StageManager<C, V>,
    k: int,
) -> bool {
    &&& 0 <= k < parent.stage_count()
    &&& inlined.stage_count() == parent.stage_count() - 1 + nested.stage_count()
    &&& forall|c: C| same_effect(#[trigger] parent.step(k, c), nested.pipeline_outcome(c))
    &&& forall|i: int, c: C|
        0 <= i < k ==> same_effect(inlined.step(i, c), #[trigger] parent.step(i, c))
    &&& forall|j: int, c: C|
        0 <= j < nested.stage_count() ==> same_effect(
            inlined.step(k + j, c),
            #[trigger] nested.step(j, c),
        )
    &&& forall|i: int, c: C|
        k < i < parent.stage_count() ==> same_effect(
            inlined.step(i + nested.stage_count() - 1, c),
            #[trigger] parent.step(i, c),
        )
}

/// A descriptor whose registered stage type makes of its arguments a stage
/// that, once set up, runs the pipeline of `nested`, does what that pipeline
/// does: the first condition of `inlines` holds of it.
pub proof fn lemma_nested_stage_runs_nested_pipeline<C, V, S: Stage<C> + FromArgs<V>>(
    parent: StageManager<C, V>,
    nested: StageManager<C, V>,
    k: int,
    c: C,
)
    requires
        0 <= k < parent.stage_count(),
        parent.registry().contains_key(parent.file.stages@[k].name@),
        constructs::<C, V, S>(parent.registry()[parent.file.stages@[k].name@]),
        S::described(&parent.file.stages@[k].args).is_some(),
        S::described(&parent.file.stages@[k].args).unwrap().outcome_once_set_up(c)
            == nested.pipeline_outcome(c),
    ensures
        parent.step(k, c) == nested.pipeline_outcome(c),
        same_effect(parent.step(k, c), nested.pipeline_outcome(c)),
{
}

proof fn lemma_inlined_suffix<C, V>(
    inlined: StageManager<C, V>,
    parent: StageManager<C, V>,
    nested: StageManager<C, V>,
    k: int,
    i: int,
    c: C,
)
    requires
        inlines(inlined, parent, nested, k),
        k < i <= parent.stage_count(),
    ensures
        same_effect(
            inlined.run_from(i + nested.stage_count() - 1, c),
            parent.run_from(i, c),
        ),
    decreases parent.stage_count() - i,
{
    if i < parent.stage_count() {
        let p = parent.step(i, c);
        let q = inlined.step(i + nested.stage_count() - 1, c);
        assert(same_effect(q, p));
        if p.error.is_none() {
            lemma_inlined_suffix(inlined, parent, nested, k, i + 1, p.context);
        }
    }
}

proof fn lemma_inlined_middle<C, V>(
    inlined: StageManager<C, V>,
    parent: StageManager<C, V>,
    nested: StageManager<C, V>,
    k: int,
    j: int,
    c: C,
)
    requires
        inlines(inlined, parent, nested, k),
        0 <= j <= nested.stage_count(),
    ensures
        same_effect(
            inlined.run_from(k + j, c),
            carry_on(nested.run_from(j, c), parent, k + 1),
        ),
    decreases nested.stage_count() - j,
{
    if j < nested.stage_count() {
        let n = nested.step(j, c);
        let q = inlined.step(k + j, c);
        assert(same_effect(q, n));
        if n.error.is_none() {
            lemma_inlined_middle(inlined, parent, nested, k, j + 1, n.context);
        }
    } else {
        lemma_inlined_suffix(inlined, parent, nested, k, k + 1, c);
    }
}

proof fn lemma_inlined_prefix<C, V>(
    inlined: StageManager<C, V>,
    parent: StageManager<C, V>,
    nested: StageManager<C, V>,
    k: int,
    i: int,
    c: C,
)
    requires
        inlines(inlined, parent, nested, k),
        0 <= i <= k,
    ensures
        same_effect(inlined.run_from(i, c), parent.run_from(i, c)),
    decreases k - i,
{
    let p = parent.step(i, c);
    if i < k {
        let q = inlined.step(i, c);
        assert(same_effect(q, p));
        if p.error.is_none() {
            lemma_inlined_prefix(inlined, parent, nested, k, i + 1, p.context);
        }
    } else {
        assert(same_effect(p, nested.pipeline_outcome(c)));
        lemma_inlined_middle(inlined, parent, nested, k, 0, c);
    }
}

/// A nested pipeline composes as if it were written out: a pipeline with a
/// stage that runs a nested pipeline leaves the same context, and fails on
/// the same contexts, as the pipeline in which the stages of the nested one
/// stand in that stage's place.
pub proof fn lemma_nested_pipeline_is_inlined<C, V>(
    inlined: StageManager<C, V>,
    parent: StageManager<C, V>,
    nested: StageManager<C, V>,
    k: int,
    c: C,
)
    requires
        inlines(inlined, parent, nested, k),
    ensures
        same_effect(inlined.pipeline_outcome(c), parent.pipeline_outcome(c)),
{
    lemma_inlined_prefix(inlined, parent, nested, k, 0, c);
}

} // verus!
