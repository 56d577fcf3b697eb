use vstd::prelude::*;

use crate::error::ErrorModel;
use crate::machine::{
    after_plugins, bootstrap_wf, next_state, run_outcomes, started, step_of, successes, trace,
    BootstrapModel, Phase, Step,
};
use crate::platform::{strategy_for, PlatformClass, SetupStrategy};
use crate::registry::{build_spec, fresh_builder, register_spec, BuilderModel};

verus! {

/// The builder after registering `ids` in order, and whether every
/// registration was accepted.
pub open spec fn register_all(m: BuilderModel, ids: Seq<Seq<char>>) -> (BuilderModel, bool)
    decreases ids.len(),
{
    if ids.len() == 0 {
        (m, true)
    } else {
        let (m1, r) = register_spec(m, ids[0]);
        let (m2, ok) = register_all(m1, ids.drop_first());
        (m2, r is Ok && ok)
    }
}

proof fn lemma_trace_len(s: BootstrapModel, os: Seq<Result<(), Seq<char>>>)
    ensures
        trace(s, os).len() == os.len() + 1,
        trace(s, os)[0] == step_of(s),
    decreases os.len(),
{
    if os.len() > 0 {
        lemma_trace_len(next_state(s, os[0]), os.drop_first());
    }
}

/// Handing back `a` and then `b` asks for the steps of `a` up to its last
/// outcome, then the steps of `b` from where `a` left the bootstrap.
proof fn lemma_trace_append(
    s: BootstrapModel,
    a: Seq<Result<(), Seq<char>>>,
    b: Seq<Result<(), Seq<char>>>,
)
    ensures
        trace(s, a + b) == trace(s, a).take(a.len() as int) + trace(run_outcomes(s, a), b),
        run_outcomes(s, a + b) == run_outcomes(run_outcomes(s, a), b),
    decreases a.len(),
{
    if a.len() == 0 {
        assert(a + b =~= b);
        assert(trace(s, a).take(0) + trace(s, b) =~= trace(s, b));
    } else {
        let s1 = next_state(s, a[0]);
        assert((a + b).drop_first() =~= a.drop_first() + b);
        assert((a + b)[0] == a[0]);
        lemma_trace_append(s1, a.drop_first(), b);
        lemma_trace_len(s1, a.drop_first());
        assert(trace(s, a).take(a.len() as int) =~= seq![step_of(s)] + trace(
            s1,
            a.drop_first(),
        ).take(a.len() - 1));
        assert(trace(s, a + b) =~= trace(s, a).take(a.len() as int) + trace(
            run_outcomes(s, a),
            b,
        ));
    }
}

/// Running and Failed are terminal: the bootstrap stays and repeats its step.
proof fn lemma_terminal_stays(s: BootstrapModel, os: Seq<Result<(), Seq<char>>>)
    requires
        s.phase == Phase::Running || s.phase == Phase::Failed,
    ensures
        run_outcomes(s, os) == s,
        trace(s, os) =~= Seq::new(os.len() + 1, |j: int| step_of(s)),
    decreases os.len(),
{
    if os.len() > 0 {
        lemma_terminal_stays(next_state(s, os[0]), os.drop_first());
    }
}

/// Successful initializers move the bootstrap along the registration order.
proof fn lemma_successes_from(s: BootstrapModel, m: nat)
    requires
        bootstrap_wf(s),
        s.phase == Phase::Building,
        s.done + m <= s.identities.len(),
    ensures
        trace(s, successes(m)).len() == m + 1,
        forall|j: int| 0 <= j < m ==> trace(s, successes(m))[j] == Step::InitPlugin((s.done + j) as usize),
        run_outcomes(s, successes(m)) == (if s.done + m < s.identities.len() {
            BootstrapModel { done: s.done + m, ..s }
        } else {
            BootstrapModel { done: s.identities.len(), phase: after_plugins(s.setup), ..s }
        }),
    decreases m,
{
    lemma_trace_len(s, successes(m));
    if m > 0 {
        let s1 = next_state(s, Ok(()));
        assert(successes(m).drop_first() =~= successes((m - 1) as nat));
        assert(successes(m)[0] == Ok::<(), Seq<char>>(()));
        lemma_trace_len(s1, successes((m - 1) as nat));
        if m > 1 {
            lemma_successes_from(s1, (m - 1) as nat);
        }
    }
}

/// The trace from a fresh bootstrap through `k` successful initializers.
proof fn lemma_successes_from_start(ids: Seq<Seq<char>>, setup: Option<SetupStrategy>, k: nat)
    requires
        ids.len() <= usize::MAX,
        k <= ids.len(),
    ensures
        trace(started(ids, setup), successes(k)).len() == k + 1,
        forall|j: int|
            0 <= j < k ==> trace(started(ids, setup), successes(k))[j] == Step::InitPlugin(
                j as usize,
            ),
        run_outcomes(started(ids, setup), successes(k)) == (if k < ids.len() {
            BootstrapModel { done: k, ..started(ids, setup) }
        } else {
            BootstrapModel { done: ids.len(), phase: after_plugins(setup), ..started(ids, setup) }
        }),
{
    let s0 = started(ids, setup);
    if ids.len() == 0 {
        assert(successes(k) =~= seq![]);
        lemma_trace_len(s0, successes(k));
    } else {
        lemma_successes_from(s0, k);
    }
}

/// Descriptors of distinct identities registered in order on a fresh builder
/// are all accepted and kept in that order; a bootstrap built from them whose
/// initializers all succeed asks for each initializer exactly once, by
/// registration index in increasing order, before any other step.
pub proof fn law_initializers_run_in_registration_order(
    ids: Seq<Seq<char>>,
    setup: Option<SetupStrategy>,
)
    requires
        ids.no_duplicates(),
        ids.len() <= usize::MAX,
    ensures
        register_all(fresh_builder(), ids).1,
        register_all(fresh_builder(), ids).0.identities == ids,
        started(ids, setup).identities == ids,
        trace(started(ids, setup), successes(ids.len())).len() == ids.len() + 1,
        forall|j: int|
            0 <= j < ids.len() ==> trace(started(ids, setup), successes(ids.len()))[j]
                == Step::InitPlugin(j as usize),
        !(trace(started(ids, setup), successes(ids.len()))[ids.len() as int] is InitPlugin),
{
    lemma_register_distinct(fresh_builder(), ids);
    assert(fresh_builder().identities + ids =~= ids);
    lemma_successes_from_start(ids, setup, ids.len());
    let s = run_outcomes(started(ids, setup), successes(ids.len()));
    lemma_trace_append(started(ids, setup), successes(ids.len()), seq![]);
    assert(successes(ids.len()) + seq![] =~= successes(ids.len()));
    assert(trace(s, seq![]) =~= seq![step_of(s)]);
}

proof fn lemma_register_distinct(m: BuilderModel, ids: Seq<Seq<char>>)
    requires
        !m.consumed,
        (m.identities + ids).no_duplicates(),
    ensures
        register_all(m, ids).1,
        register_all(m, ids).0.identities == m.identities + ids,
    decreases ids.len(),
{
    if ids.len() > 0 {
        let m1 = register_spec(m, ids[0]).0;
        assert(!m.identities.contains(ids[0])) by {
            if m.identities.contains(ids[0]) {
                let i = choose|i: int| 0 <= i < m.identities.len() && m.identities[i] == ids[0];
                assert((m.identities + ids)[i] == (m.identities + ids)[m.identities.len() as int]);
            }
        }
        assert(m1.identities + ids.drop_first() =~= m.identities + ids);
        lemma_register_distinct(m1, ids.drop_first());
    }
}

proof fn lemma_register_keeps(m: BuilderModel, ids: Seq<Seq<char>>, id: Seq<char>)
    ensures
        register_all(m, ids).0.consumed == m.consumed,
        m.identities.contains(id) ==> register_all(m, ids).0.identities.contains(id),
    decreases ids.len(),
{
    if ids.len() > 0 {
        let m1 = register_spec(m, ids[0]).0;
        if m.identities.contains(id) && !m.consumed && !m.identities.contains(ids[0]) {
            let i = choose|i: int| 0 <= i < m.identities.len() && m.identities[i] == id;
            assert(m1.identities[i] == id);
        }
        lemma_register_keeps(m1, ids.drop_first(), id);
    }
}

/// Once an identity was registered, registering it again is refused with
/// `DuplicatePlugin`, whatever was registered in between, and the builder is
/// left unchanged: the mistake surfaces at registration, before any build.
pub proof fn law_duplicate_identity_rejected(
    m: BuilderModel,
    id: Seq<char>,
    between: Seq<Seq<char>>,
)
    requires
        register_spec(m, id).1 is Ok,
    ensures
        ({
            let m1 = register_all(register_spec(m, id).0, between).0;
            register_spec(m1, id) == (m1, Err::<(), ErrorModel>(
                ErrorModel::DuplicatePlugin { identity: id },
            ))
        }),
{
    let m0 = register_spec(m, id).0;
    assert(m0.identities[m.identities.len() as int] == id);
    lemma_register_keeps(m0, between, id);
}

/// A failed initializer ends the build: the initializers before it were asked
/// for in order, no later one is ever asked for, the bootstrap fails with a
/// `PluginInit` error naming the failed plugin, and it only asks for the
/// failure to be reported from then on.
pub proof fn law_failed_initializer_stops_build(
    ids: Seq<Seq<char>>,
    setup: Option<SetupStrategy>,
    k: nat,
    cause: Seq<char>,
    rest: Seq<Result<(), Seq<char>>>,
)
    requires
        ids.len() <= usize::MAX,
        k < ids.len(),
    ensures
        ({
            let os = successes(k) + seq![Err(cause)] + rest;
            let t = trace(started(ids, setup), os);
            &&& t.len() == os.len() + 1
            &&& forall|j: int| 0 <= j <= k ==> t[j] == Step::InitPlugin(j as usize)
            &&& forall|j: int| k < j < t.len() ==> t[j] == Step::ReportFailure
            &&& run_outcomes(started(ids, setup), os).phase == Phase::Failed
            &&& run_outcomes(started(ids, setup), os).failure == Some(
                ErrorModel::PluginInit { identity: ids[k as int], cause },
            )
        }),
{
    let s0 = started(ids, setup);
    let tail: Seq<Result<(), Seq<char>>> = seq![Err(cause)] + rest;
    let os = successes(k) + seq![Err(cause)] + rest;
    assert(os =~= successes(k) + tail);
    lemma_successes_from_start(ids, setup, k);
    lemma_trace_append(s0, successes(k), tail);
    lemma_trace_len(s0, os);
    let sk = run_outcomes(s0, successes(k));
    let sf = next_state(sk, Err(cause));
    assert(tail[0] == Err::<(), Seq<char>>(cause));
    assert(tail.drop_first() =~= rest);
    lemma_terminal_stays(sf, rest);
}

/// The desktop setup never asks for an attachment, whatever the outcomes, and
/// a desktop bootstrap whose initializers all succeed goes on to the run loop.
pub proof fn law_desktop_setup_attaches_nothing(
    ids: Seq<Seq<char>>,
    outcomes: Seq<Result<(), Seq<char>>>,
)
    requires
        ids.len() <= usize::MAX,
    ensures
        ({
            let s0 = started(ids, Some(strategy_for(PlatformClass::Desktop)));
            &&& forall|j: int|
                0 <= j < trace(s0, outcomes).len() ==> trace(s0, outcomes)[j]
                    != Step::AttachMobilePlugin
            &&& run_outcomes(s0, successes(ids.len())).phase == Phase::Running
        }),
{
    let s0 = started(ids, Some(strategy_for(PlatformClass::Desktop)));
    lemma_no_attach(s0, outcomes);
    lemma_successes_from_start(ids, Some(strategy_for(PlatformClass::Desktop)), ids.len());
}

proof fn lemma_no_attach(s: BootstrapModel, os: Seq<Result<(), Seq<char>>>)
    requires
        s.setup != Some(SetupStrategy::MobileSetup),
        s.phase != Phase::SettingUp,
    ensures
        forall|j: int| 0 <= j < trace(s, os).len() ==> trace(s, os)[j] != Step::AttachMobilePlugin,
    decreases os.len(),
{
    if os.len() > 0 {
        lemma_no_attach(next_state(s, os[0]), os.drop_first());
    }
}

/// The mobile setup, reached once every initializer succeeded, asks for the
/// mobile-only attachment exactly once; a failed attachment fails the
/// bootstrap with a `Setup` error carrying its cause, a successful one leads
/// to the run loop.
pub proof fn law_mobile_setup_attaches_once(
    ids: Seq<Seq<char>>,
    attach: Result<(), Seq<char>>,
    rest: Seq<Result<(), Seq<char>>>,
)
    requires
        ids.len() <= usize::MAX,
    ensures
        ({
            let s0 = started(ids, Some(strategy_for(PlatformClass::Mobile)));
            let os = successes(ids.len()) + seq![attach] + rest;
            let t = trace(s0, os);
            let last = run_outcomes(s0, os);
            &&& t.len() == os.len() + 1
            &&& t[ids.len() as int] == Step::AttachMobilePlugin
            &&& forall|j: int|
                0 <= j < t.len() && j != ids.len() ==> t[j] != Step::AttachMobilePlugin
            &&& last.phase == (if attach is Ok {
                Phase::Running
            } else {
                Phase::Failed
            })
            &&& (attach matches Err(c) ==> last.failure == Some(ErrorModel::Setup { cause: c }))
        }),
{
    let setup = Some(strategy_for(PlatformClass::Mobile));
    let s0 = started(ids, setup);
    let n = ids.len();
    let tail: Seq<Result<(), Seq<char>>> = seq![attach] + rest;
    let os = successes(n) + seq![attach] + rest;
    assert(os =~= successes(n) + tail);
    lemma_successes_from_start(ids, setup, n);
    lemma_trace_append(s0, successes(n), tail);
    lemma_trace_len(s0, os);
    let sn = run_outcomes(s0, successes(n));
    let sa = next_state(sn, attach);
    assert(tail[0] == attach);
    assert(tail.drop_first() =~= rest);
    lemma_terminal_stays(sa, rest);
    assert forall|j: int| 0 <= j < n implies trace(s0, os)[j] != Step::AttachMobilePlugin by {
        assert(trace(s0, successes(n))[j] == Step::InitPlugin(j as usize));
    }
}

/// A builder builds at most once: building what a build left behind fails with
/// `AlreadyConsumed`, starts no bootstrap and changes nothing.
pub proof fn law_second_build_fails(m: BuilderModel)
    ensures
        build_spec(build_spec(m).0) == (build_spec(m).0, Err::<BootstrapModel, ErrorModel>(
            ErrorModel::AlreadyConsumed,
        )),
{
}

} // verus!
