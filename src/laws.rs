//! What holds of every launch, over the transition function of [`crate::launch`].
use vstd::prelude::*;
use crate::launch::{
    next_phase, phase_after, requests, returns_nothing, run, Action, BridgeStep, Cause, Event,
    LaunchView, Phase, leaves_pending,
};

verus! {

/// Whether phase `p` waits on a call that can run code inside the runtime,
/// and so may leave an exception pending.
pub open spec fn calls_into_runtime(p: Phase) -> bool {
    ||| p is Bridging
    ||| p is FindingStringClass
    ||| p is Allocating
    ||| p is Converting
    ||| p is Storing
    ||| p is Invoking
}

/// Whether `e` answers class-loading step `step` with success: a non-null
/// reference, or for installing the loader a plain return, and no exception
/// pending.
pub open spec fn succeeds(step: BridgeStep, e: Event) -> bool {
    if returns_nothing(step) {
        e matches Event::Completed { pending } && !pending
    } else {
        e matches Event::Reference { null, pending } && !null && !pending
    }
}

/// A successful answer to a call that returns a reference.
pub open spec fn found() -> Event {
    Event::Reference { null: false, pending: false }
}

/// A successful answer to a call that returns nothing.
pub open spec fn done() -> Event {
    Event::Completed { pending: false }
}

/// Successful answers to the class-loading steps, in order.
pub open spec fn bridge_answers() -> Seq<Event> {
    seq![found(), found(), found(), found(), found(), done(), found(), found()]
}

/// Successful answers while the first `k` arguments are converted and stored.
pub open spec fn marshal_answers(k: nat) -> Seq<Event>
    decreases k,
{
    if k == 0 {
        Seq::empty()
    } else {
        marshal_answers((k - 1) as nat).push(found()).push(done())
    }
}

proof fn lemma_run_push(p: Phase, events: Seq<Event>, e: Event, argc: nat)
    ensures
        run(p, events.push(e), argc) == next_phase(run(p, events, argc), e, argc),
{
    assert(events.push(e).drop_last() =~= events);
}

/// The exception bridge: when a call into the runtime leaves an exception
/// pending, what the call returned is not used. The launch next asks only
/// for the exception to be described and cleared; once that is answered,
/// whatever the answer, the launch has failed, with a class-loading error
/// naming the step during class loading and with the runtime's own
/// exception afterwards, and it makes no further call into the runtime.
pub proof fn pending_exception_is_cleared_first(
    v: LaunchView,
    e: Event,
    answer: Event,
    later: Seq<Event>,
)
    requires
        calls_into_runtime(v.phase),
        leaves_pending(e),
    ensures
        next_phase(v.phase, e, v.arguments.len()) is Clearing,
        forall|a: Action|
            #[trigger] requests(
                LaunchView { phase: next_phase(v.phase, e, v.arguments.len()), ..v },
                a,
            ) ==> a is ClearException,
        next_phase(next_phase(v.phase, e, v.arguments.len()), answer, v.arguments.len()) is Failed,
        run(next_phase(v.phase, e, v.arguments.len()), later.insert(0, answer), v.arguments.len()) is Failed,
        answer is Cleared ==> next_phase(next_phase(v.phase, e, v.arguments.len()), answer, v.arguments.len())
            == (Phase::Failed {
            cause: match v.phase {
                Phase::Bridging { step } => Cause::ClassLoad { step },
                _ => Cause::RuntimeException,
            },
        }),
{
    let argc = v.arguments.len();
    let c = next_phase(v.phase, e, argc);
    lemma_run_after_first(c, answer, later, argc);
}

proof fn lemma_run_after_first(p: Phase, first: Event, rest: Seq<Event>, argc: nat)
    requires
        next_phase(p, first, argc) is Failed,
    ensures
        run(p, rest.insert(0, first), argc) is Failed,
    decreases rest.len(),
{
    if rest.len() == 0 {
        assert(rest.insert(0, first) =~= Seq::<Event>::empty().push(first));
        lemma_run_push(p, Seq::empty(), first, argc);
    } else {
        let all = rest.insert(0, first);
        assert(all.drop_last() =~= rest.drop_last().insert(0, first));
        lemma_run_after_first(p, first, rest.drop_last(), argc);
        let q = run(p, all.drop_last(), argc);
        assert(q matches Phase::Failed { cause } && next_phase(q, all.last(), argc) == q);
    }
}

/// A failed launch stays failed, with the same cause, whatever is reported
/// to it afterwards, and asks for nothing but to abort: after a failure no
/// argument is marshalled and the entry method is not invoked.
pub proof fn failure_is_final(cause: Cause, events: Seq<Event>, argc: nat)
    ensures
        run(Phase::Failed { cause }, events, argc) == (Phase::Failed { cause }),
        forall|v: LaunchView, a: Action|
            v.phase == (Phase::Failed { cause }) && #[trigger] requests(v, a) ==> a is Abort,
    decreases events.len(),
{
    if events.len() > 0 {
        failure_is_final(cause, events.drop_last(), argc);
    }
}

/// Class loading moves past a step only when the step succeeded. A step
/// answered with a null reference fails the launch with a class-loading
/// error for that step; one that left an exception pending does so once the
/// exception is cleared.
pub proof fn class_loading_passes_only_on_success(
    step: BridgeStep,
    e: Event,
    description: String,
    argc: nat,
)
    ensures
        succeeds(step, e) <==> next_phase(Phase::Bridging { step }, e, argc) == phase_after(step),
        !returns_nothing(step) && (e matches Event::Reference { null, pending } && null && !pending)
            ==> next_phase(Phase::Bridging { step }, e, argc) == (Phase::Failed {
            cause: Cause::ClassLoad { step },
        }),
        leaves_pending(e) ==> run(
            Phase::Bridging { step },
            seq![e, Event::Cleared { description }],
            argc,
        ) == (Phase::Failed { cause: Cause::ClassLoad { step } }),
{
    let evs = seq![e, Event::Cleared { description }];
    assert(evs.drop_last() =~= Seq::<Event>::empty().push(e));
    lemma_run_push(Phase::Bridging { step }, Seq::empty(), e, argc);
}

/// When every class-loading step succeeds, the entry class has been loaded
/// and its entry method resolved, both as non-null references, and the
/// launch goes on to build the argument array.
pub proof fn class_loading_completes(argc: nat)
    ensures
        run(Phase::Bridging { step: BridgeStep::MakeUrl }, bridge_answers(), argc)
            == Phase::FindingStringClass,
        forall|k: int|
            0 <= k < 8 ==> succeeds(
                #[trigger] bridge_step_at(k),
                bridge_answers()[k],
            ),
{
    lemma_bridge_prefix(8, argc);
    assert(bridge_answers().subrange(0, 8) =~= bridge_answers());
}

proof fn lemma_bridge_prefix(k: int, argc: nat)
    requires
        0 <= k <= 8,
    ensures
        run(Phase::Bridging { step: BridgeStep::MakeUrl }, bridge_answers().subrange(0, k), argc)
            == (if k == 8 {
            Phase::FindingStringClass
        } else {
            Phase::Bridging { step: bridge_step_at(k) }
        }),
    decreases k,
{
    let s = Phase::Bridging { step: BridgeStep::MakeUrl };
    let a = bridge_answers();
    if k == 0 {
        assert(a.subrange(0, 0) =~= Seq::<Event>::empty());
    } else {
        lemma_bridge_prefix(k - 1, argc);
        lemma_run_push(s, a.subrange(0, k - 1), a[k - 1], argc);
        assert(a.subrange(0, k) =~= a.subrange(0, k - 1).push(a[k - 1]));
    }
}

/// The class-loading step at position `k` of the sequence.
pub open spec fn bridge_step_at(k: int) -> BridgeStep {
    if k == 0 {
        BridgeStep::MakeUrl
    } else if k == 1 {
        BridgeStep::WrapUrl
    } else if k == 2 {
        BridgeStep::CurrentThread
    } else if k == 3 {
        BridgeStep::ContextLoader
    } else if k == 4 {
        BridgeStep::NewLoader
    } else if k == 5 {
        BridgeStep::InstallLoader
    } else if k == 6 {
        BridgeStep::LoadClass
    } else {
        BridgeStep::ResolveEntry
    }
}

proof fn lemma_marshal_run(argc: nat, k: nat)
    requires
        0 < argc <= usize::MAX,
        k <= argc,
    ensures
        run(Phase::Converting { index: 0 }, marshal_answers(k), argc) == (if k < argc {
            Phase::Converting { index: k as usize }
        } else {
            Phase::Invoking
        }),
    decreases k,
{
    let s = Phase::Converting { index: 0 };
    if k > 0 {
        let j = (k - 1) as nat;
        lemma_marshal_run(argc, j);
        let m = marshal_answers(j);
        lemma_run_push(s, m, found(), argc);
        lemma_run_push(s, m.push(found()), done(), argc);
    }
}

/// Arguments are marshalled in their order: after the first `k` arguments
/// have been converted and stored the launch asks for argument `k`, and
/// after all of them it invokes the entry method. Each request carries the
/// argument itself and the index it is stored at.
pub proof fn arguments_are_stored_in_order(v: LaunchView, k: nat)
    requires
        k <= v.arguments.len(),
        v.arguments.len() <= usize::MAX,
        v.arguments.len() > 0,
    ensures
        run(Phase::Converting { index: 0 }, marshal_answers(k), v.arguments.len()) == (if k
            < v.arguments.len() {
            Phase::Converting { index: k as usize }
        } else {
            Phase::Invoking
        }),
        k < v.arguments.len() ==> forall|a: Action|
            #[trigger] requests(LaunchView { phase: Phase::Converting { index: k as usize }, ..v }, a)
                ==> (a matches Action::NewString { value } && value@ == v.arguments[k as int]),
        k < v.arguments.len() ==> forall|a: Action|
            #[trigger] requests(LaunchView { phase: Phase::Storing { index: k as usize }, ..v }, a)
                ==> (a matches Action::StoreArgument { index } && index == k),
{
    lemma_marshal_run(v.arguments.len(), k);
}

proof fn lemma_run_concat(p: Phase, a: Seq<Event>, b: Seq<Event>, argc: nat)
    ensures
        run(p, a + b, argc) == run(run(p, a, argc), b, argc),
    decreases b.len(),
{
    if b.len() == 0 {
        assert(a + b =~= a);
    } else {
        lemma_run_concat(p, a, b.drop_last(), argc);
        assert((a + b).drop_last() =~= a + b.drop_last());
    }
}

/// Successful answers to every call of a launch with `argc` arguments, from
/// loading the library to destroying the runtime.
pub open spec fn launch_answers(argc: nat) -> Seq<Event> {
    seq![Event::Loaded, Event::Status { code: 0 }, Event::Status { code: 0 }] + bridge_answers()
        + seq![found(), found()] + marshal_answers(argc) + seq![done(), done()]
}

/// A launch whose every call succeeds, with no exception left pending, runs
/// to its end: the library is loaded, the runtime created and attached, the
/// class loaded, each argument marshalled, the entry method invoked once and
/// the runtime destroyed.
pub proof fn successful_launch_finishes(argc: nat)
    requires
        argc <= usize::MAX,
    ensures
        run(Phase::Loading, launch_answers(argc), argc) == Phase::Finished,
{
    let start = seq![Event::Loaded, Event::Status { code: 0 }, Event::Status { code: 0 }];
    let lookup = seq![found(), found()];
    let end = seq![done(), done()];
    let m = marshal_answers(argc);
    assert(start =~= Seq::<Event>::empty().push(Event::Loaded).push(Event::Status { code: 0 }).push(
        Event::Status { code: 0 },
    ));
    lemma_run_push(Phase::Loading, Seq::empty(), Event::Loaded, argc);
    lemma_run_push(Phase::Loading, seq![Event::Loaded], Event::Status { code: 0 }, argc);
    assert(seq![Event::Loaded, Event::Status { code: 0 }] =~= seq![Event::Loaded].push(
        Event::Status { code: 0 },
    ));
    assert(seq![Event::Loaded] =~= Seq::<Event>::empty().push(Event::Loaded));
    lemma_run_push(
        Phase::Loading,
        seq![Event::Loaded, Event::Status { code: 0 }],
        Event::Status { code: 0 },
        argc,
    );
    assert(run(Phase::Loading, start, argc) == Phase::Bridging { step: BridgeStep::MakeUrl });
    class_loading_completes(argc);
    lemma_run_concat(Phase::Loading, start, bridge_answers(), argc);
    let after_bridge = start + bridge_answers();
    assert(lookup =~= Seq::<Event>::empty().push(found()).push(found()));
    lemma_run_push(Phase::FindingStringClass, Seq::empty(), found(), argc);
    lemma_run_push(Phase::FindingStringClass, Seq::empty().push(found()), found(), argc);
    lemma_run_concat(Phase::Loading, after_bridge, lookup, argc);
    let after_lookup = after_bridge + lookup;
    let marshalled = if argc == 0 {
        Phase::Invoking
    } else {
        Phase::Converting { index: 0 }
    };
    assert(run(Phase::Loading, after_lookup, argc) == marshalled);
    if argc == 0 {
        assert(m =~= Seq::<Event>::empty());
    } else {
        lemma_marshal_run(argc, argc);
    }
    lemma_run_concat(Phase::Loading, after_lookup, m, argc);
    let after_marshal = after_lookup + m;
    assert(run(Phase::Loading, after_marshal, argc) == Phase::Invoking);
    assert(end =~= Seq::<Event>::empty().push(done()).push(done()));
    lemma_run_push(Phase::Invoking, Seq::empty(), done(), argc);
    lemma_run_push(Phase::Invoking, Seq::empty().push(done()), done(), argc);
    lemma_run_concat(Phase::Loading, after_marshal, end, argc);
    assert(after_marshal + end =~= launch_answers(argc));
}

/// The runtime is created at most once: the launch asks for its creation
/// only right after the library was loaded, and never goes back to loading.
pub proof fn runtime_is_created_once(p: Phase, e: Event, argc: nat)
    ensures
        next_phase(p, e, argc) == Phase::Creating ==> p == Phase::Loading,
        next_phase(p, e, argc) != Phase::Loading,
{
}

/// Along any launch, the runtime is asked to be created at most once, and
/// only right after the first answer, the one to loading the library.
pub proof fn runtime_is_created_once_per_launch(events: Seq<Event>, argc: nat)
    ensures
        forall|k: int|
            1 <= k <= events.len() && #[trigger] run(Phase::Loading, events.subrange(0, k), argc)
                == Phase::Creating ==> k == 1,
{
    assert forall|k: int|
        1 <= k <= events.len() && #[trigger] run(Phase::Loading, events.subrange(0, k), argc)
            == Phase::Creating implies k == 1 by {
        if k >= 2 {
            let prev = events.subrange(0, k - 1);
            lemma_run_push(Phase::Loading, prev, events[k - 1], argc);
            assert(events.subrange(0, k) =~= prev.push(events[k - 1]));
            runtime_is_created_once(run(Phase::Loading, prev, argc), events[k - 1], argc);
            let before = events.subrange(0, k - 2);
            lemma_run_push(Phase::Loading, before, events[k - 2], argc);
            assert(prev =~= before.push(events[k - 2]));
            runtime_is_created_once(run(Phase::Loading, before, argc), events[k - 2], argc);
        }
    }
}

} // verus!
