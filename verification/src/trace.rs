//! Runs of the tunnel machine and what holds of every run.
//!
//! A run feeds a sequence of inputs to the machine. An event that the
//! current state does not accept is passed over: it changes nothing and asks
//! for no work.

use crate::address::SourceBinding;
use crate::candidates::{first_of, has_family, lemma_first_of, CandidateAddress, Family};
use crate::tunnel::{
    begin_connect, fall_back, next, AttemptFailure, Transition, TunnelAction, TunnelError,
    TunnelEvent, TunnelState, IPV6_CONNECT_TIMEOUT_MS,
};
use vstd::prelude::*;

verus! {

/// One input of a run: an event, and the source address at hand should the
/// step open an IPv6 attempt.
pub struct Input {
    pub event: TunnelEvent,
    pub source: SourceBinding,
}

/// The steps taken from `state` over `inputs`, in order.
pub open spec fn run(state: TunnelState, inputs: Seq<Input>) -> Seq<Transition>
    decreases inputs.len(),
{
    if inputs.len() == 0 {
        Seq::empty()
    } else {
        match next(state, inputs[0].event, inputs[0].source) {
            Some(step) => seq![step] + run(step.state, inputs.drop_first()),
            None => run(state, inputs.drop_first()),
        }
    }
}

/// The state in which a run from `state` over `inputs` ends.
pub open spec fn final_state(state: TunnelState, inputs: Seq<Input>) -> TunnelState
    decreases inputs.len(),
{
    if inputs.len() == 0 {
        state
    } else {
        match next(state, inputs[0].event, inputs[0].source) {
            Some(step) => final_state(step.state, inputs.drop_first()),
            None => final_state(state, inputs.drop_first()),
        }
    }
}

/// The event carries no IPv6 candidate.
pub open spec fn ipv4_only(event: TunnelEvent) -> bool {
    match event {
        TunnelEvent::Resolved(candidates) => !has_family(candidates@, Family::V6),
        _ => true,
    }
}

/// Every step moves the tunnel strictly forward, so no state is entered
/// twice.
pub proof fn lemma_step_progress(state: TunnelState, event: TunnelEvent, source: SourceBinding)
    requires
        next(state, event, source).is_some(),
    ensures
        next(state, event, source).unwrap().state.rank() > state.rank(),
{
}

/// A terminal state accepts no event, and a step asks to close exactly when
/// it enters a terminal state: whatever ends a tunnel releases its sockets,
/// and nothing is opened afterwards.
pub proof fn lemma_terminal_closes(state: TunnelState, event: TunnelEvent, source: SourceBinding)
    ensures
        state.is_terminal() ==> next(state, event, source).is_none(),
        next(state, event, source).is_some() ==> (next(state, event, source).unwrap().state.is_terminal()
            <==> next(state, event, source).unwrap().action == TunnelAction::Close),
{
}

/// An IPv6 attempt is opened only on resolution, towards the first IPv6
/// candidate, from the given source and under the fixed time bound.
pub proof fn lemma_ipv6_attempt_origin(
    state: TunnelState,
    event: TunnelEvent,
    source: SourceBinding,
)
    requires
        next(state, event, source).is_some(),
        next(state, event, source).unwrap().action is ConnectV6,
    ensures
        state == TunnelState::Resolving,
        event is Resolved,
        first_of(event->Resolved_0@, Family::V6).is_some(),
        next(state, event, source).unwrap().action == (TunnelAction::ConnectV6 {
            source,
            target: first_of(event->Resolved_0@, Family::V6).unwrap(),
            timeout_ms: IPV6_CONNECT_TIMEOUT_MS,
        }),
{
}

/// Along a run the states move strictly forward: each step's state ranks
/// above the starting state and above the state of every earlier step.
pub proof fn lemma_run_ranks(state: TunnelState, inputs: Seq<Input>)
    ensures
        forall|i: int|
            0 <= i < run(state, inputs).len() ==> (#[trigger] run(state, inputs)[i]).state.rank()
                > state.rank(),
        forall|i: int, j: int|
            0 <= i < j < run(state, inputs).len() ==> (#[trigger] run(state, inputs)[i]).state.rank()
                < (#[trigger] run(state, inputs)[j]).state.rank(),
        run(state, inputs).len() + state.rank() <= 5,
    decreases inputs.len(),
{
    if inputs.len() > 0 {
        let rest = inputs.drop_first();
        match next(state, inputs[0].event, inputs[0].source) {
            Some(step) => {
                lemma_run_ranks(step.state, rest);
                let tail = run(step.state, rest);
                let whole = run(state, inputs);
                assert(whole == seq![step] + tail);
                assert forall|i: int| 0 <= i < whole.len() implies (#[trigger] whole[i]).state.rank()
                    > state.rank() by {
                    if i > 0 {
                        assert(whole[i] == tail[i - 1]);
                    }
                }
                assert forall|i: int, j: int| 0 <= i < j < whole.len() implies (#[trigger] whole[i]).state.rank()
                    < (#[trigger] whole[j]).state.rank() by {
                    assert(whole[j] == tail[j - 1]);
                    if i > 0 {
                        assert(whole[i] == tail[i - 1]);
                    }
                }
            },
            None => {
                lemma_run_ranks(state, rest);
            },
        }
    }
}

/// A destination that resolves to IPv4 addresses only never sees an IPv6
/// attempt: in a run whose resolutions carry no IPv6 candidate, no step asks
/// for an IPv6 bind or connect, whatever the starting state and the other
/// events.
pub proof fn lemma_ipv4_only_never_tries_ipv6(state: TunnelState, inputs: Seq<Input>)
    requires
        forall|k: int| 0 <= k < inputs.len() ==> ipv4_only((#[trigger] inputs[k]).event),
    ensures
        forall|i: int|
            0 <= i < run(state, inputs).len() ==> !((#[trigger] run(state, inputs)[i]).action is ConnectV6),
    decreases inputs.len(),
{
    if inputs.len() > 0 {
        let rest = inputs.drop_first();
        assert(ipv4_only(inputs[0].event));
        assert forall|k: int| 0 <= k < rest.len() implies ipv4_only((#[trigger] rest[k]).event) by {
            assert(rest[k] == inputs[k + 1]);
        }
        match next(state, inputs[0].event, inputs[0].source) {
            Some(step) => {
                if let TunnelEvent::Resolved(candidates) = inputs[0].event {
                    lemma_first_of(candidates@, Family::V6);
                }
                assert(!(step.action is ConnectV6));
                lemma_ipv4_only_never_tries_ipv6(step.state, rest);
                let tail = run(step.state, rest);
                let whole = run(state, inputs);
                assert(whole == seq![step] + tail);
                assert forall|i: int| 0 <= i < whole.len() implies !((#[trigger] whole[i]).action is ConnectV6) by {
                    if i > 0 {
                        assert(whole[i] == tail[i - 1]);
                    }
                }
            },
            None => {
                lemma_ipv4_only_never_tries_ipv6(state, rest);
            },
        }
    }
}

/// Within one tunnel IPv6 is tried strictly before IPv4: in no run does an
/// IPv6 attempt follow an IPv4 attempt, and no run holds two attempts of one
/// family.
pub proof fn lemma_ipv6_before_ipv4(state: TunnelState, inputs: Seq<Input>, i: int, j: int)
    requires
        0 <= i < j < run(state, inputs).len(),
    ensures
        run(state, inputs)[i].action is ConnectV4 ==> !(run(state, inputs)[j].action is ConnectV6),
        run(state, inputs)[i].action is ConnectV4 ==> !(run(state, inputs)[j].action is ConnectV4),
        run(state, inputs)[i].action is ConnectV6 ==> !(run(state, inputs)[j].action is ConnectV6),
{
    lemma_run_ranks(state, inputs);
    lemma_run_steps(state, inputs);
    let whole = run(state, inputs);
    assert(whole[i].state.rank() < whole[j].state.rank());
    assert(whole[i].state.rank() > state.rank());
    assert(action_fits(whole[i]));
    assert(action_fits(whole[j]));
}

/// Every step of a run asks for the work that belongs to the state it
/// enters.
pub proof fn lemma_run_steps(state: TunnelState, inputs: Seq<Input>)
    ensures
        forall|i: int|
            0 <= i < run(state, inputs).len() ==> action_fits(#[trigger] run(state, inputs)[i]),
    decreases inputs.len(),
{
    if inputs.len() > 0 {
        let rest = inputs.drop_first();
        match next(state, inputs[0].event, inputs[0].source) {
            Some(step) => {
                lemma_step_fits(state, inputs[0].event, inputs[0].source);
                lemma_run_steps(step.state, rest);
                let tail = run(step.state, rest);
                let whole = run(state, inputs);
                assert(whole == seq![step] + tail);
                assert forall|i: int| 0 <= i < whole.len() implies action_fits(#[trigger] whole[i]) by {
                    if i > 0 {
                        assert(whole[i] == tail[i - 1]);
                        assert(action_fits(tail[i - 1]));
                    } else {
                        assert(whole[0] == step);
                    }
                }
            },
            None => {
                lemma_run_steps(state, rest);
                assert(run(state, inputs) == run(state, rest));
            },
        }
    }
}

/// The action of a step is the work of the state it enters, and of no other
/// state.
pub open spec fn action_fits(step: Transition) -> bool {
    &&& step.state is Resolving <==> step.action is Resolve
    &&& step.state is ConnectingV6 <==> step.action is ConnectV6
    &&& step.state is ConnectingV4 <==> step.action is ConnectV4
    &&& step.state is Relaying <==> step.action is Relay
    &&& step.state.is_terminal() <==> step.action is Close
    &&& !(step.state is Accepted)
    &&& !(step.action is Acknowledge)
}

/// Every step the machine takes satisfies [`action_fits`].
pub proof fn lemma_step_fits(state: TunnelState, event: TunnelEvent, source: SourceBinding)
    requires
        next(state, event, source).is_some(),
    ensures
        action_fits(next(state, event, source).unwrap()),
{
}

/// The inputs of a tunnel whose IPv6 attempt fails and whose IPv4 attempt
/// succeeds.
pub open spec fn fallback_inputs(
    candidates: Vec<CandidateAddress>,
    source: SourceBinding,
    failure: AttemptFailure,
) -> Seq<Input> {
    seq![
        Input { event: TunnelEvent::Upgraded, source },
        Input { event: TunnelEvent::Resolved(candidates), source },
        Input { event: TunnelEvent::AttemptFailed(failure), source },
        Input { event: TunnelEvent::Connected, source },
        Input { event: TunnelEvent::RelayFinished, source },
    ]
}

/// Fallback: where the destination has addresses of both families and the
/// IPv6 attempt fails, for whatever reason, the first IPv4 address is tried
/// next; if that connects, the tunnel relays and closes in success.
pub proof fn lemma_ipv6_failure_falls_back(
    candidates: Vec<CandidateAddress>,
    source: SourceBinding,
    failure: AttemptFailure,
)
    requires
        has_family(candidates@, Family::V6),
        has_family(candidates@, Family::V4),
    ensures
        run(TunnelState::Accepted, fallback_inputs(candidates, source, failure)) == seq![
            Transition { state: TunnelState::Resolving, action: TunnelAction::Resolve },
            Transition {
                state: TunnelState::ConnectingV6 { fallback: first_of(candidates@, Family::V4) },
                action: TunnelAction::ConnectV6 {
                    source,
                    target: first_of(candidates@, Family::V6).unwrap(),
                    timeout_ms: IPV6_CONNECT_TIMEOUT_MS,
                },
            },
            Transition {
                state: TunnelState::ConnectingV4,
                action: TunnelAction::ConnectV4 {
                    target: first_of(candidates@, Family::V4).unwrap(),
                },
            },
            Transition { state: TunnelState::Relaying, action: TunnelAction::Relay },
            Transition { state: TunnelState::Closed, action: TunnelAction::Close },
        ],
        final_state(TunnelState::Accepted, fallback_inputs(candidates, source, failure))
            == TunnelState::Closed,
{
    lemma_first_of(candidates@, Family::V6);
    lemma_first_of(candidates@, Family::V4);
    let inputs = fallback_inputs(candidates, source, failure);
    let i1 = inputs.drop_first();
    let i2 = i1.drop_first();
    let i3 = i2.drop_first();
    let i4 = i3.drop_first();
    let i5 = i4.drop_first();
    assert(i5.len() == 0);
    let s1 = TunnelState::Resolving;
    let s2 = TunnelState::ConnectingV6 { fallback: first_of(candidates@, Family::V4) };
    let s3 = TunnelState::ConnectingV4;
    let s4 = TunnelState::Relaying;
    let s5 = TunnelState::Closed;
    assert(run(s5, i5) =~= Seq::empty());
    assert(next(s4, i4[0].event, i4[0].source).unwrap().state == s5);
    assert(run(s4, i4).len() == 1);
    assert(next(s3, i3[0].event, i3[0].source).unwrap().state == s4);
    assert(run(s3, i3).len() == 2);
    assert(next(s2, i2[0].event, i2[0].source).unwrap().state == s3);
    assert(run(s2, i2).len() == 3);
    assert(next(s1, i1[0].event, i1[0].source).unwrap().state == s2);
    assert(run(s1, i1).len() == 4);
    assert(next(TunnelState::Accepted, inputs[0].event, inputs[0].source).unwrap().state == s1);
    assert(final_state(s5, i5) == s5);
    assert(final_state(s4, i4) == s5);
    assert(final_state(s3, i3) == s5);
    assert(final_state(s2, i2) == s5);
    assert(final_state(s1, i1) == s5);
    assert(run(TunnelState::Accepted, inputs) =~= seq![
        Transition { state: TunnelState::Resolving, action: TunnelAction::Resolve },
        Transition {
            state: s2,
            action: TunnelAction::ConnectV6 {
                source,
                target: first_of(candidates@, Family::V6).unwrap(),
                timeout_ms: IPV6_CONNECT_TIMEOUT_MS,
            },
        },
        Transition {
            state: TunnelState::ConnectingV4,
            action: TunnelAction::ConnectV4 { target: first_of(candidates@, Family::V4).unwrap() },
        },
        Transition { state: TunnelState::Relaying, action: TunnelAction::Relay },
        Transition { state: TunnelState::Closed, action: TunnelAction::Close },
    ]);
}

/// The inputs of a tunnel none of whose attempts succeeds.
pub open spec fn exhausting_inputs(
    candidates: Vec<CandidateAddress>,
    source: SourceBinding,
    failure: AttemptFailure,
) -> Seq<Input> {
    seq![
        Input { event: TunnelEvent::Resolved(candidates), source },
        Input { event: TunnelEvent::AttemptFailed(failure), source },
        Input { event: TunnelEvent::AttemptFailed(AttemptFailure::ConnectFailed), source },
    ]
}

/// Exhaustion: whatever the destination resolved to, once every attempt the
/// machine asks for has failed the tunnel is in its terminal failure, the
/// last step asked to close, and no event is accepted any more.
pub proof fn lemma_no_reachable_address_fails(
    candidates: Vec<CandidateAddress>,
    source: SourceBinding,
    failure: AttemptFailure,
)
    ensures
        final_state(TunnelState::Resolving, exhausting_inputs(candidates, source, failure))
            == TunnelState::Failed(TunnelError::AllAttemptsFailed),
        run(TunnelState::Resolving, exhausting_inputs(candidates, source, failure)).len() >= 1,
        run(TunnelState::Resolving, exhausting_inputs(candidates, source, failure)).last() == (
        Transition {
            state: TunnelState::Failed(TunnelError::AllAttemptsFailed),
            action: TunnelAction::Close,
        }),
        forall|event: TunnelEvent, other: SourceBinding|
            next(TunnelState::Failed(TunnelError::AllAttemptsFailed), event, other).is_none(),
{
    let inputs = exhausting_inputs(candidates, source, failure);
    let i1 = inputs.drop_first();
    let i2 = i1.drop_first();
    let i3 = i2.drop_first();
    assert(i3.len() == 0);
    let done = TunnelState::Failed(TunnelError::AllAttemptsFailed);
    let close = Transition { state: done, action: TunnelAction::Close };
    let s1 = begin_connect(candidates@, source).state;
    assert(next(TunnelState::Resolving, inputs[0].event, inputs[0].source) == Some(
        begin_connect(candidates@, source),
    ));
    assert(run(done, i3) =~= Seq::empty());
    assert(final_state(done, i3) == done);
    assert(run(done, i2) =~= Seq::empty());
    assert(final_state(done, i2) == done);
    assert(run(done, i1) =~= Seq::empty());
    assert(final_state(done, i1) == done);
    assert(run(TunnelState::ConnectingV4, i2) =~= seq![close]);
    assert(final_state(TunnelState::ConnectingV4, i2) == done);
    match s1 {
        TunnelState::ConnectingV6 { fallback } => {
            let t2 = fall_back(fallback);
            assert(next(s1, i1[0].event, i1[0].source) == Some(t2));
            assert(run(s1, i1) == seq![t2] + run(t2.state, i2));
            assert(run(s1, i1).last() == close);
            assert(final_state(s1, i1) == done);
        },
        TunnelState::ConnectingV4 => {
            if failure == AttemptFailure::ConnectFailed {
                assert(run(s1, i1) =~= seq![close]);
            } else {
                assert(next(s1, i1[0].event, i1[0].source).is_none());
                assert(run(s1, i1) =~= seq![close]);
            }
            assert(final_state(s1, i1) == done);
        },
        _ => {
            assert(s1 == done);
        },
    }
    assert(run(TunnelState::Resolving, inputs) == seq![begin_connect(candidates@, source)] + run(
        s1,
        i1,
    ));
}

} // verus!
