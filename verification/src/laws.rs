//! Run-level laws of the session driver.
//!
//! These proofs hold over every event sequence fed to [`spec_step`], not
//! over chosen examples: resource balance for the discovery session and the
//! notification subscription, silence on non-value events, order
//! preservation of publications, and quiescence after a stop.

use vstd::prelude::*;

use crate::driver::{
    batch_pubs, event_pubs, spec_step, ActionV, Command, ConfigV, EventV, HostEventV, PhaseV,
};

verus! {

/// The state after feeding the machine the given events, in order.
pub open spec fn run_state(cfg: ConfigV, s: PhaseV, evs: Seq<EventV>) -> PhaseV
    decreases evs.len(),
{
    if evs.len() == 0 {
        s
    } else {
        run_state(cfg, spec_step(cfg, s, evs.first()).0, evs.drop_first())
    }
}

/// Every action emitted while feeding the machine the given events.
pub open spec fn run_actions(cfg: ConfigV, s: PhaseV, evs: Seq<EventV>) -> Seq<ActionV>
    decreases evs.len(),
{
    if evs.len() == 0 {
        Seq::empty()
    } else {
        spec_step(cfg, s, evs.first()).1 + run_actions(
            cfg,
            spec_step(cfg, s, evs.first()).0,
            evs.drop_first(),
        )
    }
}

/// 1 when the machine holds an active subscription to `c`, else 0.
pub open spec fn sub_flag(s: PhaseV, c: Seq<char>) -> int {
    if s == (PhaseV::Notifying { char_path: c }) {
        1
    } else {
        0
    }
}

/// 1 while a discovery session is open (requested and not yet stopped).
pub open spec fn disc_flag(s: PhaseV) -> int {
    if s is Discovering || s is ScanWait {
        1
    } else {
        0
    }
}

/// The number of `StopNotify(c)` actions in a trace.
pub open spec fn count_stop_notify(acts: Seq<ActionV>, c: Seq<char>) -> int
    decreases acts.len(),
{
    if acts.len() == 0 {
        0
    } else {
        (if acts.first() == ActionV::StopNotify(c) {
            1int
        } else {
            0int
        }) + count_stop_notify(acts.drop_first(), c)
    }
}

/// The number of `StartDiscovery` actions in a trace.
pub open spec fn count_start_discovery(acts: Seq<ActionV>) -> int
    decreases acts.len(),
{
    if acts.len() == 0 {
        0
    } else {
        (if acts.first() == ActionV::StartDiscovery {
            1int
        } else {
            0int
        }) + count_start_discovery(acts.drop_first())
    }
}

/// The number of `StopDiscovery` actions in a trace.
pub open spec fn count_stop_discovery(acts: Seq<ActionV>) -> int
    decreases acts.len(),
{
    if acts.len() == 0 {
        0
    } else {
        (if acts.first() == ActionV::StopDiscovery {
            1int
        } else {
            0int
        }) + count_stop_discovery(acts.drop_first())
    }
}

/// How many times the subscription to `c` became active along the run.
pub open spec fn count_activations(cfg: ConfigV, s: PhaseV, evs: Seq<EventV>, c: Seq<char>) -> int
    decreases evs.len(),
{
    if evs.len() == 0 {
        0
    } else {
        let s2 = spec_step(cfg, s, evs.first()).0;
        (if sub_flag(s, c) == 0 && sub_flag(s2, c) == 1 {
            1int
        } else {
            0int
        }) + count_activations(cfg, s2, evs.drop_first(), c)
    }
}

/// A telemetry setter publication.
pub open spec fn is_sample_publish(a: ActionV) -> bool {
    a is PublishTemperature || a is PublishHumidity || a is PublishPressure
}

/// Any publication the UI can observe.
pub open spec fn is_publish(a: ActionV) -> bool {
    a is PublishInfo || is_sample_publish(a)
}

/// No action of the trace is a publication.
pub open spec fn no_publish(acts: Seq<ActionV>) -> bool {
    forall|k: int| 0 <= k < acts.len() ==> !is_publish(#[trigger] acts[k])
}

/// The event sequence holds no `Start` command.
pub open spec fn no_start_cmd(evs: Seq<EventV>) -> bool {
    forall|k: int| 0 <= k < evs.len() ==> #[trigger] evs[k] != EventV::Cmd(Command::Start)
}

/// The three counters distribute over concatenation.
proof fn lemma_count_concat(a: Seq<ActionV>, b: Seq<ActionV>, c: Seq<char>)
    ensures
        count_stop_notify(a + b, c) == count_stop_notify(a, c) + count_stop_notify(b, c),
        count_start_discovery(a + b) == count_start_discovery(a) + count_start_discovery(b),
        count_stop_discovery(a + b) == count_stop_discovery(a) + count_stop_discovery(b),
    decreases a.len(),
{
    if a.len() == 0 {
        assert(a + b =~= b);
    } else {
        assert((a + b).first() == a.first());
        assert((a + b).drop_first() =~= a.drop_first() + b);
        lemma_count_concat(a.drop_first(), b, c);
    }
}

/// A trace of telemetry setters alone counts no resource action.
proof fn lemma_counts_zero(acts: Seq<ActionV>, c: Seq<char>)
    requires
        forall|k: int| 0 <= k < acts.len() ==> is_sample_publish(#[trigger] acts[k]),
    ensures
        count_stop_notify(acts, c) == 0,
        count_start_discovery(acts) == 0,
        count_stop_discovery(acts) == 0,
    decreases acts.len(),
{
    if acts.len() > 0 {
        assert(is_sample_publish(acts[0]));
        assert forall|k: int| 0 <= k < acts.drop_first().len() implies is_sample_publish(
            #[trigger] acts.drop_first()[k],
        ) by {
            assert(acts.drop_first()[k] == acts[k + 1]);
        }
        lemma_counts_zero(acts.drop_first(), c);
    }
}

/// Every action a batch ever emits is a telemetry setter.
pub proof fn lemma_batch_pubs_sample_only(c: Seq<char>, evs: Seq<HostEventV>)
    ensures
        forall|k: int|
            0 <= k < batch_pubs(c, evs).len() ==> is_sample_publish(
                #[trigger] batch_pubs(c, evs)[k],
            ),
    decreases evs.len(),
{
    if evs.len() > 0 {
        lemma_batch_pubs_sample_only(c, evs.drop_last());
        let prev = batch_pubs(c, evs.drop_last());
        let cur = event_pubs(c, evs.last());
        assert forall|k: int| 0 <= k < batch_pubs(c, evs).len() implies is_sample_publish(
            #[trigger] batch_pubs(c, evs)[k],
        ) by {
            if k < prev.len() {
                assert(batch_pubs(c, evs)[k] == prev[k]);
            } else {
                assert(batch_pubs(c, evs)[k] == cur[k - prev.len()]);
            }
        }
    }
}

/// One step keeps the notify balance: it emits a `StopNotify(c)` exactly
/// when the subscription to `c` ends, and none otherwise.
proof fn lemma_step_notify(cfg: ConfigV, s: PhaseV, e: EventV, c: Seq<char>)
    ensures
        count_stop_notify(spec_step(cfg, s, e).1, c) == sub_flag(s, c) - sub_flag(
            spec_step(cfg, s, e).0,
            c,
        ) + (if sub_flag(s, c) == 0 && sub_flag(spec_step(cfg, s, e).0, c) == 1 {
            1int
        } else {
            0int
        }),
{
    reveal_with_fuel(count_stop_notify, 5);
    match s {
        PhaseV::Notifying { char_path } => match e {
            EventV::Batch(evs) => {
                lemma_batch_pubs_sample_only(char_path, evs);
                lemma_counts_zero(batch_pubs(char_path, evs), c);
                lemma_count_concat(
                    batch_pubs(char_path, evs),
                    seq![ActionV::Poll(cfg.poll_ms)],
                    c,
                );
            },
            _ => {},
        },
        _ => {},
    }
}

/// One step keeps the discovery balance: `StartDiscovery` opens it,
/// `StopDiscovery` closes it, never out of turn.
proof fn lemma_step_discovery(cfg: ConfigV, s: PhaseV, e: EventV)
    ensures
        count_start_discovery(spec_step(cfg, s, e).1) - count_stop_discovery(
            spec_step(cfg, s, e).1,
        ) == disc_flag(spec_step(cfg, s, e).0) - disc_flag(s),
{
    reveal_with_fuel(count_start_discovery, 5);
    reveal_with_fuel(count_stop_discovery, 5);
    match s {
        PhaseV::Notifying { char_path } => match e {
            EventV::Batch(evs) => {
                lemma_batch_pubs_sample_only(char_path, evs);
                lemma_counts_zero(batch_pubs(char_path, evs), char_path);
                lemma_count_concat(
                    batch_pubs(char_path, evs),
                    seq![ActionV::Poll(cfg.poll_ms)],
                    char_path,
                );
            },
            _ => {},
        },
        _ => {},
    }
}

/// Balance of the notification subscription along a whole run.
pub proof fn lemma_notify_balance(cfg: ConfigV, s: PhaseV, evs: Seq<EventV>, c: Seq<char>)
    ensures
        count_stop_notify(run_actions(cfg, s, evs), c) == count_activations(cfg, s, evs, c)
            + sub_flag(s, c) - sub_flag(run_state(cfg, s, evs), c),
    decreases evs.len(),
{
    if evs.len() > 0 {
        let s2 = spec_step(cfg, s, evs.first()).0;
        lemma_step_notify(cfg, s, evs.first(), c);
        lemma_notify_balance(cfg, s2, evs.drop_first(), c);
        lemma_count_concat(
            spec_step(cfg, s, evs.first()).1,
            run_actions(cfg, s2, evs.drop_first()),
            c,
        );
    }
}

/// Law: in a run from the initial state that leaves the worker with no
/// active subscription to `c` (so in particular any run that ends in `Idle`
/// or `Terminal`), the `StopNotify(c)` actions equal the number of times
/// the subscription to `c` became active: each `start_notify` that was
/// acknowledged is matched by exactly one `stop_notify` on the same
/// characteristic before the worker exits.
pub proof fn lemma_notify_balanced_run(cfg: ConfigV, evs: Seq<EventV>, c: Seq<char>)
    requires
        sub_flag(run_state(cfg, PhaseV::Idle, evs), c) == 0,
    ensures
        count_stop_notify(run_actions(cfg, PhaseV::Idle, evs), c) == count_activations(
            cfg,
            PhaseV::Idle,
            evs,
            c,
        ),
{
    lemma_notify_balance(cfg, PhaseV::Idle, evs, c);
}

/// Balance of the discovery session along a whole run.
pub proof fn lemma_discovery_balance(cfg: ConfigV, s: PhaseV, evs: Seq<EventV>)
    ensures
        count_start_discovery(run_actions(cfg, s, evs)) - count_stop_discovery(
            run_actions(cfg, s, evs),
        ) == disc_flag(run_state(cfg, s, evs)) - disc_flag(s),
    decreases evs.len(),
{
    if evs.len() > 0 {
        let s2 = spec_step(cfg, s, evs.first()).0;
        lemma_step_discovery(cfg, s, evs.first());
        lemma_discovery_balance(cfg, s2, evs.drop_first());
        lemma_count_concat(
            spec_step(cfg, s, evs.first()).1,
            run_actions(cfg, s2, evs.drop_first()),
            Seq::empty(),
        );
    }
}

/// Law: in a run from the initial state that leaves the worker outside the
/// discovery phases (so any run that ends in `Idle` or `Terminal`, failure
/// paths included), every `start_discovery` is matched by a
/// `stop_discovery`.
pub proof fn lemma_discovery_balanced_run(cfg: ConfigV, evs: Seq<EventV>)
    requires
        disc_flag(run_state(cfg, PhaseV::Idle, evs)) == 0,
    ensures
        count_start_discovery(run_actions(cfg, PhaseV::Idle, evs)) == count_stop_discovery(
            run_actions(cfg, PhaseV::Idle, evs),
        ),
{
    lemma_discovery_balance(cfg, PhaseV::Idle, evs);
}

/// Law: a batch holding no value event yields no publication at all.
pub proof fn lemma_non_value_silent(c: Seq<char>, evs: Seq<HostEventV>)
    requires
        forall|k: int| 0 <= k < evs.len() ==> !(#[trigger] evs[k] is Value),
    ensures
        batch_pubs(c, evs) == Seq::<ActionV>::empty(),
    decreases evs.len(),
{
    if evs.len() > 0 {
        assert(!(evs.last() is Value));
        assert forall|k: int| 0 <= k < evs.drop_last().len() implies !(
        #[trigger] evs.drop_last()[k] is Value) by {
            assert(evs.drop_last()[k] == evs[k]);
        }
        lemma_non_value_silent(c, evs.drop_last());
        assert(batch_pubs(c, evs) =~= Seq::<ActionV>::empty());
    }
}

/// Law: publications preserve arrival order: the publications of a
/// concatenated batch are those of its first part followed by those of its
/// second, so two valid payloads are published in the order they arrived.
pub proof fn lemma_batch_order(c: Seq<char>, evs1: Seq<HostEventV>, evs2: Seq<HostEventV>)
    ensures
        batch_pubs(c, evs1 + evs2) == batch_pubs(c, evs1) + batch_pubs(c, evs2),
    decreases evs2.len(),
{
    if evs2.len() == 0 {
        assert(evs1 + evs2 =~= evs1);
        assert(batch_pubs(c, evs1) + batch_pubs(c, evs2) =~= batch_pubs(c, evs1));
    } else {
        assert((evs1 + evs2).drop_last() =~= evs1 + evs2.drop_last());
        assert((evs1 + evs2).last() == evs2.last());
        lemma_batch_order(c, evs1, evs2.drop_last());
        assert(batch_pubs(c, evs1 + evs2) =~= batch_pubs(c, evs1) + batch_pubs(c, evs2));
    }
}

/// Law: two consecutive events of one batch publish in arrival order: the
/// first event's setters (temperature, humidity, pressure) stand wholly
/// before the second's.
pub proof fn lemma_two_samples_in_order(c: Seq<char>, e1: HostEventV, e2: HostEventV)
    ensures
        batch_pubs(c, seq![e1, e2]) == event_pubs(c, e1) + event_pubs(c, e2),
{
    reveal_with_fuel(batch_pubs, 3);
    assert(seq![e1, e2].drop_last() =~= seq![e1]);
    assert(seq![e1].drop_last() =~= Seq::<HostEventV>::empty());
    assert(seq![e1].last() == e1);
    assert(seq![e1, e2].last() == e2);
    assert(batch_pubs(c, seq![e1]) =~= event_pubs(c, e1));
    assert(batch_pubs(c, seq![e1, e2]) =~= event_pubs(c, e1) + event_pubs(c, e2));
}

/// From `Idle` or `Terminal`, with no further `Start` command, the run
/// publishes nothing.
pub proof fn lemma_quiescent(cfg: ConfigV, s: PhaseV, evs: Seq<EventV>)
    requires
        s == PhaseV::Idle || s == PhaseV::Terminal,
        no_start_cmd(evs),
    ensures
        no_publish(run_actions(cfg, s, evs)),
    decreases evs.len(),
{
    if evs.len() > 0 {
        let e = evs.first();
        let s2 = spec_step(cfg, s, e).0;
        let acts = spec_step(cfg, s, e).1;
        assert(evs[0] != EventV::Cmd(Command::Start));
        assert(no_publish(acts));
        assert forall|k: int| 0 <= k < evs.drop_first().len() implies #[trigger] evs.drop_first()[k]
            != EventV::Cmd(Command::Start) by {
            assert(evs.drop_first()[k] == evs[k + 1]);
        }
        lemma_quiescent(cfg, s2, evs.drop_first());
        let rest = run_actions(cfg, s2, evs.drop_first());
        assert forall|k: int| 0 <= k < (acts + rest).len() implies !is_publish(
            #[trigger] (acts + rest)[k],
        ) by {
            if k < acts.len() {
                assert((acts + rest)[k] == acts[k]);
            } else {
                assert((acts + rest)[k] == rest[k - acts.len()]);
            }
        }
    }
}

/// Law: a `Stop` received while notifying is acknowledged by the stop
/// status as the last publication of its step, and afterwards, until a new
/// `Start`, the UI receives no further publication.
pub proof fn lemma_stop_then_silent(cfg: ConfigV, cp: Seq<char>, evs: Seq<EventV>)
    requires
        no_start_cmd(evs),
    ensures
        ({
            let stepped = spec_step(
                cfg,
                PhaseV::Notifying { char_path: cp },
                EventV::Cmd(Command::Stop),
            );
            stepped.0 == PhaseV::Idle && stepped.1.last() == ActionV::PublishInfo(
                "Status: Notification stoped"@,
            ) && no_publish(run_actions(cfg, PhaseV::Idle, evs))
        }),
{
    lemma_quiescent(cfg, PhaseV::Idle, evs);
}

} // verus!
