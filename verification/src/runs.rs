//! Whole runs of the controller: what it hands out for a sequence of answers,
//! and the laws of its start-up and of its polling loop.
use vstd::prelude::*;

use crate::cadence::MESSAGE_TIMEOUT_MS;
use crate::controller::{Action, Controller, Event, Stage};

verus! {

/// The state reached from `c` by answering with `events`, and the actions
/// handed out on the way, in order.
pub open spec fn run(c: Controller, events: Seq<Event>) -> (Controller, Seq<Action>)
    decreases events.len(),
{
    if events.len() == 0 {
        (c, Seq::empty())
    } else {
        let first = c.next(events[0]);
        let rest = run(first.0, events.drop_first());
        (rest.0, seq![first.1] + rest.1)
    }
}

/// Each of `events` answers the action handed out just before it.
pub open spec fn accepts_all(c: Controller, events: Seq<Event>) -> bool
    decreases events.len(),
{
    events.len() == 0 || (c.accepts(events[0]) && accepts_all(
        c.next(events[0]).0,
        events.drop_first(),
    ))
}

/// The answers of one pass of the polling loop: `count` messages handled,
/// then, if any, the report printed; the LED toggle answered by
/// `toggle_result`; the pause over.
pub open spec fn poll_answers(count: u32, toggle_result: Event) -> Seq<Event> {
    if count > 0 {
        seq![Event::Handled(count), Event::Done, toggle_result, Event::Done]
    } else {
        seq![Event::Handled(count), toggle_result, Event::Done]
    }
}

/// The actions of one pass of the polling loop with `count` messages and a
/// pause of `pause` milliseconds, ending with the next poll.
pub open spec fn poll_actions(count: u32, pause: u8) -> Seq<Action> {
    if count > 0 {
        seq![
            Action::ReportMessages(count),
            Action::ToggleLed,
            Action::Delay(pause),
            Action::HandleMessages(MESSAGE_TIMEOUT_MS),
        ]
    } else {
        seq![Action::ToggleLed, Action::Delay(pause), Action::HandleMessages(MESSAGE_TIMEOUT_MS)]
    }
}

/// The answers of consecutive passes: pass `i` handles `counts[i]` messages
/// and its LED toggle is answered by `toggles[i]`.
pub open spec fn polls_answers(counts: Seq<u32>, toggles: Seq<Event>) -> Seq<Event>
    decreases counts.len(),
{
    if counts.len() == 0 {
        Seq::empty()
    } else {
        polls_answers(counts.drop_last(), toggles.drop_last()) + poll_answers(
            counts.last(),
            toggles[counts.len() - 1],
        )
    }
}

/// Every answer in `toggles` is one a toggle of the LED may get: done or failed.
pub open spec fn toggle_answers(toggles: Seq<Event>) -> bool {
    forall|i: int| 0 <= i < toggles.len() ==> (#[trigger] toggles[i] is Done || toggles[i] is Failed)
}

/// The actions of consecutive passes, one per message count.
pub open spec fn polls_actions(counts: Seq<u32>, pause: u8) -> Seq<Action>
    decreases counts.len(),
{
    if counts.len() == 0 {
        Seq::empty()
    } else {
        polls_actions(counts.drop_last(), pause) + poll_actions(counts.last(), pause)
    }
}

/// Answering with `a` and then `b` is answering with `a + b`.
pub proof fn lemma_run_concat(c: Controller, a: Seq<Event>, b: Seq<Event>)
    ensures
        run(c, a + b) == (run(run(c, a).0, b).0, run(c, a).1 + run(run(c, a).0, b).1),
        accepts_all(c, a + b) == (accepts_all(c, a) && accepts_all(run(c, a).0, b)),
    decreases a.len(),
{
    if a.len() == 0 {
        assert(a + b =~= b);
        assert(Seq::<Action>::empty() + run(c, b).1 =~= run(c, b).1);
    } else {
        let c1 = c.next(a[0]).0;
        lemma_run_concat(c1, a.drop_first(), b);
        assert((a + b).drop_first() =~= a.drop_first() + b);
        assert((a + b)[0] == a[0]);
        let r1 = run(c1, a.drop_first());
        let r2 = run(r1.0, b);
        assert(seq![c.next(a[0]).1] + (r1.1 + r2.1) =~= (seq![c.next(a[0]).1] + r1.1) + r2.1);
    }
}

/// Start-up: from a fresh controller, once the peripherals are ready and
/// every start-up step succeeds, the IMU is initialised, asked for rotation
/// vectors at the reporting interval, the pause is printed, the LED is
/// driven low, and the first poll is handed out.
pub proof fn lemma_startup(c: Controller)
    requires
        c.stage == Stage::Boot,
    ensures
        ({
            let answers = seq![Event::Started, Event::Done, Event::Done, Event::Done, Event::Done];
            &&& accepts_all(c, answers)
            &&& run(c, answers) == (
                Controller { stage: Stage::AwaitMessages, led_high: Some(false), ..c },
                seq![
                    Action::InitImu,
                    Action::EnableRotationVector(c.report_interval_ms),
                    Action::AnnounceLoopInterval(c.loop_interval_ms),
                    Action::SetLedLow,
                    Action::HandleMessages(MESSAGE_TIMEOUT_MS),
                ],
            )
        }),
{
    let answers = seq![Event::Started, Event::Done, Event::Done, Event::Done, Event::Done];
    reveal_with_fuel(run, 6);
    reveal_with_fuel(accepts_all, 6);
    assert(answers.drop_first() =~= seq![Event::Done, Event::Done, Event::Done, Event::Done]);
    assert(answers.drop_first().drop_first() =~= seq![Event::Done, Event::Done, Event::Done]);
    assert(answers.drop_first().drop_first().drop_first() =~= seq![Event::Done, Event::Done]);
    assert(answers.drop_first().drop_first().drop_first().drop_first() =~= seq![Event::Done]);
    assert(answers.drop_first().drop_first().drop_first().drop_first().drop_first() =~= Seq::<
        Event,
    >::empty());
    let r = run(c, answers);
    assert(r.1 =~= seq![
        Action::InitImu,
        Action::EnableRotationVector(c.report_interval_ms),
        Action::AnnounceLoopInterval(c.loop_interval_ms),
        Action::SetLedLow,
        Action::HandleMessages(MESSAGE_TIMEOUT_MS),
    ]);
}

/// Once halted, the controller stays halted and hands out nothing but `Halt`,
/// whatever it is answered.
pub proof fn lemma_halted_is_final(c: Controller, events: Seq<Event>)
    requires
        c.stage == Stage::Halted,
    ensures
        accepts_all(c, events),
        run(c, events) == (c, Seq::new(events.len(), |i: int| Action::Halt)),
    decreases events.len(),
{
    if events.len() > 0 {
        lemma_halted_is_final(c, events.drop_first());
        assert(seq![Action::Halt] + Seq::new(
            events.drop_first().len(),
            |i: int| Action::Halt,
        ) =~= Seq::new(events.len(), |i: int| Action::Halt));
    }
}

/// A failed IMU initialisation halts the controller: nothing after the
/// initialisation is handed out but `Halt`.
pub proof fn lemma_init_failure_halts(c: Controller, later: Seq<Event>)
    requires
        c.stage == Stage::Boot,
    ensures
        ({
            let answers = seq![Event::Started, Event::Failed] + later;
            &&& accepts_all(c, answers)
            &&& run(c, answers) == (
                c.in_stage(Stage::Halted),
                seq![Action::InitImu] + Seq::new(later.len() + 1, |i: int| Action::Halt),
            )
        }),
{
    let head = seq![Event::Started, Event::Failed];
    lemma_run_concat(c, head, later);
    reveal_with_fuel(run, 3);
    reveal_with_fuel(accepts_all, 3);
    assert(head.drop_first() =~= seq![Event::Failed]);
    assert(head.drop_first().drop_first() =~= Seq::<Event>::empty());
    let halted = c.in_stage(Stage::Halted);
    assert(run(c, head) == (halted, seq![Action::InitImu, Action::Halt])) by {
        assert(seq![Action::InitImu] + (seq![Action::Halt] + Seq::<Action>::empty()) =~= seq![
            Action::InitImu,
            Action::Halt,
        ]);
    }
    lemma_halted_is_final(halted, later);
    assert(seq![Action::InitImu, Action::Halt] + Seq::new(later.len(), |i: int| Action::Halt)
        =~= seq![Action::InitImu] + Seq::new(later.len() + 1, |i: int| Action::Halt));
}

/// A failure to enable the rotation-vector report halts the controller:
/// nothing after that request is handed out but `Halt`.
pub proof fn lemma_enable_failure_halts(c: Controller, later: Seq<Event>)
    requires
        c.stage == Stage::Boot,
    ensures
        ({
            let answers = seq![Event::Started, Event::Done, Event::Failed] + later;
            &&& accepts_all(c, answers)
            &&& run(c, answers) == (
                c.in_stage(Stage::Halted),
                seq![Action::InitImu, Action::EnableRotationVector(c.report_interval_ms)]
                    + Seq::new(later.len() + 1, |i: int| Action::Halt),
            )
        }),
{
    let head = seq![Event::Started, Event::Done, Event::Failed];
    lemma_run_concat(c, head, later);
    reveal_with_fuel(run, 4);
    reveal_with_fuel(accepts_all, 4);
    assert(head.drop_first() =~= seq![Event::Done, Event::Failed]);
    assert(head.drop_first().drop_first() =~= seq![Event::Failed]);
    assert(head.drop_first().drop_first().drop_first() =~= Seq::<Event>::empty());
    let halted = c.in_stage(Stage::Halted);
    let enable = Action::EnableRotationVector(c.report_interval_ms);
    assert(run(c, head) == (halted, seq![Action::InitImu, enable, Action::Halt])) by {
        assert(seq![Action::InitImu] + (seq![enable] + (seq![Action::Halt]
            + Seq::<Action>::empty())) =~= seq![Action::InitImu, enable, Action::Halt]);
    }
    lemma_halted_is_final(halted, later);
    assert(seq![Action::InitImu, enable, Action::Halt] + Seq::new(
        later.len(),
        |i: int| Action::Halt,
    ) =~= seq![Action::InitImu, enable] + Seq::new(later.len() + 1, |i: int| Action::Halt));
}

/// One pass of the polling loop: the message count is reported exactly when
/// it is not zero, the LED is toggled once whatever the toggle returned, the
/// loop pauses for its interval and polls again; the controller is back to
/// waiting for messages with the LED level inverted.
pub proof fn lemma_poll_pass(c: Controller, count: u32, toggle_result: Event)
    requires
        c.stage == Stage::AwaitMessages,
        c.led_high is Some,
        toggle_result is Done || toggle_result is Failed,
    ensures
        accepts_all(c, poll_answers(count, toggle_result)),
        run(c, poll_answers(count, toggle_result)) == (
            Controller { led_high: Some(!c.led_high->0), ..c },
            poll_actions(count, c.loop_interval_ms),
        ),
{
    let answers = poll_answers(count, toggle_result);
    reveal_with_fuel(run, 5);
    reveal_with_fuel(accepts_all, 5);
    if count > 0 {
        assert(answers.drop_first() =~= seq![Event::Done, toggle_result, Event::Done]);
        assert(answers.drop_first().drop_first() =~= seq![toggle_result, Event::Done]);
        assert(answers.drop_first().drop_first().drop_first() =~= seq![Event::Done]);
        assert(answers.drop_first().drop_first().drop_first().drop_first() =~= Seq::<
            Event,
        >::empty());
    } else {
        assert(answers.drop_first() =~= seq![toggle_result, Event::Done]);
        assert(answers.drop_first().drop_first() =~= seq![Event::Done]);
        assert(answers.drop_first().drop_first().drop_first() =~= Seq::<Event>::empty());
    }
    assert(run(c, answers).1 =~= poll_actions(count, c.loop_interval_ms));
}

/// Any number of passes of the polling loop, whatever each LED toggle
/// returned: the controller keeps polling, hands out each pass's actions in
/// turn, and the LED ends inverted exactly when the number of passes is odd.
pub proof fn lemma_poll_passes(c: Controller, counts: Seq<u32>, toggles: Seq<Event>)
    requires
        c.stage == Stage::AwaitMessages,
        c.led_high is Some,
        toggles.len() == counts.len(),
        toggle_answers(toggles),
    ensures
        accepts_all(c, polls_answers(counts, toggles)),
        run(c, polls_answers(counts, toggles)) == (
            Controller { led_high: Some(c.led_high->0 != (counts.len() % 2 == 1)), ..c },
            polls_actions(counts, c.loop_interval_ms),
        ),
    decreases counts.len(),
{
    if counts.len() == 0 {
        assert(polls_answers(counts, toggles) =~= Seq::<Event>::empty());
        assert(run(c, Seq::<Event>::empty()).0 == c);
    } else {
        let earlier = counts.drop_last();
        let earlier_toggles = toggles.drop_last();
        assert forall|i: int| 0 <= i < earlier_toggles.len() implies (
        #[trigger] earlier_toggles[i] is Done || earlier_toggles[i] is Failed) by {
            assert(earlier_toggles[i] == toggles[i]);
        }
        lemma_poll_passes(c, earlier, earlier_toggles);
        let last_toggle = toggles[counts.len() - 1];
        assert(last_toggle is Done || last_toggle is Failed);
        let mid = run(c, polls_answers(earlier, earlier_toggles)).0;
        lemma_poll_pass(mid, counts.last(), last_toggle);
        lemma_run_concat(
            c,
            polls_answers(earlier, earlier_toggles),
            poll_answers(counts.last(), last_toggle),
        );
    }
}

/// The stages of the polling loop.
pub open spec fn polling(stage: Stage) -> bool {
    stage == Stage::AwaitMessages || stage == Stage::AwaitReport || stage == Stage::AwaitToggle
        || stage == Stage::AwaitDelay
}

/// Once polling has started, no sequence of answers the controller accepts
/// makes it halt: it stays in the polling loop and never hands out `Halt`.
pub proof fn lemma_polling_never_halts(c: Controller, events: Seq<Event>)
    requires
        polling(c.stage),
        accepts_all(c, events),
    ensures
        polling(run(c, events).0.stage),
        run(c, events).1.len() == events.len(),
        forall|i: int| 0 <= i < events.len() ==> #[trigger] run(c, events).1[i] != Action::Halt,
    decreases events.len(),
{
    if events.len() > 0 {
        let step = c.next(events[0]);
        lemma_polling_never_halts(step.0, events.drop_first());
        let rest = run(step.0, events.drop_first());
        assert forall|i: int| 0 <= i < events.len() implies #[trigger] run(c, events).1[i]
            != Action::Halt by {
            if i > 0 {
                assert(run(c, events).1[i] == rest.1[i - 1]);
            }
        }
    }
}

/// The answers an action can get from the runner: steps that may fail are
/// answered done or failed, prints and pauses can only complete, a poll of
/// the IMU is answered by the number of messages handled, and after `Halt`
/// nothing the runner says matters.
pub open spec fn answers(action: Action, event: Event) -> bool {
    match action {
        Action::InitImu | Action::EnableRotationVector(_) | Action::SetLedLow | Action::ToggleLed => {
            event is Done || event is Failed
        },
        Action::AnnounceLoopInterval(_) | Action::ReportMessages(_) | Action::Delay(_) => {
            event is Done
        },
        Action::HandleMessages(_) => event is Handled,
        Action::Halt => true,
    }
}

/// After any accepted step, the controller accepts exactly the answers that
/// the action it just handed out can get.
pub proof fn lemma_accepts_answers_to_last_action(c: Controller, event: Event, answer: Event)
    requires
        c.accepts(event),
    ensures
        c.next(event).0.accepts(answer) <==> answers(c.next(event).1, answer),
{
}

/// The result of driving the LED never matters: once the LED has been
/// driven low or toggled, answering done or failed leads to the same state
/// and the same next action.
pub proof fn lemma_led_results_ignored(c: Controller, event: Event)
    requires
        c.accepts(event),
        c.next(event).1 == Action::SetLedLow || c.next(event).1 == Action::ToggleLed,
    ensures
        c.next(event).0.next(Event::Done) == c.next(event).0.next(Event::Failed),
{
}

/// The controller stops only when the IMU's initialisation or the request
/// for rotation-vector reports fails: no other accepted answer halts it or
/// makes it hand out `Halt`.
pub proof fn lemma_halts_only_on_startup_failure(c: Controller, event: Event)
    requires
        c.accepts(event),
        c.stage != Stage::Halted,
        c.next(event).0.stage == Stage::Halted || c.next(event).1 == Action::Halt,
    ensures
        c.stage == Stage::AwaitInit || c.stage == Stage::AwaitEnable,
        event is Failed,
{
}

/// Start-up whatever driving the LED low returned: once the IMU is up and
/// reporting, the controller reaches the polling loop with the LED
/// commanded low and the first poll handed out.
pub proof fn lemma_startup_ignores_led_result(c: Controller, led_result: Event)
    requires
        c.stage == Stage::Boot,
        led_result is Done || led_result is Failed,
    ensures
        ({
            let answers = seq![Event::Started, Event::Done, Event::Done, Event::Done, led_result];
            &&& accepts_all(c, answers)
            &&& run(c, answers) == (
                Controller { stage: Stage::AwaitMessages, led_high: Some(false), ..c },
                seq![
                    Action::InitImu,
                    Action::EnableRotationVector(c.report_interval_ms),
                    Action::AnnounceLoopInterval(c.loop_interval_ms),
                    Action::SetLedLow,
                    Action::HandleMessages(MESSAGE_TIMEOUT_MS),
                ],
            )
        }),
{
    let answers = seq![Event::Started, Event::Done, Event::Done, Event::Done, led_result];
    reveal_with_fuel(run, 6);
    reveal_with_fuel(accepts_all, 6);
    assert(answers.drop_first() =~= seq![Event::Done, Event::Done, Event::Done, led_result]);
    assert(answers.drop_first().drop_first() =~= seq![Event::Done, Event::Done, led_result]);
    assert(answers.drop_first().drop_first().drop_first() =~= seq![Event::Done, led_result]);
    assert(answers.drop_first().drop_first().drop_first().drop_first() =~= seq![led_result]);
    assert(answers.drop_first().drop_first().drop_first().drop_first().drop_first() =~= Seq::<
        Event,
    >::empty());
    let r = run(c, answers);
    assert(r.1 =~= seq![
        Action::InitImu,
        Action::EnableRotationVector(c.report_interval_ms),
        Action::AnnounceLoopInterval(c.loop_interval_ms),
        Action::SetLedLow,
        Action::HandleMessages(MESSAGE_TIMEOUT_MS),
    ]);
}

} // verus!
