//! Runs of the event loop, and what holds of every run.

use vstd::prelude::*;
use crate::app_state::AppView;
use crate::app_state::DIAGNOSTIC_OPENING;
use crate::app_state::MAX_SCROLL;
use crate::app_state::Outcome;
use crate::app_state::diagnostic;
use crate::app_state::lemma_diagnostic_names_page_and_failure;
use crate::app_state::occurs_at;
use crate::event_loop::ActionView;
use crate::event_loop::LoopState;
use crate::event_loop::LoopView;
use crate::event_loop::on_event;
use crate::event_loop::on_fetched;
use crate::event_loop::on_start;
use crate::event_loop::START_PAGE;
use crate::input_source::InputSource;
use crate::input_source::SourceAction;
use crate::keys::Command;
use crate::keys::Event;
use crate::keys::Key;
use crate::keys::QUIT_CHAR;
use crate::keys::command_of;

verus! {

/// One thing that the loop takes in: an event from the input source, or the
/// end of a fetch.
pub enum Stimulus {
    Event(Event<Key>),
    Fetched(Outcome),
}

/// The transition for one stimulus.
pub open spec fn react(m: LoopView, stimulus: Stimulus) -> (LoopView, ActionView) {
    match stimulus {
        Stimulus::Event(event) => on_event(m, event),
        Stimulus::Fetched(outcome) => on_fetched(m, outcome),
    }
}

/// The state of the loop after it has taken in all of `trace`, in order.
pub open spec fn run(m: LoopView, trace: Seq<Stimulus>) -> LoopView
    decreases trace.len(),
{
    if trace.len() == 0 {
        m
    } else {
        react(run(m, trace.drop_last()), trace.last()).0
    }
}

/// The action that the loop asks for when it takes in the stimulus at
/// position `i` of `trace`.
pub open spec fn action_at(m: LoopView, trace: Seq<Stimulus>, i: int) -> ActionView {
    react(run(m, trace.take(i)), trace[i]).1
}

/// The key `key` pressed `n` times in a row.
pub open spec fn presses(key: Key, n: nat) -> Seq<Stimulus> {
    Seq::new(n, |i: int| Stimulus::Event(Event::Input(key)))
}

/// A press of the key for the character `c`.
pub open spec fn typed(c: char) -> Stimulus {
    Stimulus::Event(Event::Input(Key::Char(c)))
}

/// The characters of `text` typed one after the other.
pub open spec fn typing(text: Seq<char>) -> Seq<Stimulus> {
    Seq::new(text.len(), |i: int| typed(text[i]))
}

/// This stimulus is a press of a key that is bound to the quit command.
pub open spec fn is_quit(stimulus: Stimulus) -> bool {
    stimulus matches Stimulus::Event(Event::Input(key)) && command_of(key) == Command::Quit
}

/// Taking in one trace and then another is taking in the two joined.
pub proof fn lemma_run_concat(m: LoopView, first: Seq<Stimulus>, then: Seq<Stimulus>)
    ensures
        run(m, first + then) == run(run(m, first), then),
    decreases then.len(),
{
    if then.len() > 0 {
        assert((first + then).drop_last() =~= first + then.drop_last());
        lemma_run_concat(m, first, then.drop_last());
    }
}

/// Page-down pressed `downs` times moves a running loop down by that many
/// lines, as long as the offset stays within what the state can hold.
pub proof fn lemma_scroll_down(m: LoopView, downs: nat)
    requires
        m.state is Running,
        m.app.scroll + downs <= MAX_SCROLL,
    ensures
        run(m, presses(Key::PageDown, downs)) == (LoopView {
            app: AppView { scroll: m.app.scroll + downs, ..m.app },
            ..m
        }),
    decreases downs,
{
    if downs > 0 {
        let before = (downs - 1) as nat;
        assert(presses(Key::PageDown, downs).drop_last() =~= presses(Key::PageDown, before));
        lemma_scroll_down(m, before);
    }
}

/// Page-up pressed `ups` times moves a running loop up by that many lines,
/// and no further than the top.
pub proof fn lemma_scroll_up(m: LoopView, ups: nat)
    requires
        m.state is Running,
    ensures
        run(m, presses(Key::PageUp, ups)) == (LoopView {
            app: AppView {
                scroll: if ups <= m.app.scroll {
                    (m.app.scroll - ups) as nat
                } else {
                    0
                },
                ..m.app
            },
            ..m
        }),
    decreases ups,
{
    if ups > 0 {
        let before = (ups - 1) as nat;
        assert(presses(Key::PageUp, ups).drop_last() =~= presses(Key::PageUp, before));
        lemma_scroll_up(m, before);
    }
}

/// Page-down pressed `downs` times and then page-up pressed `ups` times
/// leaves a running loop `downs - ups` lines below where it was, or at the
/// top if that would lie above it. Input buffer and body are as before. With
/// no more presses up than down the offset is never less than before, and it
/// is the same as before exactly when the two numbers are equal.
pub proof fn lemma_scroll_down_then_up(m: LoopView, downs: nat, ups: nat)
    requires
        m.state is Running,
        m.app.scroll + downs <= MAX_SCROLL,
    ensures
        run(m, presses(Key::PageDown, downs) + presses(Key::PageUp, ups)) == (LoopView {
            app: AppView {
                scroll: if ups <= m.app.scroll + downs {
                    (m.app.scroll + downs - ups) as nat
                } else {
                    0
                },
                ..m.app
            },
            ..m
        }),
        ups <= downs ==> run(
            m,
            presses(Key::PageDown, downs) + presses(Key::PageUp, ups),
        ).app.scroll == m.app.scroll + (downs - ups),
{
    lemma_run_concat(m, presses(Key::PageDown, downs), presses(Key::PageUp, ups));
    lemma_scroll_down(m, downs);
    lemma_scroll_up(run(m, presses(Key::PageDown, downs)), ups);
}

/// Page-down pressed some number of times and then page-up pressed the same
/// number of times brings the loop back to the state it was in, as long as
/// the offset stays within what the state can hold on the way.
pub proof fn lemma_scroll_round_trip(m: LoopView, times: nat)
    requires
        m.app.scroll + times <= MAX_SCROLL,
    ensures
        run(m, presses(Key::PageDown, times) + presses(Key::PageUp, times)) == m,
{
    let trace = presses(Key::PageDown, times) + presses(Key::PageUp, times);
    match m.state {
        LoopState::Running => {
            lemma_scroll_down_then_up(m, times, times);
        },
        LoopState::Exiting => {
            lemma_exit_is_final(m, trace);
        },
    }
}

/// Whatever is typed into a running loop ends up in the input buffer, in
/// the order in which it was typed, as long as the quit character is not
/// among it.
pub proof fn lemma_typing_fills_input(m: LoopView, text: Seq<char>)
    requires
        m.state is Running,
        forall|i: int| 0 <= i < text.len() ==> text[i] != QUIT_CHAR,
    ensures
        run(m, typing(text)) == (LoopView {
            app: AppView { input: m.app.input + text, ..m.app },
            ..m
        }),
    decreases text.len(),
{
    if text.len() > 0 {
        assert(typing(text).drop_last() =~= typing(text.drop_last()));
        lemma_typing_fills_input(m, text.drop_last());
        assert((m.app.input + text.drop_last()).push(text.last()) =~= m.app.input + text);
    }
}

/// Starting the loop is typing the start page into an empty screen and
/// confirming it.
pub proof fn lemma_start_is_typing_and_confirming()
    ensures
        ({
            let created = LoopView { app: AppView::empty(), state: LoopState::Running };
            on_start() == on_event(run(created, typing(START_PAGE@)), Event::Input(Key::Enter))
        }),
{
    let created = LoopView { app: AppView::empty(), state: LoopState::Running };
    reveal_strlit("100");
    lemma_typing_fills_input(created, START_PAGE@);
}

/// A confirm always asks for a fetch of what the input buffer holds, be it
/// empty, and whatever the fetch brings, afterwards the screen shows that
/// and nothing of the old body, from the top, with an empty input buffer.
pub proof fn lemma_confirm_fetches_and_clears(m: LoopView, outcome: Outcome)
    requires
        m.state is Running,
    ensures
        ({
            let (asked, action) = on_event(m, Event::Input(Key::Enter));
            let (shown, then) = on_fetched(asked, outcome);
            &&& action == ActionView::Fetch(m.app.input)
            &&& asked.app.body == Seq::<char>::empty()
            &&& asked.app.scroll == 0
            &&& then == ActionView::Redraw
            &&& shown.state is Running
            &&& shown.app.scroll == 0
            &&& shown.app.input == Seq::<char>::empty()
            &&& shown.app.body == match outcome {
                Outcome::Page(text) => text,
                Outcome::Failure(detail) => diagnostic(m.app.input, detail),
            }
        }),
{
}

/// After a fetch has failed, the body names the identifier that was asked
/// for and describes the failure, and the input buffer is empty.
pub proof fn lemma_failure_is_shown(m: LoopView, detail: Seq<char>)
    requires
        m.state is Running,
    ensures
        ({
            let (asked, action) = on_event(m, Event::Input(Key::Enter));
            let shown = on_fetched(asked, Outcome::Failure(detail)).0;
            let id = m.app.input;
            &&& action == ActionView::Fetch(id)
            &&& shown.app.body == diagnostic(id, detail)
            &&& occurs_at(shown.app.body, id, DIAGNOSTIC_OPENING@.len() as int)
            &&& occurs_at(shown.app.body, detail, shown.app.body.len() - detail.len())
            &&& shown.app.input == Seq::<char>::empty()
        }),
{
    lemma_diagnostic_names_page_and_failure(m.app.input, detail);
}

/// Backspace with an empty input buffer changes nothing.
pub proof fn lemma_backspace_on_empty_input(m: LoopView)
    requires
        m.app.input.len() == 0,
    ensures
        on_event(m, Event::Input(Key::Backspace)).0 == m,
{
}

/// A loop that has ended stays as it is whatever comes in, and asks for
/// nothing: no redraw, no fetch, no second leave.
pub proof fn lemma_exit_is_final(m: LoopView, trace: Seq<Stimulus>)
    requires
        m.state is Exiting,
    ensures
        run(m, trace) == m,
        forall|i: int|
            0 <= i < trace.len() ==> #[trigger] action_at(m, trace, i) == ActionView::Nothing,
    decreases trace.len(),
{
    if trace.len() > 0 {
        lemma_exit_is_final(m, trace.drop_last());
    }
    assert forall|i: int| 0 <= i < trace.len() implies #[trigger] action_at(m, trace, i)
        == ActionView::Nothing by {
        lemma_exit_is_final(m, trace.take(i));
    }
}

/// Once a quit key has come in, the loop has ended for good: the state
/// after it is the state after everything that follows, and nothing that
/// follows is acted on or draws.
pub proof fn lemma_quit_ends_the_loop(m: LoopView, trace: Seq<Stimulus>, i: int)
    requires
        0 <= i < trace.len(),
        is_quit(trace[i]),
    ensures
        run(m, trace.take(i + 1)).state is Exiting,
        forall|j: int|
            i < j <= trace.len() ==> #[trigger] run(m, trace.take(j)) == run(
                m,
                trace.take(i + 1),
            ),
        forall|j: int|
            i < j < trace.len() ==> #[trigger] action_at(m, trace, j) == ActionView::Nothing,
{
    let ended = run(m, trace.take(i + 1));
    assert forall|j: int| i < j <= trace.len() implies #[trigger] run(m, trace.take(j))
        == ended by {
        let rest = trace.subrange(i + 1, j);
        assert(trace.take(j) =~= trace.take(i + 1) + rest);
        lemma_run_concat(m, trace.take(i + 1), rest);
        lemma_exit_is_final(ended, rest);
    }
}

/// The loop asks to leave exactly when a quit key comes in while it runs,
/// and it does so at most once in a run: whatever comes in after that gets
/// no action at all.
pub proof fn lemma_leaves_once(m: LoopView, trace: Seq<Stimulus>, i: int, j: int)
    requires
        0 <= i < j < trace.len(),
        action_at(m, trace, i) == ActionView::Leave,
    ensures
        is_quit(trace[i]),
        run(m, trace.take(i)).state is Running,
        action_at(m, trace, j) == ActionView::Nothing,
{
    lemma_quit_ends_the_loop(m, trace, i);
}

/// A loop keeps running as long as no quit key comes in.
pub proof fn lemma_runs_until_quit(m: LoopView, trace: Seq<Stimulus>)
    requires
        m.state is Running,
        forall|k: int| 0 <= k < trace.len() ==> !is_quit(#[trigger] trace[k]),
    ensures
        run(m, trace).state is Running,
    decreases trace.len(),
{
    if trace.len() > 0 {
        lemma_runs_until_quit(m, trace.drop_last());
        assert(!is_quit(trace[trace.len() - 1]));
    }
}

/// In a run that the loop begins running, it asks to leave exactly once:
/// when the first quit key comes in, and at no other point of the run.
pub proof fn lemma_leaves_exactly_once(m: LoopView, trace: Seq<Stimulus>, i: int)
    requires
        m.state is Running,
        0 <= i < trace.len(),
        is_quit(trace[i]),
        forall|k: int| 0 <= k < i ==> !is_quit(#[trigger] trace[k]),
    ensures
        action_at(m, trace, i) == ActionView::Leave,
        forall|j: int|
            0 <= j < trace.len() && j != i ==> #[trigger] action_at(m, trace, j)
                != ActionView::Leave,
{
    lemma_runs_until_quit(m, trace.take(i));
    lemma_quit_ends_the_loop(m, trace, i);
    assert forall|j: int| 0 <= j < trace.len() && j != i implies #[trigger] action_at(
        m,
        trace,
        j,
    ) != ActionView::Leave by {
        if j < i {
            assert(!is_quit(trace[j]));
        }
    }
}

/// A quit key that comes in while the loop runs makes it leave.
pub proof fn lemma_quit_leaves(m: LoopView, stimulus: Stimulus)
    requires
        m.state is Running,
        is_quit(stimulus),
    ensures
        react(m, stimulus) == (LoopView { state: LoopState::Exiting, ..m }, ActionView::Leave),
{
}

/// A tick changes nothing in a running loop and is followed by a redraw.
pub proof fn lemma_tick_redraws(m: LoopView)
    requires
        m.state is Running,
    ensures
        on_event(m, Event::Tick) == (m, ActionView::Redraw),
{
}

/// With no key coming in, a wait of the input source that runs its full
/// time ends in a tick, and the tick makes a running loop redraw what it
/// shows: the screen is drawn anew for every interval that passes.
pub proof fn lemma_idle_interval_redraws(source: InputSource, now: u64, later: u64, m: LoopView)
    requires
        source.phase is Waiting,
        source.last_tick <= now,
        later >= now + source.remaining(now),
        m.state is Running,
    ensures
        source.on_polled::<Key>(None, later).1 == SourceAction::<Key>::Send(Event::Tick),
        on_event(m, Event::Tick) == (m, ActionView::Redraw),
{
}

/// Whatever a running loop takes in is followed by a redraw, with two
/// exceptions: a quit key makes it leave, and a confirm makes it fetch,
/// with the redraw following the end of the fetch.
pub proof fn lemma_redraw_follows(m: LoopView, stimulus: Stimulus)
    requires
        m.state is Running,
    ensures
        match stimulus {
            Stimulus::Fetched(outcome) => react(m, stimulus).1 == ActionView::Redraw,
            Stimulus::Event(Event::Tick) => react(m, stimulus).1 == ActionView::Redraw,
            Stimulus::Event(Event::Input(key)) => match command_of(key) {
                Command::Quit => react(m, stimulus).1 == ActionView::Leave,
                Command::Confirm => react(m, stimulus).1 == ActionView::Fetch(m.app.input),
                _ => react(m, stimulus).1 == ActionView::Redraw,
            },
        },
{
}

} // verus!
