//! The event loop as a state machine: what each event does to the screen
//! state, and what the program has to do next.

use vstd::prelude::*;
use vstd::string::StringExecFns;
use crate::app_state::App;
use crate::app_state::AppView;
use crate::app_state::MAX_SCROLL;
use crate::app_state::Outcome;
use crate::app_state::handle_page_respose;
use crate::app_state::outcome_of;
use crate::keys::Command;
use crate::keys::Event;
use crate::keys::Key;
use crate::keys::command_of;
use crate::svt::FetchError;
use crate::svt::SvtResponse;

verus! {

/// The page that is fetched when the program starts.
pub const START_PAGE: &'static str = "100";

/// Where the loop stands.
#[derive(Clone, Copy, Debug, PartialEq, Eq, Structural)]
pub enum LoopState {
    /// Events are taken and acted on.
    Running,
    /// The loop has ended. Nothing leads out of this state.
    Exiting,
}

/// What the program has to do after the loop has taken something in.
#[derive(Clone, Debug, PartialEq, Eq)]
pub enum Action {
    /// Draw the screen from the current state, then hand over the next
    /// event.
    Redraw,
    /// Fetch the page with this identifier and hand over the result.
    Fetch(String),
    /// Put the terminal back into its normal mode, show the cursor and stop.
    Leave,
    /// Nothing: the loop has ended.
    Nothing,
}

/// An action as mathematics sees it.
pub enum ActionView {
    Redraw,
    Fetch(Seq<char>),
    Leave,
    Nothing,
}

impl View for Action {
    type V = ActionView;

    open spec fn view(&self) -> ActionView {
        match self {
            Action::Redraw => ActionView::Redraw,
            Action::Fetch(page) => ActionView::Fetch(page@),
            Action::Leave => ActionView::Leave,
            Action::Nothing => ActionView::Nothing,
        }
    }
}

/// The event loop: the screen state and where the loop stands.
#[derive(Clone, Debug, PartialEq, Eq)]
pub struct EventLoop {
    pub app: App,
    pub state: LoopState,
}

/// The event loop as mathematics sees it.
pub struct LoopView {
    pub app: AppView,
    pub state: LoopState,
}

impl View for EventLoop {
    type V = LoopView;

    open spec fn view(&self) -> LoopView {
        LoopView { app: self.app@, state: self.state }
    }
}

/// The loop right after the program has started: the identifier of the
/// start page is in the input buffer and has just been confirmed.
pub open spec fn on_start() -> (LoopView, ActionView) {
    (
        LoopView {
            app: AppView { input: START_PAGE@, ..AppView::empty() },
            state: LoopState::Running,
        },
        ActionView::Fetch(START_PAGE@),
    )
}

/// The transition for one event: the state after it and the action it asks
/// for. A running loop leaves on the quit command, scrolls up no further
/// than the top and down no further than the largest offset that the state
/// can hold, edits the input buffer, and on the confirm command empties the
/// page and asks for the page that the input buffer names. A tick and a key
/// without a binding change nothing. All of these but the quit and the
/// confirm command are followed by a redraw. A loop that has ended takes
/// nothing in.
pub open spec fn on_event(m: LoopView, event: Event<Key>) -> (LoopView, ActionView) {
    match m.state {
        LoopState::Exiting => (m, ActionView::Nothing),
        LoopState::Running => match event {
            Event::Tick => (m, ActionView::Redraw),
            Event::Input(key) => match command_of(key) {
                Command::Quit => (LoopView { state: LoopState::Exiting, ..m }, ActionView::Leave),
                Command::ScrollUp => (LoopView { app: m.app.scroll_up(), ..m }, ActionView::Redraw),
                Command::ScrollDown => if m.app.scroll < MAX_SCROLL {
                    (LoopView { app: m.app.scroll_down(), ..m }, ActionView::Redraw)
                } else {
                    (m, ActionView::Redraw)
                },
                Command::Confirm => (
                    LoopView { app: m.app.clear_page(), ..m },
                    ActionView::Fetch(m.app.input),
                ),
                Command::Erase => (LoopView { app: m.app.erase(), ..m }, ActionView::Redraw),
                Command::Insert(c) => (LoopView { app: m.app.insert(c), ..m }, ActionView::Redraw),
                Command::Ignore => (m, ActionView::Redraw),
            },
        },
    }
}

/// The transition for the end of a fetch: a running loop shows the outcome,
/// empties the input buffer whatever the outcome was, and asks for a
/// redraw. A loop that has ended takes nothing in.
pub open spec fn on_fetched(m: LoopView, outcome: Outcome) -> (LoopView, ActionView) {
    match m.state {
        LoopState::Exiting => (m, ActionView::Nothing),
        LoopState::Running => (
            LoopView { app: m.app.show(outcome).clear_input(), ..m },
            ActionView::Redraw,
        ),
    }
}

impl EventLoop {
    /// Starts the loop. The identifier of the start page goes into the
    /// input buffer and is confirmed at once, so the first action is to
    /// fetch that page.
    pub fn start() -> (started: (EventLoop, Action))
        ensures
            (started.0@, started.1@) == on_start(),
    {
        let app = App { input: START_PAGE.to_owned(), body: String::new(), scroll: 0 };
        (EventLoop { app, state: LoopState::Running }, Action::Fetch(START_PAGE.to_owned()))
    }

    /// Whether the loop still takes events.
    pub fn is_running(&self) -> (running: bool)
        ensures
            running == (self.state is Running),
    {
        match self.state {
            LoopState::Running => true,
            LoopState::Exiting => false,
        }
    }

    /// Takes one event from the input source and says what to do next.
    pub fn step(&mut self, event: Event<Key>) -> (action: Action)
        ensures
            (final(self)@, action@) == on_event(old(self)@, event),
    {
        match self.state {
            LoopState::Exiting => Action::Nothing,
            LoopState::Running => match event {
                Event::Tick => Action::Redraw,
                Event::Input(key) => match key.command() {
                    Command::Quit => {
                        self.state = LoopState::Exiting;
                        Action::Leave
                    },
                    Command::ScrollUp => {
                        self.app.scroll_up();
                        Action::Redraw
                    },
                    Command::ScrollDown => {
                        if self.app.scroll < MAX_SCROLL {
                            self.app.scroll_down();
                        }
                        Action::Redraw
                    },
                    Command::Confirm => {
                        self.app.clear_page();
                        Action::Fetch(self.app.input.clone())
                    },
                    Command::Erase => {
                        self.app.erase();
                        Action::Redraw
                    },
                    Command::Insert(c) => {
                        self.app.insert(c);
                        Action::Redraw
                    },
                    Command::Ignore => Action::Redraw,
                },
            },
        }
    }

    /// Takes the result of the fetch that the loop asked for and says what
    /// to do next.
    pub fn fetched(&mut self, result: &Result<SvtResponse, FetchError>) -> (action: Action)
        ensures
            (final(self)@, action@) == on_fetched(old(self)@, outcome_of(*result)),
    {
        match self.state {
            LoopState::Exiting => Action::Nothing,
            LoopState::Running => {
                handle_page_respose(result, &mut self.app);
                self.app.clear_input();
                Action::Redraw
            },
        }
    }
}

} // verus!
