//! What the screen shows: the input buffer, the body text and the scroll
//! offset, with the operations that change them.

use vstd::prelude::*;
use vstd::string::StringExecFns;
use crate::svt::FetchError;
use crate::svt::SvtResponse;
use crate::svt::alt_text_of;

verus! {

/// The largest scroll offset that the state can hold.
pub const MAX_SCROLL: u16 = 65535;

/// The words that open a diagnostic, before the identifier of the page.
pub const DIAGNOSTIC_OPENING: &'static str = "Could not get page ";

/// The words between the identifier of the page and the description of the
/// failure.
pub const DIAGNOSTIC_BRIDGE: &'static str = ". Error: ";

/// The state of the application.
#[derive(Clone, Debug, PartialEq, Eq)]
pub struct App {
    /// Current value of the input box.
    pub input: String,
    /// Body of text.
    pub body: String,
    /// Body scroll position: the number of lines the body is shifted down.
    pub scroll: u16,
}

/// The state of the application as mathematics sees it.
pub struct AppView {
    pub input: Seq<char>,
    pub body: Seq<char>,
    pub scroll: nat,
}

/// How a fetch ended, as far as the screen is concerned.
pub enum Outcome {
    /// The page arrived; the text of its frames, concatenated.
    Page(Seq<char>),
    /// The fetch failed; the description of the failure.
    Failure(Seq<char>),
}

/// What the result of a fetch means for the screen.
pub open spec fn outcome_of(result: Result<SvtResponse, FetchError>) -> Outcome {
    match result {
        Ok(response) => Outcome::Page(alt_text_of(response.data.sub_pages@)),
        Err(error) => Outcome::Failure(error.detail_text()),
    }
}

/// The text shown in place of a page that could not be fetched. It names
/// the identifier that was asked for and describes the failure.
pub open spec fn diagnostic(id: Seq<char>, detail: Seq<char>) -> Seq<char> {
    DIAGNOSTIC_OPENING@ + id + DIAGNOSTIC_BRIDGE@ + detail
}

/// `part` stands in `text`, starting at position `at`.
pub open spec fn occurs_at(text: Seq<char>, part: Seq<char>, at: int) -> bool {
    &&& 0 <= at
    &&& at + part.len() <= text.len()
    &&& text.subrange(at, at + part.len()) == part
}

impl AppView {
    /// Nothing typed, nothing shown, not scrolled.
    pub open spec fn empty() -> AppView {
        AppView { input: Seq::empty(), body: Seq::empty(), scroll: 0 }
    }

    /// One line towards the top; at the top, nothing.
    pub open spec fn scroll_up(self) -> AppView {
        AppView { scroll: if self.scroll > 0 { (self.scroll - 1) as nat } else { 0 }, ..self }
    }

    /// One line towards the bottom.
    pub open spec fn scroll_down(self) -> AppView {
        AppView { scroll: self.scroll + 1, ..self }
    }

    /// `c` appended to the input buffer.
    pub open spec fn insert(self, c: char) -> AppView {
        AppView { input: self.input.push(c), ..self }
    }

    /// The input buffer without its last character; when it is empty,
    /// nothing.
    pub open spec fn erase(self) -> AppView {
        AppView {
            input: if self.input.len() > 0 { self.input.drop_last() } else { self.input },
            ..self
        }
    }

    /// The body emptied and the scroll offset back at the top.
    pub open spec fn clear_page(self) -> AppView {
        AppView { body: Seq::empty(), scroll: 0, ..self }
    }

    /// The input buffer emptied.
    pub open spec fn clear_input(self) -> AppView {
        AppView { input: Seq::empty(), ..self }
    }

    /// The body after a fetch: a page's text is appended to it, a failure
    /// replaces it by the diagnostic for the identifier in the input buffer.
    pub open spec fn show(self, outcome: Outcome) -> AppView {
        match outcome {
            Outcome::Page(text) => AppView { body: self.body + text, ..self },
            Outcome::Failure(detail) => AppView { body: diagnostic(self.input, detail), ..self },
        }
    }
}

impl View for App {
    type V = AppView;

    open spec fn view(&self) -> AppView {
        AppView { input: self.input@, body: self.body@, scroll: self.scroll as nat }
    }
}

impl Default for App {
    fn default() -> (app: Self)
        ensures
            app@ == AppView::empty(),
    {
        App { input: String::new(), body: String::new(), scroll: 0 }
    }
}

impl App {
    /// The state at startup: nothing typed, nothing shown, not scrolled.
    pub fn new() -> (app: Self)
        ensures
            app@ == AppView::empty(),
    {
        App { input: String::new(), body: String::new(), scroll: 0 }
    }

    /// Moves the body one line towards the top. At the top it stays there.
    pub fn scroll_up(&mut self)
        ensures
            final(self)@ == old(self)@.scroll_up(),
    {
        if self.scroll != 0 {
            self.scroll -= 1;
        }
    }

    /// Moves the body one line towards the bottom.
    pub fn scroll_down(&mut self)
        requires
            old(self).scroll < MAX_SCROLL,
        ensures
            final(self)@ == old(self)@.scroll_down(),
    {
        self.scroll += 1;
    }

    /// Appends `c` to the input buffer.
    pub fn insert(&mut self, c: char)
        ensures
            final(self)@ == old(self)@.insert(c),
    {
        self.input.push(c);
    }

    /// Removes the last character of the input buffer, if there is one.
    pub fn erase(&mut self)
        ensures
            final(self)@ == old(self)@.erase(),
    {
        self.input.pop();
    }

    /// Empties the body and scrolls back to the top, as is done before a
    /// page is fetched.
    pub fn clear_page(&mut self)
        ensures
            final(self)@ == old(self)@.clear_page(),
    {
        self.body.clear();
        self.scroll = 0;
    }

    /// Empties the input buffer.
    pub fn clear_input(&mut self)
        ensures
            final(self)@ == old(self)@.clear_input(),
    {
        self.input.clear();
    }
}

/// Puts the result of a fetch on the screen. The text of every frame of a
/// page is appended to the body, in the order of the frames. A failure
/// replaces the body by a diagnostic that holds the identifier in the input
/// buffer and the description of the failure. Input buffer and scroll offset
/// stay as they are.
pub fn handle_page_respose(result: &Result<SvtResponse, FetchError>, app: &mut App)
    ensures
        final(app)@ == old(app)@.show(outcome_of(*result)),
{
    match result {
        Ok(response) => {
            let pages = &response.data.sub_pages;
            let mut i: usize = 0;
            while i < pages.len()
                invariant
                    i <= pages.len(),
                    app.input@ == old(app).input@,
                    app.scroll == old(app).scroll,
                    app.body@ == old(app).body@ + alt_text_of(pages@.take(i as int)),
                decreases pages.len() - i,
            {
                proof {
                    assert(pages@.take(i + 1).drop_last() =~= pages@.take(i as int));
                }
                app.body.append(pages[i].alt_text.as_str());
                i += 1;
            }
            proof {
                assert(pages@.take(i as int) =~= pages@);
            }
        },
        Err(error) => {
            let mut text = DIAGNOSTIC_OPENING.to_owned();
            text.append(app.input.as_str());
            text.append(DIAGNOSTIC_BRIDGE);
            text.append(error.detail().as_str());
            app.body = text;
        },
    }
}

/// The diagnostic for a failed fetch contains the identifier that was asked
/// for, right after its opening words, and the description of the failure,
/// at its end.
pub proof fn lemma_diagnostic_names_page_and_failure(id: Seq<char>, detail: Seq<char>)
    ensures
        occurs_at(diagnostic(id, detail), id, DIAGNOSTIC_OPENING@.len() as int),
        occurs_at(
            diagnostic(id, detail),
            detail,
            diagnostic(id, detail).len() - detail.len(),
        ),
{
    let text = diagnostic(id, detail);
    let start = DIAGNOSTIC_OPENING@.len() as int;
    assert(text.subrange(start, start + id.len()) =~= id);
    assert(text.subrange(text.len() - detail.len(), text.len() as int) =~= detail);
}

} // verus!
