//! The application state machine.
//!
//! A single flat record holds the active theme, the toggle flag, the current
//! query text and the ordered history of past queries, most recent first.
//! Each incoming [`Message`] is applied by [`App::update`], which returns the
//! side effect the caller must perform (the search backend is a stub: tag
//! selection and removals are merely reported). The history never holds a
//! blank entry: a submission is trimmed first and dropped when nothing is
//! left. Removing a history entry at an out-of-range index is rejected with
//! an error and leaves the state untouched.

use vstd::prelude::*;

use crate::palette::{spec_palette, ModernPalette, ModernTheme};
use crate::trim::{spec_trim, trim};

verus! {

/// The text-input state: the query typed so far.
#[derive(Debug, Clone)]
pub struct Inputs {
    pub query: String,
    pub enabled: bool,
}

/// The whole application state.
#[derive(Debug, Clone)]
pub struct App {
    pub theme: ModernTheme,
    pub toggler: bool,
    pub inputs: Inputs,
    pub searches: Vec<String>,
}

/// A discrete user-interaction event, consumed by [`App::update`].
#[derive(Debug, Clone)]
pub enum Message {
    /// The submit button was pressed.
    OnPressing,
    /// A category tag was selected; carries the tag's name.
    TagSelected(String),
    /// The query text changed; carries the new text.
    QueryChange(String),
    /// The theme toggler moved; carries its new position.
    OnChangingTheme(bool),
    /// The query text is to be replaced; carries the new text.
    SetSearch(String),
    /// The history entry at the given position is to be removed.
    RemoveSearch(usize),
}

/// The side effect a transition asks its caller to perform.
#[derive(Debug, Clone, PartialEq, Eq)]
pub enum Effect {
    /// Nothing to do beyond re-rendering.
    Silent,
    /// Report the selected tag by name (search itself is a stub).
    TagReport(String),
    /// Report the history entry that was removed.
    RemovalReport(String),
}

/// Why a transition was rejected.
#[derive(Debug, Clone, Copy, PartialEq, Eq, Structural)]
pub enum UpdateError {
    /// A removal named a position at or beyond the history length.
    RemoveOutOfRange,
}

/// The mathematical model of the application state.
#[verifier::ext_equal]
pub struct StateModel {
    pub theme: ModernTheme,
    pub toggler: bool,
    pub query: Seq<char>,
    pub enabled: bool,
    pub searches: Seq<Seq<char>>,
}


/// The state the application starts in: dark theme, toggle off, empty query,
/// empty history.
pub open spec fn spec_initial_state() -> StateModel {
    StateModel {
        theme: ModernTheme::Dark,
        toggler: false,
        query: Seq::empty(),
        enabled: true,
        searches: Seq::empty(),
    }
}

/// A submission: when the trimmed query is non-blank, the trimmed copy is
/// inserted at the front of the history; a blank query changes nothing. The
/// query field itself is never cleared.
pub open spec fn spec_submit(s: StateModel) -> StateModel {
    if spec_trim(s.query).len() == 0 {
        s
    } else {
        StateModel { searches: s.searches.insert(0, spec_trim(s.query)), ..s }
    }
}

/// A theme toggle: the flag is stored and selects the light theme when set,
/// the dark theme otherwise.
pub open spec fn spec_set_theme(s: StateModel, flag: bool) -> StateModel {
    StateModel {
        toggler: flag,
        theme: if flag {
            ModernTheme::Light
        } else {
            ModernTheme::Dark
        },
        ..s
    }
}

/// A query replacement: the text is stored verbatim.
pub open spec fn spec_set_query(s: StateModel, q: Seq<char>) -> StateModel {
    StateModel { query: q, ..s }
}

/// A removal of the history entry at a valid position; the rest keeps its
/// order.
pub open spec fn spec_remove_search(s: StateModel, i: int) -> StateModel {
    StateModel { searches: s.searches.remove(i), ..s }
}

impl App {
    /// The mathematical model of this state.
    pub open spec fn model(&self) -> StateModel {
        StateModel {
            theme: self.theme,
            toggler: self.toggler,
            query: self.inputs.query@,
            enabled: self.inputs.enabled,
            searches: self.searches.deep_view(),
        }
    }

    /// The state the application starts in.
    pub fn new() -> (app: App)
        ensures
            app.model() == spec_initial_state(),
    {
        let app = App {
            theme: ModernTheme::Dark,
            toggler: false,
            inputs: Inputs { query: String::new(), enabled: true },
            searches: Vec::new(),
        };
        proof {
            assert(app.model() =~= spec_initial_state());
        }
        app
    }

    /// The window title.
    pub fn title(&self) -> (t: String)
        ensures
            t@ == "Capy search"@,
    {
        "Capy search".to_owned()
    }

    /// The active theme.
    pub fn theme(&self) -> (t: ModernTheme)
        ensures
            t == self.theme,
    {
        self.theme
    }

    /// The active theme's palette.
    pub fn palette(&self) -> (p: ModernPalette)
        ensures
            p == spec_palette(self.theme),
            p.wf(),
    {
        self.theme.palette()
    }

    /// Applies one message to the state and returns the side effect the
    /// caller must perform, or the error that left the state untouched.
    pub fn update(&mut self, message: Message) -> (r: Result<Effect, UpdateError>)
        ensures
            match message {
                Message::OnPressing => {
                    &&& r matches Ok(Effect::Silent)
                    &&& final(self).model() == spec_submit(old(self).model())
                },
                Message::OnChangingTheme(flag) => {
                    &&& r matches Ok(Effect::Silent)
                    &&& final(self).model() == spec_set_theme(old(self).model(), flag)
                },
                Message::QueryChange(q) => {
                    &&& r matches Ok(Effect::Silent)
                    &&& final(self).model() == spec_set_query(old(self).model(), q@)
                },
                Message::SetSearch(q) => {
                    &&& r matches Ok(Effect::Silent)
                    &&& final(self).model() == spec_set_query(old(self).model(), q@)
                },
                Message::TagSelected(name) => {
                    &&& r matches Ok(Effect::TagReport(n)) && n@ == name@
                    &&& final(self).model() == old(self).model()
                },
                Message::RemoveSearch(id) => {
                    if id < old(self).model().searches.len() {
                        &&& r matches Ok(Effect::RemovalReport(q)) && q@ == old(
                            self,
                        ).model().searches[id as int]
                        &&& final(self).model() == spec_remove_search(old(self).model(), id as int)
                    } else {
                        &&& r matches Err(UpdateError::RemoveOutOfRange)
                        &&& final(self).model() == old(self).model()
                    }
                },
            },
    {
        match message {
            Message::OnPressing => {
                let trimmed = trim(self.inputs.query.as_str());
                if !trimmed.as_str().is_empty() {
                    self.searches.insert(0, trimmed);
                    proof {
                        assert(self.model().searches =~= old(self).model().searches.insert(
                            0,
                            spec_trim(old(self).model().query),
                        ));
                        assert(self.model() =~= spec_submit(old(self).model()));
                    }
                } else {
                    proof {
                        assert(self.model() =~= spec_submit(old(self).model()));
                    }
                }
                Ok(Effect::Silent)
            },
            Message::OnChangingTheme(flag) => {
                self.toggler = flag;
                self.theme = if flag {
                    ModernTheme::Light
                } else {
                    ModernTheme::Dark
                };
                proof {
                    assert(self.model() =~= spec_set_theme(old(self).model(), flag));
                }
                Ok(Effect::Silent)
            },
            Message::QueryChange(query) => {
                self.inputs.query = query;
                proof {
                    assert(self.model() =~= spec_set_query(old(self).model(), self.inputs.query@));
                }
                Ok(Effect::Silent)
            },
            Message::SetSearch(query) => {
                self.inputs.query = query;
                proof {
                    assert(self.model() =~= spec_set_query(old(self).model(), self.inputs.query@));
                }
                Ok(Effect::Silent)
            },
            Message::TagSelected(tag) => Ok(Effect::TagReport(tag)),
            Message::RemoveSearch(id) => {
                if id < self.searches.len() {
                    let removed = self.searches.remove(id);
                    proof {
                        assert(self.model().searches =~= old(self).model().searches.remove(id as int));
                        assert(self.model() =~= spec_remove_search(old(self).model(), id as int));
                    }
                    Ok(Effect::RemovalReport(removed))
                } else {
                    Err(UpdateError::RemoveOutOfRange)
                }
            },
        }
    }
}

/// Submitting a blank query — empty, or whitespace only — changes nothing,
/// whatever the history holds.
pub proof fn lemma_submit_blank_keeps_state(s: StateModel)
    requires
        spec_trim(s.query).len() == 0,
    ensures
        spec_submit(s) == s,
{
}

/// Submissions are not de-duplicated: submitting the same non-blank text
/// twice puts two copies of its trimmed form at the front of the history.
pub proof fn lemma_submit_twice_duplicates(s: StateModel)
    requires
        spec_trim(s.query).len() > 0,
    ensures
        spec_submit(spec_submit(s)).searches == seq![spec_trim(s.query), spec_trim(s.query)]
            + s.searches,
        spec_submit(spec_submit(s)).query == s.query,
{
    assert(spec_submit(spec_submit(s)).searches =~= seq![spec_trim(s.query), spec_trim(s.query)]
        + s.searches);
}

/// Toggling the theme on and off again round-trips: the state is back to the
/// one before the two calls, and its resolved palette equals the palette of
/// the initial dark theme whenever the starting theme was the dark one — in
/// particular the palette resolved after the two calls always equals the
/// initial state's palette.
pub proof fn lemma_theme_toggle_round_trip(s: StateModel)
    ensures
        spec_set_theme(spec_set_theme(s, true), false) == (StateModel {
            theme: ModernTheme::Dark,
            toggler: false,
            ..s
        }),
        spec_palette(spec_set_theme(spec_set_theme(s, true), false).theme) == spec_palette(
            spec_initial_state().theme,
        ),
{
    assert(spec_set_theme(spec_set_theme(s, true), false) =~= StateModel {
        theme: ModernTheme::Dark,
        toggler: false,
        ..s
    });
}

/// A removal at a valid position never corrupts the order of the remaining
/// entries: everything before the removed entry keeps its place, everything
/// after it moves up by one.
pub proof fn lemma_remove_keeps_order(s: StateModel, i: int)
    requires
        0 <= i < s.searches.len(),
    ensures
        spec_remove_search(s, i).searches.len() == s.searches.len() - 1,
        forall|j: int| 0 <= j < i ==> spec_remove_search(s, i).searches[j] == s.searches[j],
        forall|j: int|
            i <= j < s.searches.len() - 1 ==> spec_remove_search(s, i).searches[j] == s.searches[j
                + 1],
{
}

} // verus!
