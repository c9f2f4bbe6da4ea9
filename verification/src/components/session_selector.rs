//! Session selector: the list of sessions and which one is chosen.

use vstd::prelude::*;

use crate::sessions::{session_type_label, Session, SessionView};

verus! {

/// Session selector input messages.
#[derive(Debug, Clone)]
pub enum SessionSelectorInput {
    /// Set the available sessions.
    SetSessions(Vec<Session>),
    /// Select a session by index.
    SelectByIndex(usize),
    /// Select the next session.
    SelectNext,
    /// Select the previous session.
    SelectPrevious,
}

/// Session selector output messages.
#[derive(Debug, Clone)]
pub enum SessionSelectorOutput {
    /// The user selected a session.
    SessionSelected(Session),
}

/// What handling an input asks for besides the state change.
#[derive(Debug, Clone)]
pub enum SelectorEffect {
    /// Nothing more.
    Nothing,
    /// Report this to the parent.
    Output(SessionSelectorOutput),
    /// Send this input to the selector itself.
    Input(SessionSelectorInput),
}

/// Session selector state.
#[derive(Debug)]
pub struct SessionSelector {
    sessions: Vec<Session>,
    selected_index: usize,
}

/// The views of a list of sessions.
pub open spec fn session_views(s: Seq<Session>) -> Seq<SessionView> {
    s.map_values(|x: Session| x@)
}

impl SessionSelector {
    #[verifier::type_invariant]
    spec fn index_in_range(&self) -> bool {
        self.selected_index == 0 || self.selected_index < self.sessions@.len()
    }

    /// The sessions offered.
    pub closed spec fn offered(&self) -> Seq<SessionView> {
        session_views(self.sessions@)
    }

    /// The index of the selected session.
    pub closed spec fn index(&self) -> nat {
        self.selected_index as nat
    }

    /// A selector offering `sessions`, with the first selected.
    pub fn new(sessions: Vec<Session>) -> (res: Self)
        ensures
            res.offered() == session_views(sessions@),
            res.index() == 0,
    {
        SessionSelector { sessions, selected_index: 0 }
    }

    /// The selection reported when the selector starts: the first session, if any.
    pub fn initial_output(&self) -> (res: Option<SessionSelectorOutput>)
        ensures
            self.offered().len() == 0 ==> res is None,
            self.offered().len() > 0 ==> (res matches Some(SessionSelectorOutput::SessionSelected(s))
                && s@ == self.offered()[0]),
    {
        if self.sessions.len() > 0 {
            Some(SessionSelectorOutput::SessionSelected(self.sessions[0].clone()))
        } else {
            None
        }
    }

    /// Handles one input.
    pub fn update(&mut self, message: SessionSelectorInput) -> (effect: SelectorEffect)
        ensures
            match message {
                SessionSelectorInput::SetSessions(s) => final(self).offered() == session_views(s@)
                    && final(self).index() == 0
                    && if s@.len() > 0 {
                        effect matches SelectorEffect::Output(SessionSelectorOutput::SessionSelected(x))
                            && x@ == s@[0]@
                    } else {
                        effect is Nothing
                    },
                SessionSelectorInput::SelectByIndex(i) => final(self).offered() == old(self).offered()
                    && if i < old(self).offered().len() && i != old(self).index() {
                        final(self).index() == i
                            && (effect matches SelectorEffect::Output(SessionSelectorOutput::SessionSelected(x))
                            && x@ == old(self).offered()[i as int])
                    } else {
                        final(self).index() == old(self).index() && effect is Nothing
                    },
                SessionSelectorInput::SelectNext => final(self).offered() == old(self).offered()
                    && final(self).index() == old(self).index()
                    && if old(self).offered().len() > 0 {
                        effect matches SelectorEffect::Input(SessionSelectorInput::SelectByIndex(j))
                            && j == (old(self).index() + 1) % old(self).offered().len()
                    } else {
                        effect is Nothing
                    },
                SessionSelectorInput::SelectPrevious => final(self).offered() == old(self).offered()
                    && final(self).index() == old(self).index()
                    && if old(self).offered().len() > 0 {
                        effect matches SelectorEffect::Input(SessionSelectorInput::SelectByIndex(j))
                            && j == (if old(self).index() == 0 {
                                old(self).offered().len() - 1
                            } else {
                                old(self).index() - 1
                            })
                    } else {
                        effect is Nothing
                    },
            },
    {
        proof {
            use_type_invariant(&*self);
        }
        match message {
            SessionSelectorInput::SetSessions(sessions) => {
                let first = if sessions.len() > 0 {
                    SelectorEffect::Output(SessionSelectorOutput::SessionSelected(sessions[0].clone()))
                } else {
                    SelectorEffect::Nothing
                };
                *self = SessionSelector { sessions, selected_index: 0 };
                first
            },
            SessionSelectorInput::SelectByIndex(index) => {
                if index < self.sessions.len() && index != self.selected_index {
                    self.selected_index = index;
                    SelectorEffect::Output(SessionSelectorOutput::SessionSelected(self.sessions[index].clone()))
                } else {
                    SelectorEffect::Nothing
                }
            },
            SessionSelectorInput::SelectNext => {
                if self.sessions.len() > 0 {
                    let new_index = (self.selected_index + 1) % self.sessions.len();
                    SelectorEffect::Input(SessionSelectorInput::SelectByIndex(new_index))
                } else {
                    SelectorEffect::Nothing
                }
            },
            SessionSelectorInput::SelectPrevious => {
                if self.sessions.len() > 0 {
                    let new_index = if self.selected_index == 0 {
                        self.sessions.len() - 1
                    } else {
                        self.selected_index - 1
                    };
                    SelectorEffect::Input(SessionSelectorInput::SelectByIndex(new_index))
                } else {
                    SelectorEffect::Nothing
                }
            },
        }
    }

    /// Get the currently selected session.
    pub fn selected_session(&self) -> (res: Option<&Session>)
        ensures
            self.index() < self.offered().len() ==> (res matches Some(s) && s@ == self.offered()[self.index() as int]),
            self.index() >= self.offered().len() ==> res is None,
    {
        if self.selected_index < self.sessions.len() {
            Some(&self.sessions[self.selected_index])
        } else {
            None
        }
    }

    /// The index of the selected session.
    pub fn selected_index(&self) -> (res: usize)
        ensures
            res == self.index(),
            res == 0 || res < self.offered().len(),
    {
        proof {
            use_type_invariant(self);
        }
        self.selected_index
    }

    /// The names of the sessions offered, in order.
    pub fn session_names(&self) -> (res: Vec<String>)
        ensures
            res.deep_view() == self.offered().map_values(|v: SessionView| v.name),
    {
        let mut res: Vec<String> = Vec::new();
        let mut i: usize = 0;
        while i < self.sessions.len()
            invariant
                i <= self.sessions@.len(),
                res.deep_view() == self.offered().take(i as int).map_values(|v: SessionView| v.name),
            decreases self.sessions@.len() - i,
        {
            let ghost before = res.deep_view();
            res.push(self.sessions[i].name.clone());
            assert(res.deep_view() =~= before.push(self.sessions@[i as int].name@));
            assert(self.offered().take(i + 1).map_values(|v: SessionView| v.name) =~= self.offered().take(
                i as int,
            ).map_values(|v: SessionView| v.name).push(self.offered()[i as int].name));
            i = i + 1;
        }
        assert(self.offered().take(i as int) =~= self.offered());
        res
    }

    /// The type of the selected session, for display.
    pub fn selected_type_text(&self) -> (res: String)
        ensures
            res@ == session_type_text(self.offered(), self.index() as int),
    {
        format_session_type(self.sessions.as_slice(), self.selected_index)
    }
}

/// The type of session `index`, in brackets, or nothing when there is no such session.
pub open spec fn session_type_text(sessions: Seq<SessionView>, index: int) -> Seq<char> {
    if 0 <= index < sessions.len() {
        "("@ + session_type_label(sessions[index].session_type) + ")"@
    } else {
        Seq::empty()
    }
}

/// Format the session type for display.
pub fn format_session_type(sessions: &[Session], index: usize) -> (res: String)
    ensures
        res@ == session_type_text(session_views(sessions@), index as int),
{
    if index < sessions.len() {
        String::from_str("(").concat(sessions[index].session_type.label().as_str()).concat(")")
    } else {
        String::new()
    }
}

} // verus!
