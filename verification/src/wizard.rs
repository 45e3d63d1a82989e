//! The wizard state machine.
//!
//! Five states drive one run: selecting a template, editing its form,
//! previewing the assembled message, dispatching it, and showing the
//! outcome. Every transition is a total function of the controller
//! and the incoming event; the interactive loop around it only maps
//! keys to events, performs the dispatch it is asked to start, and
//! hands the outcome back. Quitting ends the surrounding process and
//! is no transition of the machine.
//!
//! Template navigation wraps at both ends; field navigation clamps —
//! a menu is a cycle, a form is a line.

use vstd::prelude::*;

use crate::dispatch::DispatchOutcome;
use crate::payload::{build_payload, is_payload_for, WebhookMessage};
use crate::session::FormSession;
use crate::template::{Template, TemplateStore};

verus! {

/// The screen the wizard is on.
pub enum WizardState {
    Selecting,
    Editing,
    Previewing,
    Dispatching,
    Completed(DispatchOutcome),
}

/// What the surrounding loop feeds the machine: semantic inputs, not
/// keys.
pub enum WizardEvent {
    Next,
    Previous,
    Confirm,
    Cancel,
    CharInput(char),
    Backspace,
    DispatchDone(DispatchOutcome),
}

/// What a step asks the surrounding loop to do.
pub enum WizardAction {
    /// Nothing beyond repainting.
    Continue,
    /// Send this message, then feed the outcome back as an event.
    StartDispatch(WebhookMessage),
}

/// The wizard: the loaded store, the template-list cursor, the
/// confirmed template with its form session, and the current state.
pub struct Wizard {
    pub store: TemplateStore,
    /// Template-list cursor; `None` exactly when the store is empty.
    pub selected: Option<usize>,
    /// Confirmed template, from confirmation until the outcome is
    /// acknowledged.
    pub active: Option<usize>,
    /// Form state for the confirmed template.
    pub session: Option<FormSession>,
    pub state: WizardState,
}

impl Wizard {
    /// The template the session belongs to.
    pub open spec fn active_template(self) -> Template {
        self.store.templates@[self.active->0 as int]
    }

    /// Structural invariant: cursors in bounds, a session exactly
    /// while a template is confirmed, and the session shaped for it.
    pub open spec fn wf(self) -> bool {
        &&& self.store.wf()
        &&& (match self.selected {
            Some(i) => i < self.store.len_spec(),
            None => self.store.len_spec() == 0,
        })
        &&& (self.store.len_spec() > 0 ==> self.selected is Some)
        &&& (match self.active {
            Some(a) => {
                &&& a < self.store.len_spec()
                &&& self.session matches Some(sess) && sess.fits(
                    self.store.templates@[a as int],
                )
            },
            None => self.session is None,
        })
        &&& (!(self.state is Selecting) ==> self.active is Some)
    }

    /// Fresh wizard on the selection screen, the first template under
    /// the cursor when there is one.
    pub fn new(store: TemplateStore) -> (w: Wizard)
        requires
            store.wf(),
        ensures
            w.wf(),
            w.state is Selecting,
            w.store == store,
            w.active is None,
            w.session is None,
            store.len_spec() == 0 ==> w.selected is None,
            store.len_spec() > 0 ==> w.selected == Some(0usize),
    {
        let selected = if store.is_empty() {
            None
        } else {
            Some(0usize)
        };
        Wizard { store, selected, active: None, session: None, state: WizardState::Selecting }
    }

    /// Move the template cursor one down, wrapping past the last
    /// template to the first.
    pub fn next_template(&mut self)
        requires
            old(self).wf(),
            old(self).state is Selecting,
        ensures
            final(self).wf(),
            sel_next(*old(self), *final(self)),
    {
        if let Some(i) = self.selected {
            let n = self.store.len();
            if i < n - 1 {
                self.selected = Some(i + 1);
            } else {
                self.selected = Some(0);
            }
        }
    }

    /// Move the template cursor one up, wrapping past the first
    /// template to the last.
    pub fn previous_template(&mut self)
        requires
            old(self).wf(),
            old(self).state is Selecting,
        ensures
            final(self).wf(),
            sel_prev(*old(self), *final(self)),
    {
        if let Some(i) = self.selected {
            if i == 0 {
                self.selected = Some(self.store.len() - 1);
            } else {
                self.selected = Some(i - 1);
            }
        }
    }

    /// Confirm the template under the cursor: enter editing with a
    /// session re-initialized from the declared defaults, whatever an
    /// earlier session held.
    pub fn select_template(&mut self)
        requires
            old(self).wf(),
            old(self).state is Selecting,
        ensures
            final(self).wf(),
            sel_confirm(*old(self), *final(self)),
    {
        if let Some(i) = self.selected {
            let sess = FormSession::new(self.store.get(i));
            self.active = Some(i);
            self.session = Some(sess);
            self.state = WizardState::Editing;
        }
    }

    /// Move the field cursor one down, clamped at the last field.
    pub fn next_field(&mut self)
        requires
            old(self).wf(),
            old(self).state is Editing,
        ensures
            final(self).wf(),
            ed_next_field(*old(self), *final(self)),
    {
        if let Some(a) = self.active {
            let t = self.store.get(a);
            if let Some(sess) = &mut self.session {
                sess.next_field(t);
            }
        }
    }

    /// Move the field cursor one up, clamped at the first field.
    pub fn previous_field(&mut self)
        requires
            old(self).wf(),
            old(self).state is Editing,
        ensures
            final(self).wf(),
            ed_prev_field(*old(self), *final(self)),
    {
        if let Some(sess) = &mut self.session {
            sess.previous_field();
        }
    }

    /// Append one character to the field under the cursor; on a
    /// template without fields there is nothing to edit.
    pub fn append_char(&mut self, c: char)
        requires
            old(self).wf(),
            old(self).state is Editing,
        ensures
            final(self).wf(),
            ed_append(*old(self), *final(self), c),
    {
        if let Some(a) = self.active {
            let t = self.store.get(a);
            if t.num_fields() > 0 {
                if let Some(sess) = &mut self.session {
                    sess.append_char(t, c);
                }
            }
        }
    }

    /// Remove the last character of the field under the cursor; on an
    /// empty value, or a template without fields, nothing changes.
    pub fn backspace(&mut self)
        requires
            old(self).wf(),
            old(self).state is Editing,
        ensures
            final(self).wf(),
            ed_backspace(*old(self), *final(self)),
    {
        if let Some(a) = self.active {
            let t = self.store.get(a);
            if t.num_fields() > 0 {
                if let Some(sess) = &mut self.session {
                    sess.backspace(t);
                }
            }
        }
    }

    /// Leave editing for the preview of the assembled message.
    pub fn confirm_edit(&mut self)
        requires
            old(self).wf(),
            old(self).state is Editing,
        ensures
            final(self).wf(),
            *final(self) == (Wizard { state: WizardState::Previewing, ..*old(self) }),
    {
        self.state = WizardState::Previewing;
    }

    /// Leave editing back to selection. The entered values stay with
    /// the session; confirming a template replaces them wholesale.
    pub fn cancel_edit(&mut self)
        requires
            old(self).wf(),
            old(self).state is Editing,
        ensures
            final(self).wf(),
            *final(self) == (Wizard { state: WizardState::Selecting, ..*old(self) }),
    {
        self.state = WizardState::Selecting;
    }

    /// Confirm the preview: assemble the message and enter
    /// dispatching. The caller sends the message and feeds the
    /// outcome back.
    pub fn begin_dispatch(&mut self) -> (m: WebhookMessage)
        requires
            old(self).wf(),
            old(self).state is Previewing,
        ensures
            final(self).wf(),
            *final(self) == (Wizard { state: WizardState::Dispatching, ..*old(self) }),
            is_payload_for(m, old(self).active_template(), old(self).session->0),
    {
        let a = match self.active {
            Some(a) => a,
            None => unreached(),
        };
        let m = match &self.session {
            Some(sess) => build_payload(self.store.get(a), sess),
            None => unreached(),
        };
        self.state = WizardState::Dispatching;
        m
    }

    /// Leave the preview back to editing, the field cursor where it
    /// was.
    pub fn cancel_preview(&mut self)
        requires
            old(self).wf(),
            old(self).state is Previewing,
        ensures
            final(self).wf(),
            *final(self) == (Wizard { state: WizardState::Editing, ..*old(self) }),
    {
        self.state = WizardState::Editing;
    }

    /// Abandon an outstanding dispatch and return to the preview.
    pub fn cancel_dispatch(&mut self)
        requires
            old(self).wf(),
            old(self).state is Dispatching,
        ensures
            final(self).wf(),
            *final(self) == (Wizard { state: WizardState::Previewing, ..*old(self) }),
    {
        self.state = WizardState::Previewing;
    }

    /// Record the outcome the dispatch completed with.
    pub fn finish_dispatch(&mut self, outcome: DispatchOutcome)
        requires
            old(self).wf(),
            old(self).state is Dispatching,
        ensures
            final(self).wf(),
            *final(self) == (Wizard { state: WizardState::Completed(outcome), ..*old(self) }),
    {
        self.state = WizardState::Completed(outcome);
    }

    /// Acknowledge the outcome: back to selection, the session and
    /// the confirmed template discarded.
    pub fn acknowledge(&mut self)
        requires
            old(self).wf(),
            old(self).state is Completed,
        ensures
            final(self).wf(),
            *final(self) == (Wizard {
                state: WizardState::Selecting,
                active: None,
                session: None,
                ..*old(self)
            }),
    {
        self.state = WizardState::Selecting;
        self.active = None;
        self.session = None;
    }

    /// Drive the machine by one event. Each state consumes exactly
    /// the events that mean something on its screen and ignores the
    /// rest; the one action beyond repainting is the dispatch request
    /// that a confirmed preview hands out.
    pub fn step(&mut self, e: WizardEvent) -> (a: WizardAction)
        requires
            old(self).wf(),
        ensures
            final(self).wf(),
            (match old(self).state {
                WizardState::Selecting => match e {
                    WizardEvent::Next => sel_next(*old(self), *final(self)),
                    WizardEvent::Previous => sel_prev(*old(self), *final(self)),
                    WizardEvent::Confirm => sel_confirm(*old(self), *final(self)),
                    _ => *final(self) == *old(self),
                },
                WizardState::Editing => match e {
                    WizardEvent::Next => ed_next_field(*old(self), *final(self)),
                    WizardEvent::Previous => ed_prev_field(*old(self), *final(self)),
                    WizardEvent::CharInput(c) => ed_append(*old(self), *final(self), c),
                    WizardEvent::Backspace => ed_backspace(*old(self), *final(self)),
                    WizardEvent::Confirm => *final(self) == (Wizard {
                        state: WizardState::Previewing,
                        ..*old(self)
                    }),
                    WizardEvent::Cancel => *final(self) == (Wizard {
                        state: WizardState::Selecting,
                        ..*old(self)
                    }),
                    WizardEvent::DispatchDone(_) => *final(self) == *old(self),
                },
                WizardState::Previewing => match e {
                    WizardEvent::Confirm => *final(self) == (Wizard {
                        state: WizardState::Dispatching,
                        ..*old(self)
                    }),
                    WizardEvent::Cancel => *final(self) == (Wizard {
                        state: WizardState::Editing,
                        ..*old(self)
                    }),
                    _ => *final(self) == *old(self),
                },
                WizardState::Dispatching => match e {
                    WizardEvent::DispatchDone(o) => *final(self) == (Wizard {
                        state: WizardState::Completed(o),
                        ..*old(self)
                    }),
                    WizardEvent::Cancel => *final(self) == (Wizard {
                        state: WizardState::Previewing,
                        ..*old(self)
                    }),
                    _ => *final(self) == *old(self),
                },
                WizardState::Completed(_) => match e {
                    WizardEvent::Confirm | WizardEvent::Cancel => *final(self) == (Wizard {
                        state: WizardState::Selecting,
                        active: None,
                        session: None,
                        ..*old(self)
                    }),
                    _ => *final(self) == *old(self),
                },
            }),
            (match (old(self).state, e) {
                (WizardState::Previewing, WizardEvent::Confirm) => ({
                    &&& a matches WizardAction::StartDispatch(m)
                    &&& is_payload_for(m, old(self).active_template(), old(self).session->0)
                }),
                _ => a is Continue,
            }),
    {
        match self.state {
            WizardState::Selecting => {
                match e {
                    WizardEvent::Next => self.next_template(),
                    WizardEvent::Previous => self.previous_template(),
                    WizardEvent::Confirm => self.select_template(),
                    _ => (),
                }
                WizardAction::Continue
            },
            WizardState::Editing => {
                match e {
                    WizardEvent::Next => self.next_field(),
                    WizardEvent::Previous => self.previous_field(),
                    WizardEvent::CharInput(c) => self.append_char(c),
                    WizardEvent::Backspace => self.backspace(),
                    WizardEvent::Confirm => self.confirm_edit(),
                    WizardEvent::Cancel => self.cancel_edit(),
                    WizardEvent::DispatchDone(_) => (),
                }
                WizardAction::Continue
            },
            WizardState::Previewing => {
                match e {
                    WizardEvent::Confirm => {
                        let m = self.begin_dispatch();
                        WizardAction::StartDispatch(m)
                    },
                    WizardEvent::Cancel => {
                        self.cancel_preview();
                        WizardAction::Continue
                    },
                    _ => WizardAction::Continue,
                }
            },
            WizardState::Dispatching => {
                match e {
                    WizardEvent::DispatchDone(o) => self.finish_dispatch(o),
                    WizardEvent::Cancel => self.cancel_dispatch(),
                    _ => (),
                }
                WizardAction::Continue
            },
            WizardState::Completed(_) => {
                match e {
                    WizardEvent::Confirm | WizardEvent::Cancel => self.acknowledge(),
                    _ => (),
                }
                WizardAction::Continue
            },
        }
    }
}

/// Selection cursor moved one down: wraps from the last template to
/// the first, and stands still only on an empty store.
pub open spec fn sel_next(a: Wizard, b: Wizard) -> bool {
    if a.store.len_spec() == 0 {
        b == a
    } else {
        &&& a.selected matches Some(i)
        &&& b == (Wizard {
            selected: Some(
                (if i + 1 < a.store.len_spec() {
                    i + 1
                } else {
                    0
                }) as usize,
            ),
            ..a
        })
    }
}

/// Selection cursor moved one up: wraps from the first template to
/// the last, and stands still only on an empty store.
pub open spec fn sel_prev(a: Wizard, b: Wizard) -> bool {
    if a.store.len_spec() == 0 {
        b == a
    } else {
        &&& a.selected matches Some(i)
        &&& b == (Wizard {
            selected: Some(
                (if i == 0 {
                    a.store.len_spec() - 1
                } else {
                    i - 1
                }) as usize,
            ),
            ..a
        })
    }
}

/// Selection confirmed: editing begins on the template under the
/// cursor with a session whose every value is the field's declared
/// default or empty — stale values of any prior session are gone.
pub open spec fn sel_confirm(a: Wizard, b: Wizard) -> bool {
    match a.selected {
        None => b == a,
        Some(i) => {
            &&& b == (Wizard {
                active: Some(i),
                session: b.session,
                state: WizardState::Editing,
                ..a
            })
            &&& b.session matches Some(sess)
            &&& sess.cursor == 0
            &&& sess.fits(a.store.templates@[i as int])
            &&& (forall|j: int| 0 <= j < a.store.templates@[i as int].fields@.len()
                ==> sess.texts()[j] == (#[trigger] a.store.templates@[i as int].fields@[j]).1
                    .initial_text())
        },
    }
}

/// Field cursor moved one down, clamped at the last field; values
/// untouched.
pub open spec fn ed_next_field(a: Wizard, b: Wizard) -> bool {
    &&& b == (Wizard { session: b.session, ..a })
    &&& a.session matches Some(s1)
    &&& b.session matches Some(s2)
    &&& s2.values == s1.values
    &&& s2.cursor == (if s1.cursor + 1 < a.active_template().field_count() {
        s1.cursor + 1
    } else {
        s1.cursor as int
    })
}

/// Field cursor moved one up, clamped at the first field; values
/// untouched.
pub open spec fn ed_prev_field(a: Wizard, b: Wizard) -> bool {
    &&& b == (Wizard { session: b.session, ..a })
    &&& a.session matches Some(s1)
    &&& b.session matches Some(s2)
    &&& s2.values == s1.values
    &&& s2.cursor == (if s1.cursor > 0 {
        s1.cursor - 1
    } else {
        0
    })
}

/// One character appended to the value under the field cursor; other
/// values, cursor, and everything else untouched. A template without
/// fields has nothing to edit.
pub open spec fn ed_append(a: Wizard, b: Wizard, c: char) -> bool {
    if a.active_template().field_count() == 0 {
        b == a
    } else {
        &&& b == (Wizard { session: b.session, ..a })
        &&& a.session matches Some(s1)
        &&& b.session matches Some(s2)
        &&& s2.cursor == s1.cursor
        &&& s2.texts() == s1.texts().update(s1.cursor as int, s1.texts()[s1.cursor as int].push(c))
    }
}

/// Exactly one trailing character removed from the value under the
/// field cursor — a no-op on an empty value; everything else
/// untouched.
pub open spec fn ed_backspace(a: Wizard, b: Wizard) -> bool {
    if a.active_template().field_count() == 0 {
        b == a
    } else {
        &&& b == (Wizard { session: b.session, ..a })
        &&& a.session matches Some(s1)
        &&& b.session matches Some(s2)
        &&& s2.cursor == s1.cursor
        &&& (if s1.texts()[s1.cursor as int].len() == 0 {
            s2.texts() == s1.texts()
        } else {
            s2.texts() == s1.texts().update(
                s1.cursor as int,
                s1.texts()[s1.cursor as int].drop_last(),
            )
        })
    }
}

} // verus!
