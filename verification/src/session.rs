//! Per-run form state: the value of every field of the active
//! template, and the field cursor.
//!
//! A session is created when a template is confirmed — every value is
//! then (re)initialized from the field's declared default or the empty
//! string — and discarded when the operator returns to selection after
//! acknowledging a result. The cursor moves by one and *clamps* at
//! both ends: the form is a line, not a cycle.

use vstd::prelude::*;

use crate::template::Template;

verus! {

/// Relies on std's `String::push`: appends the given character to the
/// end of the string.
#[verifier::external_body]
fn push_char(s: &mut String, c: char)
    ensures
        final(s)@ == old(s)@.push(c),
{
    s.push(c);
}

/// Relies on std's `String::pop`: removes and returns the last
/// character, or returns `None` and leaves the string untouched when
/// it is empty.
#[verifier::external_body]
fn pop_char(s: &mut String) -> (r: Option<char>)
    ensures
        old(s)@.len() == 0 ==> r is None && final(s)@ == old(s)@,
        old(s)@.len() > 0 ==> r == Some(old(s)@.last()) && final(s)@ == old(s)@.drop_last(),
{
    s.pop()
}

/// Mutable per-run state for one template's form.
pub struct FormSession {
    /// One entry per template field, in field order.
    pub values: Vec<String>,
    /// Index of the field being edited.
    pub cursor: usize,
}

impl FormSession {
    /// The session fits the template: one value per field, cursor in
    /// bounds (pinned to zero when the template has no fields).
    pub open spec fn fits(self, t: Template) -> bool {
        &&& self.values@.len() == t.field_count()
        &&& if t.field_count() == 0 {
            self.cursor == 0
        } else {
            self.cursor < t.field_count()
        }
    }

    /// View of the entered values as character sequences.
    pub open spec fn texts(self) -> Seq<Seq<char>> {
        self.values@.map_values(|v: String| v@)
    }

    /// Fresh session for `t`: cursor at the first field, every value
    /// taken from the field's declared default or empty — whatever a
    /// prior session held is gone with it.
    pub fn new(t: &Template) -> (s: FormSession)
        ensures
            s.fits(*t),
            s.cursor == 0,
            forall|i: int| 0 <= i < t.field_count() ==> s.texts()[i]
                == #[trigger] t.fields@[i].1.initial_text(),
    {
        let n = t.fields.len();
        let mut values: Vec<String> = Vec::new();
        let mut i: usize = 0;
        while i < n
            invariant
                n == t.field_count(),
                i <= n,
                values@.len() == i,
                forall|j: int| 0 <= j < i ==> values@.map_values(|v: String| v@)[j]
                    == #[trigger] t.fields@[j].1.initial_text(),
            decreases n - i,
        {
            let v = match &t.fields[i].1.default_value {
                Some(d) => d.clone(),
                None => String::new(),
            };
            values.push(v);
            i = i + 1;
        }
        FormSession { values, cursor: 0 }
    }

    /// Move the cursor one field down, clamped at the last field.
    pub fn next_field(&mut self, t: &Template)
        requires
            old(self).fits(*t),
        ensures
            final(self).fits(*t),
            final(self).values == old(self).values,
            final(self).cursor == if old(self).cursor + 1 < t.field_count() {
                old(self).cursor + 1
            } else {
                old(self).cursor as int
            },
    {
        if t.fields.len() > 0 && self.cursor < t.fields.len() - 1 {
            self.cursor = self.cursor + 1;
        }
    }

    /// Move the cursor one field up, clamped at the first field.
    pub fn previous_field(&mut self)
        ensures
            final(self).values == old(self).values,
            final(self).cursor == if old(self).cursor > 0 {
                old(self).cursor - 1
            } else {
                0
            },
    {
        if self.cursor > 0 {
            self.cursor = self.cursor - 1;
        }
    }

    /// Append one character to the value under the cursor; the other
    /// values and the cursor stay as they were. Editing appends a
    /// whole character, never a fraction of one's encoding.
    pub fn append_char(&mut self, t: &Template, c: char)
        requires
            old(self).fits(*t),
            t.field_count() > 0,
        ensures
            final(self).fits(*t),
            final(self).cursor == old(self).cursor,
            final(self).texts() == old(self).texts().update(
                old(self).cursor as int,
                old(self).texts()[old(self).cursor as int].push(c),
            ),
    {
        let i = self.cursor;
        push_char(&mut self.values[i], c);
        proof {
            assert(self.texts() =~= old(self).texts().update(
                old(self).cursor as int,
                old(self).texts()[old(self).cursor as int].push(c),
            ));
        }
    }

    /// Remove the last character of the value under the cursor, if it
    /// has one: exactly one character goes, and on an empty value the
    /// edit is a no-op.
    pub fn backspace(&mut self, t: &Template)
        requires
            old(self).fits(*t),
            t.field_count() > 0,
        ensures
            final(self).fits(*t),
            final(self).cursor == old(self).cursor,
            old(self).texts()[old(self).cursor as int].len() == 0 ==> final(self).texts()
                == old(self).texts(),
            old(self).texts()[old(self).cursor as int].len() > 0 ==> final(self).texts()
                == old(self).texts().update(
                old(self).cursor as int,
                old(self).texts()[old(self).cursor as int].drop_last(),
            ),
    {
        let i = self.cursor;
        let _ = pop_char(&mut self.values[i]);
        proof {
            if old(self).texts()[old(self).cursor as int].len() == 0 {
                assert(self.texts() =~= old(self).texts());
            } else {
                assert(self.texts() =~= old(self).texts().update(
                    old(self).cursor as int,
                    old(self).texts()[old(self).cursor as int].drop_last(),
                ));
            }
        }
    }

    /// The value under the cursor, or the empty string when the
    /// template has no fields.
    pub fn current_value(&self, t: &Template) -> (v: String)
        requires
            self.fits(*t),
        ensures
            t.field_count() > 0 ==> v@ == self.texts()[self.cursor as int],
            t.field_count() == 0 ==> v@ == Seq::<char>::empty(),
    {
        if self.values.len() > 0 {
            self.values[self.cursor].clone()
        } else {
            String::new()
        }
    }
}

} // verus!
