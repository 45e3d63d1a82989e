//! Templates and the store that holds them.
//!
//! A template is a declarative form definition: metadata, an *ordered*
//! sequence of keyed fields, and the settings used when the assembled
//! message is sent. Field order is a first-class invariant: enumeration
//! order always equals declaration order, so the fields live in a
//! `Vec` of `(key, definition)` pairs, never in an unordered map.
//!
//! The store is built once from the outcome of reading a template
//! directory: entries that parsed are validated and kept in order,
//! entries that failed are skipped with a recorded diagnostic.

use vstd::prelude::*;

verus! {

/// Declarative definition of one form field.
pub struct FieldDefinition {
    /// The field's kind, as declared (free text, option set, ...).
    pub kind: String,
    /// Label shown beside the field and used for the emitted entry.
    pub label: String,
    pub placeholder: Option<String>,
    pub required: Option<bool>,
    pub options: Option<Vec<String>>,
    /// Text the field's value starts from when a session is created.
    pub default_value: Option<String>,
}

impl FieldDefinition {
    /// The text a field's value is initialized to: the declared
    /// default, or the empty string.
    pub open spec fn initial_text(self) -> Seq<char> {
        match self.default_value {
            Some(d) => d@,
            None => Seq::empty(),
        }
    }
}

/// Settings applied to the outbound message as a whole.
pub struct WebhookSettings {
    pub username: Option<String>,
    pub avatar_url: Option<String>,
    pub color: Option<u32>,
}

/// A declarative form: metadata, ordered keyed fields, and settings.
pub struct Template {
    /// Identifier derived from the definition file's base name.
    pub id: String,
    pub name: String,
    pub description: String,
    /// The fields in declaration order.
    pub fields: Vec<(String, FieldDefinition)>,
    pub webhook: WebhookSettings,
}

impl Template {
    pub open spec fn field_count(self) -> nat {
        self.fields@.len()
    }

    pub open spec fn key_at(self, i: int) -> Seq<char> {
        self.fields@[i].0@
    }

    /// Keys are pairwise distinct, so a key names at most one field.
    pub open spec fn wf(self) -> bool {
        forall|i: int, j: int|
            0 <= i < j < self.fields@.len() ==> self.key_at(i) != self.key_at(j)
    }

    /// Number of declared fields.
    pub fn num_fields(&self) -> (n: usize)
        ensures
            n == self.field_count(),
    {
        self.fields.len()
    }

    /// Position of the field named `key`, if any: the first (and under
    /// `wf` the only) index whose key equals it.
    pub fn field_index(&self, key: &String) -> (r: Option<usize>)
        ensures
            match r {
                Some(i) => {
                    &&& i < self.fields@.len()
                    &&& self.key_at(i as int) == key@
                    &&& forall|j: int| 0 <= j < i ==> self.key_at(j) != key@
                },
                None => forall|j: int| 0 <= j < self.fields@.len() ==> self.key_at(j) != key@,
            },
    {
        let n = self.fields.len();
        let mut i: usize = 0;
        while i < n
            invariant
                n == self.fields@.len(),
                i <= n,
                forall|j: int| 0 <= j < i ==> self.key_at(j) != key@,
            decreases n - i,
        {
            if self.fields[i].0 == *key {
                return Some(i);
            }
            i = i + 1;
        }
        None
    }

    /// Whether the declared keys are pairwise distinct.
    pub fn keys_distinct(&self) -> (b: bool)
        ensures
            b == self.wf(),
    {
        let n = self.fields.len();
        let mut i: usize = 1;
        while i < n
            invariant
                n == self.fields@.len(),
                1 <= i || n <= 1,
                forall|p: int, q: int| 0 <= p < q < i ==> self.key_at(p) != self.key_at(q),
            decreases n - i,
        {
            let mut j: usize = 0;
            while j < i
                invariant
                    n == self.fields@.len(),
                    j <= i < n,
                    forall|p: int| 0 <= p < j ==> self.key_at(p) != self.key_at(i as int),
                decreases i - j,
            {
                if self.fields[j].0 == self.fields[i].0 {
                    proof {
                        assert(self.key_at(j as int) == self.key_at(i as int));
                        assert(!self.wf());
                    }
                    return false;
                }
                j = j + 1;
            }
            i = i + 1;
        }
        true
    }
}

/// What reading one definition file produced: a parsed template, or
/// the file's identifier when it could not be parsed.
pub enum LoadEntry {
    Parsed(Template),
    Malformed(String),
}

/// The templates a sequence of load entries yields, in entry order:
/// every parsed, well-formed template, unchanged.
pub open spec fn kept_templates(entries: Seq<LoadEntry>) -> Seq<Template>
    decreases entries.len(),
{
    if entries.len() == 0 {
        Seq::empty()
    } else {
        let rest = kept_templates(entries.drop_last());
        match entries.last() {
            LoadEntry::Parsed(t) => if t.wf() {
                rest.push(t)
            } else {
                rest
            },
            LoadEntry::Malformed(_) => rest,
        }
    }
}

/// The diagnostics a sequence of load entries yields, in entry order:
/// the identifier of every skipped entry.
pub open spec fn skipped_ids(entries: Seq<LoadEntry>) -> Seq<Seq<char>>
    decreases entries.len(),
{
    if entries.len() == 0 {
        Seq::empty()
    } else {
        let rest = skipped_ids(entries.drop_last());
        match entries.last() {
            LoadEntry::Parsed(t) => if t.wf() {
                rest
            } else {
                rest.push(t.id@)
            },
            LoadEntry::Malformed(id) => rest.push(id@),
        }
    }
}

/// Immutable collection of the templates that loaded, with one
/// diagnostic per skipped definition file.
pub struct TemplateStore {
    pub templates: Vec<Template>,
    pub diagnostics: Vec<String>,
}

impl TemplateStore {
    /// Every stored template is well-formed.
    pub open spec fn wf(self) -> bool {
        forall|i: int| 0 <= i < self.templates@.len() ==> #[trigger] self.templates@[i].wf()
    }

    pub open spec fn len_spec(self) -> nat {
        self.templates@.len()
    }

    /// Build the store from what reading the template directory
    /// produced. Parsed, well-formed templates are kept unchanged and
    /// in order; everything else is skipped with a diagnostic, never
    /// an error: a store may well be empty.
    pub fn build(entries: Vec<LoadEntry>) -> (s: TemplateStore)
        ensures
            s.templates@ == kept_templates(entries@),
            s.diagnostics@.map_values(|d: String| d@) == skipped_ids(entries@),
            s.wf(),
    {
        let ghost all = entries@;
        let mut entries = entries;
        let mut templates: Vec<Template> = Vec::new();
        let mut diagnostics: Vec<String> = Vec::new();
        let ghost mut done: int = 0;
        while entries.len() > 0
            invariant
                0 <= done <= all.len(),
                entries@ == all.subrange(done, all.len() as int),
                templates@ == kept_templates(all.take(done)),
                diagnostics@.map_values(|d: String| d@) == skipped_ids(all.take(done)),
                forall|i: int| 0 <= i < templates@.len() ==> #[trigger] templates@[i].wf(),
            decreases entries@.len(),
        {
            let e = entries.remove(0);
            proof {
                assert(e == all[done]);
                assert(all.take(done + 1).drop_last() =~= all.take(done));
                assert(all.take(done + 1).last() == all[done]);
            }
            match e {
                LoadEntry::Parsed(t) => {
                    if t.keys_distinct() {
                        templates.push(t);
                    } else {
                        diagnostics.push(t.id);
                    }
                },
                LoadEntry::Malformed(id) => {
                    diagnostics.push(id);
                },
            }
            proof {
                done = done + 1;
                assert(entries@ =~= all.subrange(done, all.len() as int));
                assert(diagnostics@.map_values(|d: String| d@) =~= skipped_ids(all.take(done)));
            }
        }
        proof {
            assert(all.take(done) =~= all);
        }
        TemplateStore { templates, diagnostics }
    }

    pub fn len(&self) -> (n: usize)
        ensures
            n == self.len_spec(),
    {
        self.templates.len()
    }

    pub fn is_empty(&self) -> (b: bool)
        ensures
            b == (self.len_spec() == 0),
    {
        self.templates.len() == 0
    }

    pub fn get(&self, i: usize) -> (t: &Template)
        requires
            i < self.len_spec(),
        ensures
            *t == self.templates@[i as int],
    {
        &self.templates[i]
    }
}

/// Law: loading is deterministic. Equal directory contents build equal
/// stores: the kept templates and the recorded diagnostics are a
/// function of the entries alone.
pub proof fn lemma_build_deterministic(e1: Seq<LoadEntry>, e2: Seq<LoadEntry>)
    requires
        e1 == e2,
    ensures
        kept_templates(e1) == kept_templates(e2),
        skipped_ids(e1) == skipped_ids(e2),
{
}

/// Law: loading keeps declaration order. Every template the store
/// holds stands, unchanged, in some entry of the input — in particular
/// its field sequence, and so its enumeration order, is exactly the
/// declared one.
pub proof fn lemma_build_preserves_templates(entries: Seq<LoadEntry>)
    ensures
        forall|k: int| 0 <= k < kept_templates(entries).len() ==> exists|i: int|
            0 <= i < entries.len() && entries[i] == LoadEntry::Parsed(
                #[trigger] kept_templates(entries)[k],
            ),
    decreases entries.len(),
{
    if entries.len() == 0 {
    } else {
        lemma_build_preserves_templates(entries.drop_last());
        let prefix = entries.drop_last();
        let kept = kept_templates(entries);
        assert forall|k: int| 0 <= k < kept.len() implies exists|i: int|
            0 <= i < entries.len() && entries[i] == LoadEntry::Parsed(#[trigger] kept[k]) by {
            if k < kept_templates(prefix).len() {
                let i = choose|i: int|
                    0 <= i < prefix.len() && prefix[i] == LoadEntry::Parsed(
                        kept_templates(prefix)[k],
                    );
                assert(entries[i] == LoadEntry::Parsed(kept[k]));
            } else {
                assert(entries[entries.len() - 1] == LoadEntry::Parsed(kept[k]));
            }
        }
    }
}

} // verus!
