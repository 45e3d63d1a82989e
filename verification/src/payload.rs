//! Pure construction of the structured outbound message.
//!
//! Given a template and a form session, the builder assembles one
//! embed: title and description from the template's metadata, the
//! configured accent color, and exactly the (label, value) pairs of
//! the fields whose entered value is non-empty, in template field
//! order. A field with an empty value is omitted entirely — that is a
//! content-filtering invariant of the message format, not an
//! accident.

use vstd::prelude::*;
use vstd::seq_lib::group_seq_properties;

use crate::session::FormSession;
use crate::template::Template;

verus! {

/// One (label, value) entry of an embed.
pub struct MessageField {
    pub name: String,
    pub value: String,
    pub inline: bool,
}

impl MessageField {
    /// The entry as a (label text, value text) pair.
    pub open spec fn pair(self) -> (Seq<char>, Seq<char>) {
        (self.name@, self.value@)
    }
}

/// One embed of the outbound message.
pub struct Embed {
    pub title: Option<String>,
    pub description: Option<String>,
    pub color: Option<u32>,
    pub fields: Vec<MessageField>,
}

/// The structured message handed to the dispatcher.
pub struct WebhookMessage {
    pub username: Option<String>,
    pub avatar_url: Option<String>,
    pub embeds: Vec<Embed>,
}

/// Every field's (label, entered value) pair, in declaration order.
pub open spec fn labeled_values(t: Template, s: FormSession) -> Seq<(Seq<char>, Seq<char>)> {
    Seq::new(t.fields@.len(), |i: int| (t.fields@[i].1.label@, s.texts()[i]))
}

/// A pair whose value text is non-empty.
pub open spec fn has_value(p: (Seq<char>, Seq<char>)) -> bool {
    p.1.len() > 0
}

/// The field entries the message carries: the labeled values with the
/// empty ones filtered out, order untouched.
pub open spec fn payload_pairs(t: Template, s: FormSession) -> Seq<(Seq<char>, Seq<char>)> {
    labeled_values(t, s).filter(|p: (Seq<char>, Seq<char>)| has_value(p))
}

/// What the assembled message for `t` and `s` looks like: one embed
/// titled with the template's name, described by its description,
/// colored as configured, whose field list holds exactly the
/// non-empty values under their labels in template field order, and
/// the configured identity settings carried over.
pub open spec fn is_payload_for(m: WebhookMessage, t: Template, s: FormSession) -> bool {
    &&& m.embeds@.len() == 1
    &&& (m.embeds@[0].title matches Some(ti) && ti@ == t.name@)
    &&& (m.embeds@[0].description matches Some(d) && d@ == t.description@)
    &&& m.embeds@[0].color == t.webhook.color
    &&& m.embeds@[0].fields@.map_values(|f: MessageField| f.pair()) == payload_pairs(t, s)
    &&& (forall|i: int| 0 <= i < m.embeds@[0].fields@.len()
        ==> !(#[trigger] m.embeds@[0].fields@[i]).inline)
    &&& (match t.webhook.username {
        Some(u) => m.username matches Some(mu) && mu@ == u@,
        None => m.username is None,
    })
    &&& (match t.webhook.avatar_url {
        Some(a) => m.avatar_url matches Some(ma) && ma@ == a@,
        None => m.avatar_url is None,
    })
}

/// Clone of an optional setting string.
fn clone_setting(v: &Option<String>) -> (r: Option<String>)
    ensures
        match *v {
            Some(ref x) => r matches Some(y) && y@ == x@,
            None => r is None,
        },
{
    match v {
        Some(x) => Some(x.clone()),
        None => None,
    }
}

/// Assemble the outbound message for `t` from the session's entered
/// values: one embed titled with the template's name, described by its
/// description, colored as configured, whose field list holds exactly
/// the non-empty values under their labels, in template field order.
pub fn build_payload(t: &Template, s: &FormSession) -> (m: WebhookMessage)
    requires
        s.fits(*t),
    ensures
        is_payload_for(m, *t, *s),
{
    broadcast use group_seq_properties;

    let n = t.fields.len();
    let mut fields: Vec<MessageField> = Vec::new();
    let mut i: usize = 0;
    while i < n
        invariant
            s.fits(*t),
            n == t.field_count(),
            i <= n,
            fields@.map_values(|f: MessageField| f.pair()) == labeled_values(*t, *s).take(
                i as int,
            ).filter(|p: (Seq<char>, Seq<char>)| has_value(p)),
            forall|j: int| 0 <= j < fields@.len() ==> !(#[trigger] fields@[j]).inline,
        decreases n - i,
    {
        let ghost prefix = labeled_values(*t, *s).take(i as int);
        let ghost longer = labeled_values(*t, *s).take(i + 1);
        proof {
            assert(longer.drop_last() =~= prefix);
            assert(longer.last() == labeled_values(*t, *s)[i as int]);
        }
        let value = s.values[i].clone();
        if !value.as_str().is_empty() {
            let entry = MessageField { name: t.fields[i].1.label.clone(), value, inline: false };
            fields.push(entry);
        }
        proof {
            reveal(Seq::filter);
            assert(s.texts()[i as int] == s.values@[i as int]@);
            assert(fields@.map_values(|f: MessageField| f.pair()) =~= longer.filter(
                |p: (Seq<char>, Seq<char>)| has_value(p),
            ));
        }
        i = i + 1;
    }
    proof {
        assert(labeled_values(*t, *s).take(n as int) =~= labeled_values(*t, *s));
    }
    let embed = Embed {
        title: Some(t.name.clone()),
        description: Some(t.description.clone()),
        color: t.webhook.color,
        fields,
    };
    let mut embeds: Vec<Embed> = Vec::new();
    embeds.push(embed);
    WebhookMessage {
        username: clone_setting(&t.webhook.username),
        avatar_url: clone_setting(&t.webhook.avatar_url),
        embeds,
    }
}

/// Law: the message never carries an empty value, and what it carries
/// is the non-empty labeled values in template field order — the
/// filtered subsequence of `labeled_values`, whose every entry also
/// stands at some position of the original, label and value alike.
pub proof fn lemma_payload_pairs_nonempty(t: Template, s: FormSession)
    ensures
        forall|k: int| 0 <= k < payload_pairs(t, s).len()
            ==> (#[trigger] payload_pairs(t, s)[k]).1.len() > 0,
        forall|k: int| 0 <= k < payload_pairs(t, s).len() ==> labeled_values(t, s).contains(
            #[trigger] payload_pairs(t, s)[k],
        ),
{
    let pred = |p: (Seq<char>, Seq<char>)| has_value(p);
    let all = labeled_values(t, s);
    assert forall|k: int| 0 <= k < payload_pairs(t, s).len() implies (#[trigger] payload_pairs(
        t,
        s,
    )[k]).1.len() > 0 by {
        all.lemma_filter_pred(pred, k);
    }
    assert forall|k: int| 0 <= k < payload_pairs(t, s).len() implies labeled_values(t, s).contains(
        #[trigger] payload_pairs(t, s)[k],
    ) by {
        lemma_filter_entry_from_source(all, pred, k);
        let i = choose|i: int| 0 <= i < all.len() && all[i] == all.filter(pred)[k];
        assert(labeled_values(t, s)[i] == payload_pairs(t, s)[k]);
    }
}

/// Every entry of a filtered sequence stands somewhere in the source.
proof fn lemma_filter_entry_from_source<A>(s: Seq<A>, pred: spec_fn(A) -> bool, k: int)
    requires
        0 <= k < s.filter(pred).len(),
    ensures
        exists|i: int| 0 <= i < s.len() && s[i] == s.filter(pred)[k],
    decreases s.len(),
{
    reveal(Seq::filter);
    if s.len() > 0 {
        let shorter = s.drop_last();
        if pred(s.last()) && k == s.filter(pred).len() - 1 {
            assert(s[s.len() - 1] == s.filter(pred)[k]);
        } else {
            lemma_filter_entry_from_source(shorter, pred, k);
            let i = choose|i: int| 0 <= i < shorter.len() && shorter[i] == shorter.filter(pred)[k];
            assert(s[i] == s.filter(pred)[k]);
        }
    }
}

} // verus!
