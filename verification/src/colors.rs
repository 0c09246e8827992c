//! The color profile: three named color roles used to decorate output.
//!
//! A role holds a color name understood by the rendering collaborator.
//! The library decides which color name decorates which piece of text;
//! turning that into terminal escapes is rendering and happens outside.

use vstd::prelude::*;

verus! {

broadcast use vstd::string::group_string_axioms;

/// The three slot names are pairwise distinct.
pub proof fn lemma_slot_names_distinct()
    ensures
        "primary"@ != "secondary"@,
        "primary"@ != "failure"@,
        "secondary"@ != "failure"@,
{
    reveal_strlit("primary");
    reveal_strlit("secondary");
    reveal_strlit("failure");
    assert("primary"@.len() == 7);
    assert("secondary"@.len() == 9);
    assert("primary"@[0] == 'p');
    assert("failure"@[0] == 'f');
}

/// A piece of output text, decorated with a color name or plain.
pub struct Span {
    pub color: Option<String>,
    pub text: String,
}

impl Span {
    /// The span as plain values: its color name, if any, and its text.
    pub open spec fn model(self) -> (Option<Seq<char>>, Seq<char>) {
        (
            match self.color {
                Some(c) => Some(c@),
                None => None,
            },
            self.text@,
        )
    }
}

/// The models of a sequence of spans.
pub open spec fn spans_model(v: Seq<Span>) -> Seq<(Option<Seq<char>>, Seq<char>)> {
    v.map_values(|s: Span| s.model())
}

/// The model of a span sequence is as long as the sequence and carries
/// each span's model at its index.
pub proof fn lemma_spans_model_index(v: Seq<Span>, j: int)
    requires
        0 <= j < v.len(),
    ensures
        spans_model(v).len() == v.len(),
        spans_model(v)[j] == v[j].model(),
{
}

/// Appending a span to a sequence appends its model to the sequence's
/// model.
pub proof fn lemma_spans_model_push(v: Seq<Span>, s: Span)
    ensures
        spans_model(v.push(s)) =~~= spans_model(v).push(s.model()),
{
    assert forall|j: int| 0 <= j < v.len() + 1 implies spans_model(v.push(s))[j] == spans_model(
        v,
    ).push(s.model())[j] by {
        lemma_spans_model_index(v.push(s), j);
        if j < v.len() {
            lemma_spans_model_index(v, j);
            assert(v.push(s)[j] == v[j]);
        } else {
            assert(v.push(s)[j] == s);
        }
    }
    assert(spans_model(v.push(s)).len() == v.len() + 1);
}

/// A plain, uncolored span.
pub fn plain(text: &str) -> (s: Span)
    ensures
        s.model() == (None::<Seq<char>>, text@),
{
    Span { color: None, text: text.to_owned() }
}

/// The three color roles.
pub struct Colors {
    pub primary: String,
    pub secondary: String,
    pub failure: String,
}

impl Colors {
    /// The built-in default roles.
    pub open spec fn is_default(self) -> bool {
        self.primary@ == "cyan"@ && self.secondary@ == "yellow"@ && self.failure@ == "red"@
    }

    /// A profile rebuilt from persisted state, or the default profile when
    /// no usable persisted state exists.
    pub fn build(loaded: Option<Colors>) -> (c: Colors)
        ensures
            match loaded {
                Some(l) => c == l,
                None => c.is_default(),
            },
    {
        match loaded {
            Some(l) => l,
            None => Colors {
                primary: "cyan".to_owned(),
                secondary: "yellow".to_owned(),
                failure: "red".to_owned(),
            },
        }
    }

    /// Overwrites the named slot and reports whether a slot was updated;
    /// an unrecognized slot name leaves the profile unchanged.
    pub fn set(&mut self, key: &str, val: String) -> (updated: bool)
        ensures
            key@ == "primary"@ ==> updated && final(self).primary@ == val@
                && final(self).secondary == old(self).secondary
                && final(self).failure == old(self).failure,
            key@ == "secondary"@ ==> updated && final(self).secondary@ == val@
                && final(self).primary == old(self).primary
                && final(self).failure == old(self).failure,
            key@ == "failure"@ ==> updated && final(self).failure@ == val@
                && final(self).primary == old(self).primary
                && final(self).secondary == old(self).secondary,
            !(key@ == "primary"@ || key@ == "secondary"@ || key@ == "failure"@) ==> !updated
                && *final(self) == *old(self),
    {
        proof {
            lemma_slot_names_distinct();
        }
        if crate::text::str_eq(key, "primary") {
            self.primary = val;
            true
        } else if crate::text::str_eq(key, "secondary") {
            self.secondary = val;
            true
        } else if crate::text::str_eq(key, "failure") {
            self.failure = val;
            true
        } else {
            false
        }
    }

    /// Text decorated with the primary role's color.
    pub fn primary(&self, text: String) -> (s: Span)
        ensures
            s.model() == (Some(self.primary@), text@),
    {
        Span { color: Some(self.primary.clone()), text }
    }

    /// Text decorated with the secondary role's color.
    pub fn secondary(&self, text: String) -> (s: Span)
        ensures
            s.model() == (Some(self.secondary@), text@),
    {
        Span { color: Some(self.secondary.clone()), text }
    }

    /// Text decorated with the failure role's color.
    pub fn failure(&self, text: String) -> (s: Span)
        ensures
            s.model() == (Some(self.failure@), text@),
    {
        Span { color: Some(self.failure.clone()), text }
    }
}

} // verus!
