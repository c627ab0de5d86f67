//! Regular expressions.

use vstd::prelude::*;

verus! {

/// Tells whether a text is a regular expression.
pub uninterp spec fn regex_valid(source: Seq<char>) -> bool;

/// Tells whether a regular expression matches somewhere in a text.
pub uninterp spec fn regex_matches(source: Seq<char>, text: Seq<char>) -> bool;

/// `regex::Regex::new`: whether it accepts the text.
#[verifier::external_body]
fn regex_compiles(source: &str) -> (r: bool)
    ensures
        r == regex_valid(source@),
{
    regex::Regex::new(source).is_ok()
}

/// `is_match` of the `regex::Regex` that the text denotes.
#[verifier::external_body]
fn regex_is_match(source: &str, text: &str) -> (r: bool)
    requires
        regex_valid(source@),
    ensures
        r == regex_matches(source@, text@),
{
    regex::Regex::new(source).unwrap().is_match(text)
}

/// A regular expression.
#[derive(Debug)]
pub struct Pattern {
    source: String,
}

impl View for Pattern {
    type V = Seq<char>;

    closed spec fn view(&self) -> Seq<char> {
        self.source@
    }
}

impl Clone for Pattern {
    fn clone(&self) -> (r: Self)
        ensures
            r@ == self@,
    {
        self.duplicate()
    }
}

impl Pattern {
    #[verifier::type_invariant]
    spec fn wf(&self) -> bool {
        regex_valid(self.source@)
    }

    /// Reads a regular expression.
    pub fn parse(source: &str) -> (r: Option<Pattern>)
        ensures
            r is Some <==> regex_valid(source@),
            r matches Some(pattern) ==> pattern@ == source@,
    {
        if regex_compiles(source) {
            Some(Pattern { source: source.to_owned() })
        } else {
            None
        }
    }

    /// Tells whether the expression matches somewhere in a text.
    pub fn is_match(&self, text: &str) -> (r: bool)
        ensures
            r == regex_matches(self@, text@),
    {
        proof {
            use_type_invariant(self);
        }
        regex_is_match(self.source.as_str(), text)
    }

    /// Returns the text of the expression.
    pub fn as_str(&self) -> (r: &str)
        ensures
            r@ == self@,
    {
        self.source.as_str()
    }

    /// Returns the same expression.
    pub fn duplicate(&self) -> (r: Pattern)
        ensures
            r@ == self@,
    {
        proof {
            use_type_invariant(self);
        }
        Pattern { source: self.source.clone() }
    }
}

} // verus!
