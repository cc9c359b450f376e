//! The name of a subscriber.

use crate::domain::text::{char_is_whitespace, is_whitespace};
use crate::domain::validation_error::ValidationError;
use unicode_segmentation::UnicodeSegmentation;
use vstd::prelude::*;

verus! {

/// The largest number of grapheme clusters a name may have.
pub const MAX_NAME_GRAPHEMES: usize = 256;

/// The characters that may not occur in a name.
pub open spec fn is_forbidden(c: char) -> bool {
    ||| c == '/'
    ||| c == '('
    ||| c == ')'
    ||| c == '"'
    ||| c == '<'
    ||| c == '>'
    ||| c == '\\'
    ||| c == '{'
    ||| c == '}'
}

/// A text is blank when it is empty or every character of it is white space.
pub open spec fn is_blank(s: Seq<char>) -> bool {
    forall|i: int| 0 <= i < s.len() ==> is_whitespace(#[trigger] s[i])
}

/// A text that holds at least one forbidden character.
pub open spec fn has_forbidden(s: Seq<char>) -> bool {
    exists|i: int| 0 <= i < s.len() && is_forbidden(#[trigger] s[i])
}

/// The number of extended grapheme clusters of a text, as Unicode's rules
/// for text segmentation define them.
pub uninterp spec fn grapheme_count(s: Seq<char>) -> nat;

/// The verdict on a raw name of `graphemes` grapheme clusters: the first
/// rule it breaks, in the order blank, too long, forbidden character.
pub open spec fn name_verdict(s: Seq<char>, graphemes: nat) -> Result<(), ValidationError> {
    if is_blank(s) {
        Err(ValidationError::Empty)
    } else if graphemes > MAX_NAME_GRAPHEMES {
        Err(ValidationError::TooLong)
    } else if has_forbidden(s) {
        Err(ValidationError::ForbiddenCharacter)
    } else {
        Ok(())
    }
}

/// The texts that are names: not blank, between one and 256 grapheme
/// clusters long, free of forbidden characters.
pub open spec fn is_name(s: Seq<char>) -> bool {
    &&& !is_blank(s)
    &&& 1 <= grapheme_count(s) <= MAX_NAME_GRAPHEMES
    &&& !has_forbidden(s)
}

/// Counts the extended grapheme clusters of `s` with
/// `unicode_segmentation::UnicodeSegmentation::graphemes`. That the count
/// depends on the text alone, and that a text which is not empty has at
/// least one cluster, is taken from the source of `unicode_segmentation`
/// and not proved here.
#[verifier::external_body]
fn count_graphemes(s: &str) -> (n: usize)
    ensures
        n == grapheme_count(s@),
        s@.len() > 0 ==> n >= 1,
{
    s.graphemes(true).count()
}

/// Decides whether `c` may not occur in a name.
pub fn char_is_forbidden(c: char) -> (r: bool)
    ensures
        r == is_forbidden(c),
{
    c == '/' || c == '(' || c == ')' || c == '"' || c == '<' || c == '>' || c == '\\' || c == '{'
        || c == '}'
}

/// A text with one more character at its end is blank when the text is
/// blank and the character is white space.
pub proof fn lemma_blank_push(s: Seq<char>, c: char)
    ensures
        is_blank(s.push(c)) == (is_blank(s) && is_whitespace(c)),
{
    let t = s.push(c);
    if is_blank(t) {
        assert forall|i: int| 0 <= i < s.len() implies is_whitespace(#[trigger] s[i]) by {
            assert(t[i] == s[i]);
        }
        assert(t[s.len() as int] == c);
    }
}

/// A text with one more character at its end holds a forbidden character
/// when the text holds one or the character is forbidden.
pub proof fn lemma_forbidden_push(s: Seq<char>, c: char)
    ensures
        has_forbidden(s.push(c)) == (has_forbidden(s) || is_forbidden(c)),
{
    let t = s.push(c);
    if has_forbidden(s) {
        let i = choose|i: int| 0 <= i < s.len() && is_forbidden(#[trigger] s[i]);
        assert(t[i] == s[i]);
    }
    if is_forbidden(c) {
        assert(t[s.len() as int] == c);
    }
    if has_forbidden(t) {
        let i = choose|i: int| 0 <= i < t.len() && is_forbidden(#[trigger] t[i]);
        if i < s.len() {
            assert(t[i] == s[i]);
        }
    }
}

/// Decides whether `s` is blank.
pub fn text_is_blank(s: &str) -> (r: bool)
    ensures
        r == is_blank(s@),
{
    let mut blank = true;
    for c in it: s.chars()
        invariant
            it.seq() == s@,
            blank == is_blank(it.seq().take(it.index() as int)),
    {
        proof {
            let i = it.index() as int;
            assert(s@.take(i + 1) == s@.take(i).push(c));
            lemma_blank_push(s@.take(i), c);
        }
        if !char_is_whitespace(c) {
            blank = false;
        }
    }
    assert(s@.take(s@.len() as int) == s@);
    blank
}

/// Decides whether `s` holds a forbidden character.
pub fn text_has_forbidden(s: &str) -> (r: bool)
    ensures
        r == has_forbidden(s@),
{
    let mut found = false;
    for c in it: s.chars()
        invariant
            it.seq() == s@,
            found == has_forbidden(it.seq().take(it.index() as int)),
    {
        proof {
            let i = it.index() as int;
            assert(s@.take(i + 1) == s@.take(i).push(c));
            lemma_forbidden_push(s@.take(i), c);
        }
        if char_is_forbidden(c) {
            found = true;
        }
    }
    assert(s@.take(s@.len() as int) == s@);
    found
}

/// A subscriber's name: a text that passed [`SubscriberName::parse`], kept
/// exactly as it was submitted.
#[derive(Debug)]
pub struct SubscriberName {
    value: String,
}

impl View for SubscriberName {
    type V = Seq<char>;

    closed spec fn view(&self) -> Seq<char> {
        self.value@
    }
}

impl SubscriberName {
    /// Every name is a text that the rules accept.
    #[verifier::type_invariant]
    spec fn well_formed(&self) -> bool {
        is_name(self.value@)
    }

    /// Applies the rules for names to a text of which the number of
    /// grapheme clusters is known.
    pub fn validate(s: &str, graphemes: usize) -> (r: Result<(), ValidationError>)
        ensures
            r == name_verdict(s@, graphemes as nat),
    {
        if text_is_blank(s) {
            Err(ValidationError::Empty)
        } else if graphemes > MAX_NAME_GRAPHEMES {
            Err(ValidationError::TooLong)
        } else if text_has_forbidden(s) {
            Err(ValidationError::ForbiddenCharacter)
        } else {
            Ok(())
        }
    }

    /// Turns a raw text into a name, or says which rule it breaks first.
    /// The text is stored as given, without trimming.
    pub fn parse(s: String) -> (r: Result<SubscriberName, ValidationError>)
        ensures
            match r {
                Ok(name) => is_name(s@) && name@ == s@,
                Err(e) => !is_name(s@) && name_verdict(s@, grapheme_count(s@)) == Err::<
                    (),
                    ValidationError,
                >(e),
            },
    {
        let graphemes = count_graphemes(s.as_str());
        match Self::validate(s.as_str(), graphemes) {
            Ok(()) => {
                Ok(SubscriberName { value: s })
            },
            Err(e) => Err(e),
        }
    }

    /// The name as text.
    pub fn as_ref(&self) -> (r: &str)
        ensures
            r@ == self@,
            is_name(r@),
    {
        proof {
            use_type_invariant(self);
        }
        self.value.as_str()
    }
}

} // verus!
