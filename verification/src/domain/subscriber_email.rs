//! The email address of a subscriber.

use crate::domain::text::chars_of;
use crate::domain::validation_error::ValidationError;
use vstd::prelude::*;
use vstd::slice::slice_subrange;

verus! {

/// The letters and digits of ASCII.
pub open spec fn is_alphanumeric(c: char) -> bool {
    ||| 'a' <= c <= 'z'
    ||| 'A' <= c <= 'Z'
    ||| '0' <= c <= '9'
}

/// The characters a local part is made of, besides the dot that separates
/// its atoms.
pub open spec fn is_local_char(c: char) -> bool {
    ||| is_alphanumeric(c)
    ||| c == '!'
    ||| c == '#'
    ||| c == '$'
    ||| c == '%'
    ||| c == '&'
    ||| c == '\''
    ||| c == '*'
    ||| c == '+'
    ||| c == '-'
    ||| c == '/'
    ||| c == '='
    ||| c == '?'
    ||| c == '^'
    ||| c == '_'
    ||| c == '`'
    ||| c == '{'
    ||| c == '|'
    ||| c == '}'
    ||| c == '~'
}

/// The characters a domain is made of, besides the dot that separates its
/// labels.
pub open spec fn is_domain_char(c: char) -> bool {
    is_alphanumeric(c) || c == '-'
}

/// There is a dot at position `i` of `s`.
pub open spec fn dot_at(s: Seq<char>, i: int) -> bool {
    0 <= i < s.len() && s[i] == '.'
}

/// A local part: one or more atoms separated by single dots. It is not
/// empty, and no dot stands first, last or next to another dot.
pub open spec fn is_local_part(l: Seq<char>) -> bool {
    &&& l.len() > 0
    &&& forall|i: int| 0 <= i < l.len() ==> is_local_char(#[trigger] l[i]) || l[i] == '.'
    &&& forall|i: int| #[trigger] dot_at(l, i) ==> 0 < i < l.len() - 1 && l[i - 1] != '.'
}

/// A domain: two or more labels separated by single dots. Each label is
/// made of letters, digits and hyphens, and begins and ends with a letter
/// or a digit.
pub open spec fn is_domain(d: Seq<char>) -> bool {
    &&& d.len() > 0
    &&& forall|i: int| 0 <= i < d.len() ==> is_domain_char(#[trigger] d[i]) || d[i] == '.'
    &&& exists|i: int| #[trigger] dot_at(d, i)
    &&& is_alphanumeric(d[0])
    &&& is_alphanumeric(d[d.len() - 1])
    &&& forall|i: int| #[trigger]
        dot_at(d, i) ==> {
            &&& 0 < i < d.len() - 1
            &&& is_alphanumeric(d[i - 1])
            &&& is_alphanumeric(d[i + 1])
        }
}

/// `s` is a local part, an `@` at position `at`, and a domain.
pub open spec fn splits_at(s: Seq<char>, at: int) -> bool {
    &&& 0 <= at < s.len()
    &&& s[at] == '@'
    &&& is_local_part(s.take(at))
    &&& is_domain(s.skip(at + 1))
}

/// The texts that are email addresses: a local part, an `@` and a domain.
pub open spec fn is_email(s: Seq<char>) -> bool {
    exists|at: int| splits_at(s, at)
}

/// A text holds the character `c`.
pub open spec fn has_char(s: Seq<char>, c: char) -> bool {
    exists|i: int| 0 <= i < s.len() && #[trigger] s[i] == c
}

/// Decides whether `c` is a letter or a digit of ASCII.
pub fn char_is_alphanumeric(c: char) -> (r: bool)
    ensures
        r == is_alphanumeric(c),
{
    ('a' <= c && c <= 'z') || ('A' <= c && c <= 'Z') || ('0' <= c && c <= '9')
}

/// Decides whether `c` may stand in an atom of a local part.
pub fn char_is_local(c: char) -> (r: bool)
    ensures
        r == is_local_char(c),
{
    char_is_alphanumeric(c) || c == '!' || c == '#' || c == '$' || c == '%' || c == '&' || c
        == '\'' || c == '*' || c == '+' || c == '-' || c == '/' || c == '=' || c == '?' || c == '^'
        || c == '_' || c == '`' || c == '{' || c == '|' || c == '}' || c == '~'
}

/// Decides whether `l` is a local part.
pub fn check_local_part(l: &[char]) -> (r: bool)
    ensures
        r == is_local_part(l@),
{
    let n = l.len();
    let mut after_dot = true;
    let mut i: usize = 0;
    while i < n
        invariant
            n == l@.len(),
            i <= n,
            forall|j: int| 0 <= j < i ==> is_local_char(#[trigger] l@[j]) || l@[j] == '.',
            forall|j: int| #[trigger] dot_at(l@, j) && j < i ==> 0 < j && l@[j - 1] != '.',
            after_dot == (i == 0 || l@[i - 1] == '.'),
        decreases n - i,
    {
        let c = l[i];
        if c == '.' {
            if after_dot {
                assert(dot_at(l@, i as int));
                return false;
            }
            after_dot = true;
        } else if char_is_local(c) {
            after_dot = false;
        } else {
            return false;
        }
        i += 1;
    }
    if after_dot {
        if n > 0 {
            assert(dot_at(l@, n - 1));
        }
        return false;
    }
    true
}

/// Decides whether `d` is a domain.
pub fn check_domain(d: &[char]) -> (r: bool)
    ensures
        r == is_domain(d@),
{
    let n = d.len();
    if n == 0 {
        return false;
    }
    if !char_is_alphanumeric(d[0]) || !char_is_alphanumeric(d[n - 1]) {
        return false;
    }
    let mut dots: bool = false;
    let mut i: usize = 0;
    while i < n
        invariant
            n == d@.len(),
            i <= n,
            is_alphanumeric(d@[0]),
            is_alphanumeric(d@[n - 1]),
            forall|j: int| 0 <= j < i ==> is_domain_char(#[trigger] d@[j]) || d@[j] == '.',
            forall|j: int| #[trigger]
                dot_at(d@, j) && j < i ==> 0 < j < n - 1 && is_alphanumeric(d@[j - 1])
                    && is_alphanumeric(d@[j + 1]),
            dots == (exists|j: int| #[trigger] dot_at(d@, j) && j < i),
        decreases n - i,
    {
        let c = d[i];
        if c == '.' {
            assert(dot_at(d@, i as int));
            if !char_is_alphanumeric(d[i - 1]) || !char_is_alphanumeric(d[i + 1]) {
                return false;
            }
            dots = true;
        } else if !(char_is_alphanumeric(c) || c == '-') {
            return false;
        }
        i += 1;
    }
    dots
}

/// Finds the first `@` of `s`.
pub fn find_at(s: &[char]) -> (r: Option<usize>)
    ensures
        match r {
            Some(at) => at < s@.len() && s@[at as int] == '@' && !has_char(s@.take(at as int), '@'),
            None => !has_char(s@, '@'),
        },
{
    let n = s.len();
    let mut i: usize = 0;
    while i < n
        invariant
            n == s@.len(),
            i <= n,
            forall|j: int| 0 <= j < i ==> #[trigger] s@[j] != '@',
        decreases n - i,
    {
        if s[i] == '@' {
            return Some(i);
        }
        i += 1;
    }
    None
}

/// A text without an `@` is no email address.
pub proof fn lemma_email_has_at(s: Seq<char>)
    requires
        !has_char(s, '@'),
    ensures
        !is_email(s),
{
    if is_email(s) {
        let at = choose|at: int| splits_at(s, at);
        assert(s[at] == '@');
    }
}

/// A text in which no dot follows one of its `@` is no email address.
pub proof fn lemma_email_has_domain_dot(s: Seq<char>, at: int)
    requires
        0 <= at < s.len(),
        s[at] == '@',
        forall|i: int| at < i < s.len() ==> #[trigger] s[i] != '.',
    ensures
        !is_email(s),
{
    if is_email(s) {
        let split = choose|split: int| splits_at(s, split);
        let l = s.take(split);
        let d = s.skip(split + 1);
        if at < split {
            assert(!is_local_char(l[at]));
        }
        if at > split {
            assert(!is_domain_char(d[at - split - 1]));
        }
        let k = choose|k: int| #[trigger] dot_at(d, k);
        assert(s[split + 1 + k] == '.');
    }
}

/// An email address splits at its first `@` and nowhere else.
pub proof fn lemma_email_splits_at_first(s: Seq<char>, at: int)
    requires
        0 <= at < s.len(),
        s[at] == '@',
        !has_char(s.take(at), '@'),
    ensures
        is_email(s) == splits_at(s, at),
{
    if is_email(s) {
        let other = choose|other: int| splits_at(s, other);
        if other < at {
            assert(s.take(at)[other] == '@');
        }
        if other > at {
            let l = s.take(other);
            assert(!is_local_char(l[at]));
        }
    }
}

/// Decides whether `s` is an email address.
pub fn check_email(s: &[char]) -> (r: bool)
    ensures
        r == is_email(s@),
{
    match find_at(s) {
        None => {
            proof {
                lemma_email_has_at(s@);
            }
            false
        },
        Some(at) => {
            proof {
                lemma_email_splits_at_first(s@, at as int);
            }
            let n = s.len();
            let local = slice_subrange(s, 0, at);
            let domain = slice_subrange(s, at + 1, n);
            check_local_part(local) && check_domain(domain)
        },
    }
}

/// A subscriber's email address: a text that passed
/// [`SubscriberEmail::parse`], kept exactly as it was submitted.
#[derive(Debug)]
pub struct SubscriberEmail {
    value: String,
}

impl View for SubscriberEmail {
    type V = Seq<char>;

    closed spec fn view(&self) -> Seq<char> {
        self.value@
    }
}

impl SubscriberEmail {
    /// Every address follows the grammar.
    #[verifier::type_invariant]
    spec fn well_formed(&self) -> bool {
        is_email(self.value@)
    }

    /// Turns a raw text into an email address where it follows the
    /// grammar. Nothing but the text is consulted.
    pub fn parse(s: String) -> (r: Result<SubscriberEmail, ValidationError>)
        ensures
            match r {
                Ok(email) => is_email(s@) && email@ == s@,
                Err(e) => !is_email(s@) && e == ValidationError::InvalidFormat,
            },
    {
        let chars = chars_of(s.as_str());
        if check_email(chars.as_slice()) {
            Ok(SubscriberEmail { value: s })
        } else {
            Err(ValidationError::InvalidFormat)
        }
    }

    /// The address as text.
    pub fn as_ref(&self) -> (r: &str)
        ensures
            r@ == self@,
            is_email(r@),
    {
        proof {
            use_type_invariant(self);
        }
        self.value.as_str()
    }
}

} // verus!
