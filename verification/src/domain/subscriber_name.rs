//! The display name of a subscriber.

use vstd::prelude::*;
use vstd::string::StringExecFns;

verus! {

/// The most characters a name may have.
pub const MAX_NAME_LENGTH: usize = 250;

/// The characters with the Unicode property `White_Space`.
pub open spec fn is_whitespace(c: char) -> bool {
    ||| '\u{9}' <= c <= '\u{d}'
    ||| c == ' '
    ||| c == '\u{85}'
    ||| c == '\u{a0}'
    ||| c == '\u{1680}'
    ||| '\u{2000}' <= c <= '\u{200a}'
    ||| c == '\u{2028}'
    ||| c == '\u{2029}'
    ||| c == '\u{202f}'
    ||| c == '\u{205f}'
    ||| c == '\u{3000}'
}

/// The control characters: the Unicode general category `Cc`.
pub open spec fn is_control(c: char) -> bool {
    c <= '\u{1f}' || '\u{7f}' <= c <= '\u{9f}'
}

/// The characters that no name may hold: control characters and
/// `/ ( ) " < > \ { }`.
pub open spec fn is_forbidden(c: char) -> bool {
    ||| is_control(c)
    ||| c == '/'
    ||| c == '('
    ||| c == ')'
    ||| c == '"'
    ||| c == '<'
    ||| c == '>'
    ||| c == '\\'
    ||| c == '{'
    ||| c == '}'
}

/// A text is blank when it is empty or holds white space only: nothing is
/// left of it once it is trimmed.
pub open spec fn is_blank(s: Seq<char>) -> bool {
    forall|i: int| 0 <= i < s.len() ==> is_whitespace(#[trigger] s[i])
}

/// A text is a name when it is not blank, has at most `MAX_NAME_LENGTH`
/// characters and holds no forbidden character.
pub open spec fn valid_name(s: Seq<char>) -> bool {
    &&& !is_blank(s)
    &&& s.len() <= MAX_NAME_LENGTH
    &&& forall|i: int| 0 <= i < s.len() ==> !is_forbidden(#[trigger] s[i])
}

/// The message that reports a text that is no name.
pub open spec fn invalid_name_message(s: Seq<char>) -> Seq<char> {
    s + " is not a valid subscriber name."@
}

fn is_whitespace_char(c: char) -> (yes: bool)
    ensures
        yes == is_whitespace(c),
{
    ('\u{9}' <= c && c <= '\u{d}') || c == ' ' || c == '\u{85}' || c == '\u{a0}' || c
        == '\u{1680}' || ('\u{2000}' <= c && c <= '\u{200a}') || c == '\u{2028}' || c
        == '\u{2029}' || c == '\u{202f}' || c == '\u{205f}' || c == '\u{3000}'
}

fn is_forbidden_char(c: char) -> (yes: bool)
    ensures
        yes == is_forbidden(c),
{
    c <= '\u{1f}' || ('\u{7f}' <= c && c <= '\u{9f}') || c == '/' || c == '(' || c == ')' || c
        == '"' || c == '<' || c == '>' || c == '\\' || c == '{' || c == '}'
}

/// Decides `valid_name`.
pub fn holds_name(s: &str) -> (yes: bool)
    ensures
        yes == valid_name(s@),
{
    let mut blank = true;
    let mut count: usize = 0;
    for c in it: s.chars()
        invariant
            count == it.index(),
            count <= MAX_NAME_LENGTH,
            it.seq() == s@,
            blank == (forall|i: int| 0 <= i < count ==> is_whitespace(#[trigger] s@[i])),
            forall|i: int| 0 <= i < count ==> !is_forbidden(#[trigger] s@[i]),
    {
        if count == MAX_NAME_LENGTH || is_forbidden_char(c) {
            return false;
        }
        if !is_whitespace_char(c) {
            blank = false;
        }
        count += 1;
    }
    !blank
}

/// A subscriber's display name: a text that satisfies `valid_name`.
#[derive(Debug)]
pub struct SubscriberName(String);

impl View for SubscriberName {
    type V = Seq<char>;

    closed spec fn view(&self) -> Seq<char> {
        self.0@
    }
}

impl SubscriberName {
    #[verifier::type_invariant]
    spec fn well_formed(self) -> bool {
        valid_name(self.0@)
    }

    /// Accepts `s` as a name if it satisfies `valid_name`, and reports it otherwise.
    pub fn parse(s: String) -> (parsed: Result<SubscriberName, String>)
        ensures
            match parsed {
                Ok(name) => valid_name(s@) && name@ == s@,
                Err(message) => !valid_name(s@) && message@ == invalid_name_message(s@),
            },
    {
        if holds_name(s.as_str()) {
            Ok(SubscriberName(s))
        } else {
            Err(s.concat(" is not a valid subscriber name."))
        }
    }

    /// The text of the name.
    pub fn as_ref(&self) -> (text: &str)
        ensures
            text@ == self@,
            valid_name(text@),
    {
        proof {
            use_type_invariant(self);
        }
        self.0.as_str()
    }
}

} // verus!
