//! The single-use token that a subscriber redeems to confirm a subscription.

use vstd::prelude::*;
use vstd::string::{StrSliceExecFns, StringExecFns, StringSliceAdditionalSpecFns};
use crate::text::push_char;

verus! {

/// The number of characters in a generated token, and the most a token may have.
pub const TOKEN_LENGTH: usize = 30;

/// The token alphabet: ASCII letters and digits.
pub open spec fn is_alphanumeric(c: char) -> bool {
    ('A' <= c <= 'Z') || ('a' <= c <= 'z') || ('0' <= c <= '9')
}

/// A text is a token when it is not empty, has at most `TOKEN_LENGTH`
/// characters and holds only characters of the token alphabet.
pub open spec fn valid_token(s: Seq<char>) -> bool {
    &&& 0 < s.len() <= TOKEN_LENGTH
    &&& forall|i: int| 0 <= i < s.len() ==> is_alphanumeric(#[trigger] s[i])
}

/// The text that a sequence of drawn bytes spells: character `k` is the
/// `k`-th byte drawn.
pub open spec fn token_of_draws(draws: Seq<u8>) -> Seq<char> {
    Seq::new(draws.len(), |k: int| draws[k] as char)
}

/// The message that reports a text that is no token.
pub open spec fn invalid_token_message(s: Seq<char>) -> Seq<char> {
    s + " is not a valid confirmation token."@
}

/// Calls `Rng::sample` on the thread-local generator of `rand`, with the
/// `Alphanumeric` distribution, which picks one byte out of `A-Z`, `a-z` and
/// `0-9`. Which byte comes is left open.
#[verifier::external_body]
fn sample_alphanumeric() -> (byte: u8)
    ensures
        is_alphanumeric(byte as char),
{
    rand::Rng::sample(&mut rand::thread_rng(), rand::distributions::Alphanumeric)
}

fn is_alphanumeric_byte(byte: u8) -> (yes: bool)
    ensures
        yes == is_alphanumeric(byte as char),
{
    (0x41 <= byte && byte <= 0x5a) || (0x61 <= byte && byte <= 0x7a) || (0x30 <= byte && byte
        <= 0x39)
}

/// A confirmation token: a text that satisfies `valid_token`.
#[derive(Debug)]
pub struct SubscriptionToken(String);

impl View for SubscriptionToken {
    type V = Seq<char>;

    closed spec fn view(&self) -> Seq<char> {
        self.0@
    }
}

impl Clone for SubscriptionToken {
    fn clone(&self) -> (copy: SubscriptionToken)
        ensures
            copy@ == self@,
    {
        proof {
            use_type_invariant(self);
        }
        SubscriptionToken(self.0.clone())
    }
}

impl SubscriptionToken {
    #[verifier::type_invariant]
    spec fn well_formed(self) -> bool {
        valid_token(self.0@)
    }

    /// Draws a fresh token: `TOKEN_LENGTH` bytes of the token alphabet, one
    /// after the other, spelled out by `token_from_draws`.
    pub fn generate() -> (token: SubscriptionToken)
        ensures
            token@.len() == TOKEN_LENGTH,
            valid_token(token@),
            exists|draws: Seq<u8>|
                draws.len() == TOKEN_LENGTH && token@ == #[trigger] token_of_draws(draws),
    {
        let mut draws: Vec<u8> = Vec::new();
        while draws.len() < TOKEN_LENGTH
            invariant
                draws@.len() <= TOKEN_LENGTH,
                forall|k: int| 0 <= k < draws@.len() ==> is_alphanumeric(#[trigger] draws@[k] as char),
            decreases TOKEN_LENGTH - draws@.len(),
        {
            let byte = sample_alphanumeric();
            draws.push(byte);
        }
        SubscriptionToken::token_from_draws(&draws)
    }

    /// Spells the token that the drawn bytes make: as many characters as
    /// there are draws, each draw in its place.
    pub fn token_from_draws(draws: &Vec<u8>) -> (token: SubscriptionToken)
        requires
            valid_token(token_of_draws(draws@)),
        ensures
            token@ == token_of_draws(draws@),
    {
        let mut text = String::new();
        let mut spelled: usize = 0;
        while spelled < draws.len()
            invariant
                spelled <= draws@.len(),
                text@ == token_of_draws(draws@).take(spelled as int),
            decreases draws@.len() - spelled,
        {
            push_char(&mut text, draws[spelled] as char);
            spelled += 1;
        }
        assert(token_of_draws(draws@).take(spelled as int) == token_of_draws(draws@));
        SubscriptionToken(text)
    }

    /// Accepts `s` as a token if it satisfies `valid_token`, and reports it otherwise.
    pub fn parse(s: String) -> (parsed: Result<SubscriptionToken, String>)
        ensures
            match parsed {
                Ok(token) => valid_token(s@) && token@ == s@,
                Err(message) => !valid_token(s@) && message@ == invalid_token_message(s@),
            },
    {
        if holds_token(s.as_str()) {
            Ok(SubscriptionToken(s))
        } else {
            Err(s.concat(" is not a valid confirmation token."))
        }
    }

    /// The text of the token.
    pub fn as_ref(&self) -> (text: &str)
        ensures
            text@ == self@,
            valid_token(text@),
    {
        proof {
            use_type_invariant(self);
        }
        self.0.as_str()
    }
}

/// Decides `valid_token`.
pub fn holds_token(s: &str) -> (yes: bool)
    ensures
        yes == valid_token(s@),
{
    if !s.is_ascii() {
        return false;
    }
    let length = s.as_bytes().len();
    assert(length == s@.len()) by {
        vstd::string::is_ascii_spec_bytes(s);
    }
    if length == 0 || length > TOKEN_LENGTH {
        return false;
    }
    let mut checked: usize = 0;
    while checked < length
        invariant
            s.is_ascii(),
            length == s@.len(),
            checked <= length,
            forall|i: int| 0 <= i < checked ==> is_alphanumeric(#[trigger] s@[i]),
        decreases length - checked,
    {
        let byte = s.get_ascii(checked);
        if !is_alphanumeric_byte(byte) {
            return false;
        }
        checked += 1;
    }
    true
}

/// The grammar of tokens, case by case: an empty text is no token, nor is a
/// text of more than `TOKEN_LENGTH` characters, nor a text that holds a
/// character outside the token alphabet; every text of `TOKEN_LENGTH`
/// characters of the alphabet is a token.
pub proof fn token_grammar(s: Seq<char>)
    ensures
        s.len() == 0 ==> !valid_token(s),
        s.len() > TOKEN_LENGTH ==> !valid_token(s),
        (exists|i: int| 0 <= i < s.len() && !is_alphanumeric(s[i])) ==> !valid_token(s),
        s.len() == TOKEN_LENGTH && (forall|i: int| 0 <= i < s.len() ==> is_alphanumeric(s[i]))
            ==> valid_token(s),
{
}

/// Different draws spell different tokens: a token tells every byte that
/// was drawn for it, so tokens can only repeat where the draws repeat.
pub proof fn different_draws_spell_different_tokens(first: Seq<u8>, second: Seq<u8>)
    requires
        first != second,
    ensures
        token_of_draws(first) != token_of_draws(second),
{
    if token_of_draws(first) == token_of_draws(second) {
        assert(token_of_draws(first).len() == first.len());
        assert(token_of_draws(second).len() == second.len());
        assert forall|k: int| 0 <= k < first.len() implies first[k] == second[k] by {
            assert(token_of_draws(first)[k] == token_of_draws(second)[k]);
        }
        assert(first =~= second);
    }
}

/// Every token can be drawn: it is spelled by the bytes of its characters,
/// which all lie in the token alphabet.
pub proof fn every_token_has_its_draws(token: Seq<char>) -> (draws: Seq<u8>)
    requires
        valid_token(token),
    ensures
        draws.len() == token.len(),
        forall|k: int| 0 <= k < draws.len() ==> is_alphanumeric(#[trigger] draws[k] as char),
        token_of_draws(draws) == token,
{
    let draws = Seq::new(token.len(), |k: int| token[k] as u8);
    assert forall|k: int| 0 <= k < draws.len() implies draws[k] as char == token[k] by {
        assert(is_alphanumeric(token[k]));
    }
    assert(token_of_draws(draws) =~= token);
    draws
}

} // verus!
