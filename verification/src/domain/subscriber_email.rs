//! The email address of a subscriber.

use vstd::prelude::*;
use vstd::string::StringExecFns;

verus! {

/// What `validator::validate_email` returns for the text `s`: whether `s` is
/// an email address by the grammar of the HTML5 specification.
pub uninterp spec fn email_accepted(s: Seq<char>) -> bool;

/// The message that reports a text that is no email address.
pub open spec fn invalid_email_message(s: Seq<char>) -> Seq<char> {
    s + " is not a valid email address."@
}

/// Calls `validator::validate_email`, which decides from the text alone. Its
/// verdict is known here by the name `email_accepted`, and by the first test
/// it makes: a text without `@` is refused.
#[verifier::external_body]
fn validate_email(s: &str) -> (accepted: bool)
    ensures
        accepted == email_accepted(s@),
        accepted ==> s@.contains('@'),
{
    validator::validate_email(s)
}

/// A subscriber's email address: a text that `validator::validate_email` accepts.
#[derive(Debug)]
pub struct SubscriberEmail(String);

impl View for SubscriberEmail {
    type V = Seq<char>;

    closed spec fn view(&self) -> Seq<char> {
        self.0@
    }
}

impl SubscriberEmail {
    #[verifier::type_invariant]
    spec fn well_formed(self) -> bool {
        email_accepted(self.0@)
    }

    /// Accepts `s` as an email address if the validator accepts it, and
    /// reports it otherwise.
    pub fn parse(s: String) -> (parsed: Result<SubscriberEmail, String>)
        ensures
            match parsed {
                Ok(email) => email_accepted(s@) && s@.contains('@') && email@ == s@,
                Err(message) => !email_accepted(s@) && message@ == invalid_email_message(s@),
            },
    {
        let accepted = validate_email(s.as_str());
        SubscriberEmail::from_verdict(s, accepted)
    }

    /// Turns the validator's verdict on `s` into an address or a report.
    pub fn from_verdict(s: String, accepted: bool) -> (parsed: Result<SubscriberEmail, String>)
        requires
            accepted ==> email_accepted(s@),
        ensures
            match parsed {
                Ok(email) => accepted && email@ == s@,
                Err(message) => !accepted && message@ == invalid_email_message(s@),
            },
    {
        if accepted {
            Ok(SubscriberEmail(s))
        } else {
            Err(s.concat(" is not a valid email address."))
        }
    }

    /// The text of the address.
    pub fn as_ref(&self) -> (text: &str)
        ensures
            text@ == self@,
            email_accepted(text@),
    {
        proof {
            use_type_invariant(self);
        }
        self.0.as_str()
    }
}

} // verus!
