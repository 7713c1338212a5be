//! The lifecycle status of a subscriber and its stored text form.

use vstd::prelude::*;
use vstd::string::StringExecFns;
use crate::text::{lowercase, same_text, to_lowercase};

verus! {

/// Where a subscriber stands in the confirmation workflow.
#[derive(Clone, Copy, Debug, PartialEq, Eq, Structural)]
pub enum SubscriberState {
    Active,
    Pending,
    Disabled,
}

/// The text under which a status is stored.
pub open spec fn status_name(state: SubscriberState) -> Seq<char> {
    match state {
        SubscriberState::Active => "active"@,
        SubscriberState::Pending => "pending_confirmation"@,
        SubscriberState::Disabled => "disabled"@,
    }
}

/// The status that a lowercase text names, if any.
pub open spec fn status_named(lower: Seq<char>) -> Option<SubscriberState> {
    if lower == "active"@ {
        Some(SubscriberState::Active)
    } else if lower == "pending_confirmation"@ {
        Some(SubscriberState::Pending)
    } else if lower == "disabled"@ {
        Some(SubscriberState::Disabled)
    } else {
        None
    }
}

/// The message that reports a text naming no status.
pub open spec fn unknown_status_message(lower: Seq<char>) -> Seq<char> {
    "Unknown subscriber status: "@ + lower
}

impl SubscriberState {
    /// The text under which this status is stored.
    pub fn as_str(&self) -> (name: &'static str)
        ensures
            name@ == status_name(*self),
    {
        match self {
            SubscriberState::Active => "active",
            SubscriberState::Pending => "pending_confirmation",
            SubscriberState::Disabled => "disabled",
        }
    }

    /// Every status, each once.
    pub fn iter() -> (all: Vec<SubscriberState>)
        ensures
            all@ == seq![SubscriberState::Active, SubscriberState::Pending, SubscriberState::Disabled],
    {
        let mut all: Vec<SubscriberState> = Vec::new();
        all.push(SubscriberState::Active);
        all.push(SubscriberState::Pending);
        all.push(SubscriberState::Disabled);
        all
    }

    /// Reads a status from text that is already lowercase.
    pub fn from_lowercase(lower: &str) -> (parsed: Result<SubscriberState, String>)
        ensures
            match parsed {
                Ok(state) => status_named(lower@) == Some(state),
                Err(message) => status_named(lower@) is None && message@
                    == unknown_status_message(lower@),
            },
    {
        if same_text(lower, "active") {
            Ok(SubscriberState::Active)
        } else if same_text(lower, "pending_confirmation") {
            Ok(SubscriberState::Pending)
        } else if same_text(lower, "disabled") {
            Ok(SubscriberState::Disabled)
        } else {
            Err("Unknown subscriber status: ".to_owned().concat(lower))
        }
    }

    /// Reads a status from text, ignoring case.
    pub fn try_from(value: String) -> (parsed: Result<SubscriberState, String>)
        ensures
            match parsed {
                Ok(state) => status_named(lowercase(value@)) == Some(state),
                Err(message) => status_named(lowercase(value@)) is None && message@
                    == unknown_status_message(lowercase(value@)),
            },
    {
        let lower = to_lowercase(value.as_str());
        SubscriberState::from_lowercase(lower.as_str())
    }

    /// Reads a stored status leniently: text that names no status counts as
    /// `Disabled`, so that reading a subscriber never fails.
    pub fn from_stored(value: String) -> (state: SubscriberState)
        ensures
            state == match status_named(lowercase(value@)) {
                Some(named) => named,
                None => SubscriberState::Disabled,
            },
    {
        match SubscriberState::try_from(value) {
            Ok(state) => state,
            Err(_) => SubscriberState::Disabled,
        }
    }
}

/// The two text mappings agree: the stored name of a status names that
/// status and no other.
pub proof fn status_name_round_trip(state: SubscriberState)
    ensures
        status_named(status_name(state)) == Some(state),
{
    reveal_strlit("active");
    reveal_strlit("pending_confirmation");
    reveal_strlit("disabled");
    assert("pending_confirmation"@.len() == 20);
    assert("disabled"@.len() == 8);
}

} // verus!
