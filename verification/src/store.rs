//! The subscriber store that the workflows are written against, and an
//! implementation of it in memory.
//!
//! The store holds two tables. `subscriptions` has one row for each
//! subscriber, found by email address; no two rows share an email address or
//! an identity. `subscription_tokens` says which subscriber owns a token; a
//! token, once written, is never given to another subscriber.

use vstd::prelude::*;
use crate::domain::subscriber_id::SubscriberId;
use crate::domain::subscriber_status::SubscriberState;
use crate::domain::timestamp::Timestamp;
use crate::routes::subscriptions::SubscriberStatus;
use crate::text::same_text;

verus! {

/// A row of `subscriptions`.
#[derive(Debug)]
pub struct SubscriberRecord {
    pub id: SubscriberId,
    pub email: String,
    pub name: String,
    pub subscribed_at: Timestamp,
    pub status: SubscriberState,
}

/// A row of `subscription_tokens`.
#[derive(Debug)]
pub struct TokenRecord {
    pub subscription_token: String,
    pub subscriber_id: SubscriberId,
}

/// What `subscriptions` holds under an email address.
pub struct SubscriberRow {
    pub id: SubscriberId,
    pub name: Seq<char>,
    pub subscribed_at: Timestamp,
    pub status: SubscriberState,
}

/// The two tables as maps: subscribers by email address, owners by token.
pub struct TablesView {
    pub subscribers: Map<Seq<char>, SubscriberRow>,
    pub tokens: Map<Seq<char>, SubscriberId>,
}

impl TablesView {
    /// The tables without any row.
    pub open spec fn empty() -> TablesView {
        TablesView { subscribers: Map::empty(), tokens: Map::empty() }
    }

    /// No two subscribers share an identity.
    pub open spec fn wf(self) -> bool {
        forall|one: Seq<char>, other: Seq<char>|
            #![trigger self.subscribers[one], self.subscribers[other]]
            self.subscribers.dom().contains(one) && self.subscribers.dom().contains(other)
                && self.subscribers[one].id == self.subscribers[other].id ==> one == other
    }

    /// Whether a subscriber has this email address.
    pub open spec fn has_email(self, email: Seq<char>) -> bool {
        self.subscribers.dom().contains(email)
    }

    /// Whether a subscriber has this identity.
    pub open spec fn has_id(self, id: SubscriberId) -> bool {
        exists|email: Seq<char>| #[trigger]
            self.subscribers.dom().contains(email) && self.subscribers[email].id == id
    }

    /// Whether this token is stored.
    pub open spec fn has_token(self, token: Seq<char>) -> bool {
        self.tokens.dom().contains(token)
    }

    /// The identity and status of the subscriber with this email address.
    pub open spec fn find_subscriber_by_email(self, email: Seq<char>) -> Option<SubscriberStatus> {
        if self.has_email(email) {
            Some(
                SubscriberStatus {
                    id: self.subscribers[email].id,
                    status: self.subscribers[email].status,
                },
            )
        } else {
            None
        }
    }

    /// The status of the subscriber with this email address.
    pub open spec fn status_of(self, email: Seq<char>) -> Option<SubscriberState> {
        if self.has_email(email) {
            Some(self.subscribers[email].status)
        } else {
            None
        }
    }

    /// The subscriber who owns this token.
    pub open spec fn find_subscriber_id_by_token(self, token: Seq<char>) -> Option<SubscriberId> {
        if self.has_token(token) {
            Some(self.tokens[token])
        } else {
            None
        }
    }

    /// Whether a subscriber with this email address and identity can be
    /// inserted: neither may be taken.
    pub open spec fn accepts_subscriber(self, email: Seq<char>, id: SubscriberId) -> bool {
        !self.has_email(email) && !self.has_id(id)
    }

    /// The tables with one more subscriber.
    pub open spec fn insert_subscriber(self, email: Seq<char>, row: SubscriberRow) -> TablesView {
        TablesView { subscribers: self.subscribers.insert(email, row), tokens: self.tokens }
    }

    /// The tables in which the subscriber with this identity, if there is
    /// one, has this status.
    pub open spec fn set_subscriber_status(
        self,
        id: SubscriberId,
        status: SubscriberState,
    ) -> TablesView {
        TablesView {
            subscribers: Map::new(
                |email: Seq<char>| self.subscribers.dom().contains(email),
                |email: Seq<char>|
                    if self.subscribers[email].id == id {
                        SubscriberRow {
                            id: self.subscribers[email].id,
                            name: self.subscribers[email].name,
                            subscribed_at: self.subscribers[email].subscribed_at,
                            status,
                        }
                    } else {
                        self.subscribers[email]
                    },
            ),
            tokens: self.tokens,
        }
    }

    /// The tables with one more token.
    pub open spec fn insert_token(self, token: Seq<char>, id: SubscriberId) -> TablesView {
        TablesView { subscribers: self.subscribers, tokens: self.tokens.insert(token, id) }
    }
}

/// What a record of `subscriptions` holds besides its email address.
pub open spec fn row_of(record: SubscriberRecord) -> SubscriberRow {
    SubscriberRow {
        id: record.id,
        name: record.name@,
        subscribed_at: record.subscribed_at,
        status: record.status,
    }
}

spec fn email_at(rows: Seq<SubscriberRecord>, i: int, email: Seq<char>) -> bool {
    0 <= i < rows.len() && rows[i].email@ == email
}

spec fn token_at(rows: Seq<TokenRecord>, i: int, token: Seq<char>) -> bool {
    0 <= i < rows.len() && rows[i].subscription_token@ == token
}

/// The two tables, held in memory.
pub struct Tables {
    subscribers: Vec<SubscriberRecord>,
    tokens: Vec<TokenRecord>,
    model: Ghost<TablesView>,
}

impl View for Tables {
    type V = TablesView;

    closed spec fn view(&self) -> TablesView {
        self.model@
    }
}

impl Tables {
    /// The rows held are those of the two maps, and the maps are well formed.
    pub open spec fn wf(&self) -> bool {
        self.holds_view() && self@.wf()
    }

    /// The rows held are those of the two maps.
    pub closed spec fn holds_view(&self) -> bool {
        &&& forall|i: int|
            0 <= i < self.subscribers@.len() ==> {
                &&& self.model@.subscribers.dom().contains((#[trigger] self.subscribers@[i]).email@)
                &&& self.model@.subscribers[self.subscribers@[i].email@] == row_of(
                    self.subscribers@[i],
                )
            }
        &&& forall|email: Seq<char>| #[trigger]
            self.model@.subscribers.dom().contains(email) ==> exists|i: int|
                email_at(self.subscribers@, i, email)
        &&& forall|i: int|
            0 <= i < self.tokens@.len() ==> {
                &&& self.model@.tokens.dom().contains(
                    (#[trigger] self.tokens@[i]).subscription_token@,
                )
                &&& self.model@.tokens[self.tokens@[i].subscription_token@]
                    == self.tokens@[i].subscriber_id
            }
        &&& forall|token: Seq<char>| #[trigger]
            self.model@.tokens.dom().contains(token) ==> exists|i: int|
                token_at(self.tokens@, i, token)
    }

    /// The tables without any row.
    pub fn new() -> (tables: Tables)
        ensures
            tables.wf(),
            tables@ == TablesView::empty(),
    {
        Tables { subscribers: Vec::new(), tokens: Vec::new(), model: Ghost(TablesView::empty()) }
    }

    /// Looks up the subscriber with this email address.
    pub fn find_subscriber_by_email(&self, email: &str) -> (found: Option<SubscriberStatus>)
        requires
            self.wf(),
        ensures
            found == self@.find_subscriber_by_email(email@),
    {
        let mut i: usize = 0;
        while i < self.subscribers.len()
            invariant
                self.wf(),
                i <= self.subscribers@.len(),
                forall|j: int| 0 <= j < i ==> !email_at(self.subscribers@, j, email@),
            decreases self.subscribers@.len() - i,
        {
            if same_text(self.subscribers[i].email.as_str(), email) {
                return Some(
                    SubscriberStatus {
                        id: self.subscribers[i].id,
                        status: self.subscribers[i].status,
                    },
                );
            }
            i += 1;
        }
        None
    }

    /// Whether a subscriber has this identity.
    pub fn has_id(&self, id: SubscriberId) -> (found: bool)
        requires
            self.wf(),
        ensures
            found == self@.has_id(id),
    {
        let mut i: usize = 0;
        while i < self.subscribers.len()
            invariant
                self.wf(),
                i <= self.subscribers@.len(),
                forall|j: int| 0 <= j < i ==> (#[trigger] self.subscribers@[j]).id != id,
            decreases self.subscribers@.len() - i,
        {
            if self.subscribers[i].id == id {
                proof {
                    let email = self.subscribers@[i as int].email@;
                    assert(self@.subscribers.dom().contains(email) && self@.subscribers[email].id
                        == id);
                }
                return true;
            }
            i += 1;
        }
        false
    }

    /// Inserts a subscriber, unless the email address or the identity is taken.
    pub fn insert_subscriber(&mut self, record: SubscriberRecord) -> (inserted: bool)
        requires
            old(self).wf(),
        ensures
            final(self).wf(),
            inserted == old(self)@.accepts_subscriber(record.email@, record.id),
            inserted ==> final(self)@ == old(self)@.insert_subscriber(
                record.email@,
                row_of(record),
            ),
            !inserted ==> final(self)@ == old(self)@,
    {
        if self.find_subscriber_by_email(record.email.as_str()).is_some() || self.has_id(
            record.id,
        ) {
            return false;
        }
        let ghost email = record.email@;
        let ghost before = self.subscribers@;
        let ghost after = self@.insert_subscriber(email, row_of(record));
        self.subscribers.push(record);
        self.model = Ghost(after);
        proof {
            assert forall|other: Seq<char>| #[trigger]
                after.subscribers.dom().contains(other) implies exists|i: int|
                email_at(self.subscribers@, i, other) by {
                if other == email {
                    assert(email_at(self.subscribers@, before.len() as int, other));
                } else {
                    let i = choose|i: int| email_at(before, i, other);
                    assert(email_at(self.subscribers@, i, other));
                }
            }
            assert forall|i: int| 0 <= i < self.subscribers@.len() implies {
                &&& after.subscribers.dom().contains((#[trigger] self.subscribers@[i]).email@)
                &&& after.subscribers[self.subscribers@[i].email@] == row_of(self.subscribers@[i])
            } by {}
            assert forall|token: Seq<char>| #[trigger]
                after.tokens.dom().contains(token) implies exists|i: int|
                token_at(self.tokens@, i, token) by {
                let i = choose|i: int| token_at(old(self).tokens@, i, token);
                assert(token_at(self.tokens@, i, token));
            }
        }
        true
    }

    /// Sets the status of the subscriber with this identity, if there is one.
    pub fn set_subscriber_status(&mut self, id: SubscriberId, status: SubscriberState)
        requires
            old(self).wf(),
        ensures
            final(self).wf(),
            final(self)@ == old(self)@.set_subscriber_status(id, status),
    {
        let ghost before = self.subscribers@;
        let ghost after = self@.set_subscriber_status(id, status);
        let mut i: usize = 0;
        while i < self.subscribers.len()
            invariant
                self.subscribers@.len() == before.len(),
                self.tokens == old(self).tokens,
                self.model == old(self).model,
                i <= before.len(),
                forall|j: int|
                    0 <= j < before.len() ==> {
                        &&& (#[trigger] self.subscribers@[j]).id == before[j].id
                        &&& self.subscribers@[j].email == before[j].email
                        &&& self.subscribers@[j].name == before[j].name
                        &&& self.subscribers@[j].subscribed_at == before[j].subscribed_at
                        &&& self.subscribers@[j].status == (if j < i && before[j].id == id {
                            status
                        } else {
                            before[j].status
                        })
                    },
            decreases before.len() - i,
        {
            if self.subscribers[i].id == id {
                self.subscribers[i].status = status;
            }
            i += 1;
        }
        self.model = Ghost(after);
        proof {
            assert forall|email: Seq<char>| #[trigger]
                after.subscribers.dom().contains(email) implies exists|i: int|
                email_at(self.subscribers@, i, email) by {
                let i = choose|i: int| email_at(before, i, email);
                assert(email_at(self.subscribers@, i, email));
            }
            assert forall|i: int| 0 <= i < self.subscribers@.len() implies {
                &&& after.subscribers.dom().contains((#[trigger] self.subscribers@[i]).email@)
                &&& after.subscribers[self.subscribers@[i].email@] == row_of(self.subscribers@[i])
            } by {}
            assert forall|token: Seq<char>| #[trigger]
                after.tokens.dom().contains(token) implies exists|i: int|
                token_at(self.tokens@, i, token) by {
                let i = choose|i: int| token_at(old(self).tokens@, i, token);
                assert(token_at(self.tokens@, i, token));
            }
        }
    }

    /// Looks up the subscriber who owns this token.
    pub fn find_subscriber_id_by_token(&self, subscription_token: &str) -> (found: Option<
        SubscriberId,
    >)
        requires
            self.wf(),
        ensures
            found == self@.find_subscriber_id_by_token(subscription_token@),
    {
        let mut i: usize = 0;
        while i < self.tokens.len()
            invariant
                self.wf(),
                i <= self.tokens@.len(),
                forall|j: int| 0 <= j < i ==> !token_at(self.tokens@, j, subscription_token@),
            decreases self.tokens@.len() - i,
        {
            if same_text(self.tokens[i].subscription_token.as_str(), subscription_token) {
                return Some(self.tokens[i].subscriber_id);
            }
            i += 1;
        }
        None
    }

    /// Stores a token for a subscriber, unless the token is already stored.
    pub fn insert_token(&mut self, record: TokenRecord) -> (inserted: bool)
        requires
            old(self).wf(),
        ensures
            final(self).wf(),
            inserted == !old(self)@.has_token(record.subscription_token@),
            inserted ==> final(self)@ == old(self)@.insert_token(
                record.subscription_token@,
                record.subscriber_id,
            ),
            !inserted ==> final(self)@ == old(self)@,
    {
        if self.find_subscriber_id_by_token(record.subscription_token.as_str()).is_some() {
            return false;
        }
        let ghost token = record.subscription_token@;
        let ghost before = self.tokens@;
        let ghost after = self@.insert_token(token, record.subscriber_id);
        self.tokens.push(record);
        self.model = Ghost(after);
        proof {
            assert forall|other: Seq<char>| #[trigger]
                after.tokens.dom().contains(other) implies exists|i: int|
                token_at(self.tokens@, i, other) by {
                if other == token {
                    assert(token_at(self.tokens@, before.len() as int, other));
                } else {
                    let i = choose|i: int| token_at(before, i, other);
                    assert(token_at(self.tokens@, i, other));
                }
            }
            assert forall|i: int| 0 <= i < self.tokens@.len() implies {
                &&& after.tokens.dom().contains((#[trigger] self.tokens@[i]).subscription_token@)
                &&& after.tokens[self.tokens@[i].subscription_token@]
                    == self.tokens@[i].subscriber_id
            } by {}
        }
        true
    }

    /// A copy of the tables, with the same rows.
    pub fn duplicate(&self) -> (copy: Tables)
        requires
            self.wf(),
        ensures
            copy.wf(),
            copy@ == self@,
    {
        let mut subscribers: Vec<SubscriberRecord> = Vec::new();
        let mut i: usize = 0;
        while i < self.subscribers.len()
            invariant
                i <= self.subscribers@.len(),
                subscribers@.len() == i,
                forall|j: int| 0 <= j < i ==> subscribers@[j] == self.subscribers@[j],
            decreases self.subscribers@.len() - i,
        {
            let record = &self.subscribers[i];
            subscribers.push(
                SubscriberRecord {
                    id: record.id,
                    email: record.email.clone(),
                    name: record.name.clone(),
                    subscribed_at: record.subscribed_at,
                    status: record.status,
                },
            );
            i += 1;
        }
        let mut tokens: Vec<TokenRecord> = Vec::new();
        let mut k: usize = 0;
        while k < self.tokens.len()
            invariant
                k <= self.tokens@.len(),
                tokens@.len() == k,
                forall|j: int| 0 <= j < k ==> tokens@[j] == self.tokens@[j],
            decreases self.tokens@.len() - k,
        {
            let record = &self.tokens[k];
            tokens.push(
                TokenRecord {
                    subscription_token: record.subscription_token.clone(),
                    subscriber_id: record.subscriber_id,
                },
            );
            k += 1;
        }
        let copy = Tables { subscribers, tokens, model: Ghost(self.model@) };
        proof {
            assert forall|email: Seq<char>| #[trigger]
                copy.model@.subscribers.dom().contains(email) implies exists|i: int|
                email_at(copy.subscribers@, i, email) by {
                let i = choose|i: int| email_at(self.subscribers@, i, email);
                assert(email_at(copy.subscribers@, i, email));
            }
            assert forall|token: Seq<char>| #[trigger]
                copy.model@.tokens.dom().contains(token) implies exists|i: int|
                token_at(copy.tokens@, i, token) by {
                let i = choose|i: int| token_at(self.tokens@, i, token);
                assert(token_at(copy.tokens@, i, token));
            }
        }
        copy
    }
}

} // verus!
