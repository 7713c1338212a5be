//! The service in memory: the two workflows, run against tables held in
//! memory and an outbox that keeps each confirmation email in place of
//! sending it.
//!
//! A subscription request works on a copy of the tables, as a transaction
//! would, and the copy replaces the tables only when the request commits: a
//! request that fails at the store leaves the tables as they were.

use vstd::prelude::*;
use crate::domain::new_subscriber::NewSubscriberView;
use crate::domain::subscriber_id::{SubscriberId, is_random_uuid};
use crate::domain::subscriber_status::SubscriberState;
use crate::domain::subscription_token::{
    SubscriptionToken,
    TOKEN_LENGTH,
    invalid_token_message,
    valid_token,
};
use crate::domain::timestamp::{NANOSECONDS_PER_SECOND, Timestamp};
use crate::routes::errors::{
    ConfirmationError,
    ConfirmationErrorView,
    SubscribeError,
    SubscribeErrorView,
};
use crate::routes::subscriptions::{
    ConfirmationEmail,
    ConfirmationEmailView,
    FormData,
    SubscribeEvent,
    SubscribeEventView,
    Subscription,
    SubscriptionView,
    confirmation_email,
    confirmation_email_of,
    insert_failure,
    invalid_form_message,
    subscribe_result_view,
    subscription_after,
    started_with_draws,
    steps_left,
    subscription_started,
    token_failure,
    valid_form,
};
use crate::routes::subscriptions_confirm::{
    ConfirmEvent,
    Confirmation,
    Parameters,
    confirm_result_view,
};
use crate::store::{SubscriberRecord, SubscriberRow, Tables, TablesView, TokenRecord};

verus! {

/// What the service holds between two requests.
pub struct NewsletterView {
    pub store: TablesView,
    pub outbox: Seq<ConfirmationEmailView>,
    pub base_url: Seq<char>,
}

/// The row under which a new subscriber is inserted.
pub open spec fn pending_row(
    form: NewSubscriberView,
    id: SubscriberId,
    subscribed_at: Timestamp,
) -> SubscriberRow {
    SubscriberRow { id, name: form.name, subscribed_at, status: SubscriberState::Pending }
}

/// The service after the token has been stored for the subscriber and the
/// confirmation email has been put in the outbox; or, where the token is
/// taken, the service as it was before the request.
pub open spec fn token_issued(
    before: NewsletterView,
    store: TablesView,
    email: Seq<char>,
    id: SubscriberId,
    token: Seq<char>,
) -> (NewsletterView, Result<(), SubscribeErrorView>) {
    if store.has_token(token) {
        (before, Err(SubscribeErrorView::StoreFailure(token_failure())))
    } else {
        (
            NewsletterView {
                store: store.insert_token(token, id),
                outbox: before.outbox.push(confirmation_email_of(email, before.base_url, token)),
                base_url: before.base_url,
            },
            Ok(()),
        )
    }
}

/// What a subscription request does to the service and how it is answered,
/// given the identity, the instant and the token that it draws.
pub open spec fn subscribe_outcome(
    before: NewsletterView,
    form: NewSubscriberView,
    id: SubscriberId,
    subscribed_at: Timestamp,
    token: Seq<char>,
) -> (NewsletterView, Result<(), SubscribeErrorView>) {
    if !valid_form(form) {
        (before, Err(SubscribeErrorView::ValidationError(invalid_form_message(form))))
    } else if before.store.accepts_subscriber(form.email, id) {
        token_issued(
            before,
            before.store.insert_subscriber(form.email, pending_row(form, id, subscribed_at)),
            form.email,
            id,
            token,
        )
    } else {
        match before.store.find_subscriber_by_email(form.email) {
            None => (before, Err(SubscribeErrorView::StoreFailure(insert_failure()))),
            Some(found) => {
                if found.status == SubscriberState::Active {
                    (before, Ok(()))
                } else {
                    token_issued(
                        before,
                        before.store.set_subscriber_status(found.id, SubscriberState::Pending),
                        form.email,
                        found.id,
                        token,
                    )
                }
            },
        }
    }
}

/// What a confirmation request does to the service and how it is answered.
pub open spec fn confirm_outcome(before: NewsletterView, subscription_token: Seq<char>) -> (
    NewsletterView,
    Result<(), ConfirmationErrorView>,
) {
    if !valid_token(subscription_token) {
        (
            before,
            Err(ConfirmationErrorView::ValidationError(invalid_token_message(subscription_token))),
        )
    } else {
        match before.store.find_subscriber_id_by_token(subscription_token) {
            None => (before, Err(ConfirmationErrorView::UnknownToken)),
            Some(id) => (
                NewsletterView {
                    store: before.store.set_subscriber_status(id, SubscriberState::Active),
                    outbox: before.outbox,
                    base_url: before.base_url,
                },
                Ok(()),
            ),
        }
    }
}

/// The views of the emails in an outbox.
pub open spec fn outbox_view(outbox: Seq<ConfirmationEmail>) -> Seq<ConfirmationEmailView> {
    Seq::new(outbox.len(), |i: int| outbox[i]@)
}

/// The service, with the transaction of the request at hand.
struct Transient {
    committed: TablesView,
    working: Option<TablesView>,
    outbox: Seq<ConfirmationEmailView>,
    base_url: Seq<char>,
}

/// The service as a request leaves it: an open transaction is abandoned.
spec fn settled(world: Transient) -> NewsletterView {
    NewsletterView { store: world.committed, outbox: world.outbox, base_url: world.base_url }
}

/// What the operation of `state` does to the service, and what it reports.
spec fn subscribe_operation(world: Transient, state: SubscriptionView, fresh: Seq<char>) -> (
    Transient,
    SubscribeEventView,
) {
    match state {
        SubscriptionView::InsertSubscriber { subscriber, id, subscribed_at, status } => {
            if world.committed.accepts_subscriber(subscriber.email, id) {
                (
                    Transient {
                        committed: world.committed,
                        working: Some(
                            world.committed.insert_subscriber(
                                subscriber.email,
                                SubscriberRow { id, name: subscriber.name, subscribed_at, status },
                            ),
                        ),
                        outbox: world.outbox,
                        base_url: world.base_url,
                    },
                    SubscribeEventView::Completed,
                )
            } else {
                (
                    Transient {
                        committed: world.committed,
                        working: Some(world.committed),
                        outbox: world.outbox,
                        base_url: world.base_url,
                    },
                    SubscribeEventView::Failed,
                )
            }
        },
        SubscriptionView::FindSubscriberByEmail { subscriber } => {
            match world.committed.find_subscriber_by_email(subscriber.email) {
                Some(found) => (world, SubscribeEventView::Found(found)),
                None => (world, SubscribeEventView::NotFound),
            }
        },
        SubscriptionView::SetSubscriberStatus { subscriber, id, status } => {
            (
                Transient {
                    committed: world.committed,
                    working: Some(world.committed.set_subscriber_status(id, status)),
                    outbox: world.outbox,
                    base_url: world.base_url,
                },
                SubscribeEventView::Completed,
            )
        },
        SubscriptionView::IssueToken { subscriber, id } => {
            (world, SubscribeEventView::TokenIssued(fresh))
        },
        SubscriptionView::InsertToken { subscriber, id, token } => {
            match world.working {
                Some(tables) => {
                    if tables.has_token(token) {
                        (world, SubscribeEventView::Failed)
                    } else {
                        (
                            Transient {
                                committed: world.committed,
                                working: Some(tables.insert_token(token, id)),
                                outbox: world.outbox,
                                base_url: world.base_url,
                            },
                            SubscribeEventView::Completed,
                        )
                    }
                },
                None => (world, SubscribeEventView::Failed),
            }
        },
        SubscriptionView::Commit { subscriber, token } => {
            match world.working {
                Some(tables) => (
                    Transient {
                        committed: tables,
                        working: None,
                        outbox: world.outbox,
                        base_url: world.base_url,
                    },
                    SubscribeEventView::Completed,
                ),
                None => (world, SubscribeEventView::Failed),
            }
        },
        SubscriptionView::Notify { subscriber, token } => {
            (
                Transient {
                    committed: world.committed,
                    working: world.working,
                    outbox: world.outbox.push(
                        confirmation_email_of(subscriber.email, world.base_url, token),
                    ),
                    base_url: world.base_url,
                },
                SubscribeEventView::Completed,
            )
        },
        SubscriptionView::Finished(_) => (world, SubscribeEventView::Completed),
    }
}

/// Where a request in `state` ends when each of its operations is performed
/// on the service.
spec fn subscription_run(world: Transient, state: SubscriptionView, fresh: Seq<char>) -> (
    NewsletterView,
    Result<(), SubscribeErrorView>,
)
    decreases steps_left(state),
{
    match state {
        SubscriptionView::Finished(result) => (settled(world), result),
        _ => {
            let (next, event) = subscribe_operation(world, state, fresh);
            subscription_run(next, subscription_after(state, event), fresh)
        },
    }
}

/// Whether `token` may be the token of a request: the one supplied, or else
/// any fresh token of `TOKEN_LENGTH` characters.
spec fn issued_for(supplied: Option<SubscriptionToken>, token: Seq<char>) -> bool {
    match supplied {
        Some(given) => token == given@,
        None => valid_token(token) && token.len() == TOKEN_LENGTH,
    }
}

/// One token of `TOKEN_LENGTH` characters.
spec fn some_fresh_token() -> Seq<char> {
    Seq::new(TOKEN_LENGTH as nat, |k: int| 'a')
}

/// Whether a request for a valid `form` that drew `id`, read `subscribed_at`
/// from the clock and had `token` to issue took the service from `before` to
/// `after` and was answered by `result`.
pub open spec fn subscribed_with_draws(
    before: NewsletterView,
    form: NewSubscriberView,
    id: SubscriberId,
    subscribed_at: Timestamp,
    token: Seq<char>,
    after: NewsletterView,
    result: Result<(), SubscribeErrorView>,
) -> bool {
    &&& is_random_uuid(id.value)
    &&& subscribed_at.nanoseconds < NANOSECONDS_PER_SECOND
    &&& valid_token(token)
    &&& token.len() == TOKEN_LENGTH
    &&& (after, result) == subscribe_outcome(before, form, id, subscribed_at, token)
}

/// A request that starts with no transaction open ends as `subscribe_outcome` says.
proof fn subscription_run_is_outcome(
    before: NewsletterView,
    form: NewSubscriberView,
    id: SubscriberId,
    subscribed_at: Timestamp,
    token: Seq<char>,
)
    ensures
        subscription_run(
            Transient {
                committed: before.store,
                working: None,
                outbox: before.outbox,
                base_url: before.base_url,
            },
            subscription_started(form, id, subscribed_at),
            token,
        ) == subscribe_outcome(before, form, id, subscribed_at, token),
{
    reveal_with_fuel(subscription_run, 8);
}

/// The newsletter service in memory.
pub struct Newsletter {
    committed: Tables,
    working: Option<Tables>,
    outbox: Vec<ConfirmationEmail>,
    base_url: String,
}

impl View for Newsletter {
    type V = NewsletterView;

    closed spec fn view(&self) -> NewsletterView {
        NewsletterView {
            store: self.committed@,
            outbox: outbox_view(self.outbox@),
            base_url: self.base_url@,
        }
    }
}

impl Newsletter {
    /// The tables are well formed and no transaction is open.
    pub closed spec fn wf(&self) -> bool {
        self.committed.wf() && self.working is None
    }

    /// In a well-formed service no two subscribers share an identity.
    pub proof fn identities_are_unique(&self)
        requires
            self.wf(),
        ensures
            self@.store.wf(),
    {
    }

    spec fn wf_within_request(&self) -> bool {
        &&& self.committed.wf()
        &&& self.working matches Some(tables) ==> tables.wf()
    }

    spec fn transient(&self) -> Transient {
        Transient {
            committed: self.committed@,
            working: match self.working {
                Some(tables) => Some(tables@),
                None => None,
            },
            outbox: outbox_view(self.outbox@),
            base_url: self.base_url@,
        }
    }

    /// A service without subscribers, reachable under `base_url`.
    pub fn new(base_url: String) -> (service: Newsletter)
        ensures
            service.wf(),
            service@ == (NewsletterView {
                store: TablesView::empty(),
                outbox: Seq::empty(),
                base_url: base_url@,
            }),
    {
        let service = Newsletter {
            committed: Tables::new(),
            working: None,
            outbox: Vec::new(),
            base_url,
        };
        assert(outbox_view(service.outbox@) =~= Seq::empty());
        service
    }

    /// Performs the operation on the tables or the outbox that `state` asks
    /// for. Drawing a token is not among these: the request itself does that.
    fn perform(&mut self, state: &Subscription) -> (event: SubscribeEvent)
        requires
            old(self).wf_within_request(),
            !(state@ is IssueToken),
        ensures
            final(self).wf_within_request(),
            forall|fresh: Seq<char>|
                (final(self).transient(), event@) == #[trigger] subscribe_operation(
                    old(self).transient(),
                    state@,
                    fresh,
                ),
    {
        match state {
            Subscription::InsertSubscriber { subscriber, id, subscribed_at, status } => {
                let mut tables = self.committed.duplicate();
                let inserted = tables.insert_subscriber(
                    SubscriberRecord {
                        id: *id,
                        email: subscriber.email.as_ref().to_owned(),
                        name: subscriber.name.as_ref().to_owned(),
                        subscribed_at: *subscribed_at,
                        status: *status,
                    },
                );
                self.working = Some(tables);
                if inserted {
                    SubscribeEvent::Completed
                } else {
                    SubscribeEvent::Failed
                }
            },
            Subscription::FindSubscriberByEmail { subscriber } => {
                match self.committed.find_subscriber_by_email(subscriber.email.as_ref()) {
                    Some(found) => SubscribeEvent::Found(found),
                    None => SubscribeEvent::NotFound,
                }
            },
            Subscription::SetSubscriberStatus { subscriber, id, status } => {
                let mut tables = self.committed.duplicate();
                tables.set_subscriber_status(*id, *status);
                self.working = Some(tables);
                SubscribeEvent::Completed
            },
            Subscription::IssueToken { subscriber, id } => SubscribeEvent::Completed,
            Subscription::InsertToken { subscriber, id, token } => {
                match &mut self.working {
                    Some(tables) => {
                        let inserted = tables.insert_token(
                            TokenRecord {
                                subscription_token: token.as_ref().to_owned(),
                                subscriber_id: *id,
                            },
                        );
                        if inserted {
                            SubscribeEvent::Completed
                        } else {
                            SubscribeEvent::Failed
                        }
                    },
                    None => SubscribeEvent::Failed,
                }
            },
            Subscription::Commit { subscriber, token } => {
                match self.working.take() {
                    Some(tables) => {
                        self.committed = tables;
                        SubscribeEvent::Completed
                    },
                    None => SubscribeEvent::Failed,
                }
            },
            Subscription::Notify { subscriber, token } => {
                let email = confirmation_email(
                    subscriber,
                    self.base_url.as_str(),
                    token.as_ref(),
                );
                let ghost before = self.outbox@;
                self.outbox.push(email);
                assert(outbox_view(self.outbox@) =~= outbox_view(before).push(email@));
                SubscribeEvent::Completed
            },
            Subscription::Finished(_) => SubscribeEvent::Completed,
        }
    }

    /// Runs a request from `state` to its answer. A token is drawn when the
    /// request asks for one, and not before; where `supplied` holds a token,
    /// that one is issued in place of a drawn one.
    fn run(&mut self, state: Subscription, supplied: Option<SubscriptionToken>) -> (result: Result<
        (),
        SubscribeError,
    >)
        requires
            old(self).wf_within_request(),
        ensures
            final(self).wf(),
            exists|token: Seq<char>|
                issued_for(supplied, token) && (final(self)@, subscribe_result_view(result))
                    == #[trigger] subscription_run(old(self).transient(), state@, token),
    {
        let ghost start = self.transient();
        let ghost request = state@;
        let mut reached = state;
        let mut issued = supplied;
        loop
            invariant
                self.wf_within_request(),
                start == old(self).transient(),
                request == state@,
                match issued {
                    Some(token) => issued_for(supplied, token@) && subscription_run(
                        self.transient(),
                        reached@,
                        token@,
                    ) == subscription_run(start, request, token@),
                    None => supplied is None && forall|token: Seq<char>| #[trigger]
                        subscription_run(self.transient(), reached@, token) == subscription_run(
                            start,
                            request,
                            token,
                        ),
                },
            decreases steps_left(reached@),
        {
            let ghost world = self.transient();
            let ghost current = reached@;
            match reached {
                Subscription::Finished(result) => {
                    let ghost token = match issued {
                        Some(token) => token@,
                        None => some_fresh_token(),
                    };
                    assert(subscription_run(world, current, token) == subscription_run(
                        start,
                        request,
                        token,
                    ));
                    self.working = None;
                    assert(self@ == settled(world));
                    assert(issued_for(supplied, token) && (self@, subscribe_result_view(result))
                        == subscription_run(old(self).transient(), state@, token));
                    return result;
                },
                Subscription::IssueToken { subscriber, id } => {
                    let fresh = match issued {
                        Some(token) => token,
                        None => SubscriptionToken::generate(),
                    };
                    assert(subscription_run(world, current, fresh@) == subscription_run(
                        start,
                        request,
                        fresh@,
                    ));
                    issued = Some(fresh.clone());
                    reached = Subscription::IssueToken { subscriber, id }.advance(
                        SubscribeEvent::TokenIssued(fresh),
                    );
                    assert(subscribe_operation(world, current, fresh@) == (
                        world,
                        SubscribeEventView::TokenIssued(fresh@),
                    ));
                },
                pending => {
                    let event = self.perform(&pending);
                    reached = pending.advance(event);
                    assert forall|token: Seq<char>|
                        subscription_run(world, current, token) == #[trigger] subscription_run(
                            self.transient(),
                            reached@,
                            token,
                        ) by {
                        assert(subscribe_operation(world, current, token) == (
                            self.transient(),
                            event@,
                        ));
                    }
                },
            }
        }
    }

    /// Handles a subscription request with the identity, the instant and the
    /// token that it is to use where it needs them.
    pub fn subscribe_with(
        &mut self,
        form: FormData,
        id: SubscriberId,
        subscribed_at: Timestamp,
        token: SubscriptionToken,
    ) -> (result: Result<(), SubscribeError>)
        requires
            old(self).wf(),
        ensures
            final(self).wf(),
            (final(self)@, subscribe_result_view(result)) == subscribe_outcome(
                old(self)@,
                form@,
                id,
                subscribed_at,
                token@,
            ),
    {
        proof {
            subscription_run_is_outcome(old(self)@, form@, id, subscribed_at, token@);
        }
        let state = Subscription::start_with(form, id, subscribed_at);
        self.run(state, Some(token))
    }

    /// Handles a subscription request. A malformed form is refused before
    /// anything is drawn. For a valid form the request draws a random
    /// identity and reads the clock; it draws a token, of `TOKEN_LENGTH`
    /// characters, only when it comes to issue one, so none is drawn for a
    /// subscriber who is active already.
    pub fn subscribe(&mut self, form: FormData) -> (result: Result<(), SubscribeError>)
        requires
            old(self).wf(),
        ensures
            final(self).wf(),
            !valid_form(form@) ==> final(self)@ == old(self)@ && subscribe_result_view(result)
                == Err::<(), SubscribeErrorView>(
                SubscribeErrorView::ValidationError(invalid_form_message(form@)),
            ),
            valid_form(form@) ==> exists|id: SubscriberId, subscribed_at: Timestamp, token: Seq<char>|
                subscribed_with_draws(
                    old(self)@,
                    form@,
                    id,
                    subscribed_at,
                    token,
                    final(self)@,
                    subscribe_result_view(result),
                ),
    {
        let state = Subscription::start(form);
        let ghost started = state@;
        let result = self.run(state, None);
        proof {
            let token = choose|token: Seq<char>|
                issued_for(None, token) && (self@, subscribe_result_view(result))
                    == #[trigger] subscription_run(old(self).transient(), started, token);
            if valid_form(form@) {
                let (id, subscribed_at) = choose|id: SubscriberId, subscribed_at: Timestamp|
                    started_with_draws(started, form@, id, subscribed_at);
                subscription_run_is_outcome(old(self)@, form@, id, subscribed_at, token);
                assert(subscribed_with_draws(
                    old(self)@,
                    form@,
                    id,
                    subscribed_at,
                    token,
                    self@,
                    subscribe_result_view(result),
                ));
            } else {
                reveal_with_fuel(subscription_run, 2);
            }
        }
        result
    }

    /// Handles a confirmation request.
    pub fn confirm(&mut self, parameters: Parameters) -> (result: Result<(), ConfirmationError>)
        requires
            old(self).wf(),
        ensures
            final(self).wf(),
            (final(self)@, confirm_result_view(result)) == confirm_outcome(
                old(self)@,
                parameters@,
            ),
    {
        let state = Confirmation::start(parameters);
        let state = match state {
            Confirmation::FindSubscriberIdByToken { token } => {
                let event = match self.committed.find_subscriber_id_by_token(token.as_ref()) {
                    Some(id) => ConfirmEvent::Found(id),
                    None => ConfirmEvent::NotFound,
                };
                Confirmation::FindSubscriberIdByToken { token }.advance(event)
            },
            other => other,
        };
        let state = match state {
            Confirmation::SetSubscriberStatus { id, status } => {
                self.committed.set_subscriber_status(id, status);
                Confirmation::SetSubscriberStatus { id, status }.advance(ConfirmEvent::Completed)
            },
            other => other,
        };
        match state {
            Confirmation::Finished(result) => result,
            _ => Ok(()),
        }
    }

    /// The status of the subscriber with this email address.
    pub fn status_of(&self, email: &str) -> (status: Option<SubscriberState>)
        requires
            self.wf(),
        ensures
            status == self@.store.status_of(email@),
    {
        match self.committed.find_subscriber_by_email(email) {
            Some(found) => Some(found.status),
            None => None,
        }
    }

    /// The confirmation emails handed over so far, oldest first.
    pub fn outbox(&self) -> (emails: &Vec<ConfirmationEmail>)
        ensures
            outbox_view(emails@) == self@.outbox,
    {
        &self.outbox
    }
}

} // verus!
