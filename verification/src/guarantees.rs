//! What the workflows guarantee of the service, whatever it held before.
//!
//! Each statement is about `subscribe_outcome` and `confirm_outcome`, the
//! functions by which `Newsletter::subscribe_with` and `Newsletter::confirm`
//! describe what they do.

use vstd::prelude::*;
use crate::domain::new_subscriber::NewSubscriberView;
use crate::domain::subscriber_id::SubscriberId;
use crate::domain::subscriber_status::{SubscriberState, status_name};
use crate::domain::subscription_token::{invalid_token_message, valid_token};
use crate::domain::timestamp::Timestamp;
use crate::routes::errors::{
    ConfirmationErrorView,
    SubscribeErrorView,
    STATUS_BAD_REQUEST,
    STATUS_OK,
    STATUS_UNAUTHORIZED,
};
use crate::routes::subscriptions::{
    SubscriberStatus,
    confirmation_email_of,
    confirmation_link_of,
    confirmation_path,
    invalid_form_message,
    subscribe_response_status,
    valid_form,
};
use crate::routes::subscriptions_confirm::confirm_response_status;
use crate::service::{NewsletterView, confirm_outcome, pending_row, subscribe_outcome};
use crate::store::{SubscriberRow, TablesView};

verus! {

/// Two tokens that differ are redeemed under links that differ.
pub proof fn links_differ_with_tokens(base_url: Seq<char>, first: Seq<char>, second: Seq<char>)
    requires
        first != second,
    ensures
        confirmation_link_of(base_url, first) != confirmation_link_of(base_url, second),
{
    let prefix = base_url + confirmation_path();
    let one = confirmation_link_of(base_url, first);
    let other = confirmation_link_of(base_url, second);
    if one == other {
        assert(one.subrange(prefix.len() as int, one.len() as int) =~= first);
        assert(other.subrange(prefix.len() as int, other.len() as int) =~= second);
    }
}

/// The first request for an email address, with an identity and a token
/// that are not taken, succeeds. It leaves the subscriber pending, gives the
/// token to the subscriber, and asks for exactly one email, which goes to the
/// address and carries the link that redeems the token.
pub proof fn first_subscription_is_pending(
    before: NewsletterView,
    form: NewSubscriberView,
    id: SubscriberId,
    subscribed_at: Timestamp,
    token: Seq<char>,
)
    requires
        valid_form(form),
        before.store.accepts_subscriber(form.email, id),
        !before.store.has_token(token),
    ensures
        ({
            let (after, result) = subscribe_outcome(before, form, id, subscribed_at, token);
            &&& result is Ok
            &&& after.store.find_subscriber_by_email(form.email) == Some(
                SubscriberStatus { id, status: SubscriberState::Pending },
            )
            &&& after.store.find_subscriber_id_by_token(token) == Some(id)
            &&& after.store.subscribers == before.store.subscribers.insert(
                form.email,
                pending_row(form, id, subscribed_at),
            )
            &&& after.store.tokens == before.store.tokens.insert(token, id)
            &&& after.outbox == before.outbox.push(
                confirmation_email_of(form.email, before.base_url, token),
            )
            &&& after.base_url == before.base_url
        }),
{
}

/// The first request that a new service receives succeeds, whatever
/// identity and token it draws. Afterwards the store holds exactly one
/// subscriber: under the email address of the form, with the name of the
/// form, and pending, which is stored as `pending_confirmation`. It holds
/// exactly one token, the subscriber's, and the outbox holds the one email
/// that carries the link.
pub proof fn first_request_of_a_new_service(
    base_url: Seq<char>,
    form: NewSubscriberView,
    id: SubscriberId,
    subscribed_at: Timestamp,
    token: Seq<char>,
)
    requires
        valid_form(form),
    ensures
        ({
            let before = NewsletterView {
                store: TablesView::empty(),
                outbox: Seq::empty(),
                base_url,
            };
            let (after, result) = subscribe_outcome(before, form, id, subscribed_at, token);
            &&& result is Ok
            &&& after.store.subscribers.dom() == set![form.email]
            &&& after.store.subscribers[form.email] == (SubscriberRow {
                id,
                name: form.name,
                subscribed_at,
                status: SubscriberState::Pending,
            })
            &&& status_name(after.store.subscribers[form.email].status)
                == "pending_confirmation"@
            &&& after.store.status_of(form.email) == Some(SubscriberState::Pending)
            &&& after.store.tokens.dom() == set![token]
            &&& after.store.find_subscriber_id_by_token(token) == Some(id)
            &&& after.outbox == seq![confirmation_email_of(form.email, base_url, token)]
        }),
{
    let before = NewsletterView { store: TablesView::empty(), outbox: Seq::empty(), base_url };
    first_subscription_is_pending(before, form, id, subscribed_at, token);
    let (after, result) = subscribe_outcome(before, form, id, subscribed_at, token);
    assert(after.store.subscribers.dom() =~= set![form.email]);
    assert(after.store.tokens.dom() =~= set![token]);
    assert(before.outbox.push(confirmation_email_of(form.email, base_url, token)) =~= seq![
        confirmation_email_of(form.email, base_url, token),
    ]);
}

/// A request for the email address of a subscriber who is not active, with a
/// token that is not taken, succeeds. It leaves the subscriber pending under
/// the identity the subscriber had, gives the new token to the subscriber
/// beside the tokens issued before, and asks for one more email.
pub proof fn resubscription_issues_another_token(
    before: NewsletterView,
    form: NewSubscriberView,
    id: SubscriberId,
    subscribed_at: Timestamp,
    token: Seq<char>,
)
    requires
        valid_form(form),
        before.store.has_email(form.email),
        before.store.status_of(form.email) != Some(SubscriberState::Active),
        !before.store.has_token(token),
    ensures
        ({
            let (after, result) = subscribe_outcome(before, form, id, subscribed_at, token);
            let owner = before.store.subscribers[form.email].id;
            &&& result is Ok
            &&& after.store.find_subscriber_by_email(form.email) == Some(
                SubscriberStatus { id: owner, status: SubscriberState::Pending },
            )
            &&& after.store.find_subscriber_id_by_token(token) == Some(owner)
            &&& forall|earlier: Seq<char>| #[trigger]
                before.store.has_token(earlier) ==> earlier != token
                    && after.store.find_subscriber_id_by_token(earlier)
                    == before.store.find_subscriber_id_by_token(earlier)
            &&& after.outbox == before.outbox.push(
                confirmation_email_of(form.email, before.base_url, token),
            )
        }),
{
}

/// Two requests in a row for a new email address, the second with another
/// token than the first, both succeed. Together they ask for two emails with
/// two different links, and both tokens belong to the one subscriber, who is
/// pending.
pub proof fn subscribing_twice_sends_two_emails(
    before: NewsletterView,
    form: NewSubscriberView,
    first_id: SubscriberId,
    first_instant: Timestamp,
    first_token: Seq<char>,
    second_id: SubscriberId,
    second_instant: Timestamp,
    second_token: Seq<char>,
)
    requires
        valid_form(form),
        before.store.accepts_subscriber(form.email, first_id),
        !before.store.has_token(first_token),
        !before.store.has_token(second_token),
        first_token != second_token,
    ensures
        ({
            let (between, first) = subscribe_outcome(
                before,
                form,
                first_id,
                first_instant,
                first_token,
            );
            let (after, second) = subscribe_outcome(
                between,
                form,
                second_id,
                second_instant,
                second_token,
            );
            let first_email = confirmation_email_of(form.email, before.base_url, first_token);
            let second_email = confirmation_email_of(form.email, before.base_url, second_token);
            &&& first is Ok
            &&& second is Ok
            &&& after.outbox == before.outbox.push(first_email).push(second_email)
            &&& first_email.confirmation_link != second_email.confirmation_link
            &&& after.store.find_subscriber_by_email(form.email) == Some(
                SubscriberStatus { id: first_id, status: SubscriberState::Pending },
            )
            &&& after.store.find_subscriber_id_by_token(first_token) == Some(first_id)
            &&& after.store.find_subscriber_id_by_token(second_token) == Some(first_id)
        }),
{
    links_differ_with_tokens(before.base_url, first_token, second_token);
    first_subscription_is_pending(before, form, first_id, first_instant, first_token);
    let (between, first) = subscribe_outcome(before, form, first_id, first_instant, first_token);
    resubscription_issues_another_token(between, form, second_id, second_instant, second_token);
}

/// A request for the email address of an active subscriber succeeds and
/// changes nothing: no status, no token, no email.
pub proof fn resubscription_of_active_subscriber_changes_nothing(
    before: NewsletterView,
    form: NewSubscriberView,
    id: SubscriberId,
    subscribed_at: Timestamp,
    token: Seq<char>,
)
    requires
        valid_form(form),
        before.store.status_of(form.email) == Some(SubscriberState::Active),
    ensures
        subscribe_outcome(before, form, id, subscribed_at, token) == (
            before,
            Ok::<(), SubscribeErrorView>(()),
        ),
{
}

/// A request with a malformed name or email address is refused as the
/// client's fault, and changes nothing.
pub proof fn invalid_form_is_refused(
    before: NewsletterView,
    form: NewSubscriberView,
    id: SubscriberId,
    subscribed_at: Timestamp,
    token: Seq<char>,
)
    requires
        !valid_form(form),
    ensures
        ({
            let (after, result) = subscribe_outcome(before, form, id, subscribed_at, token);
            &&& after == before
            &&& result == Err::<(), SubscribeErrorView>(
                SubscribeErrorView::ValidationError(invalid_form_message(form)),
            )
            &&& subscribe_response_status(result) == STATUS_BAD_REQUEST
        }),
{
}

/// A subscription request that fails leaves the service as it was.
pub proof fn failed_subscription_changes_nothing(
    before: NewsletterView,
    form: NewSubscriberView,
    id: SubscriberId,
    subscribed_at: Timestamp,
    token: Seq<char>,
)
    ensures
        ({
            let (after, result) = subscribe_outcome(before, form, id, subscribed_at, token);
            result is Err ==> after == before
        }),
{
}

/// No subscription request moves a subscriber out of `Active`, takes a
/// subscriber away, gives a stored token to another subscriber, or gives two
/// subscribers one identity.
pub proof fn subscription_preserves_history(
    before: NewsletterView,
    form: NewSubscriberView,
    id: SubscriberId,
    subscribed_at: Timestamp,
    token: Seq<char>,
)
    requires
        before.store.wf(),
    ensures
        ({
            let (after, result) = subscribe_outcome(before, form, id, subscribed_at, token);
            &&& after.store.wf()
            &&& forall|email: Seq<char>| #[trigger]
                before.store.has_email(email) ==> after.store.has_email(email)
                    && after.store.subscribers[email].id == before.store.subscribers[email].id
            &&& forall|email: Seq<char>|
                before.store.status_of(email) == Some(SubscriberState::Active)
                    ==> #[trigger] after.store.status_of(email) == Some(SubscriberState::Active)
            &&& forall|email: Seq<char>| #[trigger]
                before.store.has_email(email) ==> {
                    ||| after.store.status_of(email) == before.store.status_of(email)
                    ||| email == form.email && after.store.status_of(email) == Some(
                        SubscriberState::Pending,
                    )
                }
            &&& forall|stored: Seq<char>| #[trigger]
                before.store.has_token(stored) ==> after.store.find_subscriber_id_by_token(stored)
                    == before.store.find_subscriber_id_by_token(stored)
        }),
{
}

/// No confirmation request moves a subscriber out of `Active`, takes a
/// subscriber away, changes the tokens, asks for an email, or gives two
/// subscribers one identity.
pub proof fn confirmation_preserves_history(before: NewsletterView, subscription_token: Seq<char>)
    requires
        before.store.wf(),
    ensures
        ({
            let (after, result) = confirm_outcome(before, subscription_token);
            &&& after.store.wf()
            &&& forall|email: Seq<char>| #[trigger]
                before.store.has_email(email) ==> after.store.has_email(email)
                    && after.store.subscribers[email].id == before.store.subscribers[email].id
            &&& forall|email: Seq<char>|
                before.store.status_of(email) == Some(SubscriberState::Active)
                    ==> #[trigger] after.store.status_of(email) == Some(SubscriberState::Active)
            &&& forall|email: Seq<char>| #[trigger]
                before.store.has_email(email) ==> {
                    ||| after.store.status_of(email) == before.store.status_of(email)
                    ||| after.store.status_of(email) == Some(SubscriberState::Active)
                }
            &&& after.store.tokens == before.store.tokens
            &&& after.outbox == before.outbox
        }),
{
}

/// A confirmation request with a malformed token is refused as the client's
/// fault, and changes nothing.
pub proof fn malformed_token_is_refused(before: NewsletterView, subscription_token: Seq<char>)
    requires
        !valid_token(subscription_token),
    ensures
        ({
            let (after, result) = confirm_outcome(before, subscription_token);
            &&& after == before
            &&& result == Err::<(), ConfirmationErrorView>(
                ConfirmationErrorView::ValidationError(invalid_token_message(subscription_token)),
            )
            &&& confirm_response_status(result) == STATUS_BAD_REQUEST
        }),
{
}

/// A confirmation request with a well-formed token that the store does not
/// know is refused as unknown, apart from a malformed one, and changes nothing.
pub proof fn unknown_token_is_refused(before: NewsletterView, subscription_token: Seq<char>)
    requires
        valid_token(subscription_token),
        !before.store.has_token(subscription_token),
    ensures
        ({
            let (after, result) = confirm_outcome(before, subscription_token);
            &&& after == before
            &&& result == Err::<(), ConfirmationErrorView>(ConfirmationErrorView::UnknownToken)
            &&& confirm_response_status(result) == STATUS_UNAUTHORIZED
        }),
{
}

/// A confirmation request with the token of a subscriber succeeds and
/// leaves the subscriber active; the same request once more succeeds and
/// changes nothing.
pub proof fn confirmation_activates_once(
    before: NewsletterView,
    subscription_token: Seq<char>,
    email: Seq<char>,
)
    requires
        valid_token(subscription_token),
        before.store.has_token(subscription_token),
        before.store.has_email(email),
        before.store.subscribers[email].id == before.store.tokens[subscription_token],
    ensures
        ({
            let (after, result) = confirm_outcome(before, subscription_token);
            &&& result is Ok
            &&& confirm_response_status(result) == STATUS_OK
            &&& after.store.status_of(email) == Some(SubscriberState::Active)
            &&& confirm_outcome(after, subscription_token) == (
                after,
                Ok::<(), ConfirmationErrorView>(()),
            )
        }),
{
    let (after, result) = confirm_outcome(before, subscription_token);
    let (again, repeated) = confirm_outcome(after, subscription_token);
    assert(again.store.subscribers =~= after.store.subscribers);
}

/// A confirmation request changes the status of no subscriber but the one
/// who owns the token.
pub proof fn confirmation_touches_only_the_owner(
    before: NewsletterView,
    subscription_token: Seq<char>,
    email: Seq<char>,
)
    requires
        before.store.has_email(email),
        before.store.find_subscriber_id_by_token(subscription_token) != Some(
            before.store.subscribers[email].id,
        ),
    ensures
        confirm_outcome(before, subscription_token).0.store.subscribers[email]
            == before.store.subscribers[email],
{
}

/// From request to active subscriber: a first request leaves the subscriber
/// pending; redeeming the token that it issued leaves the subscriber active;
/// a further request for the same email address then succeeds and changes
/// nothing, whatever identity and token it draws.
pub proof fn subscribe_confirm_subscribe(
    before: NewsletterView,
    form: NewSubscriberView,
    id: SubscriberId,
    subscribed_at: Timestamp,
    token: Seq<char>,
    later_id: SubscriberId,
    later_instant: Timestamp,
    later_token: Seq<char>,
)
    requires
        valid_form(form),
        valid_token(token),
        before.store.accepts_subscriber(form.email, id),
        !before.store.has_token(token),
    ensures
        ({
            let (subscribed, first) = subscribe_outcome(before, form, id, subscribed_at, token);
            let (confirmed, second) = confirm_outcome(subscribed, token);
            let (after, third) = subscribe_outcome(
                confirmed,
                form,
                later_id,
                later_instant,
                later_token,
            );
            &&& first is Ok
            &&& subscribed.store.status_of(form.email) == Some(SubscriberState::Pending)
            &&& second is Ok
            &&& confirmed.store.status_of(form.email) == Some(SubscriberState::Active)
            &&& third is Ok
            &&& after == confirmed
            &&& after.outbox == before.outbox.push(
                confirmation_email_of(form.email, before.base_url, token),
            )
        }),
{
    first_subscription_is_pending(before, form, id, subscribed_at, token);
    let (subscribed, first) = subscribe_outcome(before, form, id, subscribed_at, token);
    confirmation_activates_once(subscribed, token, form.email);
    let (confirmed, second) = confirm_outcome(subscribed, token);
    resubscription_of_active_subscriber_changes_nothing(
        confirmed,
        form,
        later_id,
        later_instant,
        later_token,
    );
}

} // verus!
