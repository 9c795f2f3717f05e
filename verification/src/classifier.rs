//! The event classifier: a total function from an event to the decision
//! whether the reactor should amplify the post it concerns.
//!
//! An event is acted upon exactly when it is a notification of kind
//! mention, carries a subject post, and originates from an account whose
//! profile URL starts with the configured trusted-origin prefix.

use vstd::prelude::*;
use crate::is_prefix_of;
use crate::has_prefix;
use crate::model::{Event, Notification, NotificationKind};

verus! {

/// What the classifier hands the reactor when an event is acted upon.
#[derive(Debug)]
pub struct ReactionRequest {
    /// The subject post to amplify.
    pub post_id: String,
    /// The profile URL of the account the mention came from.
    pub origin_url: String,
}

/// The mathematical content of a [`ReactionRequest`].
pub struct ReactionRequestView {
    pub post_id: Seq<char>,
    pub origin_url: Seq<char>,
}

impl View for ReactionRequest {
    type V = ReactionRequestView;

    open spec fn view(&self) -> ReactionRequestView {
        ReactionRequestView { post_id: self.post_id@, origin_url: self.origin_url@ }
    }
}

/// The classifier's verdict on one event.
#[derive(Debug)]
pub enum ReactionDecision {
    /// The event is a trusted mention of a post: amplify it.
    Act(ReactionRequest),
    /// Anything else: skip the event, which is never an error.
    Ignore,
}

/// A notification that triggers a reaction: a mention, with a subject
/// post, from an account whose profile URL starts with `trusted`.
pub open spec fn is_trusted_mention(n: Notification, trusted: Seq<char>) -> bool {
    &&& n.kind is Mention
    &&& n.subject_post is Some
    &&& is_prefix_of(trusted, n.origin_account.profile_url@)
}

/// An event the classifier decides to act on.
pub open spec fn acts_on(event: Event, trusted: Seq<char>) -> bool {
    event matches Event::Notification(n) && is_trusted_mention(n, trusted)
}

/// The request an acted-upon event gives rise to.
pub open spec fn request_of(event: Event) -> ReactionRequestView
    recommends
        event matches Event::Notification(n) && n.subject_post is Some,
{
    ReactionRequestView {
        post_id: event->Notification_0.subject_post->Some_0.id@,
        origin_url: event->Notification_0.origin_account.profile_url@,
    }
}

/// Classifies one event against the trusted-origin prefix. Total: every
/// event gets a decision, and only a trusted mention with a subject post
/// gets `Act`, carrying that post's id and the mention's origin URL.
pub fn classify(event: &Event, trusted_origin: &str) -> (d: ReactionDecision)
    ensures
        acts_on(*event, trusted_origin@) ==> {
            &&& d matches ReactionDecision::Act(r)
            &&& r@ == request_of(*event)
        },
        !acts_on(*event, trusted_origin@) ==> d is Ignore,
{
    match event {
        Event::Notification(n) => {
            if matches!(n.kind, NotificationKind::Mention) {
                match &n.subject_post {
                    Some(post) => {
                        if has_prefix(n.origin_account.profile_url.as_str(), trusted_origin) {
                            ReactionDecision::Act(ReactionRequest {
                                post_id: post.id.clone(),
                                origin_url: n.origin_account.profile_url.clone(),
                            })
                        } else {
                            ReactionDecision::Ignore
                        }
                    },
                    None => ReactionDecision::Ignore,
                }
            } else {
                ReactionDecision::Ignore
            }
        },
        Event::Other => ReactionDecision::Ignore,
    }
}

/// The requests that a sequence of events gives rise to, in the order
/// the events arrive: one request per acted-upon event, nothing else.
pub open spec fn act_requests(events: Seq<Event>, trusted: Seq<char>) -> Seq<ReactionRequestView>
    decreases events.len(),
{
    if events.len() == 0 {
        Seq::empty()
    } else {
        let prefix = act_requests(events.drop_last(), trusted);
        if acts_on(events.last(), trusted) {
            prefix.push(request_of(events.last()))
        } else {
            prefix
        }
    }
}

/// Classifies a batch of events in arrival order and returns the
/// requests for exactly the acted-upon ones.
pub fn collect_actions(events: &Vec<Event>, trusted_origin: &str) -> (requests: Vec<
    ReactionRequest,
>)
    ensures
        requests@.map_values(|r: ReactionRequest| r@) == act_requests(events@, trusted_origin@),
{
    let mut requests: Vec<ReactionRequest> = Vec::new();
    let mut i: usize = 0;
    while i < events.len()
        invariant
            i <= events@.len(),
            requests@.map_values(|r: ReactionRequest| r@) == act_requests(
                events@.take(i as int),
                trusted_origin@,
            ),
        decreases events@.len() - i,
    {
        let ghost prev = requests@;
        let d = classify(&events[i], trusted_origin);
        match d {
            ReactionDecision::Act(r) => {
                requests.push(r);
            },
            ReactionDecision::Ignore => {},
        }
        proof {
            let taken = events@.take(i as int + 1);
            assert(taken.drop_last() =~= events@.take(i as int));
            assert(taken.last() == events@[i as int]);
            if acts_on(events@[i as int], trusted_origin@) {
                assert(requests@.map_values(|r: ReactionRequest| r@) =~= prev.map_values(
                    |r: ReactionRequest| r@,
                ).push(requests@.last()@));
            }
        }
        i += 1;
    }
    proof {
        assert(events@.take(events@.len() as int) =~= events@);
    }
    requests
}

/// The requests of a batch are exactly the acted-upon events, in
/// arrival order: nothing that the classifier ignores is ever
/// dispatched, and nothing that it acts on is dropped.
pub proof fn lemma_act_requests_are_the_acted_events(events: Seq<Event>, trusted: Seq<char>)
    ensures
        act_requests(events, trusted) =~= events.filter(
            |e: Event| acts_on(e, trusted),
        ).map_values(|e: Event| request_of(e)),
    decreases events.len(),
{
    reveal(Seq::filter);
    let pred = |e: Event| acts_on(e, trusted);
    let f = |e: Event| request_of(e);
    if events.len() == 0 {
        assert(events.filter(pred).map_values(f) =~= Seq::<ReactionRequestView>::empty());
    } else {
        lemma_act_requests_are_the_acted_events(events.drop_last(), trusted);
        if pred(events.last()) {
            assert(events.filter(pred) == events.drop_last().filter(pred).push(events.last()));
            assert(events.drop_last().filter(pred).push(events.last()).map_values(f)
                =~= events.drop_last().filter(pred).map_values(f).push(f(events.last())));
        } else {
            assert(events.filter(pred) == events.drop_last().filter(pred));
        }
    }
}

/// Each delivered event gives rise to at most one reaction request, so
/// a single pass over a session's events never amplifies one delivery
/// twice.
pub proof fn lemma_at_most_one_request_per_event(events: Seq<Event>, trusted: Seq<char>)
    ensures
        act_requests(events, trusted).len() <= events.len(),
    decreases events.len(),
{
    if events.len() > 0 {
        lemma_at_most_one_request_per_event(events.drop_last(), trusted);
    }
}

/// An event that is not a mention is never acted on, so it never
/// reaches the reactor.
pub proof fn lemma_non_mention_ignored(event: Event, trusted: Seq<char>)
    requires
        event matches Event::Notification(n) ==> !(n.kind is Mention),
    ensures
        !acts_on(event, trusted),
{
}

/// A mention whose origin does not start with the trusted-origin prefix
/// is never acted on.
pub proof fn lemma_untrusted_origin_ignored(n: Notification, trusted: Seq<char>)
    requires
        !is_prefix_of(trusted, n.origin_account.profile_url@),
    ensures
        !acts_on(Event::Notification(n), trusted),
{
}

/// A mention from a trusted origin that carries a subject post is acted
/// on, and the request names exactly that post.
pub proof fn lemma_trusted_mention_acted(n: Notification, trusted: Seq<char>)
    requires
        n.kind is Mention,
        n.subject_post is Some,
        is_prefix_of(trusted, n.origin_account.profile_url@),
    ensures
        acts_on(Event::Notification(n), trusted),
        request_of(Event::Notification(n)).post_id == n.subject_post->Some_0.id@,
{
}

/// A mention from a trusted origin without a subject post is skipped;
/// the classifier still returns a decision, never an error.
pub proof fn lemma_absent_post_ignored(n: Notification, trusted: Seq<char>)
    requires
        n.subject_post is None,
    ensures
        !acts_on(Event::Notification(n), trusted),
{
}

} // verus!
