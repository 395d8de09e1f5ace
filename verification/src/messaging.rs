//! The messaging adapter: the one topic that the node is subscribed to, and
//! what is published to it.

use vstd::prelude::*;
use crate::text::concat4;
use crate::topics::{check_topic, is_allowed_topic};

verus! {

/// Why nothing could be published.
#[derive(Debug, Clone, Copy, PartialEq, Eq, Structural)]
pub enum PublishError {
    /// No topic is subscribed.
    NoTopic,
}

/// A payload on its way to a topic.
#[derive(Debug, PartialEq, Eq)]
pub struct Publication {
    pub topic: String,
    pub payload: Vec<u8>,
}

/// What became of a request to join a topic.
#[derive(Debug, PartialEq, Eq)]
pub enum JoinOutcome {
    /// The topic is now the current one; `left` is the topic that was
    /// current before.
    Joined { left: Option<String> },
    /// The topic is not on the allow-list; nothing changed.
    Rejected,
}

pub enum JoinOutcomeView {
    Joined { left: Option<Seq<char>> },
    Rejected,
}

impl View for JoinOutcome {
    type V = JoinOutcomeView;

    open spec fn view(&self) -> JoinOutcomeView {
        match self {
            JoinOutcome::Joined { left } => JoinOutcomeView::Joined { left: left.deep_view() },
            JoinOutcome::Rejected => JoinOutcomeView::Rejected,
        }
    }
}

/// A chat line as it is published: the topic in brackets, then the line.
pub open spec fn outgoing_text(topic: Seq<char>, line: Seq<char>) -> Seq<char> {
    "["@ + topic + "]: "@ + line
}

/// The current topic after a request to join `topic`.
pub open spec fn topic_after_join(current: Option<Seq<char>>, topic: Seq<char>) -> Option<
    Seq<char>,
> {
    if is_allowed_topic(topic) {
        Some(topic)
    } else {
        current
    }
}

/// The outcome of a request to join `topic`.
pub open spec fn join_outcome(current: Option<Seq<char>>, topic: Seq<char>) -> JoinOutcomeView {
    if is_allowed_topic(topic) {
        JoinOutcomeView::Joined { left: current }
    } else {
        JoinOutcomeView::Rejected
    }
}

/// What publishing `line` sends, and where.
pub open spec fn publication_of(current: Option<Seq<char>>, line: Seq<char>) -> Result<
    (Seq<char>, Seq<u8>),
    PublishError,
> {
    match current {
        Some(topic) => Ok((topic, vstd::utf8::encode_utf8(outgoing_text(topic, line)))),
        None => Err(PublishError::NoTopic),
    }
}

/// What `Messaging::publish` hands back, over views.
pub open spec fn publish_view(r: Result<Publication, PublishError>) -> Result<
    (Seq<char>, Seq<u8>),
    PublishError,
> {
    match r {
        Ok(publication) => Ok((publication.topic@, publication.payload@)),
        Err(e) => Err(e),
    }
}

/// The node's subscription: no topic before the first one is chosen, one
/// topic from then on.
pub struct Messaging {
    current: Option<String>,
}

impl Messaging {
    #[verifier::type_invariant]
    spec fn well_formed(&self) -> bool {
        self.current matches Some(topic) ==> is_allowed_topic(topic@)
    }

    /// The current topic, if one has been chosen.
    pub closed spec fn view(&self) -> Option<Seq<char>> {
        self.current.deep_view()
    }

    /// A node that has not chosen a topic yet.
    pub fn new() -> (messaging: Self)
        ensures
            messaging@ is None,
    {
        Messaging { current: None }
    }

    /// The current topic. It is always one of the allow-list.
    pub fn current(&self) -> (topic: Option<String>)
        ensures
            topic.deep_view() == self@,
            self@ matches Some(t) ==> is_allowed_topic(t),
    {
        proof {
            use_type_invariant(self);
        }
        match &self.current {
            Some(topic) => Some(topic.clone()),
            None => None,
        }
    }

    /// The subscribed topics: none or one.
    pub fn topics(&self) -> (topics: Vec<String>)
        ensures
            topics.len() <= 1,
            topics.deep_view() == (match self@ {
                Some(topic) => seq![topic],
                None => Seq::<Seq<char>>::empty(),
            }),
    {
        let mut topics: Vec<String> = Vec::new();
        match &self.current {
            Some(topic) => {
                topics.push(topic.clone());
            },
            None => {
            },
        }
        topics
    }

    /// Makes `topic` the current topic if it is on the allow-list, and
    /// leaves the subscription as it is if not.
    pub fn join(&mut self, topic: &str) -> (outcome: JoinOutcome)
        ensures
            final(self)@ == topic_after_join(old(self)@, topic@),
            outcome@ == join_outcome(old(self)@, topic@),
    {
        if !check_topic(topic) {
            return JoinOutcome::Rejected;
        }
        let left = self.current();
        self.current = Some(topic.to_owned());
        JoinOutcome::Joined { left }
    }

    /// Wraps a chat line for the current topic.
    pub fn publish(&self, line: &str) -> (r: Result<Publication, PublishError>)
        ensures
            publish_view(r) == publication_of(self@, line@),
    {
        match &self.current {
            Some(topic) => {
                let text = concat4("[", topic.as_str(), "]: ", line);
                Ok(Publication { topic: topic.clone(), payload: text.as_str().as_bytes_vec() })
            },
            None => Err(PublishError::NoTopic),
        }
    }
}

} // verus!
