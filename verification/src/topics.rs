//! The topics a node may subscribe to.

use vstd::prelude::*;
use crate::text::{joined, join_from, str_eq};

verus! {

/// The allow-list, in the order in which it is shown to the user.
pub open spec fn allowed_topic_names() -> Seq<Seq<char>> {
    seq!["chat"@, "movies"@, "books"@, "music"@]
}

/// Whether `topic` is on the allow-list. Topics are case-sensitive.
pub open spec fn is_allowed_topic(topic: Seq<char>) -> bool {
    allowed_topic_names().contains(topic)
}

/// The topic that is joined when the user names none at startup.
pub open spec fn default_topic_name() -> Seq<char> {
    "chat"@
}

/// The line that lists the allow-list.
pub open spec fn allowed_topics_text() -> Seq<char> {
    "Allowed topics: "@ + joined(allowed_topic_names(), ", "@)
}

/// The allow-list as owned strings.
pub fn allowed_topics() -> (topics: Vec<String>)
    ensures
        topics.deep_view() == allowed_topic_names(),
{
    let mut topics: Vec<String> = Vec::new();
    topics.push("chat".to_owned());
    topics.push("movies".to_owned());
    topics.push("books".to_owned());
    topics.push("music".to_owned());
    topics
}

/// Tells whether `topic` may be joined.
pub fn check_topic(topic: &str) -> (allowed: bool)
    ensures
        allowed == is_allowed_topic(topic@),
{
    let topics = allowed_topics();
    let mut i: usize = 0;
    while i < topics.len()
        invariant
            i <= topics.len(),
            topics.deep_view() == allowed_topic_names(),
            forall|k: int| 0 <= k < i ==> allowed_topic_names()[k] != topic@,
        decreases topics.len() - i,
    {
        if str_eq(topics[i].as_str(), topic) {
            return true;
        }
        i += 1;
    }
    false
}

/// The default topic as an owned string.
pub fn default_topic() -> (topic: String)
    ensures
        topic@ == default_topic_name(),
        is_allowed_topic(topic@),
{
    "chat".to_owned()
}

/// The line that tells the user which topics exist.
pub fn allowed_topics_line() -> (line: String)
    ensures
        line@ == allowed_topics_text(),
{
    let topics = allowed_topics();
    let list = join_from(&topics, 0, ", ");
    let mut line = "Allowed topics: ".to_owned();
    line.append(list.as_str());
    assert(topics.deep_view().subrange(0, topics.len() as int) =~= topics.deep_view());
    line
}

} // verus!
