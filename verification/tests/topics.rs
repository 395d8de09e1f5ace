use p2p_chat::topics::{allowed_topics, allowed_topics_line, check_topic, default_topic};

#[test]
fn every_listed_topic_is_allowed() {
    for topic in ["chat", "movies", "books", "music"] {
        assert!(check_topic(topic));
    }
}

#[test]
fn topics_off_the_list_are_refused() {
    assert!(!check_topic("sports"));
    assert!(!check_topic(""));
    assert!(!check_topic("chat "));
    assert!(!check_topic("cha"));
}

#[test]
fn topics_are_case_sensitive() {
    assert!(!check_topic("Chat"));
    assert!(!check_topic("MUSIC"));
}

#[test]
fn the_list_is_shown_in_its_order() {
    assert_eq!(allowed_topics(), vec!["chat", "movies", "books", "music"]);
    assert_eq!(allowed_topics_line(), "Allowed topics: chat, movies, books, music");
}

#[test]
fn the_default_topic_is_chat() {
    assert_eq!(default_topic(), "chat");
    assert!(check_topic(&default_topic()));
}
