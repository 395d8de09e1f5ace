use p2p_chat::commands::{collect_tokens, parse_command, split_string, Command, Verb};

fn words(items: &[&str]) -> Vec<String> {
    items.iter().map(|s| s.to_string()).collect()
}

#[test]
fn a_line_is_cut_at_white_space() {
    assert_eq!(split_string("/join movies"), words(&["/join", "movies"]));
    assert_eq!(split_string("  /topic   "), words(&["/topic"]));
    assert_eq!(split_string("a\tb\nc"), words(&["a", "b", "c"]));
}

#[test]
fn a_quoted_stretch_is_one_token_with_its_quotes() {
    assert_eq!(
        split_string("/nickname Josh \"learning rust\" \"ben adams\" mystery 100"),
        words(&["/nickname", "Josh", "\"learning rust\"", "\"ben adams\"", "mystery", "100"])
    );
    assert_eq!(split_string("\"\""), words(&["\"\""]));
}

#[test]
fn an_open_quote_is_part_of_a_plain_token() {
    assert_eq!(split_string("say \"hello world"), words(&["say", "\"hello", "world"]));
    assert_eq!(split_string("abc\"def ghi\""), words(&["abc\"def", "ghi\""]));
}

#[test]
fn a_blank_line_has_no_tokens() {
    assert!(split_string("").is_empty());
    assert!(split_string("   \t ").is_empty());
}

#[test]
fn no_search_result_gives_no_tokens() {
    assert!(collect_tokens(None).is_empty());
    assert_eq!(collect_tokens(Some(words(&["a", "b"]))), words(&["a", "b"]));
}

#[test]
fn commands_without_arguments_are_read() {
    assert_eq!(parse_command(&words(&[])), Command::Empty);
    assert_eq!(parse_command(&words(&["/help"])), Command::Help);
    assert_eq!(parse_command(&words(&["/peers"])), Command::Peers);
    assert_eq!(parse_command(&words(&["/id"])), Command::Id);
    assert_eq!(parse_command(&words(&["/topic"])), Command::Topic);
    assert_eq!(parse_command(&words(&["/topics"])), Command::Topics);
    assert_eq!(parse_command(&words(&["/help", "me"])), Command::Help);
}

#[test]
fn commands_with_arguments_are_read() {
    assert_eq!(
        parse_command(&words(&["/nickname", "alice", "ignored"])),
        Command::Nickname("alice".to_string())
    );
    assert_eq!(parse_command(&words(&["/join", "books"])), Command::Join("books".to_string()));
    assert_eq!(
        parse_command(&words(&["/requestfile", "peer", "notes.txt"])),
        Command::RequestFile { peer: "peer".to_string(), filename: "notes.txt".to_string() }
    );
}

#[test]
fn the_text_of_a_private_message_is_the_rest_of_the_line() {
    assert_eq!(
        parse_command(&words(&["/msg", "peer", "see", "you", "soon"])),
        Command::Message { peer: "peer".to_string(), text: "see you soon".to_string() }
    );
    assert_eq!(
        parse_command(&words(&["/msg", "peer", "hi"])),
        Command::Message { peer: "peer".to_string(), text: "hi".to_string() }
    );
    assert_eq!(
        parse_command(&words(&["/msg", "peer"])),
        Command::Message { peer: "peer".to_string(), text: String::new() }
    );
}

#[test]
fn a_missing_argument_is_told_apart() {
    assert_eq!(parse_command(&words(&["/nickname"])), Command::Incomplete(Verb::Nickname));
    assert_eq!(parse_command(&words(&["/join"])), Command::Incomplete(Verb::Join));
    assert_eq!(parse_command(&words(&["/requestfile"])), Command::Incomplete(Verb::RequestFile));
    assert_eq!(
        parse_command(&words(&["/requestfile", "peer"])),
        Command::Incomplete(Verb::RequestFile)
    );
    assert_eq!(parse_command(&words(&["/msg"])), Command::Incomplete(Verb::Message));
}

#[test]
fn other_first_tokens_name_no_command() {
    assert_eq!(parse_command(&words(&["/quit"])), Command::Unknown);
    assert_eq!(parse_command(&words(&["/Help"])), Command::Unknown);
    assert_eq!(parse_command(&words(&["/"])), Command::Unknown);
    assert_eq!(parse_command(&words(&["hello"])), Command::Unknown);
}
