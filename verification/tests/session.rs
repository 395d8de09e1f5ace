use p2p_chat::actions::{Action, ExchangePayload, ExchangeRequest, ExchangeResponse};
use p2p_chat::commands::{handle_command, Command, Verb};
use p2p_chat::directory::LookupOutcome;
use p2p_chat::events::{DirectoryEvent, DiscoveryEvent, Event, ExchangeEvent, MessagingEvent};
use p2p_chat::file_transfer::{FileRequest, FileResponse};
use p2p_chat::identity::{InvalidPeerId, PeerIdentity};
use p2p_chat::private_message::{PrivateMessage, PrivateMessageResponse};
use p2p_chat::session::{request_file, send_private_message, Session};

const LOCAL: &str = "12D3KooWD3eckifWpRn9wQpMG9R9hX3sD158z7EqHWmweQAJU5SA";
const REMOTE: &str = "QmYyQSo1c1Ym7orWxLYvCrM2EmxFTANf8wXmmE7DWjhx5N";

fn peer(text: &str) -> PeerIdentity {
    PeerIdentity::from_text(text.to_string())
}

fn session() -> Session {
    Session::new(peer(LOCAL), "alice".to_string())
}

fn session_on(topic: &str) -> Session {
    let mut s = session();
    assert_eq!(s.select_initial_topic(topic), vec![Action::Subscribe(topic.to_string())]);
    s
}

fn show(line: &str) -> Action {
    Action::Display(line.to_string())
}

fn input(s: &mut Session, line: &str) -> Vec<Action> {
    s.handle_event(Event::Input(line.to_string()))
}

fn message(s: &mut Session, source: &str, data: &[u8]) -> Vec<Action> {
    s.handle_event(Event::Messaging(MessagingEvent::Message {
        source: peer(source),
        data: data.to_vec(),
    }))
}

fn issued(s: &mut Session, id: u64, source: &str, text: &str) -> Vec<Action> {
    s.handle_event(Event::Directory(DirectoryEvent::LookupIssued {
        id,
        peer: peer(source),
        message: text.to_string(),
    }))
}

fn completed(s: &mut Session, id: u64, outcome: LookupOutcome) -> Vec<Action> {
    s.handle_event(Event::Directory(DirectoryEvent::LookupCompleted { id, outcome }))
}

fn publish_name(name: &str) -> Action {
    Action::PublishName { key: LOCAL.to_string(), value: name.as_bytes().to_vec() }
}

#[test]
fn a_session_starts_empty() {
    let s = session();
    assert_eq!(s.local_peer().as_str(), LOCAL);
    assert_eq!(s.display_name(), "alice");
    assert!(!s.name_published());
    assert_eq!(s.current_topic(), None);
    assert!(s.topics().is_empty());
    assert_eq!(s.pending_count(), 0);
    assert_eq!(s.known_name(&peer(REMOTE)), None);
}

#[test]
fn a_message_is_shown_once_when_its_lookup_completes() {
    let mut s = session_on("chat");
    assert_eq!(
        message(&mut s, REMOTE, b"[chat]: hello"),
        vec![Action::BeginLookup { peer: peer(REMOTE), message: "[chat]: hello".to_string() }]
    );
    assert_eq!(s.pending_count(), 0);
    assert!(issued(&mut s, 41, REMOTE, "[chat]: hello").is_empty());
    assert_eq!(s.pending_count(), 1);
    assert!(s.is_pending(41));
    assert_eq!(
        completed(&mut s, 41, LookupOutcome::Found(b"bob".to_vec())),
        vec![show("bob: [chat]: hello")]
    );
    assert_eq!(s.pending_count(), 0);
    assert!(!s.is_pending(41));
    assert_eq!(s.known_name(&peer(REMOTE)), Some("bob".to_string()));
    assert!(completed(&mut s, 41, LookupOutcome::Found(b"bob".to_vec())).is_empty());
    assert!(completed(&mut s, 41, LookupOutcome::NotFound).is_empty());
}

#[test]
fn a_message_that_is_not_text_is_dropped() {
    let mut s = session_on("chat");
    assert!(message(&mut s, REMOTE, &[0xff, 0x00]).is_empty());
    assert_eq!(s.pending_count(), 0);
}

#[test]
fn a_failed_resolution_shows_the_raw_identity() {
    let mut s = session_on("chat");
    issued(&mut s, 1, REMOTE, "one");
    issued(&mut s, 2, REMOTE, "two");
    issued(&mut s, 3, REMOTE, "three");
    assert_eq!(
        completed(&mut s, 2, LookupOutcome::Found(vec![0xff])),
        vec![show(&format!(
            "Failed to decode nickname for peer {}, but received: two",
            REMOTE
        ))]
    );
    assert_eq!(
        completed(&mut s, 3, LookupOutcome::NotFound),
        vec![show(&format!("No nickname found for peer {}, but received: three", REMOTE))]
    );
    assert_eq!(
        completed(&mut s, 1, LookupOutcome::Failed("Timeout".to_string())),
        vec![show(&format!(
            "Failed to get record Timeout for peer {}, but received: one",
            REMOTE
        ))]
    );
    assert_eq!(s.pending_count(), 0);
    assert_eq!(s.known_name(&peer(REMOTE)), None);
}

#[test]
fn a_completion_for_an_unknown_lookup_is_ignored() {
    let mut s = session_on("chat");
    issued(&mut s, 5, REMOTE, "waiting");
    for outcome in [
        LookupOutcome::Found(b"bob".to_vec()),
        LookupOutcome::NotFound,
        LookupOutcome::Failed("Timeout".to_string()),
    ] {
        assert!(completed(&mut s, 6, outcome).is_empty());
    }
    assert_eq!(s.pending_count(), 1);
    assert!(s.is_pending(5));
    assert_eq!(s.known_name(&peer(REMOTE)), None);
}

#[test]
fn the_pending_count_follows_any_interleaving() {
    let mut s = session_on("chat");
    let mut expected = 0;
    for id in 0..10u64 {
        issued(&mut s, id, REMOTE, "m");
        expected += 1;
        assert_eq!(s.pending_count(), expected);
        input(&mut s, "not a lookup event");
        s.handle_event(Event::Discovery(DiscoveryEvent::PeerDeparted {
            peer: peer(REMOTE),
            address: "/ip4/1.2.3.4/tcp/1".to_string(),
        }));
        assert_eq!(s.pending_count(), expected);
    }
    for id in [7u64, 2, 9, 0, 4] {
        assert_eq!(completed(&mut s, id, LookupOutcome::NotFound).len(), 1);
        expected -= 1;
        assert_eq!(s.pending_count(), expected);
        assert!(completed(&mut s, id, LookupOutcome::NotFound).is_empty());
        assert_eq!(s.pending_count(), expected);
    }
    for id in [1u64, 3, 5, 6, 8] {
        assert!(s.is_pending(id));
    }
}

#[test]
fn a_later_lookup_overwrites_the_name() {
    let mut s = session_on("chat");
    issued(&mut s, 1, REMOTE, "a");
    issued(&mut s, 2, REMOTE, "b");
    completed(&mut s, 1, LookupOutcome::Found(b"bob".to_vec()));
    assert_eq!(completed(&mut s, 2, LookupOutcome::Found(b"robert".to_vec())), vec![show("robert: b")]);
    assert_eq!(s.known_name(&peer(REMOTE)), Some("robert".to_string()));
}

#[test]
fn joining_a_disallowed_topic_changes_nothing() {
    let mut s = session_on("chat");
    assert_eq!(
        input(&mut s, "/join sports"),
        vec![show("Topic not allowed. Please choose a valid topic.")]
    );
    assert_eq!(s.current_topic(), Some("chat".to_string()));
    assert_eq!(s.topics(), vec!["chat".to_string()]);
    assert_eq!(s.join("Chat"), vec![show("Topic not allowed. Please choose a valid topic.")]);
    assert_eq!(s.current_topic(), Some("chat".to_string()));
}

#[test]
fn joining_an_allowed_topic_leaves_the_old_one_first() {
    let mut s = session_on("chat");
    assert_eq!(
        input(&mut s, "/join movies"),
        vec![
            Action::Unsubscribe("chat".to_string()),
            Action::Subscribe("movies".to_string()),
            show("Joined topic: movies"),
        ]
    );
    assert_eq!(s.topics(), vec!["movies".to_string()]);
    assert_eq!(
        s.join("movies"),
        vec![
            Action::Unsubscribe("movies".to_string()),
            Action::Subscribe("movies".to_string()),
            show("Joined topic: movies"),
        ]
    );
    assert_eq!(s.topics().len(), 1);
}

#[test]
fn joining_before_any_topic_was_chosen_only_subscribes() {
    let mut s = session();
    assert_eq!(
        s.join("books"),
        vec![Action::Subscribe("books".to_string()), show("Joined topic: books")]
    );
    assert_eq!(s.current_topic(), Some("books".to_string()));
    let mut s = session();
    assert_eq!(s.join("nope"), vec![show("Topic not allowed. Please choose a valid topic.")]);
    assert_eq!(s.current_topic(), None);
}

#[test]
fn the_startup_answer_chooses_the_topic() {
    let mut s = session();
    assert_eq!(s.choose_initial_topic(""), vec![Action::Subscribe("chat".to_string())]);
    assert_eq!(s.current_topic(), Some("chat".to_string()));
    let mut s = session();
    assert_eq!(s.choose_initial_topic("  \t\r\n"), vec![Action::Subscribe("chat".to_string())]);
    let mut s = session();
    assert_eq!(s.choose_initial_topic("  music \n"), vec![Action::Subscribe("music".to_string())]);
    assert_eq!(s.current_topic(), Some("music".to_string()));
    let mut s = session();
    assert_eq!(
        s.choose_initial_topic("opera"),
        vec![show("Topic not allowed. Please choose a valid topic.")]
    );
    assert_eq!(s.current_topic(), None);
    assert_eq!(
        s.select_initial_topic(" music"),
        vec![show("Topic not allowed. Please choose a valid topic.")]
    );
}

#[test]
fn a_plain_line_is_published_with_its_topic() {
    let mut s = session_on("books");
    assert_eq!(
        input(&mut s, "hello there"),
        vec![Action::Publish {
            topic: "books".to_string(),
            payload: b"[books]: hello there".to_vec()
        }]
    );
    assert_eq!(
        input(&mut s, ""),
        vec![Action::Publish { topic: "books".to_string(), payload: b"[books]: ".to_vec() }]
    );
    assert_eq!(
        s.publish_line("héllo"),
        vec![Action::Publish {
            topic: "books".to_string(),
            payload: "[books]: héllo".as_bytes().to_vec()
        }]
    );
}

#[test]
fn publishing_without_a_topic_fails() {
    let mut s = session();
    assert_eq!(
        input(&mut s, "hello"),
        vec![Action::Report("Error publishing: no topic is subscribed".to_string())]
    );
}

#[test]
fn a_refused_payload_is_reported() {
    let mut s = session_on("chat");
    assert_eq!(
        s.handle_event(Event::Messaging(MessagingEvent::PublishFailed {
            detail: "MessageTooLarge".to_string()
        })),
        vec![show("Error publishing: MessageTooLarge")]
    );
}

#[test]
fn the_name_is_published_when_the_first_peer_appears() {
    let mut s = session_on("chat");
    let appeared = |s: &mut Session| {
        s.handle_event(Event::Discovery(DiscoveryEvent::PeerAppeared {
            peer: peer(REMOTE),
            address: "/ip4/10.0.0.2/tcp/4001".to_string(),
        }))
    };
    let line = show(&format!(
        "mDNS discovered peer: {}, listening on /ip4/10.0.0.2/tcp/4001",
        REMOTE
    ));
    let add = Action::AddPeer { peer: peer(REMOTE), address: "/ip4/10.0.0.2/tcp/4001".to_string() };
    assert_eq!(appeared(&mut s), vec![line.clone_for_test(), add.clone_for_test(), publish_name("alice")]);
    assert_eq!(
        s.handle_event(Event::Directory(DirectoryEvent::PublishRejected {
            detail: "MaxRecords".to_string()
        })),
        vec![Action::Report("Failed to store record: MaxRecords".to_string())]
    );
    assert!(!s.name_published());
    assert_eq!(appeared(&mut s), vec![line.clone_for_test(), add.clone_for_test(), publish_name("alice")]);
    assert!(s.handle_event(Event::Directory(DirectoryEvent::PublishAccepted)).is_empty());
    assert!(s.name_published());
    assert_eq!(appeared(&mut s), vec![line, add]);
}

trait CloneForTest {
    fn clone_for_test(&self) -> Self;
}

impl CloneForTest for Action {
    fn clone_for_test(&self) -> Action {
        match self {
            Action::Display(line) => Action::Display(line.clone()),
            Action::AddPeer { peer, address } => {
                Action::AddPeer { peer: peer.clone(), address: address.clone() }
            }
            _ => unreachable!(),
        }
    }
}

#[test]
fn a_departed_peer_keeps_its_name() {
    let mut s = session_on("chat");
    issued(&mut s, 1, REMOTE, "hi");
    completed(&mut s, 1, LookupOutcome::Found(b"bob".to_vec()));
    assert_eq!(
        s.handle_event(Event::Discovery(DiscoveryEvent::PeerDeparted {
            peer: peer(REMOTE),
            address: "/ip4/10.0.0.2/tcp/4001".to_string(),
        })),
        vec![Action::RemovePeer {
            peer: peer(REMOTE),
            address: "/ip4/10.0.0.2/tcp/4001".to_string()
        }]
    );
    assert_eq!(s.known_name(&peer(REMOTE)), Some("bob".to_string()));
}

#[test]
fn the_store_reports_are_shown() {
    let mut s = session();
    assert_eq!(
        s.handle_event(Event::Directory(DirectoryEvent::NameStored { key: LOCAL.to_string() })),
        vec![show(&format!("Successfully put record \"{}\"", LOCAL))]
    );
    assert_eq!(
        s.handle_event(Event::Directory(DirectoryEvent::NameStoreFailed {
            detail: "QuorumFailed".to_string()
        })),
        vec![show("Failed to put record QuorumFailed")]
    );
    assert_eq!(
        s.handle_event(Event::Listening("/ip4/127.0.0.1/tcp/5000".to_string())),
        vec![show("Your node is listening on /ip4/127.0.0.1/tcp/5000")]
    );
}

#[test]
fn a_new_nickname_is_published_and_kept() {
    let mut s = session_on("chat");
    assert_eq!(input(&mut s, "/nickname carol"), vec![publish_name("carol")]);
    assert_eq!(s.display_name(), "carol");
    assert_eq!(input(&mut s, "/nickname \"two words\""), vec![publish_name("\"two words\"")]);
    assert_eq!(input(&mut s, "/nickname"), vec![show("Usage: /nickname <nickname>")]);
    assert_eq!(s.display_name(), "\"two words\"");
}

#[test]
fn the_informative_commands_show_their_lines() {
    let mut s = session_on("music");
    assert_eq!(
        input(&mut s, "/help"),
        vec![
            show("Available commands:"),
            show("/help - Show this help message"),
            show("/peers - List all connected peers"),
            show("/nickname <nickname> - Set your nickname"),
            show("/id - Show your peer ID"),
            show("/join <topic> - Join a topic"),
            show("/topic - List currently subscribed topic"),
            show("/topics - List available topics"),
            show("/requestfile <peer_id> <filename> - Request a file from a peer"),
        ]
    );
    assert_eq!(input(&mut s, "/peers"), vec![show("Connected peers:"), Action::ShowConnectedPeers]);
    assert_eq!(input(&mut s, "/id"), vec![show(&format!("Your peer ID is: {}", LOCAL))]);
    assert_eq!(input(&mut s, "/topic"), vec![show("Currently subsribed topic:"), show("music")]);
    assert_eq!(
        input(&mut s, "/topics"),
        vec![show("Available topics:"), show("chat"), show("movies"), show("books"), show("music")]
    );
    assert_eq!(input(&mut s, "/dance"), vec![show("Unexpected command")]);
    assert_eq!(input(&mut s, "/"), vec![show("Unexpected command")]);
    assert_eq!(input(&mut s, "/join"), vec![show("Usage: /join <topic>")]);
    assert_eq!(input(&mut s, "/msg"), vec![show("Usage: /msg <peer_id> <message>")]);
    let mut fresh = session();
    assert_eq!(input(&mut fresh, "/topic"), vec![show("Currently subsribed topic:")]);
}

#[test]
fn a_command_line_without_tokens_gives_no_command() {
    let mut s = session();
    assert_eq!(handle_command("", &mut s), vec![show("No command given")]);
    assert_eq!(handle_command("   ", &mut s), vec![show("No command given")]);
    assert_eq!(s.run_command(Command::Empty), vec![show("No command given")]);
    assert_eq!(
        s.run_command(Command::Incomplete(Verb::RequestFile)),
        vec![show("Please provide a peer ID and a filename")]
    );
}

#[test]
fn a_file_is_requested_from_a_well_formed_peer() {
    let mut s = session_on("chat");
    assert_eq!(
        input(&mut s, &format!("/requestfile {} secret.txt", REMOTE)),
        vec![
            Action::SendRequest(ExchangeRequest {
                target_peer: peer(REMOTE),
                payload: ExchangePayload::FileRequest(FileRequest("secret.txt".to_string())),
            }),
            show(&format!("Sent file request for secret.txt to {}", REMOTE)),
        ]
    );
    assert_eq!(
        input(&mut s, "/requestfile someone"),
        vec![show("Please provide a peer ID and a filename")]
    );
    let refused = input(&mut s, "/requestfile someone secret.txt");
    assert_eq!(refused.len(), 1);
    match &refused[0] {
        Action::Report(line) => {
            assert!(line.starts_with("Invalid Peer ID 'someone': "));
            assert!(line.len() > "Invalid Peer ID 'someone': ".len());
        }
        other => panic!("unexpected action {:?}", other),
    }
}

#[test]
fn a_private_message_carries_the_sender() {
    let mut s = session_on("chat");
    assert_eq!(
        input(&mut s, &format!("/msg {} see   you \"later on\"", REMOTE)),
        vec![
            Action::SendRequest(ExchangeRequest {
                target_peer: peer(REMOTE),
                payload: ExchangePayload::PrivateMessage(PrivateMessage {
                    message: "see you \"later on\"".to_string(),
                    sender: LOCAL.to_string(),
                }),
            }),
            show(&format!("Sent private message to {}", REMOTE)),
        ]
    );
    let refused = input(&mut s, "/msg nobody hi");
    assert!(matches!(&refused[..], [Action::Report(line)] if line.starts_with("Invalid Peer ID 'nobody': ")));
}

#[test]
fn a_parse_outcome_decides_what_is_sent() {
    let bad = InvalidPeerId { input: "x y".to_string(), reason: "bad".to_string() };
    assert_eq!(
        request_file(Err(bad), "f".to_string()),
        vec![Action::Report("Invalid Peer ID 'x y': bad".to_string())]
    );
    assert_eq!(
        request_file(Ok(peer("p")), "f".to_string()),
        vec![
            Action::SendRequest(ExchangeRequest {
                target_peer: peer("p"),
                payload: ExchangePayload::FileRequest(FileRequest("f".to_string())),
            }),
            show("Sent file request for f to p"),
        ]
    );
    let bad = InvalidPeerId { input: "q".to_string(), reason: "worse".to_string() };
    assert_eq!(
        send_private_message(&peer("me"), Err(bad), "t".to_string()),
        vec![Action::Report("Invalid Peer ID 'q': worse".to_string())]
    );
    assert_eq!(
        send_private_message(&peer("me"), Ok(peer("p")), "t".to_string()),
        vec![
            Action::SendRequest(ExchangeRequest {
                target_peer: peer("p"),
                payload: ExchangePayload::PrivateMessage(PrivateMessage {
                    message: "t".to_string(),
                    sender: "me".to_string(),
                }),
            }),
            show("Sent private message to p"),
        ]
    );
}

#[test]
fn exchange_events_leave_the_session_as_it_is() {
    let mut s = session_on("chat");
    issued(&mut s, 1, REMOTE, "hi");
    assert_eq!(
        s.handle_event(Event::Exchange(ExchangeEvent::PrivateMessageReceived(PrivateMessage {
            message: "psst".to_string(),
            sender: REMOTE.to_string(),
        }))),
        vec![Action::Respond(ExchangeResponse::PrivateMessage(PrivateMessageResponse(
            "Recipient recieved message".to_string()
        )))]
    );
    assert_eq!(
        s.handle_event(Event::Exchange(ExchangeEvent::FileReceived(FileResponse {
            filename: "ghost".to_string(),
            data: Vec::new(),
        }))),
        vec![Action::EnsureDirectory("downloads".to_string()), show("File does not exist")]
    );
    assert_eq!(s.pending_count(), 1);
    assert_eq!(s.current_topic(), Some("chat".to_string()));
}
