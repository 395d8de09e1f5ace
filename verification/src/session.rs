//! The session: the state of one node, and the single point at which events
//! are turned into state changes and actions.

use vstd::prelude::*;
use crate::actions::{
    displays, no_actions, pair, push_action, push_displays, single, Action, ActionView,
    ExchangePayload, ExchangePayloadView, ExchangeRequest, ExchangeRequestView,
};
use crate::commands::{
    command_tokens, handle_command, parse_tokens, Command, CommandView, Verb,
};
use crate::directory::{
    directory_after, resolution_of, resolve_name, LookupOutcome, NameResolutionView,
    PeerDirectory,
};
use crate::events::{
    DirectoryEvent, DirectoryEventView, DiscoveryEvent, DiscoveryEventView, Event, EventView,
    MessagingEvent, MessagingEventView,
};
use crate::exchange::{exchange_actions, handle_exchange_event};
use crate::file_transfer::FileRequest;
use crate::identity::{identity_result_view, parsed_identity, InvalidPeerId, PeerIdentity};
use crate::lookups::{resolution_line, PendingLookup, PendingLookupView, PendingLookups};
use crate::messaging::{publication_of, JoinOutcome, Messaging};
use crate::private_message::{compose, PrivateMessageView};
use crate::text::{
    concat2, concat4, debug_quoted, debug_text, decode_text, decoded, trim, trimmed,
};
use crate::topics::{
    allowed_topic_names, allowed_topics, default_topic, default_topic_name, is_allowed_topic,
};

verus! {

/// The state of a session as plain values.
pub struct SessionView {
    /// The identity of the local node.
    pub local_peer: Seq<char>,
    /// The display name of the local node.
    pub display_name: Seq<char>,
    /// Whether the store has accepted a display name of this node.
    pub name_published: bool,
    /// The subscribed topic, if one has been chosen.
    pub topic: Option<Seq<char>>,
    /// The lookups that were issued and have not completed.
    pub pending: Map<u64, PendingLookupView>,
    /// The display names that lookups have brought.
    pub directory: Map<Seq<char>, Seq<char>>,
}

/// The state in which a session starts.
pub open spec fn initial_state(local_peer: Seq<char>, display_name: Seq<char>) -> SessionView {
    SessionView {
        local_peer,
        display_name,
        name_published: false,
        topic: None,
        pending: Map::empty(),
        directory: Map::empty(),
    }
}

/// Whether a line is a command: it starts with a slash.
pub open spec fn is_command_line(line: Seq<char>) -> bool {
    line.len() > 0 && line[0] == '/'
}

/// What `/help` shows.
pub open spec fn help_lines() -> Seq<Seq<char>> {
    seq![
        "Available commands:"@,
        "/help - Show this help message"@,
        "/peers - List all connected peers"@,
        "/nickname <nickname> - Set your nickname"@,
        "/id - Show your peer ID"@,
        "/join <topic> - Join a topic"@,
        "/topic - List currently subscribed topic"@,
        "/topics - List available topics"@,
        "/requestfile <peer_id> <filename> - Request a file from a peer"@,
    ]
}

/// What is shown for a command that lacks an argument.
pub open spec fn usage_line(verb: Verb) -> Seq<char> {
    match verb {
        Verb::Nickname => "Usage: /nickname <nickname>"@,
        Verb::Join => "Usage: /join <topic>"@,
        Verb::RequestFile => "Please provide a peer ID and a filename"@,
        Verb::Message => "Usage: /msg <peer_id> <message>"@,
    }
}

/// What is shown when a topic is refused.
pub open spec fn rejection_line() -> Seq<char> {
    "Topic not allowed. Please choose a valid topic."@
}

/// The request to put the node's display name into the store, under the
/// node's own identity.
pub open spec fn publish_name_action(local_peer: Seq<char>, name: Seq<char>) -> ActionView {
    ActionView::PublishName { key: local_peer, value: vstd::utf8::encode_utf8(name) }
}

/// Leaving the current topic, where there is one.
pub open spec fn leave_actions(topic: Option<Seq<char>>) -> Seq<ActionView> {
    match topic {
        Some(current) => seq![ActionView::Unsubscribe(current)],
        None => Seq::empty(),
    }
}

/// The subscribed topics as a list: none or one.
pub open spec fn topic_list(topic: Option<Seq<char>>) -> Seq<Seq<char>> {
    match topic {
        Some(current) => seq![current],
        None => Seq::empty(),
    }
}

/// Joining `topic`. A topic that is not on the allow-list is refused before
/// anything changes; else the current topic is left first, and the new one is
/// then the only one.
pub open spec fn join_step(s: SessionView, topic: Seq<char>) -> (SessionView, Seq<ActionView>) {
    if is_allowed_topic(topic) {
        (
            SessionView { topic: Some(topic), ..s },
            leave_actions(s.topic) + seq![
                ActionView::Subscribe(topic),
                ActionView::Display("Joined topic: "@ + topic),
            ],
        )
    } else {
        (s, seq![ActionView::Display(rejection_line())])
    }
}

/// The topic that an answer to the startup question names: the default topic
/// for an empty answer.
pub open spec fn startup_topic(choice: Seq<char>) -> Seq<char> {
    if choice.len() == 0 {
        default_topic_name()
    } else {
        choice
    }
}

/// Choosing the topic at startup, from the answer without its white space.
pub open spec fn initial_topic_step(s: SessionView, choice: Seq<char>) -> (
    SessionView,
    Seq<ActionView>,
) {
    let topic = startup_topic(choice);
    if is_allowed_topic(topic) {
        (
            SessionView { topic: Some(topic), ..s },
            leave_actions(s.topic) + seq![ActionView::Subscribe(topic)],
        )
    } else {
        (s, seq![ActionView::Display(rejection_line())])
    }
}

/// Publishing a chat line to the current topic.
pub open spec fn publish_actions(topic: Option<Seq<char>>, line: Seq<char>) -> Seq<ActionView> {
    match publication_of(topic, line) {
        Ok((topic, payload)) => seq![ActionView::Publish { topic, payload }],
        Err(_) => seq![ActionView::Report("Error publishing: no topic is subscribed"@)],
    }
}

/// What is shown for a text that is no peer identity.
pub open spec fn invalid_peer_line(input: Seq<char>, reason: Seq<char>) -> Seq<char> {
    "Invalid Peer ID '"@ + input + "': "@ + reason
}

/// Asking a peer for a file, given what the parser made of the peer's text.
pub open spec fn request_file_actions(
    parsed: Result<Seq<char>, (Seq<char>, Seq<char>)>,
    filename: Seq<char>,
) -> Seq<ActionView> {
    match parsed {
        Ok(peer) => seq![
            ActionView::SendRequest(
                ExchangeRequestView {
                    target_peer: peer,
                    payload: ExchangePayloadView::FileRequest(filename),
                },
            ),
            ActionView::Display("Sent file request for "@ + filename + " to "@ + peer),
        ],
        Err((input, reason)) => seq![ActionView::Report(invalid_peer_line(input, reason))],
    }
}

/// Sending a private message, given what the parser made of the peer's text.
pub open spec fn private_message_actions(
    local_peer: Seq<char>,
    parsed: Result<Seq<char>, (Seq<char>, Seq<char>)>,
    text: Seq<char>,
) -> Seq<ActionView> {
    match parsed {
        Ok(peer) => seq![
            ActionView::SendRequest(
                ExchangeRequestView {
                    target_peer: peer,
                    payload: ExchangePayloadView::PrivateMessage(
                        PrivateMessageView { message: text, sender: local_peer },
                    ),
                },
            ),
            ActionView::Display("Sent private message to "@ + peer),
        ],
        Err((input, reason)) => seq![ActionView::Report(invalid_peer_line(input, reason))],
    }
}

/// What a command does to the session.
pub open spec fn command_step(s: SessionView, command: CommandView) -> (
    SessionView,
    Seq<ActionView>,
) {
    match command {
        CommandView::Empty => (s, seq![ActionView::Display("No command given"@)]),
        CommandView::Help => (s, displays(help_lines())),
        CommandView::Peers => (
            s,
            seq![ActionView::Display("Connected peers:"@), ActionView::ShowConnectedPeers],
        ),
        CommandView::Id => (s, seq![ActionView::Display("Your peer ID is: "@ + s.local_peer)]),
        CommandView::Topic => (
            s,
            seq![ActionView::Display("Currently subsribed topic:"@)] + displays(
                topic_list(s.topic),
            ),
        ),
        CommandView::Topics => (
            s,
            seq![ActionView::Display("Available topics:"@)] + displays(allowed_topic_names()),
        ),
        CommandView::Nickname(name) => (
            SessionView { display_name: name, ..s },
            seq![publish_name_action(s.local_peer, name)],
        ),
        CommandView::Join(topic) => join_step(s, topic),
        CommandView::RequestFile { peer, filename } => (
            s,
            request_file_actions(parsed_identity(peer), filename),
        ),
        CommandView::Message { peer, text } => (
            s,
            private_message_actions(s.local_peer, parsed_identity(peer), text),
        ),
        CommandView::Incomplete(verb) => (s, seq![ActionView::Display(usage_line(verb))]),
        CommandView::Unknown => (s, seq![ActionView::Display("Unexpected command"@)]),
    }
}

/// What a line of local input does: a command is carried out, any other
/// line is published to the current topic.
pub open spec fn input_step(s: SessionView, line: Seq<char>) -> (SessionView, Seq<ActionView>) {
    if is_command_line(line) {
        command_step(s, parse_tokens(command_tokens(line)))
    } else {
        (s, publish_actions(s.topic, line))
    }
}

/// What is shown for a peer that appeared.
pub open spec fn discovered_line(peer: Seq<char>, address: Seq<char>) -> Seq<char> {
    "mDNS discovered peer: "@ + peer + ", listening on "@ + address
}

/// The attempt to publish the node's name, as long as none was accepted.
pub open spec fn first_publish_actions(s: SessionView) -> Seq<ActionView> {
    if s.name_published {
        Seq::empty()
    } else {
        seq![publish_name_action(s.local_peer, s.display_name)]
    }
}

/// What a discovery event leads to. The state stays as it is: a peer that
/// departs keeps its place in the directory.
pub open spec fn discovery_actions(s: SessionView, event: DiscoveryEventView) -> Seq<ActionView> {
    match event {
        DiscoveryEventView::PeerAppeared { peer, address } => seq![
            ActionView::Display(discovered_line(peer, address)),
            ActionView::AddPeer { peer, address },
        ] + first_publish_actions(s),
        DiscoveryEventView::PeerDeparted { peer, address } => seq![
            ActionView::RemovePeer { peer, address },
        ],
    }
}

/// What a messaging event leads to: a message that is valid text has the
/// name of its sender looked up, any other message is dropped.
pub open spec fn messaging_actions(event: MessagingEventView) -> Seq<ActionView> {
    match event {
        MessagingEventView::Message { source, data } => match decoded(data) {
            Some(message) => seq![ActionView::BeginLookup { peer: source, message }],
            None => Seq::empty(),
        },
        MessagingEventView::PublishFailed { detail } => seq![
            ActionView::Display("Error publishing: "@ + detail),
        ],
    }
}

/// The completion of the lookup `id`. A lookup that is pending leaves the
/// set, may bring a name into the directory, and becomes one line; for an id
/// that is not pending nothing happens.
pub open spec fn completion_step(s: SessionView, id: u64, resolution: NameResolutionView) -> (
    SessionView,
    Seq<ActionView>,
) {
    if s.pending.contains_key(id) {
        let lookup = s.pending[id];
        (
            SessionView {
                pending: s.pending.remove(id),
                directory: directory_after(s.directory, lookup.origin_peer, resolution),
                ..s
            },
            seq![ActionView::Display(resolution_line(resolution, lookup))],
        )
    } else {
        (s, Seq::empty())
    }
}

/// What an event of the distributed store does to the session.
pub open spec fn directory_step(s: SessionView, event: DirectoryEventView) -> (
    SessionView,
    Seq<ActionView>,
) {
    match event {
        DirectoryEventView::PublishAccepted => (
            SessionView { name_published: true, ..s },
            Seq::empty(),
        ),
        DirectoryEventView::PublishRejected { detail } => (
            s,
            seq![ActionView::Report("Failed to store record: "@ + detail)],
        ),
        DirectoryEventView::NameStored { key } => (
            s,
            seq![ActionView::Display("Successfully put record "@ + debug_quoted(key))],
        ),
        DirectoryEventView::NameStoreFailed { detail } => (
            s,
            seq![ActionView::Display("Failed to put record "@ + detail)],
        ),
        DirectoryEventView::LookupIssued { id, peer, message } => (
            SessionView {
                pending: s.pending.insert(
                    id,
                    PendingLookupView { origin_peer: peer, payload: message },
                ),
                ..s
            },
            Seq::empty(),
        ),
        DirectoryEventView::LookupCompleted { id, outcome } => completion_step(
            s,
            id,
            resolution_of(outcome),
        ),
    }
}

/// What an event does to the session: the next state, and the actions in the
/// order in which they are to be performed.
pub open spec fn step(s: SessionView, event: EventView) -> (SessionView, Seq<ActionView>) {
    match event {
        EventView::Input(line) => input_step(s, line),
        EventView::Listening(address) => (
            s,
            seq![ActionView::Display("Your node is listening on "@ + address)],
        ),
        EventView::Discovery(event) => (s, discovery_actions(s, event)),
        EventView::Messaging(event) => (s, messaging_actions(event)),
        EventView::Directory(event) => directory_step(s, event),
        EventView::Exchange(event) => (s, exchange_actions(event)),
    }
}

/// Asks a peer for a file, or reports that the peer's text is no identity.
pub fn request_file(parsed: Result<PeerIdentity, InvalidPeerId>, filename: String) -> (actions:
    Vec<Action>)
    ensures
        actions.deep_view() == request_file_actions(identity_result_view(parsed), filename@),
{
    match parsed {
        Ok(peer) => {
            let line = concat4("Sent file request for ", filename.as_str(), " to ", peer.as_str());
            let request = ExchangeRequest {
                target_peer: peer,
                payload: ExchangePayload::FileRequest(FileRequest(filename)),
            };
            pair(Action::SendRequest(request), Action::Display(line))
        },
        Err(error) => single(Action::Report(invalid_peer_text(&error))),
    }
}

/// Sends a private message in the name of `local_peer`, or reports that the
/// peer's text is no identity.
pub fn send_private_message(
    local_peer: &PeerIdentity,
    parsed: Result<PeerIdentity, InvalidPeerId>,
    text: String,
) -> (actions: Vec<Action>)
    ensures
        actions.deep_view() == private_message_actions(
            local_peer@,
            identity_result_view(parsed),
            text@,
        ),
{
    match parsed {
        Ok(peer) => {
            let line = concat2("Sent private message to ", peer.as_str());
            let request = ExchangeRequest {
                target_peer: peer,
                payload: ExchangePayload::PrivateMessage(compose(local_peer.as_str(), text)),
            };
            pair(Action::SendRequest(request), Action::Display(line))
        },
        Err(error) => single(Action::Report(invalid_peer_text(&error))),
    }
}

fn invalid_peer_text(error: &InvalidPeerId) -> (line: String)
    ensures
        line@ == invalid_peer_line(error.input@, error.reason@),
{
    concat4("Invalid Peer ID '", error.input.as_str(), "': ", error.reason.as_str())
}

fn help_text() -> (lines: Vec<String>)
    ensures
        lines.deep_view() == help_lines(),
{
    let mut lines: Vec<String> = Vec::new();
    lines.push("Available commands:".to_owned());
    lines.push("/help - Show this help message".to_owned());
    lines.push("/peers - List all connected peers".to_owned());
    lines.push("/nickname <nickname> - Set your nickname".to_owned());
    lines.push("/id - Show your peer ID".to_owned());
    lines.push("/join <topic> - Join a topic".to_owned());
    lines.push("/topic - List currently subscribed topic".to_owned());
    lines.push("/topics - List available topics".to_owned());
    lines.push("/requestfile <peer_id> <filename> - Request a file from a peer".to_owned());
    lines
}

fn usage_text(verb: Verb) -> (line: String)
    ensures
        line@ == usage_line(verb),
{
    match verb {
        Verb::Nickname => "Usage: /nickname <nickname>".to_owned(),
        Verb::Join => "Usage: /join <topic>".to_owned(),
        Verb::RequestFile => "Please provide a peer ID and a filename".to_owned(),
        Verb::Message => "Usage: /msg <peer_id> <message>".to_owned(),
    }
}

fn rejection() -> (action: Action)
    ensures
        action@ == ActionView::Display(rejection_line()),
{
    Action::Display("Topic not allowed. Please choose a valid topic.".to_owned())
}

fn leave(left: Option<String>) -> (actions: Vec<Action>)
    ensures
        actions.deep_view() == leave_actions(left.deep_view()),
{
    match left {
        Some(topic) => single(Action::Unsubscribe(topic)),
        None => no_actions(),
    }
}

/// The session of one node.
pub struct Session {
    local_peer: PeerIdentity,
    display_name: String,
    name_published: bool,
    messaging: Messaging,
    pending: PendingLookups,
    directory: PeerDirectory,
}

impl Session {
    /// The session's state.
    pub closed spec fn view(&self) -> SessionView {
        SessionView {
            local_peer: self.local_peer@,
            display_name: self.display_name@,
            name_published: self.name_published,
            topic: self.messaging@,
            pending: self.pending@,
            directory: self.directory@,
        }
    }

    /// A session for the node `local_peer`, whose user chose `display_name`.
    pub fn new(local_peer: PeerIdentity, display_name: String) -> (session: Self)
        ensures
            session@ == initial_state(local_peer@, display_name@),
    {
        Session {
            local_peer,
            display_name,
            name_published: false,
            messaging: Messaging::new(),
            pending: PendingLookups::new(),
            directory: PeerDirectory::new(),
        }
    }

    /// The identity of the local node.
    pub fn local_peer(&self) -> (peer: &PeerIdentity)
        ensures
            peer@ == self@.local_peer,
    {
        &self.local_peer
    }

    /// The display name of the local node.
    pub fn display_name(&self) -> (name: &str)
        ensures
            name@ == self@.display_name,
    {
        self.display_name.as_str()
    }

    /// Whether the store has accepted a display name of this node.
    pub fn name_published(&self) -> (published: bool)
        ensures
            published == self@.name_published,
    {
        self.name_published
    }

    /// The subscribed topic, if one has been chosen.
    pub fn current_topic(&self) -> (topic: Option<String>)
        ensures
            topic.deep_view() == self@.topic,
            self@.topic matches Some(t) ==> is_allowed_topic(t),
    {
        self.messaging.current()
    }

    /// The subscribed topics: none or one.
    pub fn topics(&self) -> (topics: Vec<String>)
        ensures
            topics.len() <= 1,
            topics.deep_view() == topic_list(self@.topic),
    {
        self.messaging.topics()
    }

    /// The number of lookups that were issued and have not completed.
    pub fn pending_count(&self) -> (n: usize)
        ensures
            self@.pending.dom().finite(),
            n == self@.pending.dom().len(),
    {
        self.pending.len()
    }

    /// Whether the lookup `id` was issued and has not completed.
    pub fn is_pending(&self, id: u64) -> (pending: bool)
        ensures
            pending == self@.pending.contains_key(id),
    {
        self.pending.contains(id)
    }

    /// The display name that lookups have brought for `peer`.
    pub fn known_name(&self, peer: &PeerIdentity) -> (name: Option<String>)
        ensures
            name.deep_view() == (if self@.directory.contains_key(peer@) {
                Some(self@.directory[peer@])
            } else {
                None
            }),
    {
        self.directory.name_of(peer)
    }

    /// Joins `topic` on the user's request.
    pub fn join(&mut self, topic: &str) -> (actions: Vec<Action>)
        ensures
            (final(self)@, actions.deep_view()) == join_step(old(self)@, topic@),
    {
        match self.messaging.join(topic) {
            JoinOutcome::Joined { left } => {
                let mut actions = leave(left);
                push_action(&mut actions, Action::Subscribe(topic.to_owned()));
                push_action(&mut actions, Action::Display(concat2("Joined topic: ", topic)));
                actions
            },
            JoinOutcome::Rejected => single(rejection()),
        }
    }

    /// Subscribes to the topic that the user chose at startup. `choice` is
    /// the user's answer without the white space around it; an empty answer
    /// chooses the default topic.
    pub fn select_initial_topic(&mut self, choice: &str) -> (actions: Vec<Action>)
        ensures
            (final(self)@, actions.deep_view()) == initial_topic_step(old(self)@, choice@),
    {
        let topic = if choice.is_empty() {
            default_topic()
        } else {
            choice.to_owned()
        };
        match self.messaging.join(topic.as_str()) {
            JoinOutcome::Joined { left } => {
                let mut actions = leave(left);
                push_action(&mut actions, Action::Subscribe(topic));
                actions
            },
            JoinOutcome::Rejected => single(rejection()),
        }
    }

    /// Subscribes to the topic that the user chose at startup, given the
    /// line as it was entered.
    pub fn choose_initial_topic(&mut self, input: &str) -> (actions: Vec<Action>)
        ensures
            (final(self)@, actions.deep_view()) == initial_topic_step(
                old(self)@,
                trimmed(input@),
            ),
    {
        self.select_initial_topic(trim(input))
    }

    /// Publishes a chat line to the current topic.
    pub fn publish_line(&self, line: &str) -> (actions: Vec<Action>)
        ensures
            actions.deep_view() == publish_actions(self@.topic, line@),
    {
        match self.messaging.publish(line) {
            Ok(publication) => single(
                Action::Publish { topic: publication.topic, payload: publication.payload },
            ),
            Err(_) => single(Action::Report("Error publishing: no topic is subscribed".to_owned())),
        }
    }

    /// The request to put `name` into the distributed store as the display
    /// name of the local node.
    pub fn record_self(&self, name: &str) -> (action: Action)
        ensures
            action@ == publish_name_action(self@.local_peer, name@),
    {
        Action::PublishName {
            key: self.local_peer.as_str().to_owned(),
            value: name.as_bytes_vec(),
        }
    }

    /// Carries out a command.
    pub fn run_command(&mut self, command: Command) -> (actions: Vec<Action>)
        ensures
            (final(self)@, actions.deep_view()) == command_step(old(self)@, command@),
    {
        match command {
            Command::Empty => single(Action::Display("No command given".to_owned())),
            Command::Help => {
                let mut actions = no_actions();
                push_displays(&mut actions, &help_text());
                actions
            },
            Command::Peers => pair(
                Action::Display("Connected peers:".to_owned()),
                Action::ShowConnectedPeers,
            ),
            Command::Id => single(
                Action::Display(concat2("Your peer ID is: ", self.local_peer.as_str())),
            ),
            Command::Topic => {
                let mut actions = single(Action::Display("Currently subsribed topic:".to_owned()));
                push_displays(&mut actions, &self.messaging.topics());
                actions
            },
            Command::Topics => {
                let mut actions = single(Action::Display("Available topics:".to_owned()));
                push_displays(&mut actions, &allowed_topics());
                actions
            },
            Command::Nickname(name) => {
                let action = self.record_self(name.as_str());
                self.display_name = name;
                single(action)
            },
            Command::Join(topic) => self.join(topic.as_str()),
            Command::RequestFile { peer, filename } => request_file(
                PeerIdentity::parse(peer.as_str()),
                filename,
            ),
            Command::Message { peer, text } => send_private_message(
                &self.local_peer,
                PeerIdentity::parse(peer.as_str()),
                text,
            ),
            Command::Incomplete(verb) => single(Action::Display(usage_text(verb))),
            Command::Unknown => single(Action::Display("Unexpected command".to_owned())),
        }
    }

    /// Takes in a line that the user entered.
    pub fn handle_input(&mut self, line: &str) -> (actions: Vec<Action>)
        ensures
            (final(self)@, actions.deep_view()) == input_step(old(self)@, line@),
    {
        if !line.is_empty() && line.get_char(0) == '/' {
            handle_command(line, self)
        } else {
            self.publish_line(line)
        }
    }

    /// Takes in what the discovery source reports.
    pub fn handle_discovery(&self, event: DiscoveryEvent) -> (actions: Vec<Action>)
        ensures
            actions.deep_view() == discovery_actions(self@, event@),
    {
        match event {
            DiscoveryEvent::PeerAppeared { peer, address } => {
                let line = concat4(
                    "mDNS discovered peer: ",
                    peer.as_str(),
                    ", listening on ",
                    address.as_str(),
                );
                let mut actions = pair(Action::Display(line), Action::AddPeer { peer, address });
                if !self.name_published {
                    let action = self.record_self(self.display_name.as_str());
                    push_action(&mut actions, action);
                }
                actions
            },
            DiscoveryEvent::PeerDeparted { peer, address } => single(
                Action::RemovePeer { peer, address },
            ),
        }
    }

    /// Takes in what the publish-subscribe transport reports.
    pub fn handle_messaging(&self, event: MessagingEvent) -> (actions: Vec<Action>)
        ensures
            actions.deep_view() == messaging_actions(event@),
    {
        match event {
            MessagingEvent::Message { source, data } => match decode_text(data) {
                Some(message) => single(Action::BeginLookup { peer: source, message }),
                None => no_actions(),
            },
            MessagingEvent::PublishFailed { detail } => single(
                Action::Display(concat2("Error publishing: ", detail.as_str())),
            ),
        }
    }

    /// Registers the lookup that was issued under `id` for a message of
    /// `peer`.
    pub fn register_lookup(&mut self, id: u64, peer: PeerIdentity, message: String)
        ensures
            final(self)@ == (SessionView {
                pending: old(self)@.pending.insert(
                    id,
                    PendingLookupView { origin_peer: peer@, payload: message@ },
                ),
                ..old(self)@
            }),
    {
        self.pending.register(id, PendingLookup { origin_peer: peer, payload: message });
    }

    /// Takes in the completion of the lookup `id`.
    pub fn complete_lookup(&mut self, id: u64, outcome: LookupOutcome) -> (actions: Vec<Action>)
        ensures
            (final(self)@, actions.deep_view()) == completion_step(
                old(self)@,
                id,
                resolution_of(outcome@),
            ),
    {
        let resolution = resolve_name(outcome);
        match self.pending.complete(id, &resolution) {
            Some(completion) => {
                self.directory.apply_result(&completion.lookup.origin_peer, &resolution);
                single(Action::Display(completion.line))
            },
            None => {
                assert(old(self)@.pending.remove(id) =~= old(self)@.pending);
                no_actions()
            },
        }
    }

    /// Takes in what the distributed store reports.
    pub fn handle_directory(&mut self, event: DirectoryEvent) -> (actions: Vec<Action>)
        ensures
            (final(self)@, actions.deep_view()) == directory_step(old(self)@, event@),
    {
        match event {
            DirectoryEvent::PublishAccepted => {
                self.name_published = true;
                no_actions()
            },
            DirectoryEvent::PublishRejected { detail } => single(
                Action::Report(concat2("Failed to store record: ", detail.as_str())),
            ),
            DirectoryEvent::NameStored { key } => {
                let quoted = debug_text(key.as_str());
                single(Action::Display(concat2("Successfully put record ", quoted.as_str())))
            },
            DirectoryEvent::NameStoreFailed { detail } => single(
                Action::Display(concat2("Failed to put record ", detail.as_str())),
            ),
            DirectoryEvent::LookupIssued { id, peer, message } => {
                self.register_lookup(id, peer, message);
                no_actions()
            },
            DirectoryEvent::LookupCompleted { id, outcome } => self.complete_lookup(id, outcome),
        }
    }

    /// Takes in one event, whatever its source. This is the only place at
    /// which the session changes.
    pub fn handle_event(&mut self, event: Event) -> (actions: Vec<Action>)
        ensures
            (final(self)@, actions.deep_view()) == step(old(self)@, event@),
    {
        match event {
            Event::Input(line) => self.handle_input(line.as_str()),
            Event::Listening(address) => single(
                Action::Display(concat2("Your node is listening on ", address.as_str())),
            ),
            Event::Discovery(event) => self.handle_discovery(event),
            Event::Messaging(event) => self.handle_messaging(event),
            Event::Directory(event) => self.handle_directory(event),
            Event::Exchange(event) => handle_exchange_event(event),
        }
    }
}

} // verus!
