//! What holds of every session, proved from the step function.

use vstd::prelude::*;
use crate::actions::{ActionView, ExchangeResponseView};
use crate::commands::{command_tokens, parse_tokens, CommandView};
use crate::directory::{resolution_of, LookupOutcomeView};
use crate::events::{
    DirectoryEventView, DiscoveryEventView, EventView, ExchangeEventView, MessagingEventView,
};
use crate::exchange::{
    exchange_actions, file_received_actions, file_response_for, not_found_response,
};
use crate::file_transfer::{
    download_path_of, downloads_dir, has_separator, FileProbeView, FileResponseView,
};
use crate::lookups::{resolution_line, PendingLookupView};
use crate::private_message::{acknowledgement_text, PrivateMessageView};
use crate::session::{
    command_step, initial_state, join_step, rejection_line, step, topic_list, SessionView,
};
use crate::text::decoded;
use crate::topics::is_allowed_topic;

verus! {

/// The state after a sequence of events, handled in order.
pub open spec fn run(s: SessionView, events: Seq<EventView>) -> SessionView
    decreases events.len(),
{
    if events.len() == 0 {
        s
    } else {
        step(run(s, events.drop_last()), events.last()).0
    }
}

/// Whether an event reports that the lookup `id` was issued.
pub open spec fn issues(event: EventView, id: u64) -> bool {
    event matches EventView::Directory(DirectoryEventView::LookupIssued { id: issued, .. })
        && issued == id
}

/// Whether an event reports that the lookup `id` has completed.
pub open spec fn completes(event: EventView, id: u64) -> bool {
    event matches EventView::Directory(DirectoryEventView::LookupCompleted { id: completed, .. })
        && completed == id
}

/// Whether the lookup `id` was issued at position `i` and no later event
/// completes it.
pub open spec fn issued_and_open(events: Seq<EventView>, id: u64, i: int) -> bool {
    &&& 0 <= i < events.len()
    &&& issues(events[i], id)
    &&& forall|j: int| i < j < events.len() ==> !completes(#[trigger] events[j], id)
}

/// Whether the lookup `id` has been issued and has not reached its terminal
/// state by the end of `events`.
pub open spec fn outstanding(events: Seq<EventView>, id: u64) -> bool {
    exists|i: int| issued_and_open(events, id, i)
}

/// The lookups that are outstanding at the end of `events`.
pub open spec fn outstanding_ids(events: Seq<EventView>) -> Set<u64> {
    Set::new(|id: u64| outstanding(events, id))
}

/// Whether the current topic, if there is one, is on the allow-list.
pub open spec fn topic_is_allowed(s: SessionView) -> bool {
    s.topic matches Some(topic) ==> is_allowed_topic(topic)
}

/// A command changes neither the pending set nor the directory, and leaves
/// the current topic on the allow-list.
pub proof fn lemma_command_keeps_lookups(s: SessionView, command: CommandView)
    ensures
        command_step(s, command).0.pending == s.pending,
        command_step(s, command).0.directory == s.directory,
        command_step(s, command).0.local_peer == s.local_peer,
        topic_is_allowed(s) ==> topic_is_allowed(command_step(s, command).0),
{
}

/// Only the events of the distributed store touch the pending set.
pub proof fn lemma_step_pending(s: SessionView, event: EventView)
    ensures
        step(s, event).0.pending == (match event {
            EventView::Directory(DirectoryEventView::LookupIssued { id, peer, message }) => {
                s.pending.insert(id, PendingLookupView { origin_peer: peer, payload: message })
            },
            EventView::Directory(DirectoryEventView::LookupCompleted { id, .. }) => {
                s.pending.remove(id)
            },
            _ => s.pending,
        }),
{
    if let EventView::Input(line) = event {
        lemma_command_keeps_lookups(s, parse_tokens(command_tokens(line)));
    }
}

/// Whatever happens, the node is subscribed to at most one topic, and that
/// topic is on the allow-list.
pub proof fn theorem_one_allowed_topic(s: SessionView, events: Seq<EventView>)
    requires
        topic_is_allowed(s),
    ensures
        topic_is_allowed(run(s, events)),
        topic_list(run(s, events).topic).len() <= 1,
    decreases events.len(),
{
    if events.len() > 0 {
        theorem_one_allowed_topic(s, events.drop_last());
        let before = run(s, events.drop_last());
        if let EventView::Input(line) = events.last() {
            lemma_command_keeps_lookups(before, parse_tokens(command_tokens(line)));
        }
    }
}

/// Discovery changes nothing in the session: a peer that departs keeps the
/// name that the directory holds for it.
pub proof fn theorem_discovery_keeps_state(s: SessionView, event: DiscoveryEventView)
    ensures
        step(s, EventView::Discovery(event)).0 == s,
{
}

/// A message that is valid text leads to exactly one lookup, and the
/// completion of that lookup to exactly one line. The lookup is pending in
/// between and not afterwards, so that a second completion shows nothing.
pub proof fn theorem_message_shown_once(
    s: SessionView,
    source: Seq<char>,
    data: Seq<u8>,
    id: u64,
    outcome: LookupOutcomeView,
    again: LookupOutcomeView,
)
    requires
        decoded(data) is Some,
        !s.pending.contains_key(id),
        s.pending.dom().finite(),
    ensures
        ({
            let message = decoded(data)->0;
            let lookup = PendingLookupView { origin_peer: source, payload: message };
            let received = step(
                s,
                EventView::Messaging(MessagingEventView::Message { source, data }),
            );
            let issued = step(
                received.0,
                EventView::Directory(
                    DirectoryEventView::LookupIssued { id, peer: source, message },
                ),
            );
            let completed = step(
                issued.0,
                EventView::Directory(DirectoryEventView::LookupCompleted { id, outcome }),
            );
            let repeated = step(
                completed.0,
                EventView::Directory(DirectoryEventView::LookupCompleted { id, outcome: again }),
            );
            &&& received.0 == s
            &&& received.1 == seq![ActionView::BeginLookup { peer: source, message }]
            &&& issued.1.len() == 0
            &&& issued.0.pending == s.pending.insert(id, lookup)
            &&& issued.0.pending.dom().len() == s.pending.dom().len() + 1
            &&& completed.1 == seq![
                ActionView::Display(resolution_line(resolution_of(outcome), lookup)),
            ]
            &&& completed.0.pending == s.pending
            &&& repeated.1.len() == 0
            &&& repeated.0 == completed.0
        }),
{
    let message = decoded(data)->0;
    let lookup = PendingLookupView { origin_peer: source, payload: message };
}

/// The completion of a lookup that is not pending changes nothing and shows
/// nothing.
pub proof fn theorem_unknown_completion_is_ignored(
    s: SessionView,
    id: u64,
    outcome: LookupOutcomeView,
)
    requires
        !s.pending.contains_key(id),
    ensures
        step(s, EventView::Directory(DirectoryEventView::LookupCompleted { id, outcome })) == (
            s,
            Seq::<ActionView>::empty(),
        ),
{
}

/// A topic that is not on the allow-list is refused: nothing changes, no
/// subscription is touched, and the user is told. A topic that is on it is
/// the one subscribed topic afterwards.
pub proof fn theorem_join(s: SessionView, topic: Seq<char>)
    ensures
        !is_allowed_topic(topic) ==> join_step(s, topic) == (
            s,
            seq![ActionView::Display(rejection_line())],
        ),
        is_allowed_topic(topic) ==> topic_list(join_step(s, topic).0.topic) == seq![topic],
        command_step(s, CommandView::Join(topic)) == join_step(s, topic),
{
}

/// A request for a file is answered exactly once: at once, with the empty
/// payload, for a name that leads out of the flat uploads area; else after
/// one look at the file of that name below the uploads directory.
pub proof fn theorem_file_request_answered_once(filename: Seq<char>, probe: FileProbeView)
    ensures
        has_separator(filename) ==> exchange_actions(
            ExchangeEventView::FileRequested { filename },
        ) == seq![ActionView::Respond(not_found_response(filename))],
        !has_separator(filename) ==> exchange_actions(
            ExchangeEventView::FileRequested { filename },
        ) == seq![ActionView::ReadUpload { path: "uploads/"@ + filename, filename }],
        exchange_actions(ExchangeEventView::UploadProbed { filename, probe }) == seq![
            ActionView::Respond(file_response_for(filename, probe)),
        ],
{
}

/// Whether the three checks on a requested file all passed.
pub open spec fn probe_passed(probe: FileProbeView) -> bool {
    probe.exists && probe.is_file && probe.contents is Some
}

/// A file that is missing or unreadable is answered with an empty payload,
/// and an empty payload makes the requester tell the user, and write nothing.
pub proof fn theorem_missing_file(filename: Seq<char>, probe: FileProbeView)
    requires
        !probe_passed(probe),
    ensures
        file_response_for(filename, probe) == ExchangeResponseView::File(
            FileResponseView { filename, data: Seq::empty() },
        ),
        file_received_actions(FileResponseView { filename, data: Seq::empty() }) == seq![
            ActionView::EnsureDirectory(downloads_dir()),
            ActionView::Display("File does not exist"@),
        ],
        forall|i: int|
            0 <= i < file_received_actions(FileResponseView { filename, data: Seq::empty() }).len()
                ==> !(#[trigger] file_received_actions(
                FileResponseView { filename, data: Seq::empty() },
            )[i] is WriteFile),
{
}

/// A file that exists with content is answered with exactly that content,
/// and the requester writes exactly that content below the downloads
/// directory.
pub proof fn theorem_file_round_trip(filename: Seq<char>, content: Seq<u8>)
    requires
        content.len() > 0,
    ensures
        ({
            let probe = FileProbeView { exists: true, is_file: true, contents: Some(content) };
            let response = FileResponseView { filename, data: content };
            &&& file_response_for(filename, probe) == ExchangeResponseView::File(response)
            &&& file_received_actions(response) == seq![
                ActionView::EnsureDirectory(downloads_dir()),
                ActionView::WriteFile { path: download_path_of(filename), data: content },
            ]
        }),
{
}

/// Every private message is answered by exactly one acknowledgement, the
/// same whatever the message says.
pub proof fn theorem_private_message_acknowledged(s: SessionView, message: PrivateMessageView)
    ensures
        exchange_actions(ExchangeEventView::PrivateMessageReceived(message)) == seq![
            ActionView::Respond(ExchangeResponseView::PrivateMessage(acknowledgement_text())),
        ],
        step(s, EventView::Exchange(ExchangeEventView::PrivateMessageReceived(message))) == (
            s,
            seq![
                ActionView::Respond(ExchangeResponseView::PrivateMessage(acknowledgement_text())),
            ],
        ),
{
}

proof fn lemma_outstanding_after(events: Seq<EventView>, id: u64)
    requires
        events.len() > 0,
    ensures
        outstanding(events, id) == (issues(events.last(), id) || (outstanding(
            events.drop_last(),
            id,
        ) && !completes(events.last(), id))),
{
    let prefix = events.drop_last();
    let last = events.len() - 1;
    if outstanding(events, id) {
        let i = choose|i: int| issued_and_open(events, id, i);
        if i < last {
            assert(issued_and_open(prefix, id, i));
        }
    }
    if issues(events.last(), id) {
        assert(issued_and_open(events, id, last));
    }
    if outstanding(prefix, id) && !completes(events.last(), id) {
        let i = choose|i: int| issued_and_open(prefix, id, i);
        assert forall|j: int| i < j < events.len() implies !completes(
            #[trigger] events[j],
            id,
        ) by {
            if j < last {
                assert(prefix[j] == events[j]);
            }
        }
        assert(issued_and_open(events, id, i));
    }
}

/// At every point of every run, the pending set holds exactly the lookups
/// that were issued and have not completed, so that its size is their number.
pub proof fn theorem_pending_are_outstanding(
    local_peer: Seq<char>,
    display_name: Seq<char>,
    events: Seq<EventView>,
)
    ensures
        run(initial_state(local_peer, display_name), events).pending.dom() == outstanding_ids(
            events,
        ),
        outstanding_ids(events).finite(),
        run(initial_state(local_peer, display_name), events).pending.dom().len()
            == outstanding_ids(events).len(),
    decreases events.len(),
{
    let start = initial_state(local_peer, display_name);
    if events.len() > 0 {
        let prefix = events.drop_last();
        theorem_pending_are_outstanding(local_peer, display_name, prefix);
        let before = run(start, prefix);
        lemma_step_pending(before, events.last());
        assert forall|id: u64| #[trigger]
            run(start, events).pending.dom().contains(id) == outstanding(events, id) by {
            lemma_outstanding_after(events, id);
        }
    }
}

} // verus!
