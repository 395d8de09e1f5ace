//! The exchange service: what the node does with the requests, responses and
//! failures of point-to-point exchanges. It keeps no state of its own.

use vstd::prelude::*;
use crate::actions::{
    pair, single, Action, ActionView, ExchangeKind, ExchangeResponse, ExchangeResponseView,
};
use crate::events::{ExchangeEvent, ExchangeEventView};
use crate::file_transfer::{
    download_path, download_path_of, downloads_dir, outcome_of_wire, probe_outcome, respond,
    upload_path, upload_path_of, wire_data, FileOutcome, FileOutcomeView, FileProbe,
    FileProbeView, FileResponse, FileResponseView,
};
use crate::private_message::{acknowledge, acknowledgement_text, PrivateMessage};
use crate::text::{concat2, concat4, debug_quoted, debug_text};

verus! {

/// The line that confirms a stored file.
pub open spec fn file_saved_line(path: Seq<char>) -> Seq<char> {
    "File saved to "@ + debug_quoted(path)
}

/// The line for a file request that got no response.
pub open spec fn file_request_failed_line(peer: Seq<char>, detail: Seq<char>) -> Seq<char> {
    "Failed to send request to peer "@ + peer
        + ": This usually means incorrect filename, or the user doesnt have the file you requested ("@
        + detail + ")"@
}

/// The line for a private message that got no response.
pub open spec fn private_message_failed_line(peer: Seq<char>, detail: Seq<char>) -> Seq<char> {
    "Failed to send private message to "@ + peer + ": "@ + detail
}

/// The line for a request of a peer that could not be answered.
pub open spec fn inbound_failed_line(peer: Seq<char>, detail: Seq<char>) -> Seq<char> {
    "Failed to process request from peer "@ + peer + ": "@ + detail
}

/// The response that carries no file.
pub open spec fn not_found_response(filename: Seq<char>) -> ExchangeResponseView {
    ExchangeResponseView::File(FileResponseView { filename, data: Seq::empty() })
}

/// What a request for `filename` leads to: a look at the uploads area, or,
/// for a name that denotes nothing there, the empty response at once.
pub open spec fn file_request_actions(filename: Seq<char>) -> Seq<ActionView> {
    match upload_path_of(filename) {
        Some(path) => seq![ActionView::ReadUpload { path, filename }],
        None => seq![ActionView::Respond(not_found_response(filename))],
    }
}

/// The response to a request for `filename` after the uploads area was
/// looked at.
pub open spec fn file_response_for(filename: Seq<char>, probe: FileProbeView)
    -> ExchangeResponseView {
    ExchangeResponseView::File(
        FileResponseView { filename, data: wire_data(probe_outcome(probe)) },
    )
}

/// What a received file response leads to: the downloads directory is made
/// sure of, and then the content is written, or, for an empty payload, the
/// user is told that there is no such file.
pub open spec fn file_received_actions(response: FileResponseView) -> Seq<ActionView> {
    match outcome_of_wire(response.data) {
        FileOutcomeView::Found(data) => seq![
            ActionView::EnsureDirectory(downloads_dir()),
            ActionView::WriteFile { path: download_path_of(response.filename), data },
        ],
        FileOutcomeView::NotFound => seq![
            ActionView::EnsureDirectory(downloads_dir()),
            ActionView::Display("File does not exist"@),
        ],
    }
}

/// The one response to a private message, whatever it says.
pub open spec fn private_message_response() -> ExchangeResponseView {
    ExchangeResponseView::PrivateMessage(acknowledgement_text())
}

/// The line that reports a failed outbound exchange.
pub open spec fn outbound_failure_action(kind: ExchangeKind, peer: Seq<char>, detail: Seq<char>)
    -> ActionView {
    match kind {
        ExchangeKind::FileRequest => ActionView::Display(file_request_failed_line(peer, detail)),
        ExchangeKind::PrivateMessage => ActionView::Report(
            private_message_failed_line(peer, detail),
        ),
    }
}

/// The actions that an exchange event leads to.
pub open spec fn exchange_actions(event: ExchangeEventView) -> Seq<ActionView> {
    match event {
        ExchangeEventView::FileRequested { filename } => file_request_actions(filename),
        ExchangeEventView::UploadProbed { filename, probe } => seq![
            ActionView::Respond(file_response_for(filename, probe)),
        ],
        ExchangeEventView::FileReceived(response) => file_received_actions(response),
        ExchangeEventView::FileStored { path } => seq![ActionView::Display(file_saved_line(path))],
        ExchangeEventView::FileCreateFailed { detail } => seq![
            ActionView::Report("Failed to create file: "@ + detail),
        ],
        ExchangeEventView::FileWriteFailed { detail } => seq![
            ActionView::Report("Failed to write data to file: "@ + detail),
        ],
        ExchangeEventView::PrivateMessageReceived(message) => seq![
            ActionView::Respond(private_message_response()),
        ],
        ExchangeEventView::OutboundFailure { kind, peer, detail } => seq![
            outbound_failure_action(kind, peer, detail),
        ],
        ExchangeEventView::InboundFailure { peer, detail } => seq![
            ActionView::Display(inbound_failed_line(peer, detail)),
        ],
    }
}

/// Starts to serve a request for `filename`.
pub fn handle_file_request(filename: String) -> (actions: Vec<Action>)
    ensures
        actions.deep_view() == file_request_actions(filename@),
{
    match upload_path(filename.as_str()) {
        Some(path) => single(Action::ReadUpload { path, filename }),
        None => {
            let response = respond(filename, FileOutcome::NotFound);
            single(Action::Respond(ExchangeResponse::File(response)))
        },
    }
}

/// Answers a request for `filename` with what the uploads area holds. Any
/// check that failed gives the empty payload, never an error.
pub fn answer_file_request(filename: String, probe: FileProbe) -> (response: ExchangeResponse)
    ensures
        response@ == file_response_for(filename@, probe@),
{
    ExchangeResponse::File(respond(filename, FileOutcome::from_probe(probe)))
}

/// Takes in the answer to a file request of this node.
pub fn handle_response(response: FileResponse) -> (actions: Vec<Action>)
    ensures
        actions.deep_view() == file_received_actions(response@),
{
    let ensure = Action::EnsureDirectory("downloads".to_owned());
    if response.data.len() > 0 {
        let path = download_path(response.filename.as_str());
        pair(ensure, Action::WriteFile { path, data: response.data })
    } else {
        pair(ensure, Action::Display("File does not exist".to_owned()))
    }
}

/// Answers a private message.
pub fn answer_private_message(message: &PrivateMessage) -> (response: ExchangeResponse)
    ensures
        response@ == private_message_response(),
{
    ExchangeResponse::PrivateMessage(acknowledge(message))
}

/// Reports an outbound exchange that failed.
pub fn report_outbound_failure(kind: ExchangeKind, peer: &str, detail: &str) -> (action: Action)
    ensures
        action@ == outbound_failure_action(kind, peer@, detail@),
{
    match kind {
        ExchangeKind::FileRequest => {
            let head = concat2("Failed to send request to peer ", peer);
            Action::Display(
                concat4(
                    head.as_str(),
                    ": This usually means incorrect filename, or the user doesnt have the file you requested (",
                    detail,
                    ")",
                ),
            )
        },
        ExchangeKind::PrivateMessage => Action::Report(
            concat4("Failed to send private message to ", peer, ": ", detail),
        ),
    }
}

/// Decides what an exchange event leads to.
pub fn handle_exchange_event(event: ExchangeEvent) -> (actions: Vec<Action>)
    ensures
        actions.deep_view() == exchange_actions(event@),
{
    match event {
        ExchangeEvent::FileRequested { filename } => handle_file_request(filename),
        ExchangeEvent::UploadProbed { filename, probe } => single(
            Action::Respond(answer_file_request(filename, probe)),
        ),
        ExchangeEvent::FileReceived(response) => handle_response(response),
        ExchangeEvent::FileStored { path } => {
            let quoted = debug_text(path.as_str());
            single(Action::Display(concat2("File saved to ", quoted.as_str())))
        },
        ExchangeEvent::FileCreateFailed { detail } => single(
            Action::Report(concat2("Failed to create file: ", detail.as_str())),
        ),
        ExchangeEvent::FileWriteFailed { detail } => single(
            Action::Report(concat2("Failed to write data to file: ", detail.as_str())),
        ),
        ExchangeEvent::PrivateMessageReceived(message) => single(
            Action::Respond(answer_private_message(&message)),
        ),
        ExchangeEvent::OutboundFailure { kind, peer, detail } => single(
            report_outbound_failure(kind, peer.as_str(), detail.as_str()),
        ),
        ExchangeEvent::InboundFailure { peer, detail } => single(
            Action::Display(
                concat4("Failed to process request from peer ", peer.as_str(), ": ", detail.as_str()),
            ),
        ),
    }
}

} // verus!
