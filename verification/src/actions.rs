//! What the session asks its surroundings to do.

use vstd::prelude::*;
use crate::file_transfer::{FileRequest, FileResponse, FileResponseView};
use crate::identity::PeerIdentity;
use crate::private_message::{PrivateMessage, PrivateMessageResponse, PrivateMessageView};

verus! {

/// The two kinds of point-to-point exchange.
#[derive(Debug, Clone, Copy, PartialEq, Eq, Structural)]
pub enum ExchangeKind {
    FileRequest,
    PrivateMessage,
}

/// What an outbound exchange carries.
#[derive(Debug, PartialEq, Eq)]
pub enum ExchangePayload {
    FileRequest(FileRequest),
    PrivateMessage(PrivateMessage),
}

/// One outbound exchange. It is answered by one response or one failure, and
/// never sent again.
#[derive(Debug, PartialEq, Eq)]
pub struct ExchangeRequest {
    pub target_peer: PeerIdentity,
    pub payload: ExchangePayload,
}

/// The answer to an inbound exchange.
#[derive(Debug, PartialEq, Eq)]
pub enum ExchangeResponse {
    File(FileResponse),
    PrivateMessage(PrivateMessageResponse),
}

pub enum ExchangePayloadView {
    FileRequest(Seq<char>),
    PrivateMessage(PrivateMessageView),
}

pub struct ExchangeRequestView {
    pub target_peer: Seq<char>,
    pub payload: ExchangePayloadView,
}

pub enum ExchangeResponseView {
    File(FileResponseView),
    PrivateMessage(Seq<char>),
}

impl View for ExchangePayload {
    type V = ExchangePayloadView;

    open spec fn view(&self) -> ExchangePayloadView {
        match self {
            ExchangePayload::FileRequest(request) => ExchangePayloadView::FileRequest(request@),
            ExchangePayload::PrivateMessage(message) => ExchangePayloadView::PrivateMessage(
                message@,
            ),
        }
    }
}

impl ExchangePayload {
    /// The kind of exchange that carries this payload.
    pub open spec fn kind_of(payload: ExchangePayloadView) -> ExchangeKind {
        match payload {
            ExchangePayloadView::FileRequest(_) => ExchangeKind::FileRequest,
            ExchangePayloadView::PrivateMessage(_) => ExchangeKind::PrivateMessage,
        }
    }

    /// The kind of exchange that carries this payload.
    pub fn kind(&self) -> (kind: ExchangeKind)
        ensures
            kind == Self::kind_of(self@),
    {
        match self {
            ExchangePayload::FileRequest(_) => ExchangeKind::FileRequest,
            ExchangePayload::PrivateMessage(_) => ExchangeKind::PrivateMessage,
        }
    }
}

impl View for ExchangeRequest {
    type V = ExchangeRequestView;

    open spec fn view(&self) -> ExchangeRequestView {
        ExchangeRequestView { target_peer: self.target_peer@, payload: self.payload@ }
    }
}

impl View for ExchangeResponse {
    type V = ExchangeResponseView;

    open spec fn view(&self) -> ExchangeResponseView {
        match self {
            ExchangeResponse::File(response) => ExchangeResponseView::File(response@),
            ExchangeResponse::PrivateMessage(response) => ExchangeResponseView::PrivateMessage(
                response@,
            ),
        }
    }
}

/// One thing for the surroundings to do. The session hands out its actions in
/// the order in which they are to be performed.
#[derive(Debug, PartialEq, Eq)]
pub enum Action {
    /// Show a line to the user.
    Display(String),
    /// Show a line to the user as an error.
    Report(String),
    /// Show the peers that are connected at the moment, one per line.
    ShowConnectedPeers,
    /// Subscribe to a topic.
    Subscribe(String),
    /// Unsubscribe from a topic.
    Unsubscribe(String),
    /// Publish a payload to a topic.
    Publish { topic: String, payload: Vec<u8> },
    /// Make a peer known to the messaging transport and the address book.
    AddPeer { peer: PeerIdentity, address: String },
    /// Remove a peer from the messaging transport and the address book.
    RemovePeer { peer: PeerIdentity, address: String },
    /// Put a display name into the distributed store.
    PublishName { key: String, value: Vec<u8> },
    /// Look up the display name of the sender of a message.
    BeginLookup { peer: PeerIdentity, message: String },
    /// Send a request to a peer.
    SendRequest(ExchangeRequest),
    /// Look for a requested file and report what was seen.
    ReadUpload { path: String, filename: String },
    /// Answer the request that is being handled.
    Respond(ExchangeResponse),
    /// Make sure that a directory exists.
    EnsureDirectory(String),
    /// Write a received file.
    WriteFile { path: String, data: Vec<u8> },
}

pub enum ActionView {
    Display(Seq<char>),
    Report(Seq<char>),
    ShowConnectedPeers,
    Subscribe(Seq<char>),
    Unsubscribe(Seq<char>),
    Publish { topic: Seq<char>, payload: Seq<u8> },
    AddPeer { peer: Seq<char>, address: Seq<char> },
    RemovePeer { peer: Seq<char>, address: Seq<char> },
    PublishName { key: Seq<char>, value: Seq<u8> },
    BeginLookup { peer: Seq<char>, message: Seq<char> },
    SendRequest(ExchangeRequestView),
    ReadUpload { path: Seq<char>, filename: Seq<char> },
    Respond(ExchangeResponseView),
    EnsureDirectory(Seq<char>),
    WriteFile { path: Seq<char>, data: Seq<u8> },
}

impl View for Action {
    type V = ActionView;

    open spec fn view(&self) -> ActionView {
        match self {
            Action::Display(line) => ActionView::Display(line@),
            Action::Report(line) => ActionView::Report(line@),
            Action::ShowConnectedPeers => ActionView::ShowConnectedPeers,
            Action::Subscribe(topic) => ActionView::Subscribe(topic@),
            Action::Unsubscribe(topic) => ActionView::Unsubscribe(topic@),
            Action::Publish { topic, payload } => ActionView::Publish {
                topic: topic@,
                payload: payload@,
            },
            Action::AddPeer { peer, address } => ActionView::AddPeer {
                peer: peer@,
                address: address@,
            },
            Action::RemovePeer { peer, address } => ActionView::RemovePeer {
                peer: peer@,
                address: address@,
            },
            Action::PublishName { key, value } => ActionView::PublishName {
                key: key@,
                value: value@,
            },
            Action::BeginLookup { peer, message } => ActionView::BeginLookup {
                peer: peer@,
                message: message@,
            },
            Action::SendRequest(request) => ActionView::SendRequest(request@),
            Action::ReadUpload { path, filename } => ActionView::ReadUpload {
                path: path@,
                filename: filename@,
            },
            Action::Respond(response) => ActionView::Respond(response@),
            Action::EnsureDirectory(path) => ActionView::EnsureDirectory(path@),
            Action::WriteFile { path, data } => ActionView::WriteFile { path: path@, data: data@ },
        }
    }
}

impl DeepView for Action {
    type V = ActionView;

    open spec fn deep_view(&self) -> ActionView {
        self@
    }
}

/// One line for the user per line of `lines`.
pub open spec fn displays(lines: Seq<Seq<char>>) -> Seq<ActionView> {
    lines.map_values(|line: Seq<char>| ActionView::Display(line))
}

/// A vector that holds no action.
pub fn no_actions() -> (actions: Vec<Action>)
    ensures
        actions.deep_view() == Seq::<ActionView>::empty(),
{
    let actions: Vec<Action> = Vec::new();
    actions
}

/// A vector that holds one action.
pub fn single(action: Action) -> (actions: Vec<Action>)
    ensures
        actions.deep_view() == seq![action@],
{
    let mut actions: Vec<Action> = Vec::new();
    actions.push(action);
    actions
}

/// A vector that holds two actions.
pub fn pair(first: Action, second: Action) -> (actions: Vec<Action>)
    ensures
        actions.deep_view() == seq![first@, second@],
{
    let mut actions: Vec<Action> = Vec::new();
    actions.push(first);
    actions.push(second);
    actions
}

/// Appends one action.
pub fn push_action(actions: &mut Vec<Action>, action: Action)
    ensures
        final(actions).deep_view() == old(actions).deep_view().push(action@),
{
    actions.push(action);
}

/// Appends one line for the user per line of `lines`.
pub fn push_displays(actions: &mut Vec<Action>, lines: &Vec<String>)
    ensures
        final(actions).deep_view() == old(actions).deep_view() + displays(lines.deep_view()),
{
    let ghost before = actions.deep_view();
    let ghost all = lines.deep_view();
    let mut i: usize = 0;
    while i < lines.len()
        invariant
            i <= lines.len(),
            all == lines.deep_view(),
            actions.deep_view() == before + displays(all.subrange(0, i as int)),
        decreases lines.len() - i,
    {
        let ghost so_far = actions.deep_view();
        push_action(actions, Action::Display(lines[i].clone()));
        assert(so_far.push(ActionView::Display(all[i as int])) =~= before + displays(
            all.subrange(0, i + 1),
        ));
        i += 1;
    }
}

} // verus!
