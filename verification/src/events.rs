//! What happens to a session: one tagged union, with one variant for each
//! source of events.

use vstd::prelude::*;
use crate::actions::ExchangeKind;
use crate::directory::{LookupOutcome, LookupOutcomeView};
use crate::file_transfer::{FileProbe, FileProbeView, FileResponse, FileResponseView};
use crate::identity::PeerIdentity;
use crate::private_message::{PrivateMessage, PrivateMessageView};

verus! {

/// What the discovery source reports.
#[derive(Debug, PartialEq, Eq)]
pub enum DiscoveryEvent {
    PeerAppeared { peer: PeerIdentity, address: String },
    PeerDeparted { peer: PeerIdentity, address: String },
}

/// What the publish-subscribe transport reports.
#[derive(Debug, PartialEq, Eq)]
pub enum MessagingEvent {
    /// A message arrived on a subscribed topic.
    Message { source: PeerIdentity, data: Vec<u8> },
    /// The transport refused a payload that was to be published.
    PublishFailed { detail: String },
}

/// What the distributed store reports.
#[derive(Debug, PartialEq, Eq)]
pub enum DirectoryEvent {
    /// The store took a display name for publication.
    PublishAccepted,
    /// The store refused to take a display name.
    PublishRejected { detail: String },
    /// A published record has been stored under `key`.
    NameStored { key: String },
    /// A published record could not be stored.
    NameStoreFailed { detail: String },
    /// The lookup asked for by `Action::BeginLookup` was issued under `id`.
    LookupIssued { id: u64, peer: PeerIdentity, message: String },
    /// The lookup issued under `id` has completed.
    LookupCompleted { id: u64, outcome: LookupOutcome },
}

/// What the request-response transport and the file system report.
#[derive(Debug, PartialEq, Eq)]
pub enum ExchangeEvent {
    /// A peer asks for a file.
    FileRequested { filename: String },
    /// What `Action::ReadUpload` saw.
    UploadProbed { filename: String, probe: FileProbe },
    /// The answer to a file request of this node.
    FileReceived(FileResponse),
    /// `Action::WriteFile` wrote the file.
    FileStored { path: String },
    /// `Action::WriteFile` could not create the file.
    FileCreateFailed { detail: String },
    /// `Action::WriteFile` could not write the content.
    FileWriteFailed { detail: String },
    /// A peer sent a private message.
    PrivateMessageReceived(PrivateMessage),
    /// A request of this node got no response.
    OutboundFailure { kind: ExchangeKind, peer: PeerIdentity, detail: String },
    /// A request of a peer could not be answered.
    InboundFailure { peer: PeerIdentity, detail: String },
}

/// Everything that can happen to a session.
#[derive(Debug, PartialEq, Eq)]
pub enum Event {
    /// The user entered a line.
    Input(String),
    /// The node listens on a new address.
    Listening(String),
    Discovery(DiscoveryEvent),
    Messaging(MessagingEvent),
    Directory(DirectoryEvent),
    Exchange(ExchangeEvent),
}

pub enum DiscoveryEventView {
    PeerAppeared { peer: Seq<char>, address: Seq<char> },
    PeerDeparted { peer: Seq<char>, address: Seq<char> },
}

pub enum MessagingEventView {
    Message { source: Seq<char>, data: Seq<u8> },
    PublishFailed { detail: Seq<char> },
}

pub enum DirectoryEventView {
    PublishAccepted,
    PublishRejected { detail: Seq<char> },
    NameStored { key: Seq<char> },
    NameStoreFailed { detail: Seq<char> },
    LookupIssued { id: u64, peer: Seq<char>, message: Seq<char> },
    LookupCompleted { id: u64, outcome: LookupOutcomeView },
}

pub enum ExchangeEventView {
    FileRequested { filename: Seq<char> },
    UploadProbed { filename: Seq<char>, probe: FileProbeView },
    FileReceived(FileResponseView),
    FileStored { path: Seq<char> },
    FileCreateFailed { detail: Seq<char> },
    FileWriteFailed { detail: Seq<char> },
    PrivateMessageReceived(PrivateMessageView),
    OutboundFailure { kind: ExchangeKind, peer: Seq<char>, detail: Seq<char> },
    InboundFailure { peer: Seq<char>, detail: Seq<char> },
}

pub enum EventView {
    Input(Seq<char>),
    Listening(Seq<char>),
    Discovery(DiscoveryEventView),
    Messaging(MessagingEventView),
    Directory(DirectoryEventView),
    Exchange(ExchangeEventView),
}

impl View for DiscoveryEvent {
    type V = DiscoveryEventView;

    open spec fn view(&self) -> DiscoveryEventView {
        match self {
            DiscoveryEvent::PeerAppeared { peer, address } => DiscoveryEventView::PeerAppeared {
                peer: peer@,
                address: address@,
            },
            DiscoveryEvent::PeerDeparted { peer, address } => DiscoveryEventView::PeerDeparted {
                peer: peer@,
                address: address@,
            },
        }
    }
}

impl View for MessagingEvent {
    type V = MessagingEventView;

    open spec fn view(&self) -> MessagingEventView {
        match self {
            MessagingEvent::Message { source, data } => MessagingEventView::Message {
                source: source@,
                data: data@,
            },
            MessagingEvent::PublishFailed { detail } => MessagingEventView::PublishFailed {
                detail: detail@,
            },
        }
    }
}

impl View for DirectoryEvent {
    type V = DirectoryEventView;

    open spec fn view(&self) -> DirectoryEventView {
        match self {
            DirectoryEvent::PublishAccepted => DirectoryEventView::PublishAccepted,
            DirectoryEvent::PublishRejected { detail } => DirectoryEventView::PublishRejected {
                detail: detail@,
            },
            DirectoryEvent::NameStored { key } => DirectoryEventView::NameStored { key: key@ },
            DirectoryEvent::NameStoreFailed { detail } => DirectoryEventView::NameStoreFailed {
                detail: detail@,
            },
            DirectoryEvent::LookupIssued { id, peer, message } => DirectoryEventView::LookupIssued {
                id: *id,
                peer: peer@,
                message: message@,
            },
            DirectoryEvent::LookupCompleted { id, outcome } => DirectoryEventView::LookupCompleted {
                id: *id,
                outcome: outcome@,
            },
        }
    }
}

impl View for ExchangeEvent {
    type V = ExchangeEventView;

    open spec fn view(&self) -> ExchangeEventView {
        match self {
            ExchangeEvent::FileRequested { filename } => ExchangeEventView::FileRequested {
                filename: filename@,
            },
            ExchangeEvent::UploadProbed { filename, probe } => ExchangeEventView::UploadProbed {
                filename: filename@,
                probe: probe@,
            },
            ExchangeEvent::FileReceived(response) => ExchangeEventView::FileReceived(response@),
            ExchangeEvent::FileStored { path } => ExchangeEventView::FileStored { path: path@ },
            ExchangeEvent::FileCreateFailed { detail } => ExchangeEventView::FileCreateFailed {
                detail: detail@,
            },
            ExchangeEvent::FileWriteFailed { detail } => ExchangeEventView::FileWriteFailed {
                detail: detail@,
            },
            ExchangeEvent::PrivateMessageReceived(message) => {
                ExchangeEventView::PrivateMessageReceived(message@)
            },
            ExchangeEvent::OutboundFailure { kind, peer, detail } => {
                ExchangeEventView::OutboundFailure { kind: *kind, peer: peer@, detail: detail@ }
            },
            ExchangeEvent::InboundFailure { peer, detail } => ExchangeEventView::InboundFailure {
                peer: peer@,
                detail: detail@,
            },
        }
    }
}

impl View for Event {
    type V = EventView;

    open spec fn view(&self) -> EventView {
        match self {
            Event::Input(line) => EventView::Input(line@),
            Event::Listening(address) => EventView::Listening(address@),
            Event::Discovery(event) => EventView::Discovery(event@),
            Event::Messaging(event) => EventView::Messaging(event@),
            Event::Directory(event) => EventView::Directory(event@),
            Event::Exchange(event) => EventView::Exchange(event@),
        }
    }
}

} // verus!
