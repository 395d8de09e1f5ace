//! Private messages between two peers and their acknowledgement.

use vstd::prelude::*;

verus! {

/// A message sent to one peer only.
#[derive(Debug, Clone, PartialEq, Eq)]
pub struct PrivateMessage {
    pub message: String,
    pub sender: String,
}

/// The receipt a peer sends back for a private message.
#[derive(Debug, Clone, PartialEq, Eq)]
pub struct PrivateMessageResponse(pub String);

/// A private message as plain sequences.
pub struct PrivateMessageView {
    pub message: Seq<char>,
    pub sender: Seq<char>,
}

impl View for PrivateMessage {
    type V = PrivateMessageView;

    open spec fn view(&self) -> PrivateMessageView {
        PrivateMessageView { message: self.message@, sender: self.sender@ }
    }
}

impl View for PrivateMessageResponse {
    type V = Seq<char>;

    open spec fn view(&self) -> Seq<char> {
        self.0@
    }
}

/// The status text of every acknowledgement.
pub open spec fn acknowledgement_text() -> Seq<char> {
    "Recipient recieved message"@
}

/// Builds the message that `sender` addresses to a peer.
pub fn compose(sender: &str, message: String) -> (out: PrivateMessage)
    ensures
        out@ == (PrivateMessageView { message: message@, sender: sender@ }),
{
    PrivateMessage { message, sender: sender.to_owned() }
}

/// The receipt for `request`. It is the same for every request: no content
/// is ever refused.
pub fn acknowledge(request: &PrivateMessage) -> (response: PrivateMessageResponse)
    ensures
        response@ == acknowledgement_text(),
{
    PrivateMessageResponse("Recipient recieved message".to_owned())
}

} // verus!
