//! The pending-lookup correlator: which chat messages wait for the display
//! name of their sender, and the line that each one becomes.

use vstd::prelude::*;
use std::collections::HashMap;
use crate::directory::{NameResolution, NameResolutionView};
use crate::identity::PeerIdentity;
use crate::text::{concat3, concat4};

verus! {

broadcast use vstd::std_specs::hash::group_hash_axioms;

/// A chat message whose sender's name is being looked up.
#[derive(Debug, PartialEq, Eq)]
pub struct PendingLookup {
    pub origin_peer: PeerIdentity,
    pub payload: String,
}

pub struct PendingLookupView {
    pub origin_peer: Seq<char>,
    pub payload: Seq<char>,
}

impl View for PendingLookup {
    type V = PendingLookupView;

    open spec fn view(&self) -> PendingLookupView {
        PendingLookupView { origin_peer: self.origin_peer@, payload: self.payload@ }
    }
}

/// The state in which a lookup ends. A lookup that was issued reaches exactly
/// one of these, once.
#[derive(Debug, Clone, Copy, PartialEq, Eq, Structural)]
pub enum LookupState {
    /// The sender's name is known.
    Resolved,
    /// The store answered, but gave no usable name.
    Unresolved,
    /// The store could not answer.
    Failed,
}

/// The terminal state that a resolution leads to.
pub open spec fn terminal_state(resolution: NameResolutionView) -> LookupState {
    match resolution {
        NameResolutionView::Resolved(_) => LookupState::Resolved,
        NameResolutionView::Undecodable => LookupState::Unresolved,
        NameResolutionView::Missing => LookupState::Unresolved,
        NameResolutionView::Failed(_) => LookupState::Failed,
    }
}

/// The line for a message whose sender's name is known.
pub open spec fn chat_line(name: Seq<char>, message: Seq<char>) -> Seq<char> {
    name + ": "@ + message
}

/// The line for a message whose sender's stored name is not text.
pub open spec fn undecodable_line(peer: Seq<char>, message: Seq<char>) -> Seq<char> {
    "Failed to decode nickname for peer "@ + peer + ", but received: "@ + message
}

/// The line for a message whose sender has no stored name.
pub open spec fn missing_line(peer: Seq<char>, message: Seq<char>) -> Seq<char> {
    "No nickname found for peer "@ + peer + ", but received: "@ + message
}

/// The line for a message whose sender's name could not be looked up.
pub open spec fn failed_line(detail: Seq<char>, peer: Seq<char>, message: Seq<char>) -> Seq<
    char,
> {
    "Failed to get record "@ + detail + " for peer "@ + peer + ", but received: "@ + message
}

/// The line that a completed lookup shows to the user.
pub open spec fn resolution_line(resolution: NameResolutionView, lookup: PendingLookupView) -> Seq<
    char,
> {
    match resolution {
        NameResolutionView::Resolved(name) => chat_line(name, lookup.payload),
        NameResolutionView::Undecodable => undecodable_line(lookup.origin_peer, lookup.payload),
        NameResolutionView::Missing => missing_line(lookup.origin_peer, lookup.payload),
        NameResolutionView::Failed(detail) => failed_line(
            detail,
            lookup.origin_peer,
            lookup.payload,
        ),
    }
}

/// Tells in which state a lookup with this resolution ends.
pub fn classify(resolution: &NameResolution) -> (state: LookupState)
    ensures
        state == terminal_state(resolution@),
{
    match resolution {
        NameResolution::Resolved(_) => LookupState::Resolved,
        NameResolution::Undecodable => LookupState::Unresolved,
        NameResolution::Missing => LookupState::Unresolved,
        NameResolution::Failed(_) => LookupState::Failed,
    }
}

/// Writes the line for a message whose lookup has completed.
pub fn display_line(resolution: &NameResolution, lookup: &PendingLookup) -> (line: String)
    ensures
        line@ == resolution_line(resolution@, lookup@),
{
    let peer = lookup.origin_peer.as_str();
    let message = lookup.payload.as_str();
    match resolution {
        NameResolution::Resolved(name) => concat3(name.as_str(), ": ", message),
        NameResolution::Undecodable => concat4(
            "Failed to decode nickname for peer ",
            peer,
            ", but received: ",
            message,
        ),
        NameResolution::Missing => concat4(
            "No nickname found for peer ",
            peer,
            ", but received: ",
            message,
        ),
        NameResolution::Failed(detail) => {
            let head = concat3("Failed to get record ", detail.as_str(), " for peer ");
            concat4(head.as_str(), peer, ", but received: ", message)
        },
    }
}

/// How a lookup ended: its terminal state, the message that waited for it,
/// and the line that the message has become.
#[derive(Debug, PartialEq, Eq)]
pub struct Completion {
    pub state: LookupState,
    pub lookup: PendingLookup,
    pub line: String,
}

pub struct CompletionView {
    pub state: LookupState,
    pub lookup: PendingLookupView,
    pub line: Seq<char>,
}

impl View for Completion {
    type V = CompletionView;

    open spec fn view(&self) -> CompletionView {
        CompletionView { state: self.state, lookup: self.lookup@, line: self.line@ }
    }
}

impl DeepView for Completion {
    type V = CompletionView;

    open spec fn deep_view(&self) -> CompletionView {
        self@
    }
}

/// What the completion of the lookup `id` hands out: nothing for an id that
/// is not pending.
pub open spec fn completion_of(
    pending: Map<u64, PendingLookupView>,
    id: u64,
    resolution: NameResolutionView,
) -> Option<CompletionView> {
    if pending.contains_key(id) {
        Some(
            CompletionView {
                state: terminal_state(resolution),
                lookup: pending[id],
                line: resolution_line(resolution, pending[id]),
            },
        )
    } else {
        None
    }
}

/// The lookups that were issued and have not completed, by lookup id.
pub struct PendingLookups {
    entries: HashMap<u64, PendingLookup>,
}

impl PendingLookups {
    /// The pending set as a map from lookup id to the waiting message.
    pub closed spec fn view(&self) -> Map<u64, PendingLookupView> {
        self.entries@.map_values(|p: PendingLookup| p@)
    }

    /// No lookup is pending.
    pub fn new() -> (pending: Self)
        ensures
            pending@ == Map::<u64, PendingLookupView>::empty(),
    {
        let pending = PendingLookups { entries: HashMap::new() };
        pending
    }

    /// The number of pending lookups.
    pub fn len(&self) -> (n: usize)
        ensures
            self@.dom().finite(),
            n == self@.dom().len(),
    {
        assert(self@.dom() =~= self.entries@.dom());
        self.entries.len()
    }

    /// Whether a lookup with this id is pending.
    pub fn contains(&self, id: u64) -> (pending: bool)
        ensures
            pending == self@.contains_key(id),
    {
        self.entries.contains_key(&id)
    }

    /// Puts a lookup that was just issued into the set. A lookup that was
    /// pending under the same id is replaced.
    pub fn register(&mut self, id: u64, lookup: PendingLookup)
        ensures
            final(self)@ == old(self)@.insert(id, lookup@),
    {
        self.entries.insert(id, lookup);
    }

    /// Takes the lookup with this id out of the set, if it is pending.
    pub fn take(&mut self, id: u64) -> (taken: Option<PendingLookup>)
        ensures
            match taken {
                Some(lookup) => old(self)@.contains_key(id) && lookup@ == old(self)@[id]
                    && final(self)@ == old(self)@.remove(id),
                None => !old(self)@.contains_key(id) && final(self)@ == old(self)@,
            },
    {
        self.entries.remove(&id)
    }

    /// Moves the lookup `id` into its terminal state: it leaves the set, once
    /// and for all, and becomes a line. A completion for an id that is not
    /// pending changes nothing.
    pub fn complete(&mut self, id: u64, resolution: &NameResolution) -> (completion: Option<
        Completion,
    >)
        ensures
            final(self)@ == old(self)@.remove(id),
            completion.deep_view() == completion_of(old(self)@, id, resolution@),
    {
        match self.take(id) {
            Some(lookup) => {
                let line = display_line(resolution, &lookup);
                Some(Completion { state: classify(resolution), lookup, line })
            },
            None => {
                None
            },
        }
    }
}

} // verus!
