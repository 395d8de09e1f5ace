//! The peer directory: the last display name that the distributed store gave
//! for each peer.

use vstd::prelude::*;
use crate::identity::PeerIdentity;
use crate::text::{decode_text, decoded};

verus! {

/// What the distributed store delivered for one lookup.
#[derive(Debug, Clone, PartialEq, Eq)]
pub enum LookupOutcome {
    /// The stored value, as raw bytes.
    Found(Vec<u8>),
    NotFound,
    /// The store could not answer; the text says why.
    Failed(String),
}

pub enum LookupOutcomeView {
    Found(Seq<u8>),
    NotFound,
    Failed(Seq<char>),
}

impl View for LookupOutcome {
    type V = LookupOutcomeView;

    open spec fn view(&self) -> LookupOutcomeView {
        match self {
            LookupOutcome::Found(bytes) => LookupOutcomeView::Found(bytes@),
            LookupOutcome::NotFound => LookupOutcomeView::NotFound,
            LookupOutcome::Failed(detail) => LookupOutcomeView::Failed(detail@),
        }
    }
}

/// What a lookup says about a peer's display name.
#[derive(Debug, Clone, PartialEq, Eq)]
pub enum NameResolution {
    /// The store holds a name that is valid text.
    Resolved(String),
    /// The store holds bytes that are not UTF-8.
    Undecodable,
    /// The store holds nothing for the peer.
    Missing,
    /// The store could not answer.
    Failed(String),
}

pub enum NameResolutionView {
    Resolved(Seq<char>),
    Undecodable,
    Missing,
    Failed(Seq<char>),
}

impl View for NameResolution {
    type V = NameResolutionView;

    open spec fn view(&self) -> NameResolutionView {
        match self {
            NameResolution::Resolved(name) => NameResolutionView::Resolved(name@),
            NameResolution::Undecodable => NameResolutionView::Undecodable,
            NameResolution::Missing => NameResolutionView::Missing,
            NameResolution::Failed(detail) => NameResolutionView::Failed(detail@),
        }
    }
}

/// The resolution that an outcome amounts to.
pub open spec fn resolution_of(outcome: LookupOutcomeView) -> NameResolutionView {
    match outcome {
        LookupOutcomeView::Found(bytes) => match decoded(bytes) {
            Some(name) => NameResolutionView::Resolved(name),
            None => NameResolutionView::Undecodable,
        },
        LookupOutcomeView::NotFound => NameResolutionView::Missing,
        LookupOutcomeView::Failed(detail) => NameResolutionView::Failed(detail),
    }
}

/// The directory after a resolution for `identity`: only a resolved name is
/// written, and it replaces what was known before.
pub open spec fn directory_after(
    directory: Map<Seq<char>, Seq<char>>,
    identity: Seq<char>,
    resolution: NameResolutionView,
) -> Map<Seq<char>, Seq<char>> {
    match resolution {
        NameResolutionView::Resolved(name) => directory.insert(identity, name),
        _ => directory,
    }
}

/// Reads the display name out of what the store delivered.
pub fn resolve_name(outcome: LookupOutcome) -> (resolution: NameResolution)
    ensures
        resolution@ == resolution_of(outcome@),
{
    match outcome {
        LookupOutcome::Found(bytes) => match decode_text(bytes) {
            Some(name) => NameResolution::Resolved(name),
            None => NameResolution::Undecodable,
        },
        LookupOutcome::NotFound => NameResolution::Missing,
        LookupOutcome::Failed(detail) => NameResolution::Failed(detail),
    }
}

/// One peer with the name that is known for it, if any.
#[derive(Debug, Clone, PartialEq, Eq)]
pub struct PeerDirectoryEntry {
    pub identity: PeerIdentity,
    pub name: Option<String>,
}

struct KnownPeer {
    identity: PeerIdentity,
    name: String,
}

/// The cache of display names, keyed by peer identity.
pub struct PeerDirectory {
    known: Vec<KnownPeer>,
}

spec fn holds_at(known: Seq<KnownPeer>, i: int, identity: Seq<char>) -> bool {
    0 <= i < known.len() && known[i].identity@ == identity
}

spec fn distinct(known: Seq<KnownPeer>) -> bool {
    forall|i: int, j: int| 0 <= i < j < known.len() ==> known[i].identity@ != known[j].identity@
}

spec fn names_of(known: Seq<KnownPeer>) -> Map<Seq<char>, Seq<char>> {
    Map::new(
        |identity: Seq<char>| exists|i: int| holds_at(known, i, identity),
        |identity: Seq<char>| known[choose|i: int| holds_at(known, i, identity)].name@,
    )
}

proof fn lemma_names_at(known: Seq<KnownPeer>, i: int)
    requires
        distinct(known),
        0 <= i < known.len(),
    ensures
        names_of(known).contains_key(known[i].identity@),
        names_of(known)[known[i].identity@] == known[i].name@,
{
    let identity = known[i].identity@;
    assert(holds_at(known, i, identity));
    let j = choose|j: int| holds_at(known, j, identity);
}

proof fn lemma_names_after_update(known: Seq<KnownPeer>, i: int, entry: KnownPeer)
    requires
        distinct(known),
        0 <= i < known.len(),
        known[i].identity@ == entry.identity@,
    ensures
        distinct(known.update(i, entry)),
        names_of(known.update(i, entry)) == names_of(known).insert(entry.identity@, entry.name@),
{
    let after = known.update(i, entry);
    let goal = names_of(known).insert(entry.identity@, entry.name@);
    assert forall|id: Seq<char>| names_of(after).contains_key(id) <==> goal.contains_key(id) by {
        if names_of(after).contains_key(id) {
            let k = choose|k: int| holds_at(after, k, id);
            assert(holds_at(known, k, id));
        }
        if goal.contains_key(id) {
            if id == entry.identity@ {
                assert(holds_at(after, i, id));
            } else {
                let k = choose|k: int| holds_at(known, k, id);
                assert(holds_at(after, k, id));
            }
        }
    }
    assert forall|id: Seq<char>| names_of(after).contains_key(id) implies names_of(after)[id]
        == goal[id] by {
        let k = choose|k: int| holds_at(after, k, id);
        lemma_names_at(after, k);
        if k != i {
            lemma_names_at(known, k);
        }
    }
}

proof fn lemma_names_after_push(known: Seq<KnownPeer>, entry: KnownPeer)
    requires
        distinct(known),
        forall|i: int| !holds_at(known, i, entry.identity@),
    ensures
        distinct(known.push(entry)),
        names_of(known.push(entry)) == names_of(known).insert(entry.identity@, entry.name@),
{
    let after = known.push(entry);
    let last = known.len() as int;
    assert(distinct(after)) by {
        assert forall|a: int, b: int| 0 <= a < b < after.len() implies after[a].identity@
            != after[b].identity@ by {
            if b == last {
                assert(!holds_at(known, a, entry.identity@));
            }
        }
    }
    let goal = names_of(known).insert(entry.identity@, entry.name@);
    assert forall|id: Seq<char>| names_of(after).contains_key(id) <==> goal.contains_key(id) by {
        if names_of(after).contains_key(id) {
            let k = choose|k: int| holds_at(after, k, id);
            if k != last {
                assert(holds_at(known, k, id));
            }
        }
        if goal.contains_key(id) {
            if id == entry.identity@ {
                assert(holds_at(after, last, id));
            } else {
                let k = choose|k: int| holds_at(known, k, id);
                assert(holds_at(after, k, id));
            }
        }
    }
    assert forall|id: Seq<char>| names_of(after).contains_key(id) implies names_of(after)[id]
        == goal[id] by {
        let k = choose|k: int| holds_at(after, k, id);
        lemma_names_at(after, k);
        if k != last {
            lemma_names_at(known, k);
        }
    }
}

proof fn lemma_names_count(known: Seq<KnownPeer>)
    requires
        distinct(known),
    ensures
        names_of(known).dom().finite(),
        names_of(known).dom().len() == known.len(),
{
    let ids = known.map_values(|p: KnownPeer| p.identity@);
    ids.unique_seq_to_set();
    assert(ids.to_set() =~= names_of(known).dom()) by {
        assert forall|identity: Seq<char>| ids.to_set().contains(identity) implies names_of(
            known,
        ).dom().contains(identity) by {
            let i = choose|i: int| 0 <= i < ids.len() && ids[i] == identity;
            assert(holds_at(known, i, identity));
        }
        assert forall|identity: Seq<char>| names_of(known).dom().contains(
            identity,
        ) implies ids.to_set().contains(identity) by {
            let i = choose|i: int| holds_at(known, i, identity);
            assert(ids[i] == identity);
        }
    }
}

impl PeerDirectory {
    #[verifier::type_invariant]
    spec fn well_formed(&self) -> bool {
        distinct(self.known@)
    }

    /// The directory as a map from identity to display name.
    pub closed spec fn view(&self) -> Map<Seq<char>, Seq<char>> {
        names_of(self.known@)
    }

    /// A directory that knows no one.
    pub fn new() -> (directory: Self)
        ensures
            directory@ == Map::<Seq<char>, Seq<char>>::empty(),
    {
        let directory = PeerDirectory { known: Vec::new() };
        directory
    }

    fn position(&self, identity: &PeerIdentity) -> (found: Option<usize>)
        ensures
            match found {
                Some(i) => holds_at(self.known@, i as int, identity@),
                None => forall|i: int| !holds_at(self.known@, i, identity@),
            },
    {
        let mut i: usize = 0;
        while i < self.known.len()
            invariant
                i <= self.known@.len(),
                forall|k: int| 0 <= k < i ==> !holds_at(self.known@, k, identity@),
            decreases self.known.len() - i,
        {
            if self.known[i].identity.same(identity) {
                return Some(i);
            }
            i += 1;
        }
        None
    }

    /// How many peers have a known name.
    pub fn len(&self) -> (n: usize)
        ensures
            self@.dom().finite(),
            n == self@.dom().len(),
    {
        proof {
            use_type_invariant(self);
            lemma_names_count(self.known@);
        }
        self.known.len()
    }

    /// The name that is known for `identity`.
    pub fn name_of(&self, identity: &PeerIdentity) -> (name: Option<String>)
        ensures
            name.deep_view() == (if self@.contains_key(identity@) {
                Some(self@[identity@])
            } else {
                None
            }),
    {
        proof {
            use_type_invariant(self);
        }
        match self.position(identity) {
            Some(i) => {
                proof {
                    lemma_names_at(self.known@, i as int);
                }
                Some(self.known[i].name.clone())
            },
            None => None,
        }
    }

    /// The entry for `identity`, with or without a name.
    pub fn entry(&self, identity: &PeerIdentity) -> (entry: PeerDirectoryEntry)
        ensures
            entry.identity@ == identity@,
            entry.name.deep_view() == (if self@.contains_key(identity@) {
                Some(self@[identity@])
            } else {
                None
            }),
    {
        PeerDirectoryEntry { identity: identity.clone(), name: self.name_of(identity) }
    }

    /// Writes `name` for `identity`, over whatever was known.
    pub fn record(&mut self, identity: &PeerIdentity, name: String)
        ensures
            final(self)@ == old(self)@.insert(identity@, name@),
    {
        proof {
            use_type_invariant(&*self);
        }
        let found = self.position(identity);
        let entry = KnownPeer { identity: identity.clone(), name };
        let mut known: Vec<KnownPeer> = Vec::new();
        core::mem::swap(&mut self.known, &mut known);
        match found {
            Some(i) => {
                proof {
                    lemma_names_after_update(known@, i as int, entry);
                }
                known.set(i, entry);
            },
            None => {
                proof {
                    lemma_names_after_push(known@, entry);
                }
                known.push(entry);
            },
        }
        self.known = known;
    }

    /// Takes in what a lookup for `identity` said. A name that could not be
    /// resolved leaves the directory as it was.
    pub fn apply_result(&mut self, identity: &PeerIdentity, resolution: &NameResolution)
        ensures
            final(self)@ == directory_after(old(self)@, identity@, resolution@),
    {
        match resolution {
            NameResolution::Resolved(name) => {
                self.record(identity, name.clone());
            },
            _ => {},
        }
    }
}

} // verus!
