//! File exchange: what is served from the uploads area and where a received
//! file is stored.

use vstd::prelude::*;
use crate::text::{concat2, replace_chars, replaced};

verus! {

/// A request for the file of the given name.
#[derive(Debug, Clone, PartialEq, Eq)]
pub struct FileRequest(pub String);

/// The answer to a file request. Empty `data` stands for a file that the
/// responder could not find or read.
#[derive(Debug, Clone, PartialEq, Eq)]
pub struct FileResponse {
    pub filename: String,
    pub data: Vec<u8>,
}

/// What became of a requested file.
#[derive(Debug, Clone, PartialEq, Eq)]
pub enum FileOutcome {
    /// The file's content, which is never empty.
    Found(Vec<u8>),
    NotFound,
}

/// What the responder saw when it looked for a file: the three checks in the
/// order in which they are made.
#[derive(Debug, Clone, PartialEq, Eq)]
pub struct FileProbe {
    pub exists: bool,
    pub is_file: bool,
    /// The content, where the file could be opened and read.
    pub contents: Option<Vec<u8>>,
}

pub struct FileResponseView {
    pub filename: Seq<char>,
    pub data: Seq<u8>,
}

pub enum FileOutcomeView {
    Found(Seq<u8>),
    NotFound,
}

pub struct FileProbeView {
    pub exists: bool,
    pub is_file: bool,
    pub contents: Option<Seq<u8>>,
}

impl View for FileRequest {
    type V = Seq<char>;

    open spec fn view(&self) -> Seq<char> {
        self.0@
    }
}

impl View for FileResponse {
    type V = FileResponseView;

    open spec fn view(&self) -> FileResponseView {
        FileResponseView { filename: self.filename@, data: self.data@ }
    }
}

impl View for FileOutcome {
    type V = FileOutcomeView;

    open spec fn view(&self) -> FileOutcomeView {
        match self {
            FileOutcome::Found(data) => FileOutcomeView::Found(data@),
            FileOutcome::NotFound => FileOutcomeView::NotFound,
        }
    }
}

impl View for FileProbe {
    type V = FileProbeView;

    open spec fn view(&self) -> FileProbeView {
        FileProbeView {
            exists: self.exists,
            is_file: self.is_file,
            contents: match self.contents {
                Some(data) => Some(data@),
                None => None,
            },
        }
    }
}

/// The characters that separate the parts of a path on some system.
pub open spec fn is_separator(c: char) -> bool {
    c == '/' || c == '\\'
}

/// Whether a name holds a path separator anywhere.
pub open spec fn has_separator(name: Seq<char>) -> bool {
    exists|i: int| 0 <= i < name.len() && is_separator(#[trigger] name[i])
}

/// The name with each separator replaced by an underscore.
pub open spec fn sanitized(name: Seq<char>) -> Seq<char> {
    replaced(name, '/', '\\', '_')
}

/// The directory that received files are written to.
pub open spec fn downloads_dir() -> Seq<char> {
    "downloads"@
}

/// Where a received file of the advertised name is stored.
pub open spec fn download_path_of(name: Seq<char>) -> Seq<char> {
    "downloads/"@ + sanitized(name)
}

/// Where a requested file is looked for. The uploads area is flat: a name
/// with a separator in it denotes nothing there.
pub open spec fn upload_path_of(name: Seq<char>) -> Option<Seq<char>> {
    if has_separator(name) {
        None
    } else {
        Some("uploads/"@ + name)
    }
}

/// The outcome of the three checks: the content is served only if the path
/// exists, is a regular file and could be read, and is not empty.
pub open spec fn probe_outcome(probe: FileProbeView) -> FileOutcomeView {
    if probe.exists && probe.is_file && probe.contents is Some && probe.contents->0.len() > 0 {
        FileOutcomeView::Found(probe.contents->0)
    } else {
        FileOutcomeView::NotFound
    }
}

/// The payload that carries an outcome to the requester.
pub open spec fn wire_data(outcome: FileOutcomeView) -> Seq<u8> {
    match outcome {
        FileOutcomeView::Found(data) => data,
        FileOutcomeView::NotFound => Seq::empty(),
    }
}

/// The outcome that a received payload stands for.
pub open spec fn outcome_of_wire(data: Seq<u8>) -> FileOutcomeView {
    if data.len() == 0 {
        FileOutcomeView::NotFound
    } else {
        FileOutcomeView::Found(data)
    }
}

/// An outcome is well formed if found content is not empty.
pub open spec fn outcome_wf(outcome: FileOutcomeView) -> bool {
    outcome matches FileOutcomeView::Found(data) ==> data.len() > 0
}

/// A sanitized name is as long as the name and holds no separator, and a
/// name without separators is left as it is.
pub proof fn lemma_sanitized_is_flat(name: Seq<char>)
    ensures
        sanitized(name).len() == name.len(),
        !has_separator(sanitized(name)),
        !has_separator(name) ==> sanitized(name) == name,
        forall|i: int|
            0 <= i < name.len() && !is_separator(name[i]) ==> #[trigger] sanitized(name)[i]
                == name[i],
{
}

/// The only separator in a download path is the one behind the directory.
pub proof fn lemma_download_path_stays_in_downloads(name: Seq<char>)
    ensures
        download_path_of(name).len() == 10 + name.len(),
        download_path_of(name).subrange(0, 10) == "downloads/"@,
        forall|i: int|
            10 <= i < download_path_of(name).len() ==> !is_separator(
                #[trigger] download_path_of(name)[i],
            ),
{
    reveal_strlit("downloads/");
}

/// Wire payload and outcome determine each other.
pub proof fn lemma_wire_round_trip(outcome: FileOutcomeView, data: Seq<u8>)
    ensures
        outcome_wf(outcome_of_wire(data)),
        wire_data(outcome_of_wire(data)) == data,
        outcome_wf(outcome) ==> outcome_of_wire(wire_data(outcome)) == outcome,
        outcome_wf(outcome) ==> (wire_data(outcome).len() == 0 <==> outcome
            is NotFound),
{
}

/// Tells whether `name` holds a path separator.
pub fn has_path_separator(name: &str) -> (found: bool)
    ensures
        found == has_separator(name@),
{
    let mut found = false;
    for c in it: name.chars()
        invariant
            it.seq() == name@,
            found == has_separator(name@.subrange(0, it.index() as int)),
    {
        let ghost before = name@.subrange(0, it.index() as int);
        let ghost after = name@.subrange(0, it.index() + 1);
        proof {
            assert(after[it.index() as int] == c);
            if has_separator(before) {
                let k = choose|k: int| 0 <= k < before.len() && is_separator(#[trigger] before[k]);
            }
            if has_separator(after) && !is_separator(c) {
                let k = choose|k: int| 0 <= k < after.len() && is_separator(#[trigger] after[k]);
            }
        }
        if c == '/' || c == '\\' {
            found = true;
        }
    }
    assert(name@.subrange(0, name@.len() as int) =~= name@);
    found
}

/// Replaces the separators of an advertised file name, so that the name can
/// lead nowhere but into the downloads directory.
pub fn sanitize_filename(name: &str) -> (clean: String)
    ensures
        clean@ == sanitized(name@),
        !has_separator(clean@),
{
    proof {
        lemma_sanitized_is_flat(name@);
    }
    replace_chars(name, '/', '\\', '_')
}

/// Where the file advertised as `name` is written.
pub fn download_path(name: &str) -> (path: String)
    ensures
        path@ == download_path_of(name@),
{
    let clean = sanitize_filename(name);
    concat2("downloads/", clean.as_str())
}

/// Where the file requested as `name` is read from, if anywhere.
pub fn upload_path(name: &str) -> (path: Option<String>)
    ensures
        path.deep_view() == upload_path_of(name@),
{
    if has_path_separator(name) {
        None
    } else {
        Some(concat2("uploads/", name))
    }
}

impl FileOutcome {
    /// Collapses a failure of any of the three checks into `NotFound`.
    pub fn from_probe(probe: FileProbe) -> (outcome: FileOutcome)
        ensures
            outcome@ == probe_outcome(probe@),
            outcome_wf(outcome@),
    {
        if !probe.exists || !probe.is_file {
            return FileOutcome::NotFound;
        }
        match probe.contents {
            Some(data) => {
                if data.len() > 0 {
                    FileOutcome::Found(data)
                } else {
                    FileOutcome::NotFound
                }
            },
            None => FileOutcome::NotFound,
        }
    }

    /// Reads an outcome off a received payload.
    pub fn from_wire(data: Vec<u8>) -> (outcome: FileOutcome)
        ensures
            outcome@ == outcome_of_wire(data@),
            outcome_wf(outcome@),
    {
        if data.len() == 0 {
            FileOutcome::NotFound
        } else {
            FileOutcome::Found(data)
        }
    }

    /// The payload that carries this outcome.
    pub fn into_wire(self) -> (data: Vec<u8>)
        ensures
            data@ == wire_data(self@),
    {
        match self {
            FileOutcome::Found(data) => data,
            FileOutcome::NotFound => Vec::new(),
        }
    }
}

/// The response to a request for `filename` with the given outcome.
pub fn respond(filename: String, outcome: FileOutcome) -> (response: FileResponse)
    ensures
        response@ == (FileResponseView { filename: filename@, data: wire_data(outcome@) }),
{
    FileResponse { filename, data: outcome.into_wire() }
}

} // verus!
