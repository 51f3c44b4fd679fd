//! The watched file: a path, the handle it is shown under, and the
//! modification time last seen on it.
//!
//! The host stats the path; what it saw comes in as an `Option<Timestamp>`,
//! `None` when the path had no metadata to give.

use vstd::prelude::*;
use vstd::string::*;

verus! {

/// A modification time, in nanoseconds from the Unix epoch (negative before it).
#[derive(Clone, Copy, Debug, PartialEq, Eq, Structural)]
pub struct Timestamp {
    pub nanos: i128,
}

/// Whether two observations of one path differ. A missing timestamp is an
/// observation like any other: it equals itself and differs from every
/// timestamp.
pub open spec fn changed(before: Option<Timestamp>, after: Option<Timestamp>) -> bool {
    match (before, after) {
        (None, None) => false,
        (Some(a), Some(b)) => a.nanos != b.nanos,
        (None, Some(_)) => true,
        (Some(_), None) => true,
    }
}

/// The text that `Debug` formatting gives for a path made of `name`: `name`
/// between double quotes, with what cannot be printed as it is written as an
/// escape.
pub uninterp spec fn quoted(name: Seq<char>) -> Seq<char>;

/// The handle of a file whose path has no last component.
pub open spec fn unknown_handle() -> Seq<char> {
    "\"unknown file\""@
}

/// The handle a file is shown under, given the quoted last component of its
/// path if it has one.
pub open spec fn handle_of(label: Option<Seq<char>>) -> Seq<char> {
    match label {
        Some(label) => label,
        None => unknown_handle(),
    }
}

/// The characters of an optional string.
pub open spec fn text_of(text: Option<String>) -> Option<Seq<char>> {
    match text {
        Some(t) => Some(t@),
        None => None,
    }
}

/// What a [`File`] stands for in contracts.
pub struct FileView {
    pub path: Seq<char>,
    pub handle: Seq<char>,
    pub last_modified: Option<Timestamp>,
}

impl FileView {
    /// The file after `observed` was seen on its path.
    pub open spec fn observe(self, observed: Option<Timestamp>) -> FileView {
        FileView { last_modified: observed, ..self }
    }
}

/// One watched path. Path and handle are fixed at creation; `last_modified` is
/// always the latest observation.
#[derive(Debug)]
pub struct File {
    path: String,
    handle: String,
    last_modified: Option<Timestamp>,
}

impl View for File {
    type V = FileView;

    closed spec fn view(&self) -> FileView {
        FileView { path: self.path@, handle: self.handle@, last_modified: self.last_modified }
    }
}

impl Clone for File {
    fn clone(&self) -> (copy: File)
        ensures
            copy@ == self@,
    {
        File {
            path: self.path.clone(),
            handle: self.handle.clone(),
            last_modified: self.last_modified,
        }
    }
}

/// `std::path::Path::file_name` on `path`: the last component of the path, or
/// `None` where the path has none to name (it ends in `..`, or is a root).
/// Which characters separate components depends on the platform, so nothing is
/// claimed of the result.
#[verifier::external_body]
fn final_component(path: &str) -> (name: Option<String>) {
    match std::path::Path::new(path).file_name() {
        Some(name) => Some(name.to_string_lossy().into_owned()),
        None => None,
    }
}

/// The `Debug` impl of `std::path::Path`, applied to `name` as a path. The
/// result is the text named `quoted(name)`.
#[verifier::external_body]
fn quote(name: &str) -> (text: String)
    ensures
        text@ == quoted(name@),
{
    format!("{:?}", std::path::Path::new(name))
}

impl File {
    /// Starts watching `path`, with `observed` as the first observation. The
    /// handle is the last component of `path` as the platform reads it, in
    /// quotes; a path without one is shown as "unknown file".
    pub fn new(path: &str, observed: Option<Timestamp>) -> (file: File)
        ensures
            file@.path == path@,
            file@.last_modified == observed,
            file@.handle == unknown_handle() || exists|name: Seq<char>|
                file@.handle == quoted(name),
    {
        let label = match final_component(path) {
            Some(name) => Some(quote(name.as_str())),
            None => None,
        };
        File::labelled(path, label, observed)
    }

    /// Starts watching `path` as [`File::new`] does, with the quoted last
    /// component of the path given by the caller.
    pub fn labelled(path: &str, label: Option<String>, observed: Option<Timestamp>) -> (file:
        File)
        ensures
            file@.path == path@,
            file@.handle == handle_of(text_of(label)),
            file@.last_modified == observed,
    {
        let handle = match label {
            Some(label) => label,
            None => String::from_str("\"unknown file\""),
        };
        File { path: String::from_str(path), handle, last_modified: observed }
    }

    /// Takes a new observation of the path and says whether it differs from
    /// the one before. The new observation is kept either way.
    pub fn check_modified(&mut self, observed: Option<Timestamp>) -> (modified: bool)
        ensures
            modified == changed(old(self)@.last_modified, observed),
            final(self)@ == old(self)@.observe(observed),
    {
        let modified = self.last_modified != observed;
        self.last_modified = observed;
        modified
    }

    /// The path as it was given.
    pub fn path(&self) -> (path: &str)
        ensures
            path@ == self@.path,
    {
        self.path.as_str()
    }

    /// The text the file is shown under, in the window title and in the log.
    pub fn handle(&self) -> (handle: &str)
        ensures
            handle@ == self@.handle,
    {
        self.handle.as_str()
    }

    /// The latest observation of the path.
    pub fn last_modified(&self) -> (seen: Option<Timestamp>)
        ensures
            seen == self@.last_modified,
    {
        self.last_modified
    }
}

/// Change detection is presence-aware: two missing timestamps are no change, a
/// missing and a present one are a change in either direction, and two present
/// ones are a change exactly when they differ.
pub proof fn lemma_changed_is_presence_aware(a: Timestamp, b: Timestamp)
    ensures
        !changed(None, None),
        changed(None, Some(b)),
        changed(Some(a), None),
        changed(Some(a), Some(b)) <==> a != b,
{
}

/// Observing the same thing again reports no change: whatever was stored
/// before, after one observation of `seen` a second observation of `seen` is
/// unchanged and leaves the file as it was.
pub proof fn lemma_repeated_observation_is_unchanged(file: FileView, seen: Option<Timestamp>)
    ensures
        !changed(file.observe(seen).last_modified, seen),
        file.observe(seen).observe(seen) == file.observe(seen),
{
}

} // verus!
