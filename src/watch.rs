//! The forwarded-port file: how its text is read as a port, which filesystem
//! events call for a re-read, and which readings are emitted as changes.
use crate::config::{opt_view, Config};
use crate::error::SyncError;
use crate::paths::{parent_of_path, path_parent};
use crate::text::{decimal_u16, parse_u16, trim_text, trimmed};
use vstd::prelude::*;
use vstd::string::StringExecFns;

verus! {

/// How long to wait after a filesystem event before re-reading the file, so
/// that the writer can finish.
pub const DEBOUNCE_MILLIS: u64 = 250;

/// The port that the text of a forwarded-port file holds: surrounding
/// whitespace is ignored, the rest must be an unsigned 16-bit decimal number.
pub open spec fn port_in_text(text: Seq<char>) -> Option<u16> {
    decimal_u16(trimmed(text))
}

/// Text that does not hold a port; `value` is the text without surrounding
/// whitespace.
#[derive(Debug, Clone)]
pub struct PortParseError {
    pub value: String,
}

impl PortParseError {
    pub fn describe(&self) -> (r: String)
        ensures
            r@ == "invalid forwarded port value: "@ + self.value@,
    {
        String::from_str("invalid forwarded port value: ").concat(self.value.as_str())
    }
}

/// Reads a port number out of the text of a forwarded-port file.
pub fn parse_port(contents: &str) -> (r: Result<u16, PortParseError>)
    ensures
        match port_in_text(contents@) {
            Some(p) => r == Ok::<u16, PortParseError>(p),
            None => r is Err && r->Err_0.value@ == trimmed(contents@),
        },
{
    let t = trim_text(contents);
    match parse_u16(t) {
        Some(p) => Ok(p),
        None => Err(PortParseError { value: String::from_str(t) }),
    }
}

/// Reads the forwarded-port file once: `read_file` reads the file at the path
/// it is given. The path is the configured one, else `platform_default`.
pub fn read_forwarded_port_once<F>(
    config: &Config,
    platform_default: Option<String>,
    read_file: F,
) -> (r: Result<u16, SyncError>) where F: FnOnce(&String) -> Result<String, String>
    requires
        forall|p: &String| read_file.requires((p,)),
    ensures
        match config.protonvpn.forwarded_port_path {
            Some(c) => Some(c@),
            None => opt_view(platform_default),
        } matches Some(path) ==> exists|p: &String, c: Result<String, String>|
            p@ == path && read_file.ensures((p,), c) && match c {
                Err(m) => r == Err::<u16, SyncError>(SyncError::Other(m)),
                Ok(text) => match port_in_text(text@) {
                    Some(port) => r == Ok::<u16, SyncError>(port),
                    None => r is Err && r->Err_0 is Other,
                },
            },
        match config.protonvpn.forwarded_port_path {
            Some(c) => Some(c@),
            None => opt_view(platform_default),
        } is None ==> r is Err && r->Err_0 is Other,
{
    let path = match config.resolved_forwarded_port_path(platform_default) {
        Some(p) => p,
        None => {
            return Err(SyncError::Other(String::from_str("forwarded port path not configured")));
        },
    };
    let read = read_file(&path);
    match read {
        Err(m) => Err(SyncError::Other(m)),
        Ok(text) => match parse_port(text.as_str()) {
            Ok(port) => Ok(port),
            Err(e) => Err(SyncError::Other(e.describe())),
        },
    }
}

/// The kind of a filesystem event in the watched directory.
#[derive(Debug, Clone, Copy, PartialEq, Eq, Structural)]
pub enum WatchEventKind {
    Create,
    Modify,
    Remove,
    Other,
}

/// Whether an event that touches `paths` concerns the watched file: it names
/// no path, or one of its paths is the file or lies in the file's directory.
pub open spec fn relevant_event(paths: Seq<Seq<char>>, watched: Seq<char>) -> bool {
    paths.len() == 0 || exists|i: int|
        0 <= i < paths.len() && (paths[i] == watched || parent_of_path(paths[i]) == parent_of_path(
            watched,
        ))
}

pub open spec fn views(v: Seq<String>) -> Seq<Seq<char>> {
    v.map_values(|s: String| s@)
}

fn same_text(a: &Option<String>, b: &Option<String>) -> (r: bool)
    ensures
        r == (opt_view(*a) == opt_view(*b)),
{
    match (a, b) {
        (Some(x), Some(y)) => x.eq(y),
        (None, None) => true,
        _ => false,
    }
}

/// Whether a filesystem event touching `paths` concerns the file at `watched`.
pub fn is_relevant(paths: &Vec<String>, watched: &str) -> (r: bool)
    ensures
        r == relevant_event(views(paths@), watched@),
{
    if paths.len() == 0 {
        return true;
    }
    let watched_parent = path_parent(watched);
    let watched_text = String::from_str(watched);
    let mut i: usize = 0;
    while i < paths.len()
        invariant
            i <= paths@.len(),
            opt_view(watched_parent) == parent_of_path(watched@),
            watched_text@ == watched@,
            forall|j: int|
                0 <= j < i ==> !(views(paths@)[j] == watched@ || parent_of_path(views(paths@)[j])
                    == parent_of_path(watched@)),
        decreases paths@.len() - i,
    {
        let candidate = &paths[i];
        assert(views(paths@)[i as int] == candidate@);
        if candidate.eq(&watched_text) {
            return true;
        }
        let candidate_parent = path_parent(candidate.as_str());
        if same_text(&candidate_parent, &watched_parent) {
            return true;
        }
        i += 1;
    }
    false
}

/// Whether an event calls for re-reading the file: it concerns the file, and
/// it creates, changes or removes something, or names no path at all.
pub open spec fn calls_for_reread(kind: WatchEventKind, paths: Seq<Seq<char>>, watched: Seq<char>) -> bool {
    relevant_event(paths, watched) && (kind != WatchEventKind::Other || paths.len() == 0)
}

pub fn should_reread(kind: WatchEventKind, paths: &Vec<String>, watched: &str) -> (r: bool)
    ensures
        r == calls_for_reread(kind, views(paths@), watched@),
{
    is_relevant(paths, watched) && (kind != WatchEventKind::Other || paths.len() == 0)
}

/// The port emitted for a reading, given the last one emitted: a port that
/// differs from it, and nothing for a failed reading or a repeated value.
pub open spec fn emitted(last: Option<u16>, reading: Option<u16>) -> Option<u16> {
    match reading {
        Some(p) => if last == Some(p) { None } else { Some(p) },
        None => None,
    }
}

/// What the watcher remembers between readings of the file.
#[derive(Debug, Clone, Copy, PartialEq, Eq, Structural)]
pub struct PortWatchState {
    /// The last port emitted as a change.
    pub last_port: Option<u16>,
}

impl PortWatchState {
    pub fn new() -> (r: Self)
        ensures
            r.last_port is None,
    {
        PortWatchState { last_port: None }
    }

    /// Takes one reading of the file (none where it could not be read or
    /// parsed) and returns the port to emit as a change, if any.
    pub fn observe(&mut self, reading: Option<u16>) -> (r: Option<u16>)
        ensures
            r == emitted(old(self).last_port, reading),
            final(self).last_port == match r {
                Some(p) => Some(p),
                None => old(self).last_port,
            },
    {
        match reading {
            Some(p) => {
                if self.last_port == Some(p) {
                    None
                } else {
                    self.last_port = Some(p);
                    Some(p)
                }
            },
            None => None,
        }
    }
}

/// Readings of one value in a row emit it once: the first emits it when it
/// differs from the last port emitted, and the two after it emit nothing.
pub proof fn lemma_repeated_reading_emits_once(last: Option<u16>, p: u16)
    ensures
        last != Some(p) ==> emitted(last, Some(p)) == Some(p),
        last == Some(p) ==> emitted(last, Some(p)) is None,
        emitted(Some(p), Some(p)) is None,
{
}

} // verus!
