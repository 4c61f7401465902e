//! Downloading one file: the decisions between the host's steps.
//!
//! The host issues the GET, looks the user's downloads directory up once a
//! response has arrived, reads the body and writes the file. After each of
//! these steps it reports to the stage at hand, which either ends the download
//! with the failure's text or hands out the next stage.

use std::path::PathBuf;
use vstd::prelude::*;

verus! {

/// `std::path::PathBuf`, carried through as it is: nothing is read from one
/// but by the calls below.
#[verifier::external_type_specification]
#[verifier::external_body]
pub struct ExPathBuf(PathBuf);

/// The path that `std::path::Path::join` gives for a directory and a name.
pub uninterp spec fn joined_path(directory: PathBuf, name: Seq<char>) -> PathBuf;

/// The text that `std::path::Path::to_string_lossy` gives for a path.
pub uninterp spec fn path_text(path: PathBuf) -> Seq<char>;

/// Calls `std::path::Path::join`: the name is adjoined to the directory as it
/// is, and the result is the one `joined_path` names.
#[verifier::external_body]
fn join_path(directory: &PathBuf, name: &str) -> (path: PathBuf)
    ensures
        path == joined_path(*directory, name@),
{
    directory.join(name)
}

/// Calls `std::path::Path::to_string_lossy` and owns the text it gives, which
/// is the one `path_text` names.
#[verifier::external_body]
fn lossy_text(path: &PathBuf) -> (text: String)
    ensures
        text@ == path_text(*path),
{
    path.to_string_lossy().into_owned()
}

/// What is said when the user has no downloads directory.
pub open spec fn no_downloads_directory() -> Seq<char> {
    "Could not find downloads directory"@
}

/// What the host reports of a step, with a failure's text as characters.
pub open spec fn reported<T>(reply: Result<T, String>) -> Result<T, Seq<char>> {
    match reply {
        Ok(value) => Ok(value),
        Err(reason) => Err(reason@),
    }
}

/// Where a download called `filename` goes, given the downloads directory:
/// the name is joined to the directory as it is.
pub open spec fn destination_of(directory: Option<PathBuf>, filename: Seq<char>) -> Result<
    PathBuf,
    Seq<char>,
> {
    match directory {
        Some(d) => Ok(joined_path(d, filename)),
        None => Err(no_downloads_directory()),
    }
}

/// What the host reports of reading the body, as mathematical sequences.
pub open spec fn body_reported(body: Result<Vec<u8>, String>) -> Result<Seq<u8>, Seq<char>> {
    match body {
        Ok(bytes) => Ok(bytes@),
        Err(reason) => Err(reason@),
    }
}

/// What follows the GET. A transport failure ends the download with its own
/// text. Any response, whatever its status, sends the body to the
/// destination, if there is a downloads directory.
pub open spec fn after_response(
    filename: Seq<char>,
    response: Result<u16, Seq<char>>,
    directory: Option<PathBuf>,
) -> Result<PathBuf, Seq<char>> {
    match response {
        Ok(_) => destination_of(directory, filename),
        Err(reason) => Err(reason),
    }
}

/// What follows reading the body: the bytes to write are the body, whole and
/// unchanged; a failure ends the download with its own text.
pub open spec fn after_body(body: Result<Seq<u8>, Seq<char>>) -> Result<Seq<u8>, Seq<char>> {
    body
}

/// What follows writing the file: the download's result. Success gives the
/// destination as text; a failure gives its own text.
pub open spec fn after_write(destination: PathBuf, written: Result<(), Seq<char>>) -> Result<
    Seq<char>,
    Seq<char>,
> {
    match written {
        Ok(_) => Ok(path_text(destination)),
        Err(reason) => Err(reason),
    }
}

/// A download for which one GET of `address` is to be issued.
#[derive(Debug)]
pub struct Requested {
    pub address: String,
    pub filename: String,
}

/// A download whose response has arrived and whose body is to be read.
#[derive(Debug)]
pub struct Receiving {
    pub destination: PathBuf,
}

/// A download whose body is at hand: `bytes` are to be written to
/// `destination` in one call, replacing what is there.
#[derive(Debug)]
pub struct Storing {
    pub destination: PathBuf,
    pub bytes: Vec<u8>,
}

/// Joins `filename`, as given, to the downloads directory; without a
/// directory the download fails with a fixed text.
pub fn destination_in(directory: Option<PathBuf>, filename: &str) -> (destination: Result<
    PathBuf,
    String,
>)
    ensures
        match destination_of(directory, filename@) {
            Ok(path) => destination == Ok::<PathBuf, String>(path),
            Err(reason) => destination is Err && destination->Err_0@ == reason,
        },
{
    match directory {
        Some(d) => Ok(join_path(&d, filename)),
        None => Err(String::from_str("Could not find downloads directory")),
    }
}

/// Starts a download: the host is to issue a single GET of `address`, which
/// is handed on as given, as is `filename`.
pub fn download_file(address: String, filename: String) -> (download: Requested)
    ensures
        download.address@ == address@,
        download.filename@ == filename@,
{
    Requested { address, filename }
}

impl Requested {
    /// Takes the outcome of the GET, the response's status or the transport
    /// failure's text, and the downloads directory as the host found it, which
    /// plays no part after a transport failure.
    pub fn responded_in(self, response: Result<u16, String>, directory: Option<PathBuf>) -> (outcome:
        Result<Receiving, String>)
        ensures
            match after_response(self.filename@, reported(response), directory) {
                Ok(path) => outcome is Ok && outcome->Ok_0.destination == path,
                Err(reason) => outcome is Err && outcome->Err_0@ == reason,
            },
    {
        match response {
            Ok(_) => match destination_in(directory, self.filename.as_str()) {
                Ok(destination) => Ok(Receiving { destination }),
                Err(reason) => Err(reason),
            },
            Err(reason) => Err(reason),
        }
    }
}

impl Receiving {
    /// Takes the outcome of reading the body: all of its bytes, or the
    /// failure's text.
    pub fn body_read(self, body: Result<Vec<u8>, String>) -> (outcome: Result<Storing, String>)
        ensures
            match after_body(body_reported(body)) {
                Ok(bytes) => outcome is Ok && outcome->Ok_0.destination == self.destination
                    && outcome->Ok_0.bytes@ == bytes,
                Err(reason) => outcome is Err && outcome->Err_0@ == reason,
            },
    {
        match body {
            Ok(bytes) => Ok(Storing { destination: self.destination, bytes }),
            Err(reason) => Err(reason),
        }
    }
}

impl Storing {
    /// Takes the outcome of writing the file and gives the download's result.
    pub fn written(self, written: Result<(), String>) -> (outcome: Result<String, String>)
        ensures
            match after_write(self.destination, reported(written)) {
                Ok(path) => outcome is Ok && outcome->Ok_0@ == path,
                Err(reason) => outcome is Err && outcome->Err_0@ == reason,
            },
    {
        match written {
            Ok(_) => Ok(lossy_text(&self.destination)),
            Err(reason) => Err(reason),
        }
    }
}

/// A download that meets no failure writes the whole body, byte for byte and
/// so of the same length, to the file called `filename` in the downloads
/// directory, and returns that file's path as text.
pub proof fn lemma_download_stores_whole_body(
    filename: Seq<char>,
    status: u16,
    directory: PathBuf,
    body: Seq<u8>,
)
    ensures
        after_response(filename, Ok(status), Some(directory)) == Ok::<PathBuf, Seq<char>>(
            joined_path(directory, filename),
        ),
        after_body(Ok(body)) == Ok::<Seq<u8>, Seq<char>>(body),
        after_body(Ok(body))->Ok_0.len() == body.len(),
        after_write(joined_path(directory, filename), Ok(())) == Ok::<Seq<char>, Seq<char>>(
            path_text(joined_path(directory, filename)),
        ),
{
}

/// The status of the response plays no part: a response that reports an
/// error status is stored like any other.
pub proof fn lemma_status_is_not_examined(
    filename: Seq<char>,
    status: u16,
    other_status: u16,
    directory: Option<PathBuf>,
)
    ensures
        after_response(filename, Ok(status), directory) == after_response(
            filename,
            Ok(other_status),
            directory,
        ),
{
}

/// A failure of any step ends the download with that failure's own text, and
/// a missing downloads directory with the fixed text.
pub proof fn lemma_failures_are_surfaced(
    filename: Seq<char>,
    status: u16,
    destination: PathBuf,
    reason: Seq<char>,
)
    ensures
        after_response(filename, Err(reason), None) == Err::<PathBuf, Seq<char>>(reason),
        after_response(filename, Err(reason), Some(destination)) == Err::<PathBuf, Seq<char>>(
            reason,
        ),
        after_response(filename, Ok(status), None) == Err::<PathBuf, Seq<char>>(
            no_downloads_directory(),
        ),
        after_body(Err(reason)) == Err::<Seq<u8>, Seq<char>>(reason),
        after_write(destination, Err(reason)) == Err::<Seq<char>, Seq<char>>(reason),
{
}

} // verus!
