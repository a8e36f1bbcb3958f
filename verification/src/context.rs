//! What a client keeps between its calls: the session of a publisher and the
//! session of a subscriber, and where each is stored.

use vstd::prelude::*;
use vstd::string::StringExecFns;

pub mod publisher;
pub mod subscriber;

verus! {

/// Why a session could not be stored or read back.
#[derive(Debug)]
pub enum ContextIOError {
    ErrorCreatingDirectory(String),
    ErrorWritingToFile(String),
    ErrorCantFindFile(String),
    ErrorReadingFile(String),
}

/// Extension of the files that hold a session.
pub const FILE_EXTENSION: &'static str = ".bson";

/// A broker identity, if one is known, as plain text.
pub open spec fn known(broker_id: Option<String>) -> Option<Seq<char>> {
    match broker_id {
        Some(id) => Some(id@),
        None => None,
    }
}

/// The path of the file that holds the session `id` under `prefix`.
pub fn storage_path(prefix: &str, id: &String) -> (path: String)
    ensures
        path@ == prefix@ + id@ + FILE_EXTENSION@,
{
    let mut path = prefix.to_owned();
    path.append(id.as_str());
    path.append(FILE_EXTENSION);
    path
}

/// The path `prefix` followed by `id`.
pub fn plain_path(prefix: &str, id: &String) -> (path: String)
    ensures
        path@ == prefix@ + id@,
{
    let mut path = prefix.to_owned();
    path.append(id.as_str());
    path
}

} // verus!
