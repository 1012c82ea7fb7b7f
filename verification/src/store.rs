//! Fixed data-file locations under the per-user data directory, and the
//! outcomes of the load operations.
//!
//! Paths are plain strings joined with `'/'`. The caller performs the actual
//! reads and writes; the functions here fix where the files live and what a
//! load returns for a missing file.

use vstd::prelude::*;
use vstd::string::*;

verus! {

/// The application data directory under a home directory.
pub open spec fn data_dir_spec(home: Seq<char>) -> Seq<char> {
    home + "/.inkflow/data"@
}

/// Where the serialized note collection lives.
pub open spec fn notes_path_spec(data_dir: Seq<char>) -> Seq<char> {
    data_dir + "/notes.json"@
}

/// Where the serialized notebook collection lives.
pub open spec fn notebooks_path_spec(data_dir: Seq<char>) -> Seq<char> {
    data_dir + "/notebooks.json"@
}

/// Where the exported Markdown files live.
pub open spec fn sync_dir_spec(data_dir: Seq<char>) -> Seq<char> {
    data_dir + "/sync"@
}

/// Relies on `dirs::home_dir`: the user's home directory as the platform
/// reports it, or none when it cannot be determined. The result depends on
/// the environment, so nothing more is promised of it.
#[verifier::external_body]
fn home_dir_string() -> (r: Option<String>) {
    dirs::home_dir().map(|p| p.to_string_lossy().to_string())
}

/// The application data directory under the given home directory.
pub fn data_dir_under(home: &str) -> (r: String)
    ensures
        r@ == data_dir_spec(home@),
{
    String::from_str(home).concat("/.inkflow/data")
}

/// The per-user application data directory, or none when the platform
/// reports no home directory.
pub fn get_data_dir() -> (r: Option<String>)
    ensures
        r matches Some(d) ==> exists|home: Seq<char>| d@ == data_dir_spec(home),
{
    match home_dir_string() {
        Some(home) => {
            let d = data_dir_under(home.as_str());
            proof {
                assert(d@ == data_dir_spec(home@));
            }
            Some(d)
        },
        None => None,
    }
}

/// The path of the note collection file under the given data directory.
pub fn get_notes_path(data_dir: &str) -> (r: String)
    ensures
        r@ == notes_path_spec(data_dir@),
{
    String::from_str(data_dir).concat("/notes.json")
}

/// The path of the notebook collection file under the given data directory.
pub fn get_notebooks_path(data_dir: &str) -> (r: String)
    ensures
        r@ == notebooks_path_spec(data_dir@),
{
    String::from_str(data_dir).concat("/notebooks.json")
}

/// The path of the sync directory under the given data directory.
pub fn get_sync_dir(data_dir: &str) -> (r: String)
    ensures
        r@ == sync_dir_spec(data_dir@),
{
    String::from_str(data_dir).concat("/sync")
}

/// Outcome of loading the note collection: a missing file is the distinct
/// "not found" condition, never a generic read error; otherwise the read's
/// own result is passed through.
pub fn load_notes_outcome(file_exists: bool, read: Result<String, String>) -> (r: Result<
    String,
    String,
>)
    ensures
        !file_exists ==> (r matches Err(e) && e@ == "Notes file not found"@),
        file_exists ==> r == read,
{
    if file_exists {
        read
    } else {
        Err(String::from_str("Notes file not found"))
    }
}

/// Outcome of loading the notebook collection: as for notes, with the
/// notebook wording.
pub fn load_notebooks_outcome(file_exists: bool, read: Result<String, String>) -> (r: Result<
    String,
    String,
>)
    ensures
        !file_exists ==> (r matches Err(e) && e@ == "Notebooks file not found"@),
        file_exists ==> r == read,
{
    if file_exists {
        read
    } else {
        Err(String::from_str("Notebooks file not found"))
    }
}

} // verus!
