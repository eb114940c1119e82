//! Where the envelope lives: one file with a fixed name inside the
//! application's data directory, and a sibling that a save writes first.

use vstd::prelude::*;

verus! {

/// The name of the data file inside the data directory.
pub const DATA_FILE_NAME: &'static str = "subscription-data.json";

/// What the path of the data file is followed by in the path of the file
/// that a save writes before it replaces the data file.
pub const TEMP_SUFFIX: &'static str = ".tmp";

/// Trusted: the path that `std::path::Path::join` makes of a directory and a
/// name, both as text. Which separator stands between them is the
/// platform's choice; on one platform the path depends on the two texts alone.
pub uninterp spec fn joined(dir: Seq<char>, name: Seq<char>) -> Seq<char>;

/// Trusted wrapper of `std::path::Path::join`, from text to text: the result
/// is the path that [`joined`] names. Both arguments are Unicode, so the path
/// is too, and turning it into a `String` loses nothing.
#[verifier::external_body]
pub(crate) fn join(dir: &str, name: &str) -> (path: String)
    ensures
        path@ == joined(dir@, name@),
{
    std::path::Path::new(dir).join(name).to_string_lossy().into_owned()
}

/// The path of the data file in a data directory.
pub open spec fn data_file_path(dir: Seq<char>) -> Seq<char> {
    joined(dir, DATA_FILE_NAME@)
}

/// The path of the file that a save writes before it replaces the data file
/// at `path`.
pub open spec fn temp_file_path(path: Seq<char>) -> Seq<char> {
    path + TEMP_SUFFIX@
}

/// The path of the data file in the application's data directory.
pub fn get_data_file_path(app_data_dir: &str) -> (path: String)
    ensures
        path@ == data_file_path(app_data_dir@),
{
    join(app_data_dir, DATA_FILE_NAME)
}

/// The path of the file that a save writes before it replaces the data file
/// at `path`.
pub fn get_temp_file_path(path: &str) -> (temp: String)
    ensures
        temp@ == temp_file_path(path@),
{
    let mut temp = path.to_owned();
    temp.append(TEMP_SUFFIX);
    temp
}

/// The file that a save writes first is never the data file itself.
pub proof fn lemma_temp_file_is_another(path: Seq<char>)
    ensures
        temp_file_path(path) != path,
{
    reveal_strlit(".tmp");
    assert(TEMP_SUFFIX@.len() == 4);
    assert(temp_file_path(path).len() == path.len() + 4);
}

} // verus!
