//! Names and places: the identifier of an instance, the files that hold the
//! records, and the directories that the launcher works in.
//!
//! A path is a text whose components are separated by `/`.

use vstd::prelude::*;
use vstd::string::*;
use crate::error::{text_outcome_view, BedrockError, ErrorView};
use crate::records::optional_text;
use crate::text::{join2, join3, lowercase, lowercase_of, underscore_spaces, underscored};

verus! {

/// Directory of the helper scripts that ship beside the application.
pub const BUNDLED_SCRIPTS_DIR: &'static str = "scripts";

/// Directory of the helper scripts in a development checkout.
pub const DEV_SCRIPTS_DIR: &'static str = "../../../ß¬α¿»Γδ/scripts";

/// Directory of the application below the user's data directory.
pub const APP_DATA_DIR: &'static str = "com.modrinth.app";

/// Directory of the instance records below the application's directory.
pub const INSTANCES_DIR: &'static str = "bedrock_instances";

/// Directory of the helper scripts below the application's directory.
pub const USER_SCRIPTS_DIR: &'static str = "scripts";

/// Where the downloads are kept, seen from the scripts directory.
pub const DOWNLOADS_FROM_SCRIPTS: &'static str = "../downloads";

/// Where the catalog file is kept, seen from the scripts directory.
pub const CATALOG_FROM_SCRIPTS: &'static str = "../version.json";

/// `dir` and `name` as one path.
pub open spec fn joined(dir: Seq<char>, name: Seq<char>) -> Seq<char> {
    dir + "/"@ + name
}

/// The path of `name` inside `dir`.
pub fn join_path(dir: &str, name: &str) -> (r: String)
    ensures
        r@ == joined(dir@, name@),
{
    join3(dir, "/", name)
}

/// The identifier that belongs to a slug: the slug behind a fixed prefix.
pub open spec fn identifier_of_slug(slug: Seq<char>) -> Seq<char> {
    "bedrock_"@ + slug
}

/// The identifier derived from a display name: spaces become underscores,
/// the result is lowercased, and the prefix is put in front.
pub open spec fn derived_identifier_spec(name: Seq<char>) -> Seq<char> {
    identifier_of_slug(lowercase_of(underscored(name)))
}

/// Puts the prefix of all identifiers in front of a slug.
pub fn identifier_for_slug(slug: &str) -> (r: String)
    ensures
        r@ == identifier_of_slug(slug@),
{
    join2("bedrock_", slug)
}

/// Derives the identifier of an instance from its display name.
pub fn derived_identifier(name: &str) -> (r: String)
    ensures
        r@ == derived_identifier_spec(name@),
{
    let spaced = underscore_spaces(name);
    let slug = lowercase(spaced.as_str());
    identifier_for_slug(slug.as_str())
}

/// The derived identifier is the fixed prefix followed by the lowercase
/// equivalent of the name in which every space has become an underscore and
/// nothing else has changed. It depends on the name alone.
pub proof fn law_derived_identifier(name: Seq<char>, again: Seq<char>)
    ensures
        underscored(name).len() == name.len(),
        forall|i: int|
            0 <= i < name.len() ==> #[trigger] underscored(name)[i] == (if name[i] == ' ' {
                '_'
            } else {
                name[i]
            }),
        !underscored(name).contains(' '),
        derived_identifier_spec(name).take(8) == "bedrock_"@,
        derived_identifier_spec(name).skip(8) == lowercase_of(underscored(name)),
        name == again ==> derived_identifier_spec(name) == derived_identifier_spec(again),
{
    reveal_strlit("bedrock_");
    let id = derived_identifier_spec(name);
    let slug = lowercase_of(underscored(name));
    assert(id.take(8) =~= "bedrock_"@);
    assert(id.skip(8) =~= slug);
}

/// Name of the file that stores the record with this identifier.
pub open spec fn record_file_name_spec(identifier: Seq<char>) -> Seq<char> {
    identifier + ".json"@
}

/// Name of the file that stores the record with this identifier.
pub fn record_file_name(identifier: &str) -> (r: String)
    ensures
        r@ == record_file_name_spec(identifier@),
{
    join2(identifier, ".json")
}

/// Path of the file that stores the record with this identifier.
pub open spec fn record_file_spec(instances_dir: Seq<char>, identifier: Seq<char>) -> Seq<char> {
    joined(instances_dir, record_file_name_spec(identifier))
}

/// Path of the file that stores the record with this identifier.
pub fn record_file(instances_dir: &str, identifier: &str) -> (r: String)
    ensures
        r@ == record_file_spec(instances_dir@, identifier@),
{
    let name = record_file_name(identifier);
    join_path(instances_dir, name.as_str())
}

/// Directory of the downloads that belongs to a scripts directory.
pub open spec fn downloads_dir_spec(scripts_dir: Seq<char>) -> Seq<char> {
    joined(scripts_dir, "../downloads"@)
}

/// Directory of the downloads that belongs to a scripts directory.
pub fn downloads_dir(scripts_dir: &str) -> (r: String)
    ensures
        r@ == downloads_dir_spec(scripts_dir@),
{
    join_path(scripts_dir, DOWNLOADS_FROM_SCRIPTS)
}

/// Path of the catalog file that belongs to a scripts directory.
pub open spec fn catalog_file_spec(scripts_dir: Seq<char>) -> Seq<char> {
    joined(scripts_dir, "../version.json"@)
}

/// Path of the catalog file that belongs to a scripts directory.
pub fn catalog_file(scripts_dir: &str) -> (r: String)
    ensures
        r@ == catalog_file_spec(scripts_dir@),
{
    join_path(scripts_dir, CATALOG_FROM_SCRIPTS)
}

/// Path at which the download script leaves the artifact of a version.
pub open spec fn artifact_path_spec(scripts_dir: Seq<char>, version: Seq<char>) -> Seq<char> {
    joined(downloads_dir_spec(scripts_dir), version + ".Appx"@)
}

/// Path at which the download script leaves the artifact of a version. The
/// path is computed, not looked up: nothing says that the file is there.
pub fn artifact_path(scripts_dir: &str, version: &str) -> (r: String)
    ensures
        r@ == artifact_path_spec(scripts_dir@, version@),
{
    let dir = downloads_dir(scripts_dir);
    let file = join2(version, ".Appx");
    join_path(dir.as_str(), file.as_str())
}

/// Text of the failure that is reported where the platform names no data
/// directory for the user.
pub open spec fn no_data_dir_message() -> Seq<char> {
    "Failed to get app data directory"@
}

/// `dirs::data_dir`: the user's data directory, if the platform names one.
/// Trusted, and nothing is claimed of the result: it depends on the
/// environment of the process. A path that is not valid Unicode is handed on
/// with replacement characters.
#[verifier::external_body]
pub(crate) fn user_data_dir() -> (r: Option<String>) {
    match dirs::data_dir() {
        Some(dir) => Some(dir.to_string_lossy().into_owned()),
        None => None,
    }
}

/// Directory of the application inside a data directory.
pub open spec fn app_dir_spec(data_dir: Seq<char>) -> Seq<char> {
    joined(data_dir, "com.modrinth.app"@)
}

/// Directory of the instance records inside a data directory.
pub open spec fn instances_dir_of(data_dir: Seq<char>) -> Seq<char> {
    joined(app_dir_spec(data_dir), "bedrock_instances"@)
}

/// Directory of the instance records for a data directory that may be
/// missing.
pub open spec fn instances_dir_spec(data_dir: Option<Seq<char>>) -> Result<Seq<char>, ErrorView> {
    match data_dir {
        Some(dir) => Ok(instances_dir_of(dir)),
        None => Err(ErrorView::Io(no_data_dir_message())),
    }
}

/// The failure that is reported where the platform names no data directory.
pub fn no_data_dir() -> (e: BedrockError)
    ensures
        e@ == ErrorView::Io(no_data_dir_message()),
{
    BedrockError::Io(String::from_str("Failed to get app data directory"))
}

/// Directory of the application inside a data directory.
pub fn app_dir(data_dir: &str) -> (r: String)
    ensures
        r@ == app_dir_spec(data_dir@),
{
    join_path(data_dir, APP_DATA_DIR)
}

/// Directory of the instance records, given the user's data directory.
pub fn instances_dir_in(data_dir: Option<String>) -> (r: Result<String, BedrockError>)
    ensures
        text_outcome_view(r) == instances_dir_spec(optional_text(data_dir)),
{
    match data_dir {
        Some(dir) => {
            let app = app_dir(dir.as_str());
            Ok(join_path(app.as_str(), INSTANCES_DIR))
        },
        None => Err(no_data_dir()),
    }
}

/// Directory of the instance records of the current user. It fails exactly
/// where the platform names no data directory.
pub fn instances_dir() -> (r: Result<String, BedrockError>)
    ensures
        exists|data_dir: Option<Seq<char>>|
            text_outcome_view(r) == #[trigger] instances_dir_spec(data_dir),
{
    let data_dir = user_data_dir();
    let r = instances_dir_in(data_dir);
    assert(text_outcome_view(r) == instances_dir_spec(optional_text(data_dir)));
    r
}

/// Index of the last `.` of a file name, or -1 where it has none.
pub open spec fn last_dot(name: Seq<char>) -> int
    decreases name.len(),
{
    if name.len() == 0 {
        -1
    } else if name.last() == '.' {
        name.len() - 1
    } else {
        last_dot(name.drop_last())
    }
}

/// The extension of a file name: what follows its last `.`. The name `..`
/// has none, nor has a name without a `.` or with its only `.` in front.
pub open spec fn extension_of(name: Seq<char>) -> Option<Seq<char>> {
    let dot = last_dot(name);
    if name == ".."@ || dot <= 0 {
        None
    } else {
        Some(name.skip(dot + 1))
    }
}

/// Whether a file name has the extension of a record file.
pub open spec fn has_json_extension_spec(name: Seq<char>) -> bool {
    extension_of(name) == Some("json"@)
}

/// `last_dot` finds a `.`, and no `.` follows it.
pub proof fn lemma_last_dot(name: Seq<char>)
    ensures
        -1 <= last_dot(name) < name.len(),
        last_dot(name) >= 0 ==> name[last_dot(name)] == '.',
        forall|j: int| last_dot(name) < j < name.len() ==> name[j] != '.',
    decreases name.len(),
{
    if name.len() > 0 && name.last() != '.' {
        let front = name.drop_last();
        lemma_last_dot(front);
        assert forall|j: int| last_dot(name) < j < name.len() implies name[j] != '.' by {
            if j < front.len() {
                assert(front[j] == name[j]);
            }
        }
    }
}

/// A name has the extension `json` exactly when it ends in `.json` and has
/// something before that.
pub proof fn lemma_json_extension(name: Seq<char>)
    ensures
        has_json_extension_spec(name) <==> (name.len() > 5 && name.skip(name.len() - 5)
            == ".json"@),
{
    reveal_strlit(".json");
    reveal_strlit("json");
    reveal_strlit("..");
    lemma_last_dot(name);
    let n = name.len() as int;
    let dot = last_dot(name);
    if n > 5 && name.skip(n - 5) == ".json"@ {
        let tail = name.skip(n - 5);
        assert(name[n - 5] == tail[0]);
        assert(name[n - 4] == tail[1]);
        assert(name[n - 3] == tail[2]);
        assert(name[n - 2] == tail[3]);
        assert(name[n - 1] == tail[4]);
        assert(dot == n - 5);
        assert(name.skip(dot + 1) =~= "json"@);
    }
    if has_json_extension_spec(name) {
        let ext = name.skip(dot + 1);
        assert(ext.len() == 4);
        assert(dot == n - 5);
        assert(name[n - 4] == ext[0]);
        assert(name[n - 3] == ext[1]);
        assert(name[n - 2] == ext[2]);
        assert(name[n - 1] == ext[3]);
        assert(name.skip(n - 5) =~= ".json"@);
    }
}

/// Whether a file of the instances directory is a record file, judged by its
/// name alone.
pub fn has_json_extension(file_name: &str) -> (b: bool)
    ensures
        b == has_json_extension_spec(file_name@),
{
    proof {
        lemma_json_extension(file_name@);
        reveal_strlit(".json");
    }
    let n = file_name.unicode_len();
    if n <= 5 {
        return false;
    }
    let b = file_name.get_char(n - 5) == '.' && file_name.get_char(n - 4) == 'j'
        && file_name.get_char(n - 3) == 's' && file_name.get_char(n - 2) == 'o'
        && file_name.get_char(n - 1) == 'n';
    proof {
        let tail = file_name@.skip(n - 5);
        if b {
            assert(tail =~= ".json"@);
        } else {
            assert(tail[0] == file_name@[n - 5]);
            assert(tail[1] == file_name@[n - 4]);
            assert(tail[2] == file_name@[n - 3]);
            assert(tail[3] == file_name@[n - 2]);
            assert(tail[4] == file_name@[n - 1]);
        }
    }
    b
}

} // verus!
