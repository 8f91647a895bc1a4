//! Where the files of the application lie.

use std::path::PathBuf;
use vstd::prelude::*;

verus! {

/// The folder in which all resources are stored.
pub const DEFAULT_FOLDER_RESOURCE: &'static str = "resources";

/// The folder in which all databases are stored.
pub const DEFAULT_FOLDER_RESOURCE_DATABASE: &'static str = "databases";

/// The folder in which all sets are stored.
pub const DEFAULT_FOLDER_RESOURCE_SET: &'static str = "sets";

/// The name of the default database.
pub const DEFAULT_DATABASE_NAME: &'static str = "AllPrintings";

/// The file extension for a set.
pub const EXTENSION_SET: &'static str = "mtgset";

/// The file extension of a JSON.
pub const EXTENSION_JSON: &'static str = "json";

/// An owned path of the file system.
#[verifier::external_type_specification]
#[verifier::external_body]
pub struct ExPathBuf(PathBuf);

/// The names of the components of a path, from the first to the last.
pub uninterp spec fn path_components(path: PathBuf) -> Seq<Seq<char>>;

/// Whether a text is a plain name: made of the letters `a` to `z` and `A`
/// to `Z` and of the digits `0` to `9` alone, and of one of them at least.
/// A plain name means the same as a part of a path on every system.
pub open spec fn is_plain_name(name: Seq<char>) -> bool {
    name.len() > 0 && forall|i: int|
        0 <= i < name.len() ==> {
            let c = #[trigger] name[i];
            ('a' <= c && c <= 'z') || ('A' <= c && c <= 'Z') || ('0' <= c && c <= '9')
        }
}

/// The path that is made of the one component `name`.
///
/// Trusted: this is `PathBuf::from`. A plain name holds no separator, no
/// prefix and no dot, so the path has the name as its only component.
/// Nothing is claimed of other texts.
#[verifier::external_body]
fn path_of(name: &str) -> (path: PathBuf)
    ensures
        is_plain_name(name@) ==> path_components(path) == seq![name@],
{
    PathBuf::from(name)
}

/// Extends a path by the component `name`.
///
/// Trusted: this is `PathBuf::push`. A plain name is a relative path of
/// one component, which `push` adds at the end. Nothing is claimed of
/// other texts.
#[verifier::external_body]
fn push_component(path: &mut PathBuf, name: &str)
    ensures
        is_plain_name(name@) ==> path_components(*final(path)) == path_components(*old(path)).push(
            name@,
        ),
{
    path.push(name);
}

/// Gives the last component of a path the extension `extension`.
///
/// Trusted: this is `PathBuf::set_extension`. A last component that is a
/// plain name has no extension yet, so a dot and the extension are added to
/// it. Nothing is claimed of other paths; the extension has to be a plain
/// name, since `set_extension` panics on an extension with a separator.
#[verifier::external_body]
fn give_extension(path: &mut PathBuf, extension: &str)
    requires
        is_plain_name(extension@),
    ensures
        path_components(*old(path)).len() > 0 && is_plain_name(path_components(*old(path)).last())
            ==> path_components(*final(path)) == path_components(*old(path)).drop_last().push(
            path_components(*old(path)).last() + seq!['.'] + extension@,
        ),
{
    path.set_extension(extension);
}

/// The paths of the application.
pub struct Configuration {}

impl Configuration {
    /// The path to the resource folder.
    pub fn resource_path() -> (path: PathBuf)
        ensures
            path_components(path) == seq!["resources"@],
    {
        proof {
            lemma_names_are_plain();
        }
        path_of(DEFAULT_FOLDER_RESOURCE)
    }

    /// The path to the database folder.
    pub fn database_path() -> (path: PathBuf)
        ensures
            path_components(path) == seq!["resources"@, "databases"@],
    {
        proof {
            lemma_names_are_plain();
        }
        let mut path = Configuration::resource_path();
        push_component(&mut path, DEFAULT_FOLDER_RESOURCE_DATABASE);
        assert(path_components(path) =~= seq!["resources"@, "databases"@]);
        path
    }

    /// The path to the database for importing existing information and
    /// conversion into an internal format.
    pub fn database_import_path() -> (path: PathBuf)
        ensures
            path_components(path) == seq![
                "resources"@,
                "databases"@,
                "AllPrintings"@ + seq!['.'] + "json"@,
            ],
    {
        proof {
            lemma_names_are_plain();
        }
        let mut path = Configuration::database_path();
        push_component(&mut path, DEFAULT_DATABASE_NAME);
        assert(path_components(path) =~= seq!["resources"@, "databases"@, "AllPrintings"@]);
        give_extension(&mut path, EXTENSION_JSON);
        assert(path_components(path) =~= seq![
            "resources"@,
            "databases"@,
            "AllPrintings"@ + seq!['.'] + "json"@,
        ]);
        path
    }

    /// The path to the folder containing all sets.
    pub fn set_path() -> (path: PathBuf)
        ensures
            path_components(path) == seq!["resources"@, "sets"@],
    {
        proof {
            lemma_names_are_plain();
        }
        let mut path = Configuration::resource_path();
        push_component(&mut path, DEFAULT_FOLDER_RESOURCE_SET);
        assert(path_components(path) =~= seq!["resources"@, "sets"@]);
        path
    }

    /// The path to the file of the set with the code `code`.
    ///
    /// # Parameters
    ///
    /// * code - the code of the set to get the path to
    pub fn set_file_path(code: &str) -> (path: PathBuf)
        ensures
            is_plain_name(code@) ==> path_components(path) == seq![
                "resources"@,
                "sets"@,
                code@ + seq!['.'] + "mtgset"@,
            ],
    {
        proof {
            lemma_names_are_plain();
        }
        let mut path = Configuration::set_path();
        push_component(&mut path, code);
        give_extension(&mut path, EXTENSION_SET);
        proof {
            if is_plain_name(code@) {
                assert(path_components(path) =~= seq![
                    "resources"@,
                    "sets"@,
                    code@ + seq!['.'] + "mtgset"@,
                ]);
            }
        }
        path
    }
}

/// The names of the folders and the extensions of the application are
/// plain names.
pub proof fn lemma_names_are_plain()
    ensures
        is_plain_name("resources"@),
        is_plain_name("databases"@),
        is_plain_name("sets"@),
        is_plain_name("AllPrintings"@),
        is_plain_name("mtgset"@),
        is_plain_name("json"@),
        DEFAULT_FOLDER_RESOURCE@ == "resources"@,
        DEFAULT_FOLDER_RESOURCE_DATABASE@ == "databases"@,
        DEFAULT_FOLDER_RESOURCE_SET@ == "sets"@,
        DEFAULT_DATABASE_NAME@ == "AllPrintings"@,
        EXTENSION_SET@ == "mtgset"@,
        EXTENSION_JSON@ == "json"@,
{
    reveal_strlit("resources");
    reveal_strlit("databases");
    reveal_strlit("sets");
    reveal_strlit("AllPrintings");
    reveal_strlit("mtgset");
    reveal_strlit("json");
}

} // verus!
