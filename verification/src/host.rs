//! What the library takes from outside: the user's directories, as the
//! `directories` crate reports them, and the lossy decoding of UTF-8.
//!
//! Nothing in this file is proved. The directory lookups promise nothing of
//! their results, which depend on the machine and the environment. A
//! directory is carried as the path that the host named, and the library
//! never looks inside it.

use vstd::prelude::*;

verus! {

/// `std::path::PathBuf`: a path as the host named it, which need not be
/// Unicode text. The library carries the value and never looks inside.
#[verifier::external_type_specification]
#[verifier::external_body]
pub struct ExPathBuf(std::path::PathBuf);

/// `directories::ProjectDirs`: the directories of one project, as the host
/// named them. The library carries the value and never looks inside.
#[verifier::external_type_specification]
#[verifier::external_body]
pub struct ExProjectDirs(directories::ProjectDirs);

/// `directories::BaseDirs`: the user's base directories, as the host named
/// them. The library carries the value and never looks inside.
#[verifier::external_type_specification]
#[verifier::external_body]
pub struct ExBaseDirs(directories::BaseDirs);

/// `directories::ProjectDirs::from`: the directories of the project named by
/// the three parts, or nothing where the user has no home directory.
#[verifier::external_body]
pub(crate) fn project_dirs(qualifier: &str, organization: &str, application: &str) -> (dirs: Option<
    directories::ProjectDirs,
>) {
    directories::ProjectDirs::from(qualifier, organization, application)
}

/// `directories::ProjectDirs::config_dir`: the project's configuration
/// directory.
#[verifier::external_body]
pub(crate) fn config_dir(dirs: &directories::ProjectDirs) -> (dir: std::path::PathBuf) {
    dirs.config_dir().to_path_buf()
}

/// `directories::BaseDirs::new`: the user's base directories, or nothing
/// where the user has no home directory.
#[verifier::external_body]
pub(crate) fn base_dirs() -> (dirs: Option<directories::BaseDirs>) {
    directories::BaseDirs::new()
}

/// `directories::BaseDirs::data_local_dir`: the user's local data directory.
#[verifier::external_body]
pub(crate) fn data_local_dir(dirs: &directories::BaseDirs) -> (dir: std::path::PathBuf) {
    dirs.data_local_dir().to_path_buf()
}

/// `directories::BaseDirs::home_dir`: the user's home directory.
#[verifier::external_body]
pub(crate) fn home_dir(dirs: &directories::BaseDirs) -> (dir: std::path::PathBuf) {
    dirs.home_dir().to_path_buf()
}

/// `PathBuf::clone`: a copy of the path, equal to it.
#[verifier::external_body]
pub(crate) fn copy_path(path: &std::path::PathBuf) -> (copy: std::path::PathBuf)
    ensures
        copy == *path,
{
    path.clone()
}

/// The text that `String::from_utf8_lossy` makes of `bytes`: its characters
/// where `bytes` is UTF-8, and otherwise the same with U+FFFD in place of
/// each ill-formed part.
pub uninterp spec fn utf8_lossy(bytes: Seq<u8>) -> Seq<char>;

/// `String::from_utf8_lossy`: the text of `bytes`, ill-formed parts replaced.
/// Bytes that are UTF-8 decode to the characters they encode.
#[verifier::external_body]
pub(crate) fn decode_lossy(bytes: &[u8]) -> (text: String)
    ensures
        text@ == utf8_lossy(bytes@),
        vstd::utf8::valid_utf8(bytes@) ==> text@ == vstd::utf8::decode_utf8(bytes@),
{
    String::from_utf8_lossy(bytes).into_owned()
}

} // verus!
