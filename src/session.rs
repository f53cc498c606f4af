//! The stored credential: where it lives, what the file holds, and how
//! logging out treats the file.
use vstd::prelude::*;
use crate::model::ApiError;

verus! {

/// Directory under the home directory that holds the client's files.
pub const CONFIG_DIR: &'static str = ".aido";

/// Name of the credential file inside `CONFIG_DIR`.
pub const TOKEN_FILE: &'static str = ".token";

/// What saving `token` writes to the credential file: the token itself,
/// with no envelope and no line break.
pub open spec fn saved_text(token: Seq<char>) -> Seq<char> {
    token
}

/// The file text to write when storing `token`.
pub fn token_file_text(token: &str) -> (r: String)
    ensures
        r@ == saved_text(token@),
{
    String::from_str(token)
}

/// The session that a read of the credential file gives: `contents` is the
/// file's text, or `None` when there is no file or it could not be read as
/// text. The credential is opaque: whatever text the file holds is it, and a
/// file that cannot be read means that nobody is logged in.
pub open spec fn session_of(contents: Option<Seq<char>>) -> Option<Seq<char>> {
    contents
}

/// A credential that was saved reads back as the same text.
pub proof fn lemma_saved_token_reads_back(token: Seq<char>)
    ensures
        session_of(Some(saved_text(token))) == Some(token),
{
}

/// What logging out asks for.
#[derive(Debug, PartialEq, Eq)]
pub enum LogoutStep {
    /// Remove the credential file and report with `on_token_removed`.
    RemoveFile,
    /// Nothing is left to do.
    Finished(Result<(), ApiError>),
}

/// What logging out does when the credential file is (`present`) or is not there.
pub open spec fn logout_step(present: bool) -> LogoutStep {
    if present {
        LogoutStep::RemoveFile
    } else {
        LogoutStep::Finished(Ok(()))
    }
}

/// How the removal of the credential file ends a logout.
pub open spec fn removal_result(removed: bool) -> Result<(), ApiError> {
    if removed {
        Ok(())
    } else {
        Err(ApiError::StorageError)
    }
}

/// Whether the credential file is still there after a logout that found it
/// `present` and, if it tried, `removed` it.
pub open spec fn present_after_logout(present: bool, removed: bool) -> bool {
    present && !removed
}

/// Starts logging out; a missing credential file is no error.
pub fn logout(token_file_present: bool) -> (r: LogoutStep)
    ensures
        r == logout_step(token_file_present),
{
    if token_file_present {
        LogoutStep::RemoveFile
    } else {
        LogoutStep::Finished(Ok(()))
    }
}

/// The credential file was removed, or its removal failed.
pub fn on_token_removed(removed: bool) -> (r: Result<(), ApiError>)
    ensures
        r == removal_result(removed),
{
    if removed {
        Ok(())
    } else {
        Err(ApiError::StorageError)
    }
}

/// Logging out twice is logging out once: after a first logout that did not
/// fail, the file is gone, and a second logout finishes at once without error.
pub proof fn lemma_logout_idempotent(present: bool, removed: bool)
    requires
        !present || removal_result(removed) is Ok,
    ensures
        !present_after_logout(present, removed),
        logout_step(present_after_logout(present, removed)) == LogoutStep::Finished(Ok(())),
{
}

} // verus!
