//! Serving the files of a workspace: who may read them, and the content
//! type that a file is served with.

use vstd::prelude::*;
use vstd::string::*;

use crate::error::AppError;

verus! {

/// The content type that the extension of `path` stands for; that of
/// unspecified bytes where the extension says nothing.
pub uninterp spec fn guessed_content_type(path: Seq<char>) -> Seq<char>;

/// `mime_guess::from_path` followed by `MimeGuess::first_or_octet_stream`,
/// written out as text. Trusted: the result depends on the path alone.
#[verifier::external_body]
fn guess_content_type(path: &str) -> (content_type: String)
    ensures
        content_type@ == guessed_content_type(path@),
{
    mime_guess::from_path(path).first_or_octet_stream().to_string()
}

/// Whether a user of the workspace `user_ws_id` may read the files of the
/// workspace `ws_id`: only those of the user's own. Another workspace's
/// files are reported as not there.
pub fn check_file_workspace(user_ws_id: i64, ws_id: i64) -> (allowed: Result<(), AppError>)
    ensures
        match allowed {
            Ok(_) => user_ws_id == ws_id,
            Err(e) => user_ws_id != ws_id && e is NotFound && e.detail()
                == "File does not exist or you do not have access to it"@,
        },
{
    if user_ws_id != ws_id {
        Err(
            AppError::NotFound(
                "File does not exist or you do not have access to it".to_owned(),
            ),
        )
    } else {
        Ok(())
    }
}

/// The content type to serve the file at `path` with, given whether the
/// file exists; a file that does not is reported as not there.
pub fn file_content_type(path: &str, exists: bool) -> (content_type: Result<String, AppError>)
    ensures
        match content_type {
            Ok(text) => exists && text@ == guessed_content_type(path@),
            Err(e) => !exists && e is NotFound && e.detail() == "File does not exist"@,
        },
{
    if !exists {
        Err(AppError::NotFound("File does not exist".to_owned()))
    } else {
        Ok(guess_content_type(path))
    }
}

} // verus!
