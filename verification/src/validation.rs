//! Validation of user input.
use vstd::prelude::*;
use crate::error::{AppError, CliError};
use crate::strings::{append_str, starts_with_seq, starts_with_str};

verus! {

/// The message of the error for a URL without an HTTP scheme.
pub open spec fn bad_scheme_message(url: Seq<char>) -> Seq<char> {
    "Invalid URL '"@ + url + "': URL must start with http:// or https://"@
}

/// A URL is accepted when it is not empty and starts with `http://` or
/// `https://`.
pub open spec fn url_accepted(url: Seq<char>) -> bool {
    url.len() > 0 && (starts_with_seq(url, "http://"@) || starts_with_seq(url, "https://"@))
}

/// Checks that a URL is not empty and uses the `http` or `https` scheme;
/// otherwise returns an invalid-arguments error saying why.
pub fn validate_url(url: &str) -> (r: Result<(), AppError>)
    ensures
        r is Ok <==> url_accepted(url@),
        url@.len() == 0 ==> (r matches Err(AppError::Cli(CliError::InvalidArguments(m))) && m@
            == "URL cannot be empty"@),
        url@.len() > 0 && !url_accepted(url@) ==> (r matches Err(
            AppError::Cli(CliError::InvalidArguments(m)),
        ) && m@ == bad_scheme_message(url@)),
{
    if url.is_empty() {
        let mut m = String::new();
        append_str(&mut m, "URL cannot be empty");
        return Err(AppError::Cli(CliError::InvalidArguments(m)));
    }
    if !starts_with_str(url, "http://") && !starts_with_str(url, "https://") {
        let mut m = String::new();
        append_str(&mut m, "Invalid URL '");
        append_str(&mut m, url);
        append_str(&mut m, "': URL must start with http:// or https://");
        return Err(AppError::Cli(CliError::InvalidArguments(m)));
    }
    Ok(())
}

} // verus!
