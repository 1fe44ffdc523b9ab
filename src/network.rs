use vstd::prelude::*;
use vstd::string::StringExecFns;

use crate::models::LauncherError;

verus! {

/// Whether `url::Url::parse` accepts a text as an absolute URL.
pub uninterp spec fn url_parses(s: Seq<char>) -> bool;

/// Relies on url::Url::parse: whether a text parses is a function of the
/// text; on failure the error's display text is handed back.
#[verifier::external_body]
fn parse_url(s: &str) -> (r: Result<(), String>)
    ensures
        r is Ok <==> url_parses(s@),
{
    match url::Url::parse(s) {
        Ok(_) => Ok(()),
        Err(e) => Err(e.to_string()),
    }
}

/// Accepts a text that parses as an absolute URL; refuses any other with an
/// invalid-configuration error.
pub fn validate_url(url: &str) -> (r: Result<(), LauncherError>)
    ensures
        r is Ok <==> url_parses(url@),
        r matches Err(e) ==> e matches LauncherError::InvalidConfig(m) && m@.len() >= 13
            && m@.subrange(0, 13) == "Invalid URL: "@,
{
    match parse_url(url) {
        Ok(()) => Ok(()),
        Err(reason) => {
            let mut m = String::from_str("Invalid URL: ");
            proof {
                reveal_strlit("Invalid URL: ");
            }
            let ghost before = m@;
            m.append(reason.as_str());
            assert(m@.subrange(0, 13) =~= before);
            Err(LauncherError::InvalidConfig(m))
        },
    }
}

/// The `User-Agent` header sent with every request.
pub fn get_user_agent() -> (r: String)
    ensures
        r@ == "TheBoys-Launcher/1.1.0"@,
{
    String::from_str("TheBoys-Launcher/1.1.0")
}

} // verus!
