//! The compute half of the download: building the request URL from the
//! remote locator, and classifying the response by status into the fetched
//! content or a failure carrying the remote side's diagnostic text. The
//! network request itself is performed by the surrounding program.

use vstd::prelude::*;
use vstd::string::StringExecFns;

use crate::errors::PickError;
use crate::resolver::slash;

verus! {

/// The fixed base host every request goes to.
pub open spec fn base_url_spec() -> Seq<char> {
    "https://raw.githubusercontent.com"@
}

/// The full request URL: the base host, a separator, and the remote locator.
pub open spec fn request_url_of(locator: Seq<char>) -> Seq<char> {
    base_url_spec() + slash() + locator
}

/// Build the URL the download requests: the base host joined with the
/// remote locator.
pub fn build_url(locator: &str) -> (url: String)
    ensures
        url@ == request_url_of(locator@),
{
    let mut url = String::from_str("https://raw.githubusercontent.com");
    url.append("/");
    url.append(locator);
    proof {
        reveal_strlit("/");
        assert("/"@ =~= slash());
        assert(url@ =~= request_url_of(locator@));
    }
    url
}

/// What a download concludes with: the full body text on success, or the
/// failure that ends the run.
pub enum DownloadResult {
    Success { content: String },
    Failure { error: PickError },
}

/// Whether an HTTP status reports success.
pub open spec fn status_is_success(status: u16) -> bool {
    200 <= status < 300
}

/// Turn the response to the GET into the download's conclusion: a success
/// status yields the body as the content, any other status a fetch failure
/// carrying the locator and the body as diagnostic text.
pub fn classify_response(locator: &str, status: u16, body: String) -> (r: DownloadResult)
    ensures
        status_is_success(status) ==> (r matches DownloadResult::Success { content } && content@
            == body@),
        !status_is_success(status) ==> (r matches DownloadResult::Failure { error }
            && error matches PickError::FetchFailed { locator: l, body: b } && l@ == locator@ && b@
            == body@),
{
    if 200 <= status && status < 300 {
        DownloadResult::Success { content: body }
    } else {
        DownloadResult::Failure {
            error: PickError::FetchFailed { locator: String::from_str(locator), body },
        }
    }
}

} // verus!
