//! Typed bindings for a handful of Slack Web API methods.
//!
//! Every method is one function: it turns a request into a parameter list, sends it through
//! a [`SlackWebRequestSender`], and decodes the JSON that comes back into a response.

pub mod call;
pub mod decode;
pub mod json;
pub mod migration;
pub mod params;
pub mod transport;
pub mod usergroups;
pub mod workflows;

pub use crate::transport::SlackWebRequestSender;

use vstd::prelude::*;
use vstd::string::StringExecFns;

verus! {

/// The address of the method at `method`, a path that starts with a slash.
pub open spec fn slack_url(method: Seq<char>) -> Seq<char> {
    "https://slack.com/api"@ + method
}

/// The address of the method at `method`.
pub fn get_slack_url_for_method(method: &str) -> (url: String)
    ensures
        url@ == slack_url(method@),
{
    let mut url = "https://slack.com/api".to_owned();
    url.append(method);
    url
}

} // verus!
