//! The capability an HTTP client has to offer so that the endpoint functions can use it.

use vstd::prelude::*;

verus! {

/// One `(name, value)` pair of a query string, a form body or a header list.
pub type Pair = (Seq<char>, Seq<char>);

/// The pairs of a borrowed parameter list, as sequences of characters.
pub open spec fn pairs_of(params: Seq<(&str, &str)>) -> Seq<Pair> {
    Seq::new(params.len(), |i: int| (params[i].0@, params[i].1@))
}

/// Sends requests to Slack over HTTP.
pub trait SlackWebRequestSender {
    type Error;

    /// Whether a GET of `url` with the query pairs `params` may come back as `reply`.
    open spec fn get_yields(
        &self,
        url: Seq<char>,
        params: Seq<Pair>,
        reply: Result<String, Self::Error>,
    ) -> bool {
        true
    }

    /// Whether a POST to `url` with the form pairs `form` and the headers `headers` may come
    /// back as `reply`.
    open spec fn post_yields(
        &self,
        url: Seq<char>,
        form: Seq<Pair>,
        headers: Seq<Pair>,
        reply: Result<String, Self::Error>,
    ) -> bool {
        true
    }

    /// Make a GET call to Slack. The parameters are appended to the request as its query
    /// string.
    fn get(&self, method_url: &str, params: &[(&str, &str)]) -> (reply: Result<String, Self::Error>)
        ensures
            self.get_yields(method_url@, pairs_of(params@), reply),
    ;

    /// Make a POST call to Slack. The form pairs become the request's body, the headers are
    /// set on it.
    fn post(
        &self,
        method_url: &str,
        form: &[(&str, &str)],
        headers: &[(&str, &str)],
    ) -> (reply: Result<String, Self::Error>)
        ensures
            self.post_yields(method_url@, pairs_of(form@), pairs_of(headers@), reply),
    ;
}

} // verus!
