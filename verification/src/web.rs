//! Decisions of the local web UI server: which requests the opaque token
//! admits, which page the index serves, and how the dashboard page is made
//! from its template.
//!
//! The HTTP server itself (routes, sockets, assets) is left to the
//! application.

use vstd::prelude::*;

use crate::text::{owned, replace_all, replaced, str_eq};

verus! {

/// The placeholder in the dashboard template that receives the token.
pub open spec fn token_placeholder() -> Seq<char> {
    "%%TOKEN%%"@
}

/// A request is admitted when it carries exactly the server's token.
pub open spec fn token_ok(expected: Seq<char>, given: Option<String>) -> bool {
    given matches Some(t) && t@ == expected
}

/// Whether a request carrying `given` may use a token-guarded endpoint.
pub fn check_token(expected: &str, given: &Option<String>) -> (r: bool)
    ensures
        r == token_ok(expected@, *given),
{
    match given {
        Some(t) => str_eq(t.as_str(), expected),
        None => false,
    }
}

/// What `GET /` answers.
#[derive(Debug, Clone, Copy, PartialEq, Eq, Structural)]
pub enum IndexPage {
    /// No token given: the landing page, which explains where the link is.
    Landing,
    /// A wrong token: `401`.
    Unauthorized,
    /// The right token: the dashboard.
    Dashboard,
}

/// The page `GET /` serves for a request carrying `given`.
pub open spec fn index_page_for(expected: Seq<char>, given: Option<String>) -> IndexPage {
    match given {
        None => IndexPage::Landing,
        Some(t) => if t@ == expected {
            IndexPage::Dashboard
        } else {
            IndexPage::Unauthorized
        },
    }
}

/// Decides what `GET /` serves.
pub fn index_page(expected: &str, given: &Option<String>) -> (r: IndexPage)
    ensures
        r == index_page_for(expected@, *given),
{
    match given {
        None => IndexPage::Landing,
        Some(t) => if str_eq(t.as_str(), expected) {
            IndexPage::Dashboard
        } else {
            IndexPage::Unauthorized
        },
    }
}

/// The dashboard page: the template with every `%%TOKEN%%` replaced by the
/// token.
pub fn dashboard(shell: &str, token: &str) -> (r: String)
    ensures
        r@ == replaced(shell@, token_placeholder(), token@),
{
    let pat = "%%TOKEN%%";
    proof {
        reveal_strlit("%%TOKEN%%");
    }
    replace_all(shell, pat, token)
}

/// The landing page, as served.
pub fn landing(page: &str) -> (r: String)
    ensures
        r@ == page@,
{
    owned(page)
}

/// The dashboard is only ever served to a request that carries the token,
/// and every token-guarded endpoint admits exactly the requests the index
/// would serve the dashboard to.
pub proof fn lemma_dashboard_needs_token(expected: Seq<char>, given: Option<String>)
    ensures
        index_page_for(expected, given) == IndexPage::Dashboard <==> token_ok(expected, given),
{
}

} // verus!
