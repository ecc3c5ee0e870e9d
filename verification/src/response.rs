//! What the stage answers: the redirect, and the choice between it and the
//! inner service.

use crate::uri::{
    assemble_https_uri, is_well_formed_host, is_well_formed_path, is_well_formed_query,
    lemma_target_is_plain, rejection, secure_uri_text, target_text, InvalidUriError,
    RequestContext, RequestContextView, MAX_TARGET_LEN,
};
use vstd::prelude::*;
use vstd::string::*;

verus! {

/// Status code of a redirect: `302 Found`.
pub const FOUND: u16 = 302;

/// Status code under which a request is failed when no redirect target can be
/// made of it: `500 Internal Server Error`.
pub const INTERNAL_SERVER_ERROR: u16 = 500;

/// A redirect: a status code and the `Location` header. It has no body.
#[derive(Clone, Debug, PartialEq, Eq)]
pub struct RedirectResponse {
    pub status: u16,
    pub location: String,
}

/// A [`RedirectResponse`] as contracts see it.
pub struct RedirectResponseView {
    pub status: u16,
    pub location: Seq<char>,
}

impl View for RedirectResponse {
    type V = RedirectResponseView;

    open spec fn view(&self) -> RedirectResponseView {
        RedirectResponseView { status: self.status, location: self.location@ }
    }
}

impl RedirectResponse {
    /// A `302 Found` that sends the client to `location`.
    pub fn found(location: String) -> (out: RedirectResponse)
        ensures
            out.status == FOUND,
            out.location == location,
    {
        RedirectResponse { status: FOUND, location }
    }
}

impl InvalidUriError {
    /// The status code under which the pipeline fails the request.
    pub fn status(&self) -> (out: u16)
        ensures
            out == INTERNAL_SERVER_ERROR,
    {
        INTERNAL_SERVER_ERROR
    }
}

/// What the stage does with a request.
#[derive(Clone, Debug, PartialEq, Eq)]
pub enum Dispatch {
    /// Hand the request, as it is, to the inner service and return its answer.
    Forward,
    /// Answer at once with the redirect; the inner service is not called.
    Redirect(RedirectResponse),
}

/// A [`Dispatch`] as contracts see it.
pub enum DispatchView {
    Forward,
    Redirect(RedirectResponseView),
}

impl View for Dispatch {
    type V = DispatchView;

    open spec fn view(&self) -> DispatchView {
        match self {
            Dispatch::Forward => DispatchView::Forward,
            Dispatch::Redirect(response) => DispatchView::Redirect(response@),
        }
    }
}

/// The redirect that answers `req`: `302 Found` with the request's host, path
/// and query under `https`; or the reason why there is none.
pub open spec fn redirect_of(req: RequestContextView) -> Result<
    RedirectResponseView,
    InvalidUriError,
> {
    match rejection(req) {
        Some(e) => Err(e),
        None => Ok(RedirectResponseView { status: FOUND, location: secure_uri_text(req) }),
    }
}

/// The views of a redirect, or of the error in its place.
pub open spec fn redirect_view(out: Result<RedirectResponse, InvalidUriError>) -> Result<
    RedirectResponseView,
    InvalidUriError,
> {
    match out {
        Ok(response) => Ok(response@),
        Err(e) => Err(e),
    }
}

/// Makes the redirect of a URI that was assembled, and fails with
/// [`InvalidUriError::Rejected`] where none was.
pub fn redirect_from(assembled: Option<String>) -> (out: Result<RedirectResponse, InvalidUriError>)
    ensures
        match assembled {
            Some(text) => (out matches Ok(response) && response.status == FOUND
                && response.location == text),
            None => out == Err::<RedirectResponse, InvalidUriError>(InvalidUriError::Rejected),
        },
{
    match assembled {
        Some(text) => Ok(RedirectResponse::found(text)),
        None => Err(InvalidUriError::Rejected),
    }
}

/// Path and query as they follow the authority in a URI.
fn target_of(path: &str, query: &Option<String>) -> (out: String)
    ensures
        out@ == target_text(
            path@,
            match query {
                Some(q) => Some(q@),
                None => None,
            },
        ),
{
    let mut target = String::from_str(path);
    match query {
        Some(q) => {
            target.append("?");
            target.append(q.as_str());
            proof {
                reveal_strlit("?");
                assert("?"@ =~= seq!['?']);
            }
        },
        None => {},
    }
    target
}

/// Whether path and query, with the `?` between them, are no longer than
/// [`MAX_TARGET_LEN`].
fn target_fits(path: &str, query: &Option<String>) -> (out: bool)
    requires
        path.is_ascii(),
        query matches Some(q) ==> q.is_ascii(),
    ensures
        out == (target_text(
            path@,
            match query {
                Some(q) => Some(q@),
                None => None,
            },
        ).len() <= MAX_TARGET_LEN),
{
    broadcast use vstd::string::is_ascii_spec_bytes;

    let path_len: usize = path.as_bytes().len();
    if path_len > MAX_TARGET_LEN {
        return false;
    }
    match query {
        Some(q) => {
            let query_text = q.as_str();
            assert(query_text.is_ascii());
            let query_len: usize = query_text.as_bytes().len();
            query_len < MAX_TARGET_LEN - path_len
        },
        None => true,
    }
}

/// Builds the redirect that answers `req`.
///
/// The host has to be a [`well_formed_host`](crate::uri::well_formed_host),
/// the path a [`well_formed_path`](crate::uri::well_formed_path), the query a
/// [`well_formed_query`](crate::uri::well_formed_query), path and query
/// together no longer than [`MAX_TARGET_LEN`], and the URI library has to
/// accept them all. The `Location` is then `https://`, the host,
/// the path and, where there is a query, `?` and the query.
pub fn redirect_for(req: &RequestContext) -> (out: Result<RedirectResponse, InvalidUriError>)
    ensures
        redirect_view(out) == redirect_of(req@),
        out matches Ok(response) ==> response.status == FOUND && response.location@
            == secure_uri_text(req@),
        out matches Err(e) ==> rejection(req@) == Some(e),
{
    if !is_well_formed_host(req.host.as_str()) {
        return Err(InvalidUriError::MalformedHost);
    }
    if !is_well_formed_path(req.path.as_str()) {
        return Err(InvalidUriError::MalformedPath);
    }
    match &req.query {
        Some(q) => {
            if !is_well_formed_query(q.as_str()) {
                return Err(InvalidUriError::MalformedQuery);
            }
        },
        None => {},
    }
    if !target_fits(req.path.as_str(), &req.query) {
        return Err(InvalidUriError::TooLong);
    }
    let target = target_of(req.path.as_str(), &req.query);
    proof {
        lemma_target_is_plain(req@.path, req@.query);
    }
    redirect_from(assemble_https_uri(req.host.as_str(), target.as_str()))
}

} // verus!
