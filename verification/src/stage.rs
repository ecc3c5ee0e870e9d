//! The stage itself: the flag, the inner service, and the choice that is
//! made for each request.

use crate::response::{redirect_for, redirect_of, Dispatch, DispatchView, RedirectResponse, FOUND};
use crate::uri::{
    lemma_uri_text_unique, rejection, secure_uri_text, uri_text, well_formed_parts,
    InvalidUriError, RequestContext, RequestContextView, Scheme,
};
use vstd::prelude::*;

verus! {

/// Whether a stage with the flag `redirect` answers `req` itself: the flag is
/// set and the request arrived as `http`.
pub open spec fn intercepts(redirect: bool, req: RequestContextView) -> bool {
    redirect && req.scheme == Some(Scheme::Http)
}

/// What a stage with the flag `redirect` does with `req`.
pub open spec fn decision(redirect: bool, req: RequestContextView) -> Result<
    DispatchView,
    InvalidUriError,
> {
    if intercepts(redirect, req) {
        match redirect_of(req) {
            Ok(response) => Ok(DispatchView::Redirect(response)),
            Err(e) => Err(e),
        }
    } else {
        Ok(DispatchView::Forward)
    }
}

/// The views of a choice, or of the error in its place.
pub open spec fn dispatch_view(out: Result<Dispatch, InvalidUriError>) -> Result<
    DispatchView,
    InvalidUriError,
> {
    match out {
        Ok(dispatch) => Ok(dispatch@),
        Err(e) => Err(e),
    }
}

/// What came of a request: the inner service's answer, or the redirect.
#[derive(Clone, Debug, PartialEq, Eq)]
pub enum Handled<R> {
    /// The answer of the inner service, as it gave it.
    Inner(R),
    /// The stage's own answer.
    Redirect(RedirectResponse),
}

/// Redirects HTTP requests to HTTPS.
///
/// Set `redirect` to `true` to enable redirection. Where it is `false`,
/// requests are passed on to the inner service unmodified.
#[derive(Clone, Debug)]
pub struct HTTPSRedirect {
    pub redirect: bool,
}

impl HTTPSRedirect {
    /// Creates the stage's configuration.
    pub fn new(redirect: bool) -> (out: Self)
        ensures
            out.redirect == redirect,
    {
        Self { redirect }
    }

    /// Wraps `service` in a stage that has this configuration's flag.
    pub fn new_transform<S>(&self, service: S) -> (out: HTTPSRedirectMiddleware<S>)
        ensures
            out.redirects() == self.redirect,
            out.inner() == service,
    {
        HTTPSRedirectMiddleware { service, redirect: self.redirect }
    }
}

/// The stage: an inner service and the flag it was made with.
pub struct HTTPSRedirectMiddleware<S> {
    service: S,
    redirect: bool,
}

impl<S> HTTPSRedirectMiddleware<S> {
    /// The flag that the stage was made with.
    pub closed spec fn redirects(&self) -> bool {
        self.redirect
    }

    /// The inner service.
    pub closed spec fn inner(&self) -> S {
        self.service
    }

    /// The flag that the stage was made with.
    pub fn redirect(&self) -> (out: bool)
        ensures
            out == self.redirects(),
    {
        self.redirect
    }

    /// The inner service.
    pub fn service(&self) -> (out: &S)
        ensures
            *out == self.inner(),
    {
        &self.service
    }

    /// Chooses for one request, without calling the inner service.
    ///
    /// With the flag unset, or a request that did not arrive as `http`, the
    /// request is to be forwarded. Otherwise the answer is the redirect of
    /// [`redirect_for`], or its error; the request is then never forwarded.
    pub fn decide(&self, req: &RequestContext) -> (out: Result<Dispatch, InvalidUriError>)
        ensures
            dispatch_view(out) == decision(self.redirects(), req@),
            !intercepts(self.redirects(), req@) ==> out == Ok::<Dispatch, InvalidUriError>(
                Dispatch::Forward,
            ),
            intercepts(self.redirects(), req@) ==> match out {
                Ok(Dispatch::Redirect(response)) => rejection(req@) is None && response.status
                    == FOUND && response.location@ == secure_uri_text(req@),
                Ok(Dispatch::Forward) => false,
                Err(e) => rejection(req@) == Some(e),
            },
    {
        let intercepted = self.redirect && match req.scheme {
            Some(Scheme::Http) => true,
            _ => false,
        };
        if intercepted {
            match redirect_for(req) {
                Ok(response) => Ok(Dispatch::Redirect(response)),
                Err(e) => Err(e),
            }
        } else {
            Ok(Dispatch::Forward)
        }
    }

    /// Handles one request.
    ///
    /// A request that the stage does not intercept is handed to the inner
    /// service as it is, and what the service returns is returned. One that
    /// it intercepts is answered with the redirect, or failed with the reason
    /// why there is none; the inner service is not called for it.
    pub fn call<R>(&self, req: RequestContext) -> (out: Result<Handled<R>, InvalidUriError>) where
        S: Fn(RequestContext) -> R,

        requires
            !intercepts(self.redirects(), req@) ==> call_requires(self.inner(), (req,)),
        ensures
            !intercepts(self.redirects(), req@) ==> (out matches Ok(Handled::Inner(answer))
                && call_ensures(self.inner(), (req,), answer)),
            intercepts(self.redirects(), req@) ==> match out {
                Ok(Handled::Redirect(response)) => rejection(req@) is None && response.status
                    == FOUND && response.location@ == secure_uri_text(req@),
                Ok(Handled::Inner(_)) => false,
                Err(e) => rejection(req@) == Some(e),
            },
    {
        match self.decide(&req) {
            Ok(Dispatch::Forward) => Ok(Handled::Inner((self.service)(req))),
            Ok(Dispatch::Redirect(response)) => Ok(Handled::Redirect(response)),
            Err(e) => Err(e),
        }
    }
}

/// A stage whose flag is unset forwards every request.
pub proof fn lemma_disabled_forwards(req: RequestContextView)
    ensures
        decision(false, req) == Ok::<DispatchView, InvalidUriError>(DispatchView::Forward),
{
}

/// A request that arrived as `https`, or with no scheme, is forwarded
/// whatever the flag.
pub proof fn lemma_secure_forwards(redirect: bool, req: RequestContextView)
    requires
        req.scheme != Some(Scheme::Http),
    ensures
        decision(redirect, req) == Ok::<DispatchView, InvalidUriError>(DispatchView::Forward),
{
}

/// A stage whose flag is set never forwards a request that arrived as
/// `http`: it answers with a `302 Found` whose `Location` begins with
/// `https://`, or, where no redirect target can be made, fails the request.
pub proof fn lemma_plaintext_redirected(req: RequestContextView)
    requires
        req.scheme == Some(Scheme::Http),
    ensures
        decision(true, req) != Ok::<DispatchView, InvalidUriError>(DispatchView::Forward),
        decision(true, req) is Ok <==> rejection(req) is None,
        decision(true, req) matches Ok(DispatchView::Redirect(response)) ==> response.status == 302
            && response.location == uri_text(Scheme::Https, req.host, req.path, req.query)
            && response.location.len() >= 8 && response.location.subrange(0, 8)
            == seq!['h', 't', 't', 'p', 's', ':', '/', '/'],
        decision(true, req) matches Err(e) ==> rejection(req) == Some(e),
{
    if rejection(req) is None {
        let location = secure_uri_text(req);
        assert(location.subrange(0, 8) =~= seq!['h', 't', 't', 'p', 's', ':', '/', '/']);
    }
}

/// The `Location` of a redirect names the request's own host, path and
/// query, under `https`: however it is read as a URI of well-formed parts,
/// these are the parts, and only the scheme differs from the request's.
pub proof fn lemma_location_keeps_parts(
    req: RequestContextView,
    scheme: Scheme,
    host: Seq<char>,
    path: Seq<char>,
    query: Option<Seq<char>>,
)
    requires
        decision(true, req) matches Ok(DispatchView::Redirect(response)) && response.location
            == uri_text(scheme, host, path, query),
        well_formed_parts(host, path, query),
    ensures
        scheme == Scheme::Https,
        host == req.host,
        path == req.path,
        query == req.query,
{
    lemma_uri_text_unique(scheme, host, path, query, Scheme::Https, req.host, req.path, req.query);
}

/// Two configurations made with the same flag are the same, and the stages
/// made of them choose alike for every request.
pub proof fn lemma_same_flag_same_stage(a: HTTPSRedirect, b: HTTPSRedirect, req: RequestContextView)
    requires
        a.redirect == b.redirect,
    ensures
        a == b,
        decision(a.redirect, req) == decision(b.redirect, req),
{
}

} // verus!
