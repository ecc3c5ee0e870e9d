//! A request-pipeline stage that sends plaintext HTTP requests to the same
//! location over HTTPS.
//!
//! The stage holds one flag. When the flag is set and a request arrived with
//! the scheme `http`, the stage answers with a `302 Found` whose `Location`
//! is the request's own host, path and query under the scheme `https`; every
//! other request goes to the inner service untouched.

pub mod response;
pub mod stage;
pub mod uri;

pub use response::{Dispatch, DispatchView, RedirectResponse, RedirectResponseView};
pub use stage::{Handled, HTTPSRedirect, HTTPSRedirectMiddleware};
pub use uri::{InvalidUriError, RequestContext, RequestContextView, Scheme};
