//! The decisions of the guardian setup web UI: which page each request gets,
//! where it is redirected, and when a session is granted. Rendering the
//! pages and serving HTTP happen around these decisions.
use vstd::prelude::*;

verus! {

/// The places the UI redirects to.
#[derive(Clone, Copy, Debug, PartialEq, Eq, Structural)]
pub enum Route {
    /// `/`: the guardian parameter setup form.
    Setup,
    /// `/login`: the login form.
    Login,
    /// `/federation-setup`: the federation management page.
    FederationSetup,
}

/// The pages the UI renders.
#[derive(Clone, Copy, Debug, PartialEq, Eq, Structural)]
pub enum Page {
    /// The form that sets the guardian parameters.
    SetupForm,
    /// Setting the guardian parameters failed.
    SetupFailed,
    /// The login form.
    LoginForm,
    /// The login form again, after a wrong password.
    LoginFailed,
    /// The federation management page.
    FederationSetup,
    /// Adding a guardian's connection info failed.
    AddGuardianFailed,
    /// The submitted connection info could not be decoded.
    InvalidConnectionInfo,
    /// The distributed key generation was started.
    DkgStarted,
    /// Starting the distributed key generation failed.
    DkgFailed,
}

/// The answer to one request.
#[derive(Clone, Debug, PartialEq, Eq)]
pub enum UiResponse {
    /// Redirect to a route.
    Redirect(Route),
    /// Render a page.
    Render(Page),
    /// Grant a session: set the session cookie (HTTP only, same-site lax) to
    /// the given value, and redirect to the federation management page.
    StartSession(String),
}

impl Route {
    /// The URL path of the route.
    pub open spec fn spec_path(self) -> Seq<char> {
        match self {
            Route::Setup => "/"@,
            Route::Login => "/login"@,
            Route::FederationSetup => "/federation-setup"@,
        }
    }

    /// The URL path of the route.
    pub fn path(&self) -> (r: &'static str)
        ensures
            r@ == self.spec_path(),
    {
        match self {
            Route::Setup => "/",
            Route::Login => "/login",
            Route::FederationSetup => "/federation-setup",
        }
    }
}

/// The name of the session cookie.
pub fn session_cookie_name() -> (r: &'static str)
    ensures
        r@ == "session"@,
{
    "session"
}

/// What the session check decides: `None` lets the request through; a route
/// is where the request is sent instead.
pub open spec fn spec_check_auth(session: Option<Seq<char>>, password: Option<Seq<char>>) -> Option<
    Route,
> {
    match session {
        None => Some(Route::Login),
        Some(s) => match password {
            None => Some(Route::Setup),
            Some(p) => if p == s {
                None
            } else {
                Some(Route::Login)
            },
        },
    }
}

/// Checks a request's session: without a session cookie it goes to the login
/// form; before a guardian password is set it goes to the setup form; with a
/// cookie that is not the guardian password it goes to the login form;
/// otherwise it is let through (`None`).
pub fn check_auth(session: Option<&String>, guardian_password: Option<&String>) -> (r: Option<
    Route,
>)
    ensures
        r == spec_check_auth(
            match session {
                Some(s) => Some(s@),
                None => None,
            },
            match guardian_password {
                Some(p) => Some(p@),
                None => None,
            },
        ),
{
    match session {
        None => Some(Route::Login),
        Some(s) => match guardian_password {
            None => Some(Route::Setup),
            Some(p) => if *p == *s {
                None
            } else {
                Some(Route::Login)
            },
        },
    }
}

/// `GET /`: once the local parameters are set, go on to the federation
/// setup; else show the setup form.
pub fn setup_form_response(local_params_set: bool) -> (r: UiResponse)
    ensures
        r == if local_params_set {
            UiResponse::Redirect(Route::FederationSetup)
        } else {
            UiResponse::Render(Page::SetupForm)
        },
{
    if local_params_set {
        UiResponse::Redirect(Route::FederationSetup)
    } else {
        UiResponse::Render(Page::SetupForm)
    }
}

/// `POST /`: after the local parameters were set, go to the login form; if
/// setting them failed, show the failure.
pub fn setup_submit_response(parameters_set: bool) -> (r: UiResponse)
    ensures
        r == if parameters_set {
            UiResponse::Redirect(Route::Login)
        } else {
            UiResponse::Render(Page::SetupFailed)
        },
{
    if parameters_set {
        UiResponse::Redirect(Route::Login)
    } else {
        UiResponse::Render(Page::SetupFailed)
    }
}

/// `GET /login`: before the local parameters are set, go to the setup form;
/// else show the login form.
pub fn login_form_response(local_params_set: bool) -> (r: UiResponse)
    ensures
        r == if local_params_set {
            UiResponse::Render(Page::LoginForm)
        } else {
            UiResponse::Redirect(Route::Setup)
        },
{
    if local_params_set {
        UiResponse::Render(Page::LoginForm)
    } else {
        UiResponse::Redirect(Route::Setup)
    }
}

/// `POST /login`: before a guardian password is set, go to the setup form;
/// with the right password, grant a session whose cookie holds the
/// password; with a wrong one, show the login form with an error.
pub fn login_submit_response(guardian_password: Option<&String>, submitted: &String) -> (r:
    UiResponse)
    ensures
        guardian_password is None ==> r == UiResponse::Redirect(Route::Setup),
        guardian_password matches Some(p) && p@ == submitted@ ==> (r matches UiResponse::StartSession(
            c,
        ) && c@ == submitted@),
        guardian_password matches Some(p) && p@ != submitted@ ==> r == UiResponse::Render(
            Page::LoginFailed,
        ),
{
    match guardian_password {
        None => UiResponse::Redirect(Route::Setup),
        Some(p) => if *p == *submitted {
            UiResponse::StartSession(submitted.clone())
        } else {
            UiResponse::Render(Page::LoginFailed)
        },
    }
}

/// Decides whether a request for a session-only page may reach the guardian
/// backend. When the session check sent it elsewhere (`auth` is a route),
/// the answer is a redirect there and the backend is not asked; when the
/// check passed (`None`), the request goes on to the backend.
pub fn session_gate(auth: Option<Route>) -> (r: Option<UiResponse>)
    ensures
        r == match auth {
            Some(route) => Some(UiResponse::Redirect(route)),
            None => None::<UiResponse>,
        },
{
    match auth {
        Some(route) => Some(UiResponse::Redirect(route)),
        None => None,
    }
}

/// `GET /federation-setup`: requests that fail the session check are
/// redirected; the others get the federation management page.
pub fn federation_setup_response(auth: Option<Route>) -> (r: UiResponse)
    ensures
        r == match auth {
            Some(route) => UiResponse::Redirect(route),
            None => UiResponse::Render(Page::FederationSetup),
        },
{
    match session_gate(auth) {
        Some(response) => response,
        None => UiResponse::Render(Page::FederationSetup),
    }
}

/// How adding a guardian went: the connection info did not decode, adding
/// it failed, or it was added.
#[derive(Clone, Copy, Debug, PartialEq, Eq, Structural)]
pub enum AddPeerOutcome {
    InvalidConnectionInfo,
    AddFailed,
    Added,
}

/// `POST /add-peer`, for a request that passed the [`session_gate`]: an
/// added guardian leads back to the federation management page, and a
/// failure shows its page.
pub fn add_peer_response(outcome: AddPeerOutcome) -> (r: UiResponse)
    ensures
        r == match outcome {
            AddPeerOutcome::Added => UiResponse::Redirect(Route::FederationSetup),
            AddPeerOutcome::AddFailed => UiResponse::Render(Page::AddGuardianFailed),
            AddPeerOutcome::InvalidConnectionInfo => UiResponse::Render(
                Page::InvalidConnectionInfo,
            ),
        },
{
    match outcome {
        AddPeerOutcome::Added => UiResponse::Redirect(Route::FederationSetup),
        AddPeerOutcome::AddFailed => UiResponse::Render(Page::AddGuardianFailed),
        AddPeerOutcome::InvalidConnectionInfo => UiResponse::Render(Page::InvalidConnectionInfo),
    }
}

/// `POST /start-dkg`, for a request that passed the [`session_gate`]: shows
/// whether the key generation started.
pub fn start_dkg_response(started: bool) -> (r: UiResponse)
    ensures
        r == if started {
            UiResponse::Render(Page::DkgStarted)
        } else {
            UiResponse::Render(Page::DkgFailed)
        },
{
    if started {
        UiResponse::Render(Page::DkgStarted)
    } else {
        UiResponse::Render(Page::DkgFailed)
    }
}

/// A session granted at login passes the session check for as long as the
/// guardian password stays the same; any other cookie value is sent back to
/// the login form.
pub proof fn law_login_session_passes_check(password: Seq<char>, cookie: Seq<char>)
    ensures
        spec_check_auth(Some(cookie), Some(password)) is None <==> cookie == password,
        cookie != password ==> spec_check_auth(Some(cookie), Some(password)) == Some(Route::Login),
{
}

/// No request without a session passes the check, and no request passes it
/// before a guardian password is set; so the session gate lets a request on
/// to the guardian backend only with a cookie equal to the set password.
pub proof fn law_check_auth_needs_session_and_password(
    session: Option<Seq<char>>,
    password: Option<Seq<char>>,
)
    ensures
        spec_check_auth(session, password) is None ==> session is Some && password is Some
            && session == password,
{
}

/// The session check in full: a request without a session cookie goes to
/// the login form, whatever the password; a request with a cookie goes to
/// the setup form before a guardian password is set; after that it passes
/// exactly when the cookie equals the password, and otherwise goes to the
/// login form.
pub proof fn law_session_check_cases(cookie: Seq<char>, password: Option<Seq<char>>)
    ensures
        spec_check_auth(None, password) == Some(Route::Login),
        spec_check_auth(Some(cookie), None) == Some(Route::Setup),
        password matches Some(p) ==> spec_check_auth(Some(cookie), password) == (if cookie == p {
            None
        } else {
            Some(Route::Login)
        }),
{
}

/// The routes' URL paths: the setup form at `/`, the login form at
/// `/login` and the federation management page at `/federation-setup`.
pub proof fn law_route_paths(route: Route)
    ensures
        route == Route::Setup ==> route.spec_path() == "/"@,
        route == Route::Login ==> route.spec_path() == "/login"@,
        route == Route::FederationSetup ==> route.spec_path() == "/federation-setup"@,
{
}

} // verus!
