use fedimint_guard::setup_ui::{
    add_peer_response, check_auth, federation_setup_response, login_form_response,
    login_submit_response, session_cookie_name, session_gate, setup_form_response, setup_submit_response,
    start_dkg_response, AddPeerOutcome, Page, Route, UiResponse,
};

#[test]
fn routes_have_their_paths() {
    assert_eq!(Route::Setup.path(), "/");
    assert_eq!(Route::Login.path(), "/login");
    assert_eq!(Route::FederationSetup.path(), "/federation-setup");
    assert_eq!(session_cookie_name(), "session");
}

#[test]
fn session_check() {
    let pw = String::from("hunter2");
    let wrong = String::from("hunter3");
    assert_eq!(check_auth(None, Some(&pw)), Some(Route::Login));
    assert_eq!(check_auth(None, None), Some(Route::Login));
    assert_eq!(check_auth(Some(&pw), None), Some(Route::Setup));
    assert_eq!(check_auth(Some(&wrong), Some(&pw)), Some(Route::Login));
    assert_eq!(check_auth(Some(&pw), Some(&pw)), None);
}

#[test]
fn login_grants_session_that_passes_check() {
    let pw = String::from("correct horse");
    let response = login_submit_response(Some(&pw), &pw);
    match response {
        UiResponse::StartSession(cookie) => {
            assert_eq!(cookie, pw);
            assert_eq!(check_auth(Some(&cookie), Some(&pw)), None);
        }
        other => panic!("unexpected {other:?}"),
    }
    assert_eq!(
        login_submit_response(Some(&pw), &String::from("nope")),
        UiResponse::Render(Page::LoginFailed)
    );
    assert_eq!(login_submit_response(None, &pw), UiResponse::Redirect(Route::Setup));
}

#[test]
fn setup_and_login_forms() {
    assert_eq!(setup_form_response(true), UiResponse::Redirect(Route::FederationSetup));
    assert_eq!(setup_form_response(false), UiResponse::Render(Page::SetupForm));
    assert_eq!(setup_submit_response(true), UiResponse::Redirect(Route::Login));
    assert_eq!(setup_submit_response(false), UiResponse::Render(Page::SetupFailed));
    assert_eq!(login_form_response(false), UiResponse::Redirect(Route::Setup));
    assert_eq!(login_form_response(true), UiResponse::Render(Page::LoginForm));
}

#[test]
fn guarded_pages() {
    assert_eq!(federation_setup_response(Some(Route::Login)), UiResponse::Redirect(Route::Login));
    assert_eq!(federation_setup_response(None), UiResponse::Render(Page::FederationSetup));
    assert_eq!(session_gate(Some(Route::Setup)), Some(UiResponse::Redirect(Route::Setup)));
    assert_eq!(session_gate(Some(Route::Login)), Some(UiResponse::Redirect(Route::Login)));
    assert_eq!(session_gate(None), None);
    assert_eq!(add_peer_response(AddPeerOutcome::Added), UiResponse::Redirect(Route::FederationSetup));
    assert_eq!(add_peer_response(AddPeerOutcome::AddFailed), UiResponse::Render(Page::AddGuardianFailed));
    assert_eq!(
        add_peer_response(AddPeerOutcome::InvalidConnectionInfo),
        UiResponse::Render(Page::InvalidConnectionInfo)
    );
    assert_eq!(start_dkg_response(true), UiResponse::Render(Page::DkgStarted));
    assert_eq!(start_dkg_response(false), UiResponse::Render(Page::DkgFailed));
}

#[test]
fn wrong_session_never_reaches_backend() {
    let pw = String::from("pw");
    let other = String::from("px");
    assert_eq!(session_gate(check_auth(Some(&other), Some(&pw))), Some(UiResponse::Redirect(Route::Login)));
    assert_eq!(session_gate(check_auth(None, Some(&pw))), Some(UiResponse::Redirect(Route::Login)));
    assert_eq!(session_gate(check_auth(Some(&pw), None)), Some(UiResponse::Redirect(Route::Setup)));
    assert_eq!(session_gate(check_auth(Some(&pw), Some(&pw))), None);
}
