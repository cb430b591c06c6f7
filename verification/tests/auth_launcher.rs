use gpapi::auth::{SamlAuthData, SamlAuthResult};
use gpapi::credential::Credential;
use gpapi::process::auth_launcher::{
    AuthOutput, LaunchError, SamlAuthLauncher, UserIdentity,
};

fn strings(items: &[&str]) -> Vec<String> {
    items.iter().map(|s| s.to_string()).collect()
}

fn login(prelogin: Option<&str>, portal: Option<&str>, token: Option<&str>) -> SamlAuthData {
    SamlAuthData {
        username: "alice".to_string(),
        prelogin_cookie: prelogin.map(|s| s.to_string()),
        portal_userauthcookie: portal.map(|s| s.to_string()),
        token: token.map(|s| s.to_string()),
    }
}

fn ran(success: bool, payload: Option<SamlAuthResult>) -> AuthOutput {
    AuthOutput::Exited { success, payload }
}

const ROOT: UserIdentity = UserIdentity { uid: 0, gid: 0 };
const ALICE: UserIdentity = UserIdentity { uid: 1000, gid: 1000 };
const BOB: UserIdentity = UserIdentity { uid: 1001, gid: 100 };

#[test]
fn fresh_launcher_passes_the_server_only() {
    let args = SamlAuthLauncher::new("vpn.example.com").args();
    assert_eq!(args, strings(&["vpn.example.com"]));
}

#[test]
fn every_option_appears_in_its_place() {
    let args = SamlAuthLauncher::new("vpn.example.com")
        .gateway(true)
        .saml_request("PHNhbWw+")
        .user_agent("PAN GlobalProtect")
        .os("Linux")
        .os_version(Some("6.1"))
        .fix_openssl(true)
        .ignore_tls_errors(true)
        .hidpi(true)
        .clean(true)
        .default_browser(true)
        .browser(Some("firefox"))
        .verbose(Some("-vv"))
        .args();
    assert_eq!(
        args,
        strings(&[
            "vpn.example.com",
            "--gateway",
            "--saml-request",
            "PHNhbWw+",
            "--user-agent",
            "PAN GlobalProtect",
            "--os",
            "Linux",
            "--os-version",
            "6.1",
            "--fix-openssl",
            "--ignore-tls-errors",
            "--hidpi",
            "--clean",
            "--default-browser",
            "--browser",
            "firefox",
            "-vv",
        ])
    );
}

#[test]
fn the_order_of_the_calls_does_not_change_the_order_of_the_arguments() {
    let args = SamlAuthLauncher::new("portal")
        .verbose(Some("-v"))
        .browser(Some("chrome"))
        .os("Windows")
        .gateway(true)
        .args();
    assert_eq!(
        args,
        strings(&["portal", "--gateway", "--os", "Windows", "--browser", "chrome", "-v"])
    );
}

#[test]
fn a_later_call_replaces_an_earlier_one() {
    let args = SamlAuthLauncher::new("portal")
        .gateway(true)
        .gateway(false)
        .os_version(Some("11"))
        .os_version(None)
        .browser(Some("firefox"))
        .browser(None)
        .verbose(Some("-v"))
        .verbose(None)
        .user_agent("one")
        .user_agent("two")
        .args();
    assert_eq!(args, strings(&["portal", "--user-agent", "two"]));
}

#[test]
fn desktop_switches_are_passed_one_by_one() {
    assert_eq!(
        SamlAuthLauncher::new("p").hidpi(true).args(),
        strings(&["p", "--hidpi"])
    );
    assert_eq!(
        SamlAuthLauncher::new("p").clean(true).args(),
        strings(&["p", "--clean"])
    );
    assert_eq!(
        SamlAuthLauncher::new("p").default_browser(true).args(),
        strings(&["p", "--default-browser"])
    );
    assert_eq!(
        SamlAuthLauncher::new("p").hidpi(true).clean(true).hidpi(false).args(),
        strings(&["p", "--clean"])
    );
    assert_eq!(
        SamlAuthLauncher::new("p").hidpi(false).clean(false).default_browser(false).args(),
        strings(&["p"])
    );
}

#[test]
fn an_empty_value_is_still_passed() {
    let args = SamlAuthLauncher::new("").saml_request("").args();
    assert_eq!(args, strings(&["", "--saml-request", ""]));
}

#[test]
fn the_invoking_user_is_preferred() {
    assert_eq!(SamlAuthLauncher::run_as(ROOT, Some(ALICE)), Ok(ALICE));
    assert_eq!(SamlAuthLauncher::run_as(BOB, Some(ALICE)), Ok(ALICE));
}

#[test]
fn an_unprivileged_daemon_runs_the_authenticator_as_itself() {
    assert_eq!(SamlAuthLauncher::run_as(ALICE, None), Ok(ALICE));
    assert_eq!(SamlAuthLauncher::run_as(ALICE, Some(ROOT)), Ok(ALICE));
}

#[test]
fn a_launch_that_would_run_as_root_is_refused() {
    assert_eq!(SamlAuthLauncher::run_as(ROOT, None), Err(LaunchError::SpawnFailed));
    assert_eq!(SamlAuthLauncher::run_as(ROOT, Some(ROOT)), Err(LaunchError::SpawnFailed));
    let root_with_group = UserIdentity { uid: 0, gid: 1000 };
    assert_eq!(
        SamlAuthLauncher::run_as(ROOT, Some(root_with_group)),
        Err(LaunchError::SpawnFailed)
    );
}

#[test]
fn a_user_in_the_root_group_is_not_root() {
    let wheel = UserIdentity { uid: 1000, gid: 0 };
    assert_eq!(SamlAuthLauncher::run_as(ROOT, Some(wheel)), Ok(wheel));
}

#[test]
fn the_plan_holds_the_arguments_and_the_identity() {
    let launcher = SamlAuthLauncher::new("vpn.example.com").gateway(true).os("Linux");
    let plan = launcher.plan(ROOT, Some(ALICE)).unwrap();
    assert_eq!(plan.args, strings(&["vpn.example.com", "--gateway", "--os", "Linux"]));
    assert_eq!(plan.args, launcher.args());
    assert_eq!(plan.run_as, ALICE);
    assert!(plan.program.ends_with("gpauth"));
}

#[test]
fn no_plan_is_made_for_root() {
    let launcher = SamlAuthLauncher::new("vpn.example.com");
    assert_eq!(launcher.plan(ROOT, None), Err(LaunchError::SpawnFailed));
}

#[test]
fn a_well_formed_payload_yields_its_credential() {
    let payload = SamlAuthResult::Success(login(Some("cookie"), None, None));
    let credential = SamlAuthLauncher::finish(ran(true, Some(payload))).unwrap();
    assert_eq!(
        credential,
        Credential {
            username: "alice".to_string(),
            prelogin_cookie: Some("cookie".to_string()),
            portal_userauthcookie: None,
            token: None,
        }
    );
}

#[test]
fn every_field_of_the_payload_is_kept() {
    let payload = SamlAuthResult::Success(login(Some("a"), Some("b"), Some("c")));
    let credential = SamlAuthLauncher::finish(ran(true, Some(payload))).unwrap();
    assert_eq!(credential.username, "alice");
    assert_eq!(credential.prelogin_cookie.as_deref(), Some("a"));
    assert_eq!(credential.portal_userauthcookie.as_deref(), Some("b"));
    assert_eq!(credential.token.as_deref(), Some("c"));
}

#[test]
fn garbage_is_a_parse_failure() {
    assert_eq!(
        SamlAuthLauncher::finish(ran(true, None)),
        Err(LaunchError::ParseFailed)
    );
}

#[test]
fn garbage_from_a_failed_process_is_a_parse_failure_too() {
    assert_eq!(SamlAuthLauncher::finish(ran(false, None)), Err(LaunchError::ParseFailed));
}

#[test]
fn a_failed_process_yields_no_credential() {
    let payload = SamlAuthResult::Success(login(Some("cookie"), None, None));
    assert_eq!(
        SamlAuthLauncher::finish(ran(false, Some(payload))),
        Err(LaunchError::SpawnFailed)
    );
    let payload = SamlAuthResult::Failure("no display".to_string());
    assert_eq!(
        SamlAuthLauncher::finish(ran(false, Some(payload))),
        Err(LaunchError::InvalidCredential)
    );
}

#[test]
fn a_process_that_did_not_run_is_a_spawn_failure() {
    assert_eq!(
        SamlAuthLauncher::finish(AuthOutput::SpawnFailed),
        Err(LaunchError::SpawnFailed)
    );
}

#[test]
fn a_reported_failure_is_no_credential() {
    let payload = SamlAuthResult::Failure("login cancelled".to_string());
    assert_eq!(
        SamlAuthLauncher::finish(ran(true, Some(payload))),
        Err(LaunchError::InvalidCredential)
    );
}

#[test]
fn a_login_without_any_secret_is_no_credential() {
    let payload = SamlAuthResult::Success(login(None, None, None));
    assert_eq!(
        SamlAuthLauncher::finish(ran(true, Some(payload))),
        Err(LaunchError::InvalidCredential)
    );
    assert_eq!(Credential::from_auth_data(login(None, None, None)), None);
}

#[test]
fn each_secret_alone_makes_a_login_usable() {
    assert!(Credential::from_auth_data(login(Some("x"), None, None)).is_some());
    assert!(Credential::from_auth_data(login(None, Some("x"), None)).is_some());
    assert!(Credential::from_auth_data(login(None, None, Some("x"))).is_some());
    assert!(Credential::from_auth_result(SamlAuthResult::Failure(String::new())).is_none());
}

#[test]
fn errors_have_their_messages() {
    assert_eq!(LaunchError::ParseFailed.message(), "Failed to parse auth data");
    assert_eq!(LaunchError::SpawnFailed.message(), "Failed to run the authenticator");
    assert_eq!(
        LaunchError::InvalidCredential.message(),
        "The auth data holds no usable credential"
    );
}
