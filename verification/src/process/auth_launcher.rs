//! The launcher of the interactive authenticator.
//!
//! Signing in through SAML needs a browser, and a browser must never run
//! with the daemon's privileges. The launcher therefore does three things:
//! it turns the options it was given into the authenticator's argument
//! list, it picks the unprivileged identity under which the authenticator
//! runs, and it turns what the authenticator reported into a credential or
//! a failure. Spawning the process is left to the host.

use vstd::prelude::*;

use crate::auth::{SamlAuthResult, SamlAuthResultView};
use crate::credential::{credential_in, Credential, CredentialView};
use crate::get_auth_binary;

verus! {

/// Options that only an authenticator with an embedded browser window
/// understands.
#[derive(Clone, Copy, Debug, PartialEq, Eq, Structural)]
pub struct DesktopOptions {
    pub hidpi: bool,
    pub clean: bool,
    pub default_browser: bool,
}

/// The desktop options in force: those given, or none switched on.
pub open spec fn desktop_or_default(desktop: Option<DesktopOptions>) -> DesktopOptions {
    match desktop {
        Some(options) => options,
        None => DesktopOptions { hidpi: false, clean: false, default_browser: false },
    }
}

/// Every option of a launch, as plain values.
pub struct LaunchOptions {
    pub server: Seq<char>,
    pub gateway: bool,
    pub saml_request: Option<Seq<char>>,
    pub user_agent: Option<Seq<char>>,
    pub os: Option<Seq<char>>,
    pub os_version: Option<Seq<char>>,
    pub fix_openssl: bool,
    pub ignore_tls_errors: bool,
    pub desktop: Option<DesktopOptions>,
    pub browser: Option<Seq<char>>,
    pub verbose: Option<Seq<char>>,
}

/// The arguments of a switch: its name if it is on, nothing if it is off.
pub open spec fn switch(on: bool, name: Seq<char>) -> Seq<Seq<char>> {
    if on {
        seq![name]
    } else {
        Seq::empty()
    }
}

/// The arguments of an option with a value: its name and the value, or
/// nothing where no value was given.
pub open spec fn valued(name: Seq<char>, value: Option<Seq<char>>) -> Seq<Seq<char>> {
    match value {
        Some(v) => seq![name, v],
        None => Seq::empty(),
    }
}

/// The arguments of an option that is passed as it stands.
pub open spec fn verbatim(value: Option<Seq<char>>) -> Seq<Seq<char>> {
    match value {
        Some(v) => seq![v],
        None => Seq::empty(),
    }
}

impl LaunchOptions {
    /// The options of a fresh launcher for `server`.
    pub open spec fn initial(server: Seq<char>) -> LaunchOptions {
        LaunchOptions {
            server,
            gateway: false,
            saml_request: None,
            user_agent: None,
            os: None,
            os_version: None,
            fix_openssl: false,
            ignore_tls_errors: false,
            desktop: None,
            browser: None,
            verbose: None,
        }
    }

    /// The authenticator's argument list: the server first, then each
    /// option that was set, in this fixed order.
    pub open spec fn arguments(self) -> Seq<Seq<char>> {
        let desktop = desktop_or_default(self.desktop);
        seq![self.server] + switch(self.gateway, "--gateway"@) + valued(
            "--saml-request"@,
            self.saml_request,
        ) + valued("--user-agent"@, self.user_agent) + valued("--os"@, self.os) + valued(
            "--os-version"@,
            self.os_version,
        ) + switch(self.fix_openssl, "--fix-openssl"@) + switch(
            self.ignore_tls_errors,
            "--ignore-tls-errors"@,
        ) + switch(desktop.hidpi, "--hidpi"@) + switch(desktop.clean, "--clean"@) + switch(
            desktop.default_browser,
            "--default-browser"@,
        ) + valued("--browser"@, self.browser) + verbatim(self.verbose)
    }
}

/// A user and group of the machine.
#[derive(Clone, Copy, Debug, PartialEq, Eq, Structural)]
pub struct UserIdentity {
    pub uid: u32,
    pub gid: u32,
}

/// Whether processes of this user run with the superuser's privileges.
pub open spec fn is_elevated(user: UserIdentity) -> bool {
    user.uid == 0
}

/// The identity under which the authenticator may run: the user who
/// invoked the daemon where that user is known and unprivileged, else the
/// daemon's own user where that one is unprivileged, else none.
pub open spec fn unprivileged_identity(
    current: UserIdentity,
    invoking: Option<UserIdentity>,
) -> Option<UserIdentity> {
    if invoking is Some && !is_elevated(invoking.unwrap()) {
        invoking
    } else if !is_elevated(current) {
        Some(current)
    } else {
        None
    }
}

/// Why a launch produced no credential.
#[derive(Clone, Copy, Debug, PartialEq, Eq, Structural)]
pub enum LaunchError {
    /// The authenticator was not run, or did not run to a good end.
    SpawnFailed,
    /// The authenticator's output is not an authentication payload.
    ParseFailed,
    /// The payload was read and holds no usable credential.
    InvalidCredential,
}

impl LaunchError {
    /// The text of the error, for display.
    pub open spec fn message_text(self) -> Seq<char> {
        match self {
            LaunchError::SpawnFailed => "Failed to run the authenticator"@,
            LaunchError::ParseFailed => "Failed to parse auth data"@,
            LaunchError::InvalidCredential => "The auth data holds no usable credential"@,
        }
    }

    /// The text of the error, for display.
    pub fn message(&self) -> (text: &'static str)
        ensures
            text@ == self.message_text(),
    {
        match self {
            LaunchError::SpawnFailed => "Failed to run the authenticator",
            LaunchError::ParseFailed => "Failed to parse auth data",
            LaunchError::InvalidCredential => "The auth data holds no usable credential",
        }
    }
}

/// What the host is to spawn: the program, its arguments, and the identity
/// to switch to before it runs. The host captures the standard output of
/// the process and nothing else, and ends the process if the launch is
/// abandoned.
#[derive(Debug, PartialEq, Eq)]
pub struct LaunchPlan {
    pub program: String,
    pub args: Vec<String>,
    pub run_as: UserIdentity,
}

/// What became of the authenticator process.
#[derive(Debug, PartialEq, Eq)]
pub enum AuthOutput {
    /// It could not be started, or waiting for it failed.
    SpawnFailed,
    /// It ran to its end.
    Exited {
        /// Whether it exited with status zero.
        success: bool,
        /// What it wrote to its standard output, or `None` where that is
        /// no authentication payload.
        payload: Option<SamlAuthResult>,
    },
}

/// [`AuthOutput`] as plain values.
pub enum AuthOutputView {
    SpawnFailed,
    Exited { success: bool, payload: Option<SamlAuthResultView> },
}

impl View for AuthOutput {
    type V = AuthOutputView;

    open spec fn view(&self) -> AuthOutputView {
        match self {
            AuthOutput::SpawnFailed => AuthOutputView::SpawnFailed,
            AuthOutput::Exited { success, payload } => AuthOutputView::Exited {
                success: *success,
                payload: match payload {
                    Some(result) => Some(result@),
                    None => None,
                },
            },
        }
    }
}

/// The result of a launch, given what became of the process.
///
/// Output that is no payload is a parse failure, however the process
/// exited. A payload without a usable credential is an invalid credential.
/// A usable credential counts only from a process that exited with status
/// zero; from one that failed it is not trusted.
pub open spec fn launch_result(output: AuthOutputView) -> Result<CredentialView, LaunchError> {
    match output {
        AuthOutputView::SpawnFailed => Err(LaunchError::SpawnFailed),
        AuthOutputView::Exited { success, payload } => match payload {
            None => Err(LaunchError::ParseFailed),
            Some(result) => match credential_in(result) {
                None => Err(LaunchError::InvalidCredential),
                Some(credential) => if success {
                    Ok(credential)
                } else {
                    Err(LaunchError::SpawnFailed)
                },
            },
        },
    }
}

/// Collects the options of one run of the authenticator.
pub struct SamlAuthLauncher<'a> {
    server: &'a str,
    gateway: bool,
    saml_request: Option<&'a str>,
    user_agent: Option<&'a str>,
    os: Option<&'a str>,
    os_version: Option<&'a str>,
    fix_openssl: bool,
    ignore_tls_errors: bool,
    desktop: Option<DesktopOptions>,
    browser: Option<&'a str>,
    verbose: Option<&'a str>,
}

impl<'a> View for SamlAuthLauncher<'a> {
    type V = LaunchOptions;

    closed spec fn view(&self) -> LaunchOptions {
        LaunchOptions {
            server: self.server@,
            gateway: self.gateway,
            saml_request: self.saml_request.deep_view(),
            user_agent: self.user_agent.deep_view(),
            os: self.os.deep_view(),
            os_version: self.os_version.deep_view(),
            fix_openssl: self.fix_openssl,
            ignore_tls_errors: self.ignore_tls_errors,
            desktop: self.desktop,
            browser: self.browser.deep_view(),
            verbose: self.verbose.deep_view(),
        }
    }
}

/// Appends a switch to an argument list.
fn push_switch(args: &mut Vec<String>, on: bool, name: &str)
    ensures
        final(args).deep_view() == old(args).deep_view() + switch(on, name@),
{
    if on {
        args.push(name.to_owned());
    }
    assert(args.deep_view() =~= old(args).deep_view() + switch(on, name@));
}

/// Appends an option with its value to an argument list.
fn push_valued(args: &mut Vec<String>, name: &str, value: Option<&str>)
    ensures
        final(args).deep_view() == old(args).deep_view() + valued(name@, value.deep_view()),
{
    if let Some(v) = value {
        args.push(name.to_owned());
        args.push(v.to_owned());
    }
    assert(args.deep_view() =~= old(args).deep_view() + valued(name@, value.deep_view()));
}

/// Appends an option that is passed as it stands.
fn push_verbatim(args: &mut Vec<String>, value: Option<&str>)
    ensures
        final(args).deep_view() == old(args).deep_view() + verbatim(value.deep_view()),
{
    if let Some(v) = value {
        args.push(v.to_owned());
    }
    assert(args.deep_view() =~= old(args).deep_view() + verbatim(value.deep_view()));
}

impl<'a> SamlAuthLauncher<'a> {
    /// A launcher for `server` with nothing else set.
    pub fn new(server: &'a str) -> (launcher: Self)
        ensures
            launcher@ == LaunchOptions::initial(server@),
    {
        Self {
            server,
            gateway: false,
            saml_request: None,
            user_agent: None,
            os: None,
            os_version: None,
            fix_openssl: false,
            ignore_tls_errors: false,
            desktop: None,
            browser: None,
            verbose: None,
        }
    }

    /// Says whether `server` is a gateway rather than a portal.
    pub fn gateway(self, gateway: bool) -> (launcher: Self)
        ensures
            launcher@ == (LaunchOptions { gateway, ..self@ }),
    {
        let mut launcher = self;
        launcher.gateway = gateway;
        launcher
    }

    /// Sets the SAML request that the authenticator is to answer.
    pub fn saml_request(self, saml_request: &'a str) -> (launcher: Self)
        ensures
            launcher@ == (LaunchOptions { saml_request: Some(saml_request@), ..self@ }),
    {
        let mut launcher = self;
        launcher.saml_request = Some(saml_request);
        launcher
    }

    /// Sets the user agent that the authenticator presents.
    pub fn user_agent(self, user_agent: &'a str) -> (launcher: Self)
        ensures
            launcher@ == (LaunchOptions { user_agent: Some(user_agent@), ..self@ }),
    {
        let mut launcher = self;
        launcher.user_agent = Some(user_agent);
        launcher
    }

    /// Sets the operating system that the authenticator reports.
    pub fn os(self, os: &'a str) -> (launcher: Self)
        ensures
            launcher@ == (LaunchOptions { os: Some(os@), ..self@ }),
    {
        let mut launcher = self;
        launcher.os = Some(os);
        launcher
    }

    /// Sets or clears the operating system version that the authenticator
    /// reports.
    pub fn os_version(self, os_version: Option<&'a str>) -> (launcher: Self)
        ensures
            launcher@ == (LaunchOptions { os_version: os_version.deep_view(), ..self@ }),
    {
        let mut launcher = self;
        launcher.os_version = os_version;
        launcher
    }

    /// Says whether the authenticator is to work around old TLS servers.
    pub fn fix_openssl(self, fix_openssl: bool) -> (launcher: Self)
        ensures
            launcher@ == (LaunchOptions { fix_openssl, ..self@ }),
    {
        let mut launcher = self;
        launcher.fix_openssl = fix_openssl;
        launcher
    }

    /// Says whether the authenticator is to go on when a certificate does
    /// not validate.
    pub fn ignore_tls_errors(self, ignore_tls_errors: bool) -> (launcher: Self)
        ensures
            launcher@ == (LaunchOptions { ignore_tls_errors, ..self@ }),
    {
        let mut launcher = self;
        launcher.ignore_tls_errors = ignore_tls_errors;
        launcher
    }

    /// The desktop options as they stand, all off where none was set.
    fn desktop_options(&self) -> (options: DesktopOptions)
        ensures
            options == desktop_or_default(self@.desktop),
    {
        match self.desktop {
            Some(options) => options,
            None => DesktopOptions { hidpi: false, clean: false, default_browser: false },
        }
    }

    /// Says whether the authenticator window is to be scaled for a dense
    /// display.
    pub fn hidpi(self, hidpi: bool) -> (launcher: Self)
        ensures
            launcher@ == (LaunchOptions {
                desktop: Some(DesktopOptions { hidpi, ..desktop_or_default(self@.desktop) }),
                ..self@
            }),
    {
        let current = self.desktop_options();
        let mut launcher = self;
        launcher.desktop = Some(DesktopOptions { hidpi, ..current });
        launcher
    }

    /// Says whether the authenticator is to start from an empty browser
    /// profile.
    pub fn clean(self, clean: bool) -> (launcher: Self)
        ensures
            launcher@ == (LaunchOptions {
                desktop: Some(DesktopOptions { clean, ..desktop_or_default(self@.desktop) }),
                ..self@
            }),
    {
        let current = self.desktop_options();
        let mut launcher = self;
        launcher.desktop = Some(DesktopOptions { clean, ..current });
        launcher
    }

    /// Says whether the login is to happen in the user's default browser.
    pub fn default_browser(self, default_browser: bool) -> (launcher: Self)
        ensures
            launcher@ == (LaunchOptions {
                desktop: Some(
                    DesktopOptions { default_browser, ..desktop_or_default(self@.desktop) },
                ),
                ..self@
            }),
    {
        let current = self.desktop_options();
        let mut launcher = self;
        launcher.desktop = Some(DesktopOptions { default_browser, ..current });
        launcher
    }

    /// Sets or clears the browser in which the login is to happen.
    pub fn browser(self, browser: Option<&'a str>) -> (launcher: Self)
        ensures
            launcher@ == (LaunchOptions { browser: browser.deep_view(), ..self@ }),
    {
        let mut launcher = self;
        launcher.browser = browser;
        launcher
    }

    /// Sets or clears the verbosity switch, which is handed on as it
    /// stands.
    pub fn verbose(self, verbose: Option<&'a str>) -> (launcher: Self)
        ensures
            launcher@ == (LaunchOptions { verbose: verbose.deep_view(), ..self@ }),
    {
        let mut launcher = self;
        launcher.verbose = verbose;
        launcher
    }

    /// The argument list that the options stand for.
    pub fn args(&self) -> (args: Vec<String>)
        ensures
            args.deep_view() == self@.arguments(),
    {
        let desktop = self.desktop_options();
        let mut args: Vec<String> = Vec::new();
        args.push(self.server.to_owned());
        assert(args.deep_view() =~= seq![self@.server]);
        push_switch(&mut args, self.gateway, "--gateway");
        push_valued(&mut args, "--saml-request", self.saml_request);
        push_valued(&mut args, "--user-agent", self.user_agent);
        push_valued(&mut args, "--os", self.os);
        push_valued(&mut args, "--os-version", self.os_version);
        push_switch(&mut args, self.fix_openssl, "--fix-openssl");
        push_switch(&mut args, self.ignore_tls_errors, "--ignore-tls-errors");
        push_switch(&mut args, desktop.hidpi, "--hidpi");
        push_switch(&mut args, desktop.clean, "--clean");
        push_switch(&mut args, desktop.default_browser, "--default-browser");
        push_valued(&mut args, "--browser", self.browser);
        push_verbatim(&mut args, self.verbose);
        args
    }

    /// Picks the identity under which the authenticator runs. `current` is
    /// the daemon's own user; `invoking` is the user on whose behalf the
    /// daemon was started, where the host could tell. A launch that could
    /// only run with the superuser's privileges is refused.
    pub fn run_as(current: UserIdentity, invoking: Option<UserIdentity>) -> (identity: Result<
        UserIdentity,
        LaunchError,
    >)
        ensures
            match unprivileged_identity(current, invoking) {
                Some(user) => identity == Ok::<UserIdentity, LaunchError>(user),
                None => identity == Err::<UserIdentity, LaunchError>(LaunchError::SpawnFailed),
            },
            identity is Ok ==> !is_elevated(identity.unwrap()),
    {
        if let Some(user) = invoking {
            if user.uid != 0 {
                return Ok(user);
            }
        }
        if current.uid != 0 {
            Ok(current)
        } else {
            Err(LaunchError::SpawnFailed)
        }
    }

    /// Prepares the launch: the authenticator with the argument list of
    /// these options, under an unprivileged identity. The program is the
    /// authenticator as [`get_auth_binary`] locates it on this machine.
    pub fn plan(&self, current: UserIdentity, invoking: Option<UserIdentity>) -> (plan: Result<
        LaunchPlan,
        LaunchError,
    >)
        ensures
            match unprivileged_identity(current, invoking) {
                Some(user) => plan is Ok && plan.unwrap().run_as == user
                    && plan.unwrap().args.deep_view() == self@.arguments(),
                None => plan == Err::<LaunchPlan, LaunchError>(LaunchError::SpawnFailed),
            },
            plan is Ok ==> !is_elevated(plan.unwrap().run_as),
    {
        match Self::run_as(current, invoking) {
            Ok(run_as) => Ok(LaunchPlan { program: get_auth_binary(), args: self.args(), run_as }),
            Err(error) => Err(error),
        }
    }

    /// Concludes the launch from what became of the process: the
    /// credential that the payload holds, or the failure that stands for
    /// what went wrong.
    pub fn finish(output: AuthOutput) -> (result: Result<Credential, LaunchError>)
        ensures
            match launch_result(output@) {
                Ok(credential) => result is Ok && result.unwrap()@ == credential,
                Err(error) => result == Err::<Credential, LaunchError>(error),
            },
    {
        match output {
            AuthOutput::SpawnFailed => Err(LaunchError::SpawnFailed),
            AuthOutput::Exited { success, payload } => match payload {
                None => Err(LaunchError::ParseFailed),
                Some(result) => match Credential::from_auth_result(result) {
                    None => Err(LaunchError::InvalidCredential),
                    Some(credential) => if success {
                        Ok(credential)
                    } else {
                        Err(LaunchError::SpawnFailed)
                    },
                },
            },
        }
    }
}

} // verus!
