//! Installing, activating and uninstalling the FSKit host application.

use vstd::prelude::*;
use crate::command::{
    Command, CommandView, CommandOutput, CommandOutputView, Effect, EffectView, Event, EventView,
    Step, StepView, command, command_line, failure_text, format_command, describe_failure,
    make_command, answers, answers_effect, decode_lossy, utf8_lossy, clone_effect,
};
use crate::info::{Info, Error as InfoError, ErrorView as InfoErrorView, PlistValue, spec_bundle_id};
use crate::paths::{
    app_dir, appex_dir, info_plist, application_path, appex_path, info_plist_path, joined, join_path,
    file_name, path_file_name,
};
use crate::registration::{
    Activation, Status, StatusView, activation, activation_of, registrations, registrations_command,
    registrations_of, registrations_query, ran_view, statuses_view,
};
use crate::text::{contains, str_contains};

verus! {

pub const LSREGISTER: &'static str = "/System/Library/Frameworks/CoreServices.framework/Frameworks/LaunchServices.framework/Support/lsregister";
pub const PLUGINKIT: &'static str = "/usr/bin/pluginkit";
pub const XATTR: &'static str = "/usr/bin/xattr";
pub const CODESIGN: &'static str = "/usr/bin/codesign";
pub const DITTO: &'static str = "ditto";
pub const FSKIT_EXTENSION_POINT: &'static str = "com.apple.fskit.fsmodule";
pub const QUARANTINE_ATTRIBUTE: &'static str = "com.apple.quarantine";

/// Why installing, activating or uninstalling failed.
#[derive(Debug, PartialEq, Eq)]
pub enum Error {
    /// An I/O error (its message).
    Io(String),
    /// The extension's `Info.plist` could not be used.
    Info(InfoError),
    /// The host application to install does not exist.
    AppNotFound,
    /// No installation destination can be derived.
    InvalidDestination,
    /// The host application is already installed.
    AppInstalled,
    /// The host application is not installed.
    AppNotInstalled,
    /// The host application holds no FSKit extension bundle.
    ExtensionNotFound,
    /// PlugInKit knows no registration of the extension.
    ExtensionNotRegistered { bundle_id: String },
    /// PlugInKit knows the extension only from other host applications.
    ExtensionRegisteredElsewhere { bundle_id: String },
    /// The extension is registered from this host application but not elected.
    ExtensionNotElected { bundle_id: String },
    /// A command exited unsuccessfully.
    CommandFailed { command: String, status: String },
    /// PlugInKit reported an extension path with no host application above it.
    InvalidExtensionPath,
    /// A pattern for reading PlugInKit's output did not compile.
    InvalidPattern,
}

pub enum ErrorView {
    Io(Seq<char>),
    Info(InfoErrorView),
    AppNotFound,
    InvalidDestination,
    AppInstalled,
    AppNotInstalled,
    ExtensionNotFound,
    ExtensionNotRegistered { bundle_id: Seq<char> },
    ExtensionRegisteredElsewhere { bundle_id: Seq<char> },
    ExtensionNotElected { bundle_id: Seq<char> },
    CommandFailed { command: Seq<char>, status: Seq<char> },
    InvalidExtensionPath,
    InvalidPattern,
}

impl View for Error {
    type V = ErrorView;

    open spec fn view(&self) -> ErrorView {
        match self {
            Error::Io(m) => ErrorView::Io(m@),
            Error::Info(e) => ErrorView::Info(e@),
            Error::AppNotFound => ErrorView::AppNotFound,
            Error::InvalidDestination => ErrorView::InvalidDestination,
            Error::AppInstalled => ErrorView::AppInstalled,
            Error::AppNotInstalled => ErrorView::AppNotInstalled,
            Error::ExtensionNotFound => ErrorView::ExtensionNotFound,
            Error::ExtensionNotRegistered { bundle_id } => ErrorView::ExtensionNotRegistered {
                bundle_id: bundle_id@,
            },
            Error::ExtensionRegisteredElsewhere { bundle_id } =>
                ErrorView::ExtensionRegisteredElsewhere { bundle_id: bundle_id@ },
            Error::ExtensionNotElected { bundle_id } => ErrorView::ExtensionNotElected {
                bundle_id: bundle_id@,
            },
            Error::CommandFailed { command, status } => ErrorView::CommandFailed {
                command: command@,
                status: status@,
            },
            Error::InvalidExtensionPath => ErrorView::InvalidExtensionPath,
            Error::InvalidPattern => ErrorView::InvalidPattern,
        }
    }
}

/// What running `c` came to: an I/O error, a failure described by
/// `describe_failure`, or the output of a successful run.
pub open spec fn command_outcome(c: CommandView, ran: Result<CommandOutputView, Seq<char>>) -> Result<
    CommandOutputView,
    ErrorView,
> {
    match ran {
        Err(m) => Err(ErrorView::Io(m)),
        Ok(o) => if o.success {
            Ok(o)
        } else {
            Err(ErrorView::CommandFailed { command: command_line(c), status: failure_text(o) })
        },
    }
}

/// The outcome of running `c`, given what the run returned.
pub fn run_cmd(c: &Command, ran: Result<CommandOutput, String>) -> (r: Result<CommandOutput, Error>)
    ensures
        match (r, command_outcome(c@, match ran { Ok(o) => Ok(o@), Err(m) => Err(m@) })) {
            (Ok(o), Ok(v)) => o@ == v,
            (Err(e), Err(v)) => e@ == v,
            _ => false,
        },
{
    match ran {
        Err(m) => Err(Error::Io(m)),
        Ok(o) => {
            if o.success {
                Ok(o)
            } else {
                let command = format_command(c);
                let status = describe_failure(&o);
                Err(Error::CommandFailed { command, status })
            }
        },
    }
}


/// `codesign --verify --deep --strict --verbose=2 <path>`.
pub open spec fn codesign_verify(path: Seq<char>) -> CommandView {
    command(CODESIGN@, seq!["--verify"@, "--deep"@, "--strict"@, "--verbose=2"@, path])
}

pub fn codesign_command(path: &str) -> (c: Command)
    ensures
        c@ == codesign_verify(path@),
{
    let args = vec![
        "--verify".to_owned(),
        "--deep".to_owned(),
        "--strict".to_owned(),
        "--verbose=2".to_owned(),
        path.to_owned(),
    ];
    assert(args.deep_view() =~= seq!["--verify"@, "--deep"@, "--strict"@, "--verbose=2"@, path@]);
    make_command(CODESIGN, args)
}

/// `ditto <source> <destination>`: copies the application bundle.
pub open spec fn ditto(source: Seq<char>, destination: Seq<char>) -> CommandView {
    command(DITTO@, seq![source, destination])
}

pub fn ditto_command(source: &str, destination: &str) -> (c: Command)
    ensures
        c@ == ditto(source@, destination@),
{
    let args = vec![source.to_owned(), destination.to_owned()];
    assert(args.deep_view() =~= seq![source@, destination@]);
    make_command(DITTO, args)
}

/// `xattr -p com.apple.quarantine <app>`: succeeds when the attribute is set.
pub open spec fn quarantine_probe(app: Seq<char>) -> CommandView {
    command(XATTR@, seq!["-p"@, QUARANTINE_ATTRIBUTE@, app])
}

pub fn quarantine_probe_command(app: &str) -> (c: Command)
    ensures
        c@ == quarantine_probe(app@),
{
    let args = vec!["-p".to_owned(), QUARANTINE_ATTRIBUTE.to_owned(), app.to_owned()];
    assert(args.deep_view() =~= seq!["-p"@, QUARANTINE_ATTRIBUTE@, app@]);
    make_command(XATTR, args)
}

/// `xattr -dr com.apple.quarantine <app>`: clears the attribute.
pub open spec fn quarantine_clear(app: Seq<char>) -> CommandView {
    command(XATTR@, seq!["-dr"@, QUARANTINE_ATTRIBUTE@, app])
}

pub fn quarantine_clear_command(app: &str) -> (c: Command)
    ensures
        c@ == quarantine_clear(app@),
{
    let args = vec!["-dr".to_owned(), QUARANTINE_ATTRIBUTE.to_owned(), app.to_owned()];
    assert(args.deep_view() =~= seq!["-dr"@, QUARANTINE_ATTRIBUTE@, app@]);
    make_command(XATTR, args)
}

/// `lsregister -f -R <app>`: registers the host application with
/// LaunchServices.
pub open spec fn lsregister_app(app: Seq<char>) -> CommandView {
    command(LSREGISTER@, seq!["-f"@, "-R"@, app])
}

pub fn lsregister_app_command(app: &str) -> (c: Command)
    ensures
        c@ == lsregister_app(app@),
{
    let args = vec!["-f".to_owned(), "-R".to_owned(), app.to_owned()];
    assert(args.deep_view() =~= seq!["-f"@, "-R"@, app@]);
    make_command(LSREGISTER, args)
}

/// `lsregister -u <app>`: unregisters the host application.
pub open spec fn lsregister_remove(app: Seq<char>) -> CommandView {
    command(LSREGISTER@, seq!["-u"@, app])
}

pub fn lsregister_remove_command(app: &str) -> (c: Command)
    ensures
        c@ == lsregister_remove(app@),
{
    let args = vec!["-u".to_owned(), app.to_owned()];
    assert(args.deep_view() =~= seq!["-u"@, app@]);
    make_command(LSREGISTER, args)
}

/// `pluginkit -a <appex>`: registers the extension with PlugInKit.
pub open spec fn pluginkit_add(appex: Seq<char>) -> CommandView {
    command(PLUGINKIT@, seq!["-a"@, appex])
}

pub fn pluginkit_add_command(appex: &str) -> (c: Command)
    ensures
        c@ == pluginkit_add(appex@),
{
    let args = vec!["-a".to_owned(), appex.to_owned()];
    assert(args.deep_view() =~= seq!["-a"@, appex@]);
    make_command(PLUGINKIT, args)
}

/// `pluginkit -r <appex>`: unregisters the extension.
pub open spec fn pluginkit_remove(appex: Seq<char>) -> CommandView {
    command(PLUGINKIT@, seq!["-r"@, appex])
}

pub fn pluginkit_remove_command(appex: &str) -> (c: Command)
    ensures
        c@ == pluginkit_remove(appex@),
{
    let args = vec!["-r".to_owned(), appex.to_owned()];
    assert(args.deep_view() =~= seq!["-r"@, appex@]);
    make_command(PLUGINKIT, args)
}

/// `pluginkit -e use -p com.apple.fskit.fsmodule -i <bundle_id>`: asks that
/// the extension be elected.
pub open spec fn pluginkit_elect(bundle_id: Seq<char>) -> CommandView {
    command(PLUGINKIT@, seq!["-e"@, "use"@, "-p"@, FSKIT_EXTENSION_POINT@, "-i"@, bundle_id])
}

pub fn pluginkit_elect_command(bundle_id: &str) -> (c: Command)
    ensures
        c@ == pluginkit_elect(bundle_id@),
{
    let args = vec![
        "-e".to_owned(),
        "use".to_owned(),
        "-p".to_owned(),
        FSKIT_EXTENSION_POINT.to_owned(),
        "-i".to_owned(),
        bundle_id.to_owned(),
    ];
    assert(args.deep_view() =~= seq!["-e"@, "use"@, "-p"@, FSKIT_EXTENSION_POINT@, "-i"@, bundle_id@]);
    make_command(PLUGINKIT, args)
}

/// Whether PlugInKit lists `bundle_id`, given what running `pluginkit -m -i
/// <bundle_id>` returned: a failed run means it does not.
pub open spec fn registered(bundle_id: Seq<char>, ran: Result<CommandOutputView, Seq<char>>) -> Result<bool, ErrorView> {
    match ran {
        Err(m) => Err(ErrorView::Io(m)),
        Ok(o) => Ok(o.success && contains(utf8_lossy(o.stdout), bundle_id)),
    }
}

/// Decides whether PlugInKit lists `bundle_id` from the run of `pluginkit -m
/// -i <bundle_id>`.
pub fn is_registered(bundle_id: &str, ran: Result<CommandOutput, String>) -> (r: Result<bool, Error>)
    ensures
        match registered(bundle_id@, ran_view(ran)) {
            Ok(b) => r == Ok::<bool, Error>(b),
            Err(e) => r matches Err(err) && err@ == e,
        },
{
    match ran {
        Err(m) => Err(Error::Io(m)),
        Ok(o) => {
            if !o.success {
                return Ok(false);
            }
            let text = decode_lossy(o.stdout.as_slice());
            Ok(str_contains(text.as_str(), bundle_id))
        },
    }
}

/// Where an activation stands: which answer it waits for.
#[derive(PartialEq, Eq, Structural, Clone, Copy)]
pub enum ActivatePhase {
    CheckApp,
    VerifyApp,
    CheckAppex,
    ReadInfo,
    FirstCheck,
    ProbeQuarantine,
    ClearQuarantine,
    RegisterApp,
    RegisterAppex,
    Elect,
    SecondCheck,
    Finished,
}

/// Activates an installed host application; see `activate_next`.
pub struct Activator {
    pub phase: ActivatePhase,
    pub app: String,
    pub appex: String,
    pub bundle_id: String,
}

#[verifier::ext_equal]
pub struct ActivatorView {
    pub phase: ActivatePhase,
    pub app: Seq<char>,
    pub appex: Seq<char>,
    pub bundle_id: Seq<char>,
}

impl View for Activator {
    type V = ActivatorView;

    open spec fn view(&self) -> ActivatorView {
        ActivatorView {
            phase: self.phase,
            app: self.app@,
            appex: self.appex@,
            bundle_id: self.bundle_id@,
        }
    }
}

/// The same activation in another phase.
pub open spec fn activator_at(s: ActivatorView, phase: ActivatePhase) -> ActivatorView {
    ActivatorView { phase, ..s }
}

/// Whether `ev` answers what the activation waits for.
pub open spec fn activate_accepts(s: ActivatorView, ev: EventView) -> bool {
    match s.phase {
        ActivatePhase::CheckApp | ActivatePhase::CheckAppex => ev is Exists,
        ActivatePhase::ReadInfo => ev is Plist,
        ActivatePhase::Finished => false,
        _ => ev is Ran,
    }
}

/// Starting to activate the host application `app_name`: first ask whether
/// `/Applications/<app_name>` exists.
pub open spec fn activate_start(app_name: Seq<char>) -> (ActivatorView, StepView<(), ErrorView>) {
    let app = app_dir(app_name);
    (
        ActivatorView { phase: ActivatePhase::CheckApp, app, appex: appex_dir(app), bundle_id: seq![] },
        StepView::Perform(EffectView::Exists(app)),
    )
}

/// Finishing an activation with `r`.
pub open spec fn activate_finish(s: ActivatorView, r: Result<(), ErrorView>) -> (ActivatorView, StepView<(), ErrorView>) {
    (activator_at(s, ActivatePhase::Finished), StepView::Finish(r))
}

/// The error that reports why the registrations leave the application
/// inactive.
pub open spec fn inactive_error(a: Activation, bundle_id: Seq<char>) -> ErrorView {
    match a {
        Activation::NotRegistered => ErrorView::ExtensionNotRegistered { bundle_id },
        Activation::RegisteredElsewhere => ErrorView::ExtensionRegisteredElsewhere { bundle_id },
        _ => ErrorView::ExtensionNotElected { bundle_id },
    }
}

/// One step of an activation. The application must exist and pass
/// `codesign`; its extension must exist and have a bundle identifier. If
/// PlugInKit already finds it active, the activation succeeds. Otherwise
/// (also where that first listing fails) the
/// quarantine attribute is cleared where present, the application is
/// registered with LaunchServices and the extension with PlugInKit, election is
/// requested (its result ignored), and a second check decides: active, or
/// the error that says why not.
pub open spec fn activate_next(s: ActivatorView, ev: EventView) -> (ActivatorView, StepView<(), ErrorView>) {
    match (s.phase, ev) {
        (ActivatePhase::CheckApp, EventView::Exists(present)) => if present {
            (activator_at(s, ActivatePhase::VerifyApp), StepView::Perform(EffectView::Run(codesign_verify(s.app))))
        } else {
            activate_finish(s, Err(ErrorView::AppNotInstalled))
        },
        (ActivatePhase::VerifyApp, EventView::Ran(r)) => match command_outcome(codesign_verify(s.app), r) {
            Ok(_) => (activator_at(s, ActivatePhase::CheckAppex), StepView::Perform(EffectView::Exists(s.appex))),
            Err(e) => activate_finish(s, Err(e)),
        },
        (ActivatePhase::CheckAppex, EventView::Exists(present)) => if present {
            (activator_at(s, ActivatePhase::ReadInfo), StepView::Perform(EffectView::ReadPlist(info_plist(s.appex))))
        } else {
            activate_finish(s, Err(ErrorView::ExtensionNotFound))
        },
        (ActivatePhase::ReadInfo, EventView::Plist(Err(m))) => activate_finish(
            s,
            Err(ErrorView::Info(InfoErrorView::Plist(m))),
        ),
        (ActivatePhase::ReadInfo, EventView::Plist(Ok(v))) => match v {
            PlistValue::Dictionary(d) => match spec_bundle_id(d@) {
                Some(id) => (
                    ActivatorView { phase: ActivatePhase::FirstCheck, bundle_id: id, ..s },
                    StepView::Perform(EffectView::Run(registrations_query(id))),
                ),
                None => activate_finish(s, Err(ErrorView::Info(InfoErrorView::Invalid))),
            },
            _ => activate_finish(s, Err(ErrorView::Info(InfoErrorView::Invalid))),
        },
        (ActivatePhase::FirstCheck, EventView::Ran(r)) => if registrations_of(s.bundle_id, r) matches Ok(st)
            && activation_of(st, s.app) == Activation::Active {
            activate_finish(s, Ok(()))
        } else {
            (activator_at(s, ActivatePhase::ProbeQuarantine), StepView::Perform(EffectView::Run(quarantine_probe(s.app))))
        },
        (ActivatePhase::ProbeQuarantine, EventView::Ran(r)) => match r {
            Err(m) => activate_finish(s, Err(ErrorView::Io(m))),
            Ok(o) => if o.success {
                (activator_at(s, ActivatePhase::ClearQuarantine), StepView::Perform(EffectView::Run(quarantine_clear(s.app))))
            } else {
                (activator_at(s, ActivatePhase::RegisterApp), StepView::Perform(EffectView::Run(lsregister_app(s.app))))
            },
        },
        (ActivatePhase::ClearQuarantine, EventView::Ran(r)) => match command_outcome(quarantine_clear(s.app), r) {
            Ok(_) => (activator_at(s, ActivatePhase::RegisterApp), StepView::Perform(EffectView::Run(lsregister_app(s.app)))),
            Err(e) => activate_finish(s, Err(e)),
        },
        (ActivatePhase::RegisterApp, EventView::Ran(r)) => match command_outcome(lsregister_app(s.app), r) {
            Ok(_) => (activator_at(s, ActivatePhase::RegisterAppex), StepView::Perform(EffectView::Run(pluginkit_add(s.appex)))),
            Err(e) => activate_finish(s, Err(e)),
        },
        (ActivatePhase::RegisterAppex, EventView::Ran(r)) => match command_outcome(pluginkit_add(s.appex), r) {
            Ok(_) => (activator_at(s, ActivatePhase::Elect), StepView::Perform(EffectView::Run(pluginkit_elect(s.bundle_id)))),
            Err(e) => activate_finish(s, Err(e)),
        },
        (ActivatePhase::Elect, EventView::Ran(_)) => (
            activator_at(s, ActivatePhase::SecondCheck),
            StepView::Perform(EffectView::Run(registrations_query(s.bundle_id))),
        ),
        (ActivatePhase::SecondCheck, EventView::Ran(r)) => match registrations_of(s.bundle_id, r) {
            Err(e) => activate_finish(s, Err(e)),
            Ok(st) => {
                let a = activation_of(st, s.app);
                if a == Activation::Active {
                    activate_finish(s, Ok(()))
                } else {
                    activate_finish(s, Err(inactive_error(a, s.bundle_id)))
                }
            },
        },
        // An answer of another kind; `activate_accepts` rules it out.
        _ => activate_finish(s, Err(ErrorView::InvalidDestination)),
    }
}

impl Activator {
    /// Whether `ev` answers what the activation waits for.
    pub fn accepts(&self, ev: &Event) -> (b: bool)
        ensures
            b == activate_accepts(self@, ev@),
    {
        match self.phase {
            ActivatePhase::CheckApp | ActivatePhase::CheckAppex => matches!(ev, Event::Exists(_)),
            ActivatePhase::ReadInfo => matches!(ev, Event::Plist(_)),
            ActivatePhase::Finished => false,
            _ => matches!(ev, Event::Ran(_)),
        }
    }

    /// Starts activating the host application `app_name`.
    pub fn start(app_name: &str) -> (r: (Activator, Step<(), Error>))
        ensures
            r.0@ == activate_start(app_name@).0,
            r.1@ == activate_start(app_name@).1,
    {
        let app = application_path(app_name);
        let appex = appex_path(app.as_str());
        let first = Effect::Exists(app.clone());
        (Activator { phase: ActivatePhase::CheckApp, app, appex, bundle_id: String::new() }, Step::Perform(first))
    }

    fn finish(&mut self, r: Result<(), Error>) -> (out: Step<(), Error>)
        ensures
            final(self)@ == activator_at(old(self)@, ActivatePhase::Finished),
            out@ == StepView::<(), ErrorView>::Finish(match r { Ok(()) => Ok(()), Err(e) => Err(e@) }),
    {
        self.phase = ActivatePhase::Finished;
        Step::Finish(r)
    }

    fn advance(&mut self, phase: ActivatePhase, c: Command) -> (out: Step<(), Error>)
        ensures
            final(self)@ == activator_at(old(self)@, phase),
            out@ == StepView::<(), ErrorView>::Perform(EffectView::Run(c@)),
    {
        self.phase = phase;
        Step::Perform(Effect::Run(c))
    }

    /// Takes the answer to the last request and says what comes next.
    pub fn step(&mut self, ev: Event) -> (out: Step<(), Error>)
        requires
            activate_accepts(old(self)@, ev@),
        ensures
            final(self)@ == activate_next(old(self)@, ev@).0,
            out@ == activate_next(old(self)@, ev@).1,
    {
        match (self.phase, ev) {
            (ActivatePhase::CheckApp, Event::Exists(present)) => {
                if present {
                    let c = codesign_command(self.app.as_str());
                    self.advance(ActivatePhase::VerifyApp, c)
                } else {
                    self.finish(Err(Error::AppNotInstalled))
                }
            },
            (ActivatePhase::VerifyApp, Event::Ran(r)) => {
                let c = codesign_command(self.app.as_str());
                match run_cmd(&c, r) {
                    Ok(_) => {
                        self.phase = ActivatePhase::CheckAppex;
                        Step::Perform(Effect::Exists(self.appex.clone()))
                    },
                    Err(e) => self.finish(Err(e)),
                }
            },
            (ActivatePhase::CheckAppex, Event::Exists(present)) => {
                if present {
                    self.phase = ActivatePhase::ReadInfo;
                    Step::Perform(Effect::ReadPlist(info_plist_path(self.appex.as_str())))
                } else {
                    self.finish(Err(Error::ExtensionNotFound))
                }
            },
            (ActivatePhase::ReadInfo, Event::Plist(Err(m))) => self.finish(Err(Error::Info(InfoError::Plist(m)))),
            (ActivatePhase::ReadInfo, Event::Plist(Ok(v))) => {
                match Info::new(v) {
                    Err(e) => self.finish(Err(Error::Info(e))),
                    Ok(info) => match info.bundle_id() {
                        Err(e) => self.finish(Err(Error::Info(e))),
                        Ok(id) => {
                            let c = registrations_command(id.as_str());
                            self.bundle_id = id;
                            self.advance(ActivatePhase::FirstCheck, c)
                        },
                    },
                }
            },
            (ActivatePhase::FirstCheck, Event::Ran(r)) => {
                let active = match registrations(self.bundle_id.as_str(), r) {
                    Err(_) => false,
                    Ok(st) => activation(&st, self.app.as_str()) == Activation::Active,
                };
                if active {
                    self.finish(Ok(()))
                } else {
                    let c = quarantine_probe_command(self.app.as_str());
                    self.advance(ActivatePhase::ProbeQuarantine, c)
                }
            },
            (ActivatePhase::ProbeQuarantine, Event::Ran(r)) => {
                match r {
                    Err(m) => self.finish(Err(Error::Io(m))),
                    Ok(o) => {
                        if o.success {
                            let c = quarantine_clear_command(self.app.as_str());
                            self.advance(ActivatePhase::ClearQuarantine, c)
                        } else {
                            let c = lsregister_app_command(self.app.as_str());
                            self.advance(ActivatePhase::RegisterApp, c)
                        }
                    },
                }
            },
            (ActivatePhase::ClearQuarantine, Event::Ran(r)) => {
                let c = quarantine_clear_command(self.app.as_str());
                match run_cmd(&c, r) {
                    Ok(_) => {
                        let next = lsregister_app_command(self.app.as_str());
                        self.advance(ActivatePhase::RegisterApp, next)
                    },
                    Err(e) => self.finish(Err(e)),
                }
            },
            (ActivatePhase::RegisterApp, Event::Ran(r)) => {
                let c = lsregister_app_command(self.app.as_str());
                match run_cmd(&c, r) {
                    Ok(_) => {
                        let next = pluginkit_add_command(self.appex.as_str());
                        self.advance(ActivatePhase::RegisterAppex, next)
                    },
                    Err(e) => self.finish(Err(e)),
                }
            },
            (ActivatePhase::RegisterAppex, Event::Ran(r)) => {
                let c = pluginkit_add_command(self.appex.as_str());
                match run_cmd(&c, r) {
                    Ok(_) => {
                        let next = pluginkit_elect_command(self.bundle_id.as_str());
                        self.advance(ActivatePhase::Elect, next)
                    },
                    Err(e) => self.finish(Err(e)),
                }
            },
            (ActivatePhase::Elect, Event::Ran(_)) => {
                let next = registrations_command(self.bundle_id.as_str());
                self.advance(ActivatePhase::SecondCheck, next)
            },
            (ActivatePhase::SecondCheck, Event::Ran(r)) => {
                match registrations(self.bundle_id.as_str(), r) {
                    Err(e) => self.finish(Err(e)),
                    Ok(st) => {
                        let a = activation(&st, self.app.as_str());
                        match a {
                            Activation::Active => self.finish(Ok(())),
                            Activation::NotRegistered => {
                                let bundle_id = self.bundle_id.clone();
                                self.finish(Err(Error::ExtensionNotRegistered { bundle_id }))
                            },
                            Activation::RegisteredElsewhere => {
                                let bundle_id = self.bundle_id.clone();
                                self.finish(Err(Error::ExtensionRegisteredElsewhere { bundle_id }))
                            },
                            Activation::NotElected => {
                                let bundle_id = self.bundle_id.clone();
                                self.finish(Err(Error::ExtensionNotElected { bundle_id }))
                            },
                        }
                    },
                }
            },
            _ => self.finish(Err(Error::InvalidDestination)),
        }
    }
}


/// Where an installation stands.
#[derive(PartialEq, Eq, Structural, Clone, Copy)]
pub enum InstallPhase {
    CheckSource,
    CheckDestination,
    VerifySource,
    Copy,
    VerifyCopy,
    Activating,
    Finished,
}

/// Installs a host application into `/Applications/<its name>` and activates
/// it; see `install_next`.
pub struct Installer {
    pub phase: InstallPhase,
    pub source: String,
    pub app_name: String,
    pub destination: String,
    pub activator: Activator,
}

#[verifier::ext_equal]
pub struct InstallerView {
    pub phase: InstallPhase,
    pub source: Seq<char>,
    pub app_name: Seq<char>,
    pub destination: Seq<char>,
    pub activator: ActivatorView,
}

impl View for Installer {
    type V = InstallerView;

    open spec fn view(&self) -> InstallerView {
        InstallerView {
            phase: self.phase,
            source: self.source@,
            app_name: self.app_name@,
            destination: self.destination@,
            activator: self.activator@,
        }
    }
}

pub open spec fn installer_at(s: InstallerView, phase: InstallPhase) -> InstallerView {
    InstallerView { phase, ..s }
}

/// Whether `ev` answers what the installation waits for.
pub open spec fn install_accepts(s: InstallerView, ev: EventView) -> bool {
    match s.phase {
        InstallPhase::CheckSource | InstallPhase::CheckDestination => ev is Exists,
        InstallPhase::Activating => activate_accepts(s.activator, ev),
        InstallPhase::Finished => false,
        _ => ev is Ran,
    }
}

/// An activation that waits for nothing.
pub open spec fn idle_activator() -> ActivatorView {
    ActivatorView { phase: ActivatePhase::Finished, app: seq![], appex: seq![], bundle_id: seq![] }
}

/// Starting to install the host application at `source`: first ask whether it
/// exists.
pub open spec fn install_start(source: Seq<char>) -> (InstallerView, StepView<(), ErrorView>) {
    (
        InstallerView {
            phase: InstallPhase::CheckSource,
            source,
            app_name: seq![],
            destination: seq![],
            activator: idle_activator(),
        },
        StepView::Perform(EffectView::Exists(source)),
    )
}

pub open spec fn install_finish(s: InstallerView, r: Result<(), ErrorView>) -> (InstallerView, StepView<(), ErrorView>) {
    (installer_at(s, InstallPhase::Finished), StepView::Finish(r))
}

/// One step of an installation. The source must exist and have a name, and
/// `/Applications/<name>` must not exist yet (installing never replaces or
/// removes anything). The source is checked with `codesign`, copied with
/// `ditto`, the copy is checked with `codesign`, and then the copy is
/// activated, whose outcome is the installation's.
pub open spec fn install_next(s: InstallerView, ev: EventView) -> (InstallerView, StepView<(), ErrorView>) {
    match (s.phase, ev) {
        (InstallPhase::CheckSource, EventView::Exists(present)) => if !present {
            install_finish(s, Err(ErrorView::AppNotFound))
        } else {
            match path_file_name(s.source) {
                None => install_finish(s, Err(ErrorView::InvalidDestination)),
                Some(name) => (
                    InstallerView {
                        phase: InstallPhase::CheckDestination,
                        app_name: name,
                        destination: app_dir(name),
                        ..s
                    },
                    StepView::Perform(EffectView::Exists(app_dir(name))),
                ),
            }
        },
        (InstallPhase::CheckDestination, EventView::Exists(present)) => if present {
            install_finish(s, Err(ErrorView::AppInstalled))
        } else {
            (installer_at(s, InstallPhase::VerifySource), StepView::Perform(EffectView::Run(codesign_verify(s.source))))
        },
        (InstallPhase::VerifySource, EventView::Ran(r)) => match command_outcome(codesign_verify(s.source), r) {
            Ok(_) => (installer_at(s, InstallPhase::Copy), StepView::Perform(EffectView::Run(ditto(s.source, s.destination)))),
            Err(e) => install_finish(s, Err(e)),
        },
        (InstallPhase::Copy, EventView::Ran(r)) => match command_outcome(ditto(s.source, s.destination), r) {
            Ok(_) => (installer_at(s, InstallPhase::VerifyCopy), StepView::Perform(EffectView::Run(codesign_verify(s.destination)))),
            Err(e) => install_finish(s, Err(e)),
        },
        (InstallPhase::VerifyCopy, EventView::Ran(r)) => match command_outcome(codesign_verify(s.destination), r) {
            Ok(_) => {
                let (a, first) = activate_start(s.app_name);
                (InstallerView { phase: InstallPhase::Activating, activator: a, ..s }, first)
            },
            Err(e) => install_finish(s, Err(e)),
        },
        (InstallPhase::Activating, _) => {
            let (a, st) = activate_next(s.activator, ev);
            let phase = if st is Finish { InstallPhase::Finished } else { InstallPhase::Activating };
            (InstallerView { phase, activator: a, ..s }, st)
        },
        // An answer of another kind; `install_accepts` rules it out.
        _ => install_finish(s, Err(ErrorView::InvalidDestination)),
    }
}

impl Installer {
    /// Whether `ev` answers what the installation waits for.
    pub fn accepts(&self, ev: &Event) -> (b: bool)
        ensures
            b == install_accepts(self@, ev@),
    {
        match self.phase {
            InstallPhase::CheckSource | InstallPhase::CheckDestination => matches!(ev, Event::Exists(_)),
            InstallPhase::Activating => self.activator.accepts(ev),
            InstallPhase::Finished => false,
            _ => matches!(ev, Event::Ran(_)),
        }
    }

    /// Starts installing the host application at `source`.
    pub fn start(source: &str) -> (r: (Installer, Step<(), Error>))
        ensures
            r.0@ == install_start(source@).0,
            r.1@ == install_start(source@).1,
    {
        let idle = Activator {
            phase: ActivatePhase::Finished,
            app: String::new(),
            appex: String::new(),
            bundle_id: String::new(),
        };
        let first = Effect::Exists(source.to_owned());
        (
            Installer {
                phase: InstallPhase::CheckSource,
                source: source.to_owned(),
                app_name: String::new(),
                destination: String::new(),
                activator: idle,
            },
            Step::Perform(first),
        )
    }

    fn finish(&mut self, r: Result<(), Error>) -> (out: Step<(), Error>)
        ensures
            final(self)@ == installer_at(old(self)@, InstallPhase::Finished),
            out@ == StepView::<(), ErrorView>::Finish(match r { Ok(()) => Ok(()), Err(e) => Err(e@) }),
    {
        self.phase = InstallPhase::Finished;
        Step::Finish(r)
    }

    fn advance(&mut self, phase: InstallPhase, c: Command) -> (out: Step<(), Error>)
        ensures
            final(self)@ == installer_at(old(self)@, phase),
            out@ == StepView::<(), ErrorView>::Perform(EffectView::Run(c@)),
    {
        self.phase = phase;
        Step::Perform(Effect::Run(c))
    }

    /// Takes the answer to the last request and says what comes next.
    pub fn step(&mut self, ev: Event) -> (out: Step<(), Error>)
        requires
            install_accepts(old(self)@, ev@),
        ensures
            final(self)@ == install_next(old(self)@, ev@).0,
            out@ == install_next(old(self)@, ev@).1,
    {
        match self.phase {
            InstallPhase::Activating => {
                let out = self.activator.step(ev);
                if let Step::Finish(_) = out {
                    self.phase = InstallPhase::Finished;
                }
                return out;
            },
            _ => {},
        }
        match (self.phase, ev) {
            (InstallPhase::CheckSource, Event::Exists(present)) => {
                if !present {
                    return self.finish(Err(Error::AppNotFound));
                }
                match file_name(self.source.as_str()) {
                    None => self.finish(Err(Error::InvalidDestination)),
                    Some(name) => {
                        let destination = application_path(name.as_str());
                        let first = Effect::Exists(destination.clone());
                        self.app_name = name;
                        self.destination = destination;
                        self.phase = InstallPhase::CheckDestination;
                        Step::Perform(first)
                    },
                }
            },
            (InstallPhase::CheckDestination, Event::Exists(present)) => {
                if present {
                    self.finish(Err(Error::AppInstalled))
                } else {
                    let c = codesign_command(self.source.as_str());
                    self.advance(InstallPhase::VerifySource, c)
                }
            },
            (InstallPhase::VerifySource, Event::Ran(r)) => {
                let c = codesign_command(self.source.as_str());
                match run_cmd(&c, r) {
                    Ok(_) => {
                        let next = ditto_command(self.source.as_str(), self.destination.as_str());
                        self.advance(InstallPhase::Copy, next)
                    },
                    Err(e) => self.finish(Err(e)),
                }
            },
            (InstallPhase::Copy, Event::Ran(r)) => {
                let c = ditto_command(self.source.as_str(), self.destination.as_str());
                match run_cmd(&c, r) {
                    Ok(_) => {
                        let next = codesign_command(self.destination.as_str());
                        self.advance(InstallPhase::VerifyCopy, next)
                    },
                    Err(e) => self.finish(Err(e)),
                }
            },
            (InstallPhase::VerifyCopy, Event::Ran(r)) => {
                let c = codesign_command(self.destination.as_str());
                match run_cmd(&c, r) {
                    Ok(_) => {
                        let (a, first) = Activator::start(self.app_name.as_str());
                        self.activator = a;
                        self.phase = InstallPhase::Activating;
                        first
                    },
                    Err(e) => self.finish(Err(e)),
                }
            },
            _ => self.finish(Err(Error::InvalidDestination)),
        }
    }
}


/// Where an application keeps its scripts, below the user's home.
pub const APPLICATION_SCRIPTS: &'static str = "Library/Application Scripts";

/// Where an application keeps its sandbox container, below the user's home.
pub const CONTAINERS: &'static str = "Library/Containers";

/// Where an uninstallation stands.
#[derive(PartialEq, Eq, Structural, Clone, Copy)]
pub enum UninstallPhase {
    CheckApp,
    CheckAppex,
    UnregisterAppex,
    UnregisterApp,
    ReadAppInfo,
    ReadAppexInfo,
    Inspect,
    Cleanup,
    RemoveApp,
    Finished,
}

/// Uninstalls the host application `/Applications/<app name>`; see
/// `uninstall_next`.
pub struct Uninstaller {
    pub phase: UninstallPhase,
    pub app: String,
    pub appex: String,
    pub home: Option<String>,
    pub app_id: Option<String>,
    pub appex_id: Option<String>,
    pub cleanup: Vec<Effect>,
    pub next: usize,
}

pub open spec fn opt_text(o: Option<String>) -> Option<Seq<char>> {
    match o {
        Some(s) => Some(s@),
        None => None,
    }
}

pub open spec fn effects_view(v: Seq<Effect>) -> Seq<EffectView> {
    v.map_values(|e: Effect| e@)
}

#[verifier::ext_equal]
pub struct UninstallerView {
    pub phase: UninstallPhase,
    pub app: Seq<char>,
    pub appex: Seq<char>,
    pub home: Option<Seq<char>>,
    pub app_id: Option<Seq<char>>,
    pub appex_id: Option<Seq<char>>,
    pub cleanup: Seq<EffectView>,
    pub next: nat,
}

impl View for Uninstaller {
    type V = UninstallerView;

    open spec fn view(&self) -> UninstallerView {
        UninstallerView {
            phase: self.phase,
            app: self.app@,
            appex: self.appex@,
            home: opt_text(self.home),
            app_id: opt_text(self.app_id),
            appex_id: opt_text(self.appex_id),
            cleanup: effects_view(self.cleanup@),
            next: self.next as nat,
        }
    }
}

pub open spec fn uninstaller_at(s: UninstallerView, phase: UninstallPhase) -> UninstallerView {
    UninstallerView { phase, ..s }
}

/// The application paths of the registrations that come from another host
/// application than `app`, in order.
pub open spec fn other_apps(st: Seq<StatusView>, app: Seq<char>) -> Seq<Seq<char>>
    decreases st.len(),
{
    if st.len() == 0 {
        seq![]
    } else {
        other_apps(st.drop_last(), app) + if st.last().app_path != app {
            seq![st.last().app_path]
        } else {
            seq![]
        }
    }
}

/// Unregistering the extension and the application of each of `others`.
pub open spec fn unregister_others(others: Seq<Seq<char>>) -> Seq<EffectView>
    decreases others.len(),
{
    if others.len() == 0 {
        seq![]
    } else {
        unregister_others(others.drop_last()) + seq![
            EffectView::Run(pluginkit_remove(appex_dir(others.last()))),
            EffectView::Run(lsregister_remove(others.last())),
        ]
    }
}

/// Removing `<home>/<dir>/<id>`, where the identifier is known.
pub open spec fn remove_below(home: Seq<char>, dir: Seq<char>, id: Option<Seq<char>>) -> Seq<EffectView> {
    match id {
        Some(i) => seq![EffectView::RemoveDirAll(joined(joined(home, dir), i))],
        None => seq![],
    }
}

/// Removing the scripts and containers of the application and of its
/// extension, where the home directory and the identifiers are known.
pub open spec fn remove_user_data(home: Option<Seq<char>>, app_id: Option<Seq<char>>, appex_id: Option<Seq<char>>) -> Seq<EffectView> {
    match home {
        None => seq![],
        Some(h) => remove_below(h, APPLICATION_SCRIPTS@, app_id) + remove_below(h, APPLICATION_SCRIPTS@, appex_id)
            + remove_below(h, CONTAINERS@, app_id) + remove_below(h, CONTAINERS@, appex_id),
    }
}

/// The best-effort work done before the application itself is removed.
pub open spec fn cleanup_plan(
    home: Option<Seq<char>>,
    app_id: Option<Seq<char>>,
    appex_id: Option<Seq<char>>,
    others: Seq<Seq<char>>,
) -> Seq<EffectView> {
    unregister_others(others) + remove_user_data(home, app_id, appex_id)
}

/// The bundle identifier in a property list that was read, if any.
pub open spec fn bundle_id_in(r: Result<PlistValue, Seq<char>>) -> Option<Seq<char>> {
    match r {
        Ok(PlistValue::Dictionary(d)) => spec_bundle_id(d@),
        _ => None,
    }
}

/// Whether `ev` answers what the uninstallation waits for.
pub open spec fn uninstall_accepts(s: UninstallerView, ev: EventView) -> bool {
    match s.phase {
        UninstallPhase::CheckApp | UninstallPhase::CheckAppex => ev is Exists,
        UninstallPhase::ReadAppInfo | UninstallPhase::ReadAppexInfo => ev is Plist,
        UninstallPhase::Cleanup => 0 < s.next <= s.cleanup.len() && answers(s.cleanup[s.next - 1], ev),
        UninstallPhase::RemoveApp => ev is Done,
        UninstallPhase::Finished => false,
        _ => ev is Ran,
    }
}

/// Starting to uninstall `app_name`, with the user's home directory if known:
/// first ask whether `/Applications/<app_name>` exists.
pub open spec fn uninstall_start(app_name: Seq<char>, home: Option<Seq<char>>) -> (UninstallerView, StepView<(), ErrorView>) {
    let app = app_dir(app_name);
    (
        UninstallerView {
            phase: UninstallPhase::CheckApp,
            app,
            appex: appex_dir(app),
            home,
            app_id: None,
            appex_id: None,
            cleanup: seq![],
            next: 0,
        },
        StepView::Perform(EffectView::Exists(app)),
    )
}

/// Moving on to the best-effort work of `plan`, then to removing the
/// application.
pub open spec fn begin_cleanup(s: UninstallerView, plan: Seq<EffectView>) -> (UninstallerView, StepView<(), ErrorView>) {
    if plan.len() > 0 {
        (
            UninstallerView { phase: UninstallPhase::Cleanup, cleanup: plan, next: 1, ..s },
            StepView::Perform(plan[0]),
        )
    } else {
        (
            UninstallerView { phase: UninstallPhase::RemoveApp, cleanup: plan, next: 0, ..s },
            StepView::Perform(EffectView::RemoveDirAll(s.app)),
        )
    }
}

/// One step of an uninstallation. The application must exist. Everything up
/// to its removal is best effort, its outcome ignored: the extension (where
/// present) and the application are unregistered, the identifiers of both are
/// read, the extension's other registrations are unregistered together with
/// their applications, and the scripts and containers of both identifiers are
/// removed. Last, the application is removed, whose outcome is the
/// uninstallation's.
pub open spec fn uninstall_next(s: UninstallerView, ev: EventView) -> (UninstallerView, StepView<(), ErrorView>) {
    match (s.phase, ev) {
        (UninstallPhase::CheckApp, EventView::Exists(present)) => if present {
            (uninstaller_at(s, UninstallPhase::CheckAppex), StepView::Perform(EffectView::Exists(s.appex)))
        } else {
            (uninstaller_at(s, UninstallPhase::Finished), StepView::Finish(Err(ErrorView::AppNotInstalled)))
        },
        (UninstallPhase::CheckAppex, EventView::Exists(present)) => if present {
            (uninstaller_at(s, UninstallPhase::UnregisterAppex), StepView::Perform(EffectView::Run(pluginkit_remove(s.appex))))
        } else {
            (uninstaller_at(s, UninstallPhase::UnregisterApp), StepView::Perform(EffectView::Run(lsregister_remove(s.app))))
        },
        (UninstallPhase::UnregisterAppex, EventView::Ran(_)) => (
            uninstaller_at(s, UninstallPhase::UnregisterApp),
            StepView::Perform(EffectView::Run(lsregister_remove(s.app))),
        ),
        (UninstallPhase::UnregisterApp, EventView::Ran(_)) => (
            uninstaller_at(s, UninstallPhase::ReadAppInfo),
            StepView::Perform(EffectView::ReadPlist(info_plist(s.app))),
        ),
        (UninstallPhase::ReadAppInfo, EventView::Plist(r)) => (
            UninstallerView { phase: UninstallPhase::ReadAppexInfo, app_id: bundle_id_in(r), ..s },
            StepView::Perform(EffectView::ReadPlist(info_plist(s.appex))),
        ),
        (UninstallPhase::ReadAppexInfo, EventView::Plist(r)) => match bundle_id_in(r) {
            Some(id) => (
                UninstallerView { phase: UninstallPhase::Inspect, appex_id: Some(id), ..s },
                StepView::Perform(EffectView::Run(registrations_query(id))),
            ),
            None => begin_cleanup(
                UninstallerView { appex_id: None, ..s },
                cleanup_plan(s.home, s.app_id, None, seq![]),
            ),
        },
        (UninstallPhase::Inspect, EventView::Ran(r)) => {
            let others = match registrations_of(s.appex_id.unwrap(), r) {
                Ok(st) => other_apps(st, s.app),
                Err(_) => seq![],
            };
            begin_cleanup(s, cleanup_plan(s.home, s.app_id, s.appex_id, others))
        },
        (UninstallPhase::Cleanup, _) => if s.next < s.cleanup.len() {
            (UninstallerView { next: s.next + 1, ..s }, StepView::Perform(s.cleanup[s.next as int]))
        } else {
            (uninstaller_at(s, UninstallPhase::RemoveApp), StepView::Perform(EffectView::RemoveDirAll(s.app)))
        },
        (UninstallPhase::RemoveApp, EventView::Done(r)) => match r {
            Ok(()) => (uninstaller_at(s, UninstallPhase::Finished), StepView::Finish(Ok(()))),
            Err(m) => (uninstaller_at(s, UninstallPhase::Finished), StepView::Finish(Err(ErrorView::Io(m)))),
        },
        // An answer of another kind; `uninstall_accepts` rules it out.
        _ => (uninstaller_at(s, UninstallPhase::Finished), StepView::Finish(Err(ErrorView::InvalidDestination))),
    }
}

/// The bundle identifier of a property list that was read, if any.
pub fn bundle_id_of(r: Result<PlistValue, String>) -> (id: Option<String>)
    ensures
        opt_text(id) == bundle_id_in(match r { Ok(v) => Ok(v), Err(m) => Err(m@) }),
{
    match r {
        Ok(v) => match Info::new(v) {
            Ok(info) => match info.bundle_id() {
                Ok(id) => Some(id),
                Err(_) => None,
            },
            Err(_) => None,
        },
        Err(_) => None,
    }
}

/// The application paths of the registrations from other host applications.
pub fn other_registered_apps(st: &Vec<Status>, app: &str) -> (r: Vec<String>)
    ensures
        r.deep_view() == other_apps(statuses_view(st@), app@),
{
    let ghost sv = statuses_view(st@);
    let mut out: Vec<String> = Vec::new();
    let mut i: usize = 0;
    while i < st.len()
        invariant
            0 <= i <= st@.len(),
            sv == statuses_view(st@),
            out.deep_view() == other_apps(sv.take(i as int), app@),
        decreases st@.len() - i,
    {
        assert(sv.take(i + 1).drop_last() =~= sv.take(i as int));
        let ghost before = out.deep_view();
        if !crate::text::str_eq(st[i].app_path.as_str(), app) {
            out.push(st[i].app_path.clone());
            assert(out.deep_view() =~= before + seq![sv[i as int].app_path]);
        } else {
            assert(out.deep_view() =~= before + seq![]);
        }
        i = i + 1;
    }
    assert(sv.take(st@.len() as int) =~= sv);
    out
}

fn push_removal(plan: &mut Vec<Effect>, home: &str, dir: &str, id: &Option<String>)
    ensures
        effects_view(final(plan)@) == effects_view(old(plan)@) + remove_below(home@, dir@, opt_text(*id)),
{
    match id {
        Some(i) => {
            let base = join_path(home, dir);
            let target = join_path(base.as_str(), i.as_str());
            let ghost before = effects_view(plan@);
            plan.push(Effect::RemoveDirAll(target));
            assert(effects_view(plan@) =~= before + remove_below(home@, dir@, opt_text(*id)));
        },
        None => {
            assert(effects_view(plan@) =~= effects_view(plan@) + remove_below(home@, dir@, opt_text(*id)));
        },
    }
}

/// The best-effort work done before the application itself is removed.
pub fn make_cleanup_plan(
    home: &Option<String>,
    app_id: &Option<String>,
    appex_id: &Option<String>,
    others: &Vec<String>,
) -> (plan: Vec<Effect>)
    ensures
        effects_view(plan@) == cleanup_plan(opt_text(*home), opt_text(*app_id), opt_text(*appex_id), others.deep_view()),
{
    let ghost ov = others.deep_view();
    let mut plan: Vec<Effect> = Vec::new();
    let mut i: usize = 0;
    assert(ov.take(0) =~= seq![]);
    assert(effects_view(plan@) =~= seq![]);
    while i < others.len()
        invariant
            0 <= i <= others@.len(),
            ov == others.deep_view(),
            effects_view(plan@) == unregister_others(ov.take(i as int)),
        decreases others@.len() - i,
    {
        assert(ov.take(i + 1).drop_last() =~= ov.take(i as int));
        let other = others[i].as_str();
        let appex = appex_path(other);
        let ghost before = effects_view(plan@);
        plan.push(Effect::Run(pluginkit_remove_command(appex.as_str())));
        plan.push(Effect::Run(lsregister_remove_command(other)));
        assert(effects_view(plan@) =~= before + seq![
            EffectView::Run(pluginkit_remove(appex_dir(ov[i as int]))),
            EffectView::Run(lsregister_remove(ov[i as int])),
        ]);
        i = i + 1;
    }
    assert(ov.take(ov.len() as int) =~= ov);
    let ghost head = effects_view(plan@);
    match home {
        Some(h) => {
            push_removal(&mut plan, h.as_str(), APPLICATION_SCRIPTS, app_id);
            push_removal(&mut plan, h.as_str(), APPLICATION_SCRIPTS, appex_id);
            push_removal(&mut plan, h.as_str(), CONTAINERS, app_id);
            push_removal(&mut plan, h.as_str(), CONTAINERS, appex_id);
            assert(effects_view(plan@) =~= head + remove_user_data(opt_text(*home), opt_text(*app_id), opt_text(*appex_id)));
        },
        None => {
            assert(effects_view(plan@) =~= head + remove_user_data(opt_text(*home), opt_text(*app_id), opt_text(*appex_id)));
        },
    }
    plan
}

impl Uninstaller {
    /// Whether `ev` answers what the uninstallation waits for.
    pub fn accepts(&self, ev: &Event) -> (b: bool)
        ensures
            b == uninstall_accepts(self@, ev@),
    {
        match self.phase {
            UninstallPhase::CheckApp | UninstallPhase::CheckAppex => matches!(ev, Event::Exists(_)),
            UninstallPhase::ReadAppInfo | UninstallPhase::ReadAppexInfo => matches!(ev, Event::Plist(_)),
            UninstallPhase::Cleanup => {
                0 < self.next && self.next <= self.cleanup.len() && answers_effect(&self.cleanup[self.next - 1], ev)
            },
            UninstallPhase::RemoveApp => matches!(ev, Event::Done(_)),
            UninstallPhase::Finished => false,
            _ => matches!(ev, Event::Ran(_)),
        }
    }

    /// Starts uninstalling the host application `app_name`; `home` is the
    /// user's home directory where it is known.
    pub fn start(app_name: &str, home: Option<String>) -> (r: (Uninstaller, Step<(), Error>))
        ensures
            r.0@ == uninstall_start(app_name@, opt_text(home)).0,
            r.1@ == uninstall_start(app_name@, opt_text(home)).1,
    {
        let app = application_path(app_name);
        let appex = appex_path(app.as_str());
        let first = Effect::Exists(app.clone());
        let u = Uninstaller {
            phase: UninstallPhase::CheckApp,
            app,
            appex,
            home,
            app_id: None,
            appex_id: None,
            cleanup: Vec::new(),
            next: 0,
        };
        assert(effects_view(u.cleanup@) =~= seq![]);
        (u, Step::Perform(first))
    }

    fn begin_cleanup(&mut self, plan: Vec<Effect>) -> (out: Step<(), Error>)
        ensures
            final(self)@ == begin_cleanup(old(self)@, effects_view(plan@)).0,
            out@ == begin_cleanup(old(self)@, effects_view(plan@)).1,
    {
        if plan.len() > 0 {
            let first = clone_effect(&plan[0]);
            self.cleanup = plan;
            self.next = 1;
            self.phase = UninstallPhase::Cleanup;
            Step::Perform(first)
        } else {
            self.cleanup = plan;
            self.next = 0;
            self.phase = UninstallPhase::RemoveApp;
            Step::Perform(Effect::RemoveDirAll(self.app.clone()))
        }
    }

    /// Takes the answer to the last request and says what comes next.
    pub fn step(&mut self, ev: Event) -> (out: Step<(), Error>)
        requires
            uninstall_accepts(old(self)@, ev@),
        ensures
            final(self)@ == uninstall_next(old(self)@, ev@).0,
            out@ == uninstall_next(old(self)@, ev@).1,
    {
        if self.phase == UninstallPhase::Cleanup {
            if self.next < self.cleanup.len() {
                let e = clone_effect(&self.cleanup[self.next]);
                self.next = self.next + 1;
                return Step::Perform(e);
            } else {
                self.phase = UninstallPhase::RemoveApp;
                return Step::Perform(Effect::RemoveDirAll(self.app.clone()));
            }
        }
        match (self.phase, ev) {
            (UninstallPhase::CheckApp, Event::Exists(present)) => {
                if present {
                    self.phase = UninstallPhase::CheckAppex;
                    Step::Perform(Effect::Exists(self.appex.clone()))
                } else {
                    self.phase = UninstallPhase::Finished;
                    Step::Finish(Err(Error::AppNotInstalled))
                }
            },
            (UninstallPhase::CheckAppex, Event::Exists(present)) => {
                if present {
                    self.phase = UninstallPhase::UnregisterAppex;
                    Step::Perform(Effect::Run(pluginkit_remove_command(self.appex.as_str())))
                } else {
                    self.phase = UninstallPhase::UnregisterApp;
                    Step::Perform(Effect::Run(lsregister_remove_command(self.app.as_str())))
                }
            },
            (UninstallPhase::UnregisterAppex, Event::Ran(_)) => {
                self.phase = UninstallPhase::UnregisterApp;
                Step::Perform(Effect::Run(lsregister_remove_command(self.app.as_str())))
            },
            (UninstallPhase::UnregisterApp, Event::Ran(_)) => {
                self.phase = UninstallPhase::ReadAppInfo;
                Step::Perform(Effect::ReadPlist(info_plist_path(self.app.as_str())))
            },
            (UninstallPhase::ReadAppInfo, Event::Plist(r)) => {
                self.app_id = bundle_id_of(r);
                self.phase = UninstallPhase::ReadAppexInfo;
                Step::Perform(Effect::ReadPlist(info_plist_path(self.appex.as_str())))
            },
            (UninstallPhase::ReadAppexInfo, Event::Plist(r)) => {
                match bundle_id_of(r) {
                    Some(id) => {
                        let c = registrations_command(id.as_str());
                        self.appex_id = Some(id);
                        self.phase = UninstallPhase::Inspect;
                        Step::Perform(Effect::Run(c))
                    },
                    None => {
                        self.appex_id = None;
                        let none: Vec<String> = Vec::new();
                        assert(none.deep_view() =~= seq![]);
                        let plan = make_cleanup_plan(&self.home, &self.app_id, &None, &none);
                        self.begin_cleanup(plan)
                    },
                }
            },
            (UninstallPhase::Inspect, Event::Ran(r)) => {
                let id = match &self.appex_id {
                    Some(i) => i.clone(),
                    None => String::new(),
                };
                let others = match registrations(id.as_str(), r) {
                    Ok(st) => other_registered_apps(&st, self.app.as_str()),
                    Err(_) => Vec::new(),
                };
                let plan = make_cleanup_plan(&self.home, &self.app_id, &self.appex_id, &others);
                self.begin_cleanup(plan)
            },
            (UninstallPhase::RemoveApp, Event::Done(r)) => {
                self.phase = UninstallPhase::Finished;
                match r {
                    Ok(()) => Step::Finish(Ok(())),
                    Err(m) => Step::Finish(Err(Error::Io(m))),
                }
            },
            _ => {
                self.phase = UninstallPhase::Finished;
                Step::Finish(Err(Error::InvalidDestination))
            },
        }
    }
}


/// No step of an activation asks to remove a directory or to create a file.
pub proof fn law_activation_is_non_destructive(s: ActivatorView, ev: EventView)
    ensures
        !(activate_next(s, ev).1 matches StepView::Perform(EffectView::RemoveDirAll(_))),
        !(activate_next(s, ev).1 matches StepView::Perform(EffectView::CreateFile(_))),
{
}

/// Installing is non-destructive: no step of an installation, its
/// activation included, asks to remove a directory or to create a file.
pub proof fn law_install_is_non_destructive(s: InstallerView, ev: EventView)
    ensures
        !(install_next(s, ev).1 matches StepView::Perform(EffectView::RemoveDirAll(_))),
        !(install_next(s, ev).1 matches StepView::Perform(EffectView::CreateFile(_))),
{
    law_activation_is_non_destructive(s.activator, ev);
    law_activation_is_non_destructive(activate_start(s.app_name).0, ev);
}

/// An activation succeeds only on a registration check (before or after the
/// registration steps) whose listing shows a registration from the
/// application that is elected.
pub proof fn law_activation_success_means_active(s: ActivatorView, ev: EventView)
    ensures
        activate_next(s, ev).1 == StepView::<(), ErrorView>::Finish(Ok(())) ==> {
            &&& (s.phase == ActivatePhase::FirstCheck || s.phase == ActivatePhase::SecondCheck)
            &&& ev matches EventView::Ran(r)
            &&& registrations_of(s.bundle_id, r) matches Ok(st)
            &&& activation_of(st, s.app) == Activation::Active
        },
{
}

/// An application that the first check does not find active (or where the
/// first listing fails) always goes through the registration steps (starting with the quarantine probe), and
/// a second check that does not find it active reports why: no
/// registration at all, registrations only from other applications, or a
/// registration from this application that is not elected.
pub proof fn law_activation_retries_then_says_why(s: ActivatorView, r: Result<CommandOutputView, Seq<char>>)
    ensures
        s.phase == ActivatePhase::FirstCheck ==> (!(registrations_of(s.bundle_id, r) matches Ok(st)
            && activation_of(st, s.app) == Activation::Active) ==> activate_next(s, EventView::Ran(r)).1
            == StepView::<(), ErrorView>::Perform(EffectView::Run(quarantine_probe(s.app)))),
        s.phase == ActivatePhase::SecondCheck ==> (registrations_of(s.bundle_id, r) matches Ok(st) ==> {
            &&& st.len() == 0 ==> activate_next(s, EventView::Ran(r)).1 == StepView::<(), ErrorView>::Finish(
                Err(ErrorView::ExtensionNotRegistered { bundle_id: s.bundle_id }),
            )
            &&& (st.len() > 0 && forall|i: int| 0 <= i < st.len() ==> (#[trigger] st[i]).app_path != s.app)
                ==> activate_next(s, EventView::Ran(r)).1 == StepView::<(), ErrorView>::Finish(
                Err(ErrorView::ExtensionRegisteredElsewhere { bundle_id: s.bundle_id }),
            )
            &&& ((exists|i: int| 0 <= i < st.len() && (#[trigger] st[i]).app_path == s.app) && forall|i: int|
                0 <= i < st.len() && (#[trigger] st[i]).app_path == s.app ==> !st[i].elected)
                ==> activate_next(s, EventView::Ran(r)).1 == StepView::<(), ErrorView>::Finish(
                Err(ErrorView::ExtensionNotElected { bundle_id: s.bundle_id }),
            )
        }),
{
}

/// An installation succeeds only when the activation of the copied
/// application succeeds.
pub proof fn law_install_success_is_activation_success(s: InstallerView, ev: EventView)
    ensures
        install_next(s, ev).1 == StepView::<(), ErrorView>::Finish(Ok(())) ==> {
            &&& s.phase == InstallPhase::Activating
            &&& activate_next(s.activator, ev).1 == StepView::<(), ErrorView>::Finish(Ok(()))
        },
{
}

proof fn lemma_program_names_differ()
    ensures
        DITTO@ != CODESIGN@,
        DITTO@ != XATTR@,
        DITTO@ != PLUGINKIT@,
        DITTO@ != LSREGISTER@,
{
    reveal_strlit("ditto");
    reveal_strlit("/usr/bin/codesign");
    reveal_strlit("/usr/bin/xattr");
    reveal_strlit("/usr/bin/pluginkit");
    reveal_strlit(
        "/System/Library/Frameworks/CoreServices.framework/Frameworks/LaunchServices.framework/Support/lsregister",
    );
    assert(DITTO@.len() != CODESIGN@.len());
    assert(DITTO@.len() != XATTR@.len());
    assert(DITTO@.len() != PLUGINKIT@.len());
    assert(DITTO@.len() != LSREGISTER@.len());
}

proof fn lemma_activation_never_copies(a: ActivatorView, ev: EventView)
    ensures
        activate_next(a, ev).1 matches StepView::Perform(EffectView::Run(c)) ==> c.program != DITTO@,
{
    lemma_program_names_differ();
}

/// The application is copied only right after the source passed `codesign`:
/// a step that runs `ditto` answers a successful run of the source's check.
pub proof fn law_copy_follows_verified_source(s: InstallerView, ev: EventView)
    ensures
        install_next(s, ev).1 matches StepView::Perform(EffectView::Run(c)) ==> (c.program == DITTO@
            ==> {
            &&& s.phase == InstallPhase::VerifySource
            &&& ev matches EventView::Ran(Ok(o))
            &&& o.success
            &&& c == ditto(s.source, s.destination)
        }),
{
    lemma_program_names_differ();
    lemma_activation_never_copies(s.activator, ev);
}

/// An uninstallation succeeds only once the application directory was
/// removed without error.
pub proof fn law_uninstall_success_means_removed(s: UninstallerView, ev: EventView)
    ensures
        uninstall_next(s, ev).1 == StepView::<(), ErrorView>::Finish(Ok(())) ==> {
            &&& s.phase == UninstallPhase::RemoveApp
            &&& ev == EventView::Done(Ok(()))
        },
{
    if let EventView::Done(Ok(u)) = ev {
        assert(ev == EventView::Done(Ok(())));
    }
}

/// Everything but the final removal is best effort: an uninstallation fails
/// only where the application is not installed, or where removing it fails.
pub proof fn law_uninstall_fails_only_at_the_ends(s: UninstallerView, ev: EventView)
    requires
        uninstall_accepts(s, ev),
    ensures
        uninstall_next(s, ev).1 matches StepView::Finish(Err(e)) ==> {
            ||| (s.phase == UninstallPhase::CheckApp && e == ErrorView::AppNotInstalled)
            ||| (s.phase == UninstallPhase::RemoveApp && e is Io)
        },
{
}

proof fn lemma_clear_differs_from_other_commands(app: Seq<char>, appex: Seq<char>, id: Seq<char>)
    ensures
        quarantine_clear(app) != quarantine_probe(app),
        quarantine_clear(app) != codesign_verify(app),
        quarantine_clear(app) != lsregister_app(app),
        quarantine_clear(app) != pluginkit_add(appex),
        quarantine_clear(app) != pluginkit_elect(id),
        quarantine_clear(app) != registrations_query(id),
{
    reveal_strlit("-p");
    reveal_strlit("-dr");
    reveal_strlit("/usr/bin/codesign");
    reveal_strlit("/usr/bin/xattr");
    reveal_strlit("/usr/bin/pluginkit");
    reveal_strlit(
        "/System/Library/Frameworks/CoreServices.framework/Frameworks/LaunchServices.framework/Support/lsregister",
    );
    assert(XATTR@.len() != CODESIGN@.len());
    assert(XATTR@.len() != LSREGISTER@.len());
    assert(XATTR@.len() != PLUGINKIT@.len());
    assert("-p"@.len() != "-dr"@.len());
    assert(quarantine_clear(app).args[0] == "-dr"@);
    assert(quarantine_probe(app).args[0] == "-p"@);
}

/// The quarantine attribute is cleared only where it is present: the step
/// that clears it answers a successful probe for it.
pub proof fn law_quarantine_cleared_only_when_present(s: ActivatorView, ev: EventView)
    ensures
        activate_next(s, ev).1 == StepView::<(), ErrorView>::Perform(EffectView::Run(quarantine_clear(s.app))) ==> {
            &&& s.phase == ActivatePhase::ProbeQuarantine
            &&& ev matches EventView::Ran(Ok(o))
            &&& o.success
        },
{
    lemma_clear_differs_from_other_commands(s.app, s.appex, s.bundle_id);
}

/// The copied application is activated only after it passed `codesign`:
/// the step that enters the activation answers a successful check of the
/// copy.
pub proof fn law_activation_follows_verified_copy(s: InstallerView, ev: EventView)
    ensures
        (install_next(s, ev).0.phase == InstallPhase::Activating && s.phase != InstallPhase::Activating) ==> {
            &&& s.phase == InstallPhase::VerifyCopy
            &&& ev matches EventView::Ran(Ok(o))
            &&& o.success
            &&& install_next(s, ev).0.activator == activate_start(s.app_name).0
        },
{
}

/// The application directory of an uninstallation never changes, and every
/// step that moves on to the final removal asks to remove exactly that
/// directory.
pub proof fn law_uninstall_removes_the_application(s: UninstallerView, ev: EventView, app_name: Seq<char>, home: Option<Seq<char>>)
    ensures
        uninstall_start(app_name, home).0.app == app_dir(app_name),
        uninstall_next(s, ev).0.app == s.app,
        (uninstall_next(s, ev).0.phase == UninstallPhase::RemoveApp && s.phase != UninstallPhase::RemoveApp)
            ==> uninstall_next(s, ev).1 == StepView::<(), ErrorView>::Perform(EffectView::RemoveDirAll(s.app)),
{
}


/// The state of an installation of `source` after the answers `evs`.
pub open spec fn install_after(source: Seq<char>, evs: Seq<EventView>) -> InstallerView
    decreases evs.len(),
{
    if evs.len() == 0 {
        install_start(source).0
    } else {
        install_next(install_after(source, evs.drop_last()), evs.last()).0
    }
}

/// What an installation of `source` asks for, or how it ends, after the
/// answers `evs`.
pub open spec fn install_answer(source: Seq<char>, evs: Seq<EventView>) -> StepView<(), ErrorView> {
    if evs.len() == 0 {
        install_start(source).1
    } else {
        install_next(install_after(source, evs.drop_last()), evs.last()).1
    }
}

/// Among the answers `evs`, `ditto <source> <destination>` was asked for and
/// answered by a successful run.
pub open spec fn copied(source: Seq<char>, evs: Seq<EventView>, destination: Seq<char>) -> bool {
    exists|k: int|
        0 <= k < evs.len() && #[trigger] install_after(source, evs.take(k)).phase == InstallPhase::Copy
            && install_answer(source, evs.take(k)) == StepView::<(), ErrorView>::Perform(
            EffectView::Run(ditto(source, destination)),
        ) && (evs[k] matches EventView::Ran(Ok(o)) && o.success)
}

/// What holds of every state an installation of `source` reaches.
pub open spec fn install_trace_inv(source: Seq<char>, evs: Seq<EventView>) -> bool {
    let s = install_after(source, evs);
    &&& install_state_inv(source, s)
    &&& s.phase == InstallPhase::Copy ==> install_answer(source, evs) == StepView::<(), ErrorView>::Perform(
        EffectView::Run(ditto(source, s.destination)),
    )
    &&& (s.phase == InstallPhase::VerifyCopy || s.phase == InstallPhase::Activating) ==> copied(
        source,
        evs,
        s.destination,
    )
}

/// What holds of a single state of an installation of `source`.
pub open spec fn install_state_inv(source: Seq<char>, s: InstallerView) -> bool {
    &&& s.source == source
    &&& (s.phase == InstallPhase::CheckDestination || s.phase == InstallPhase::VerifySource || s.phase
        == InstallPhase::Copy || s.phase == InstallPhase::VerifyCopy || s.phase == InstallPhase::Activating)
        ==> path_file_name(source) == Some(s.app_name) && s.destination == app_dir(s.app_name)
    &&& s.phase == InstallPhase::Activating ==> s.activator.app == s.destination
}

proof fn lemma_activation_keeps_app(a: ActivatorView, ev: EventView)
    ensures
        activate_next(a, ev).0.app == a.app,
{
}

proof fn lemma_install_step(source: Seq<char>, s0: InstallerView, ev: EventView)
    requires
        install_state_inv(source, s0),
    ensures
        install_state_inv(source, install_next(s0, ev).0),
        install_next(s0, ev).0.phase == InstallPhase::Copy ==> install_next(s0, ev).1 == StepView::<(), ErrorView>::Perform(
            EffectView::Run(ditto(source, install_next(s0, ev).0.destination)),
        ),
        (install_next(s0, ev).0.phase == InstallPhase::VerifyCopy || install_next(s0, ev).0.phase
            == InstallPhase::Activating) ==> install_next(s0, ev).0.destination == s0.destination && (
        s0.phase == InstallPhase::VerifyCopy || s0.phase == InstallPhase::Activating || (s0.phase
            == InstallPhase::Copy && (ev matches EventView::Ran(Ok(o)) && o.success))),
{
    lemma_activation_keeps_app(s0.activator, ev);
}

proof fn lemma_install_trace_inv(source: Seq<char>, evs: Seq<EventView>)
    ensures
        install_trace_inv(source, evs),
    decreases evs.len(),
{
    if evs.len() > 0 {
        let pre = evs.drop_last();
        lemma_install_trace_inv(source, pre);
        let s0 = install_after(source, pre);
        let ev = evs.last();
        let s1 = install_after(source, evs);
        assert(s1 == install_next(s0, ev).0);
        assert(install_answer(source, evs) == install_next(s0, ev).1);
        lemma_install_step(source, s0, ev);
        if s1.phase == InstallPhase::VerifyCopy || s1.phase == InstallPhase::Activating {
            if s0.phase == InstallPhase::Copy {
                let k = pre.len() as int;
                assert(evs.take(k) =~= pre);
                assert(install_after(source, evs.take(k)).phase == InstallPhase::Copy);
                assert(copied(source, evs, s1.destination));
            } else {
                let k = choose|k: int|
                    0 <= k < pre.len() && #[trigger] install_after(source, pre.take(k)).phase == InstallPhase::Copy
                        && install_answer(source, pre.take(k)) == StepView::<(), ErrorView>::Perform(
                        EffectView::Run(ditto(source, s0.destination)),
                    ) && (pre[k] matches EventView::Ran(Ok(o)) && o.success);
                assert(evs.take(k) =~= pre.take(k));
                assert(evs[k] == pre[k]);
                assert(install_after(source, evs.take(k)).phase == InstallPhase::Copy);
                assert(copied(source, evs, s1.destination));
            }
        }
    }
}

/// A successful installation of `source` copied it with `ditto` to
/// `/Applications/<its name>` (a run that succeeded), and the activation that
/// decided the outcome is that of the copy: its last listing shows an elected
/// registration from `/Applications/<its name>`.
pub proof fn law_install_success_copies_and_activates(source: Seq<char>, evs: Seq<EventView>)
    requires
        evs.len() > 0,
        install_answer(source, evs) == StepView::<(), ErrorView>::Finish(Ok(())),
    ensures
        path_file_name(source) matches Some(name) && {
            let s = install_after(source, evs.drop_last());
            &&& copied(source, evs.drop_last(), app_dir(name))
            &&& s.phase == InstallPhase::Activating
            &&& s.activator.app == app_dir(name)
            &&& evs.last() matches EventView::Ran(r)
            &&& registrations_of(s.activator.bundle_id, r) matches Ok(st)
            &&& activation_of(st, app_dir(name)) == Activation::Active
        },
{
    let pre = evs.drop_last();
    lemma_install_trace_inv(source, pre);
    let s = install_after(source, pre);
    law_install_success_is_activation_success(s, evs.last());
    law_activation_success_means_active(s.activator, evs.last());
}

/// A registration check (before or after the registration steps) ends the
/// activation with success whenever the listing holds an elected
/// registration from the application, at whatever position and whatever the
/// other registrations are.
pub proof fn law_activation_finds_any_elected_registration(
    s: ActivatorView,
    r: Result<CommandOutputView, Seq<char>>,
    st: Seq<StatusView>,
    i: int,
)
    requires
        s.phase == ActivatePhase::FirstCheck || s.phase == ActivatePhase::SecondCheck,
        registrations_of(s.bundle_id, r) == Ok::<Seq<StatusView>, ErrorView>(st),
        0 <= i < st.len(),
        st[i].app_path == s.app,
        st[i].elected,
    ensures
        activate_next(s, EventView::Ran(r)).1 == StepView::<(), ErrorView>::Finish(Ok(())),
        activate_next(s, EventView::Ran(r)).0.phase == ActivatePhase::Finished,
{
    assert(activation_of(st, s.app) == Activation::Active);
}

/// The other host applications of a listing are the application paths of
/// all its registrations that come from somewhere else than `app`, elected
/// or not, in their order: each such registration's path is among them,
/// each of them is such a path, and they are all the paths where no
/// registration comes from `app`. Listings put together give the others of
/// each, put together.
pub proof fn law_other_apps_are_all_other_registrations(st: Seq<StatusView>, t: Seq<StatusView>, app: Seq<char>)
    ensures
        forall|i: int| 0 <= i < st.len() && (#[trigger] st[i]).app_path != app ==> other_apps(st, app).contains(st[i].app_path),
        forall|k: int| 0 <= k < other_apps(st, app).len() ==> #[trigger] other_apps(st, app)[k] != app
            && exists|i: int| 0 <= i < st.len() && (#[trigger] st[i]).app_path == other_apps(st, app)[k],
        (forall|i: int| 0 <= i < st.len() ==> (#[trigger] st[i]).app_path != app) ==> other_apps(st, app)
            == st.map_values(|x: StatusView| x.app_path),
        other_apps(st + t, app) == other_apps(st, app) + other_apps(t, app),
{
    lemma_other_apps(st, app);
    lemma_other_apps_concat(st, t, app);
}

proof fn lemma_other_apps(st: Seq<StatusView>, app: Seq<char>)
    ensures
        forall|i: int| 0 <= i < st.len() && (#[trigger] st[i]).app_path != app ==> other_apps(st, app).contains(st[i].app_path),
        forall|k: int| 0 <= k < other_apps(st, app).len() ==> #[trigger] other_apps(st, app)[k] != app
            && exists|i: int| 0 <= i < st.len() && (#[trigger] st[i]).app_path == other_apps(st, app)[k],
        (forall|i: int| 0 <= i < st.len() ==> (#[trigger] st[i]).app_path != app) ==> other_apps(st, app)
            == st.map_values(|x: StatusView| x.app_path),
    decreases st.len(),
{
    if st.len() > 0 {
        let init = st.drop_last();
        lemma_other_apps(init, app);
        let o = other_apps(st, app);
        let oi = other_apps(init, app);
        let n = st.len() - 1;
        assert forall|i: int| 0 <= i < st.len() && (#[trigger] st[i]).app_path != app implies o.contains(st[i].app_path) by {
            if i < n {
                assert(init[i] == st[i]);
                let k = choose|k: int| 0 <= k < oi.len() && oi[k] == init[i].app_path;
                assert(o[k] == oi[k]);
            } else {
                assert(o[oi.len() as int] == st[i].app_path);
            }
        }
        assert forall|k: int| 0 <= k < o.len() implies #[trigger] o[k] != app
            && exists|i: int| 0 <= i < st.len() && (#[trigger] st[i]).app_path == o[k] by {
            if k < oi.len() {
                assert(o[k] == oi[k]);
                assert(oi[k] != app);
                let i = choose|i: int| 0 <= i < init.len() && (#[trigger] init[i]).app_path == oi[k];
                assert(st[i] == init[i]);
            } else {
                assert(o[k] == st[n].app_path);
            }
        }
        if forall|i: int| 0 <= i < st.len() ==> (#[trigger] st[i]).app_path != app {
            assert(forall|i: int| 0 <= i < init.len() ==> (#[trigger] init[i]) == st[i]);
            assert(st[n].app_path != app);
            assert(o =~= st.map_values(|x: StatusView| x.app_path));
        }
    }
}

proof fn lemma_other_apps_concat(st: Seq<StatusView>, t: Seq<StatusView>, app: Seq<char>)
    ensures
        other_apps(st + t, app) == other_apps(st, app) + other_apps(t, app),
    decreases t.len(),
{
    if t.len() == 0 {
        assert(st + t =~= st);
        assert(other_apps(st, app) + other_apps(t, app) =~= other_apps(st, app));
    } else {
        lemma_other_apps_concat(st, t.drop_last(), app);
        assert((st + t).drop_last() =~= st + t.drop_last());
        assert((st + t).last() == t.last());
        let tail = if t.last().app_path != app { seq![t.last().app_path] } else { seq![] };
        assert(other_apps(st, app) + other_apps(t.drop_last(), app) + tail =~= other_apps(st, app) + (
        other_apps(t.drop_last(), app) + tail));
    }
}

proof fn lemma_unregister_others(others: Seq<Seq<char>>)
    ensures
        unregister_others(others).len() == 2 * others.len(),
        forall|k: int| 0 <= k < others.len() ==> unregister_others(others)[2 * k] == EffectView::Run(
            pluginkit_remove(appex_dir(#[trigger] others[k])),
        ) && unregister_others(others)[2 * k + 1] == EffectView::Run(lsregister_remove(others[k])),
    decreases others.len(),
{
    if others.len() > 0 {
        let init = others.drop_last();
        lemma_unregister_others(init);
        assert forall|k: int| 0 <= k < others.len() implies unregister_others(others)[2 * k] == EffectView::Run(
            pluginkit_remove(appex_dir(#[trigger] others[k])),
        ) && unregister_others(others)[2 * k + 1] == EffectView::Run(lsregister_remove(others[k])) by {
            if k < init.len() {
                assert(init[k] == others[k]);
            }
        }
    }
}

/// Uninstalling unregisters every other copy of the extension that PlugInKit
/// lists, elected or not: the best-effort work holds unregistering the
/// extension inside that other application and the application itself, and
/// it starts with the first other copy.
pub proof fn law_uninstall_unregisters_other_copies(
    s: UninstallerView,
    r: Result<CommandOutputView, Seq<char>>,
    st: Seq<StatusView>,
    i: int,
)
    requires
        s.phase == UninstallPhase::Inspect,
        s.appex_id is Some,
        registrations_of(s.appex_id.unwrap(), r) == Ok::<Seq<StatusView>, ErrorView>(st),
        0 <= i < st.len(),
        st[i].app_path != s.app,
    ensures
        uninstall_next(s, EventView::Ran(r)).0.phase == UninstallPhase::Cleanup,
        uninstall_next(s, EventView::Ran(r)).0.cleanup.contains(
            EffectView::Run(pluginkit_remove(appex_dir(st[i].app_path))),
        ),
        uninstall_next(s, EventView::Ran(r)).0.cleanup.contains(EffectView::Run(lsregister_remove(st[i].app_path))),
        uninstall_next(s, EventView::Ran(r)).1 == StepView::<(), ErrorView>::Perform(
            EffectView::Run(pluginkit_remove(appex_dir(other_apps(st, s.app)[0]))),
        ),
{
    lemma_other_apps(st, s.app);
    let others = other_apps(st, s.app);
    lemma_unregister_others(others);
    let k = choose|k: int| 0 <= k < others.len() && others[k] == st[i].app_path;
    let plan = cleanup_plan(s.home, s.app_id, s.appex_id, others);
    let u = unregister_others(others);
    assert(plan[2 * k] == u[2 * k]);
    assert(plan[2 * k + 1] == u[2 * k + 1]);
    assert(plan[0] == u[0]);
}

} // verus!
