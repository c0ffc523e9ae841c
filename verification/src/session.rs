//! Starting a session: finding the elected extension's configuration, serving
//! its socket, and mounting the volume.

use vstd::prelude::*;
use crate::command::{Effect, EffectView, Event, EventView, Step, StepView};
use crate::info::{Info, Error as InfoError, ErrorView as InfoErrorView, PlistValue, spec_fs_type, spec_server_port};
use crate::installer;
use crate::mounter;
use crate::mounter::{
    MountPhase, MountProcedure, MountView, Mounter, MounterView, image_path, mount_accepts, mount_next, mount_start,
    umount_force,
};
use crate::paths::{appex_dir, appex_path, info_plist, info_plist_path};
use crate::registration::{
    chosen, registrations, registrations_command, registrations_of, registrations_query,
    select_registration, statuses_view,
};

verus! {

/// Why a session could not start.
#[derive(Debug, PartialEq, Eq)]
pub enum Error {
    /// An I/O error (its message).
    Io(String),
    /// Reading the registrations or the extension's configuration failed.
    Installer(installer::Error),
    /// The socket could not be served (its message).
    Socket(String),
    /// Mounting failed.
    Mounter(mounter::Error),
    /// PlugInKit knows no registration of the extension.
    ExtensionNotRegistered,
}

pub enum ErrorView {
    Io(Seq<char>),
    Installer(installer::ErrorView),
    Socket(Seq<char>),
    Mounter(mounter::ErrorView),
    ExtensionNotRegistered,
}

impl View for Error {
    type V = ErrorView;

    open spec fn view(&self) -> ErrorView {
        match self {
            Error::Io(m) => ErrorView::Io(m@),
            Error::Installer(e) => ErrorView::Installer(e@),
            Error::Socket(m) => ErrorView::Socket(m@),
            Error::Mounter(e) => ErrorView::Mounter(e@),
            Error::ExtensionNotRegistered => ErrorView::ExtensionNotRegistered,
        }
    }
}

/// Where reading the configuration stands.
#[derive(PartialEq, Eq, Structural, Clone, Copy)]
pub enum ConfigPhase {
    Query,
    ReadInfo,
    Finished,
}

/// Reads the server port and file-system type of the extension that
/// PlugInKit elected; see `config_next`.
pub struct ConfigReader {
    pub phase: ConfigPhase,
    pub appex_id: String,
    pub appex: String,
}

#[verifier::ext_equal]
pub struct ConfigReaderView {
    pub phase: ConfigPhase,
    pub appex_id: Seq<char>,
    pub appex: Seq<char>,
}

impl View for ConfigReader {
    type V = ConfigReaderView;

    open spec fn view(&self) -> ConfigReaderView {
        ConfigReaderView { phase: self.phase, appex_id: self.appex_id@, appex: self.appex@ }
    }
}

/// Whether `ev` answers what the configuration reader waits for.
pub open spec fn config_accepts(s: ConfigReaderView, ev: EventView) -> bool {
    match s.phase {
        ConfigPhase::Query => ev is Ran,
        ConfigPhase::ReadInfo => ev is Plist,
        ConfigPhase::Finished => false,
    }
}

/// Starting to read the configuration of the extension `appex_id`: first list
/// its registrations.
pub open spec fn config_start(appex_id: Seq<char>) -> (ConfigReaderView, StepView<(u16, Seq<char>), ErrorView>) {
    (
        ConfigReaderView { phase: ConfigPhase::Query, appex_id, appex: seq![] },
        StepView::Perform(EffectView::Run(registrations_query(appex_id))),
    )
}

/// The port and file-system type in an extension's `Info.plist`.
pub open spec fn config_in(v: PlistValue) -> Result<(u16, Seq<char>), ErrorView> {
    let invalid = ErrorView::Installer(installer::ErrorView::Info(InfoErrorView::Invalid));
    match v {
        PlistValue::Dictionary(d) => match spec_server_port(d@) {
            None => Err(invalid),
            Some(port) => match spec_fs_type(d@) {
                None => Err(invalid),
                Some(t) => Ok((port, t)),
            },
        },
        _ => Err(invalid),
    }
}

/// One step of reading the configuration. Of the registrations, the first
/// elected one is used, else the first one; there must be one. Its
/// extension's `Info.plist` gives the server port and the file-system type.
pub open spec fn config_next(s: ConfigReaderView, ev: EventView) -> (ConfigReaderView, StepView<(u16, Seq<char>), ErrorView>) {
    let done = ConfigReaderView { phase: ConfigPhase::Finished, ..s };
    match (s.phase, ev) {
        (ConfigPhase::Query, EventView::Ran(r)) => match registrations_of(s.appex_id, r) {
            Err(e) => (done, StepView::Finish(Err(ErrorView::Installer(e)))),
            Ok(st) => match chosen(st) {
                None => (done, StepView::Finish(Err(ErrorView::ExtensionNotRegistered))),
                Some(i) => {
                    let appex = appex_dir(st[i].app_path);
                    (
                        ConfigReaderView { phase: ConfigPhase::ReadInfo, appex, ..s },
                        StepView::Perform(EffectView::ReadPlist(info_plist(appex))),
                    )
                },
            },
        },
        (ConfigPhase::ReadInfo, EventView::Plist(Err(m))) => (
            done,
            StepView::Finish(Err(ErrorView::Installer(installer::ErrorView::Info(InfoErrorView::Plist(m))))),
        ),
        (ConfigPhase::ReadInfo, EventView::Plist(Ok(v))) => (done, StepView::Finish(config_in(v))),
        // An answer of another kind; `config_accepts` rules it out.
        _ => (done, StepView::Finish(Err(ErrorView::ExtensionNotRegistered))),
    }
}

/// The port and file-system type in a property list that was read.
pub fn config_from(v: PlistValue) -> (r: Result<(u16, String), Error>)
    ensures
        match (r, config_in(v)) {
            (Ok((p, t)), Ok((q, u))) => p == q && t@ == u,
            (Err(e), Err(f)) => e@ == f,
            _ => false,
        },
{
    match Info::new(v) {
        Err(e) => Err(Error::Installer(installer::Error::Info(e))),
        Ok(info) => match info.server_port() {
            Err(e) => Err(Error::Installer(installer::Error::Info(e))),
            Ok(port) => match info.fs_type() {
                Err(e) => Err(Error::Installer(installer::Error::Info(e))),
                Ok(t) => Ok((port, t)),
            },
        },
    }
}

/// Starts reading the server port and file-system type of the extension
/// `appex_id` (drive it with `ConfigReader::step`).
pub fn read_config(appex_id: &str) -> (r: (ConfigReader, Step<(u16, String), Error>))
    ensures
        r.0@ == config_start(appex_id@).0,
        r.1@ == config_start(appex_id@).1,
{
    let c = registrations_command(appex_id);
    (
        ConfigReader { phase: ConfigPhase::Query, appex_id: appex_id.to_owned(), appex: String::new() },
        Step::Perform(Effect::Run(c)),
    )
}

impl ConfigReader {
    /// Whether `ev` answers what the configuration reader waits for.
    pub fn accepts(&self, ev: &Event) -> (b: bool)
        ensures
            b == config_accepts(self@, ev@),
    {
        match self.phase {
            ConfigPhase::Query => matches!(ev, Event::Ran(_)),
            ConfigPhase::ReadInfo => matches!(ev, Event::Plist(_)),
            ConfigPhase::Finished => false,
        }
    }

    /// Takes the answer to the last request and says what comes next.
    pub fn step(&mut self, ev: Event) -> (out: Step<(u16, String), Error>)
        requires
            config_accepts(old(self)@, ev@),
        ensures
            final(self)@ == config_next(old(self)@, ev@).0,
            out@ == config_next(old(self)@, ev@).1,
    {
        match (self.phase, ev) {
            (ConfigPhase::Query, Event::Ran(r)) => {
                match registrations(self.appex_id.as_str(), r) {
                    Err(e) => {
                        self.phase = ConfigPhase::Finished;
                        Step::Finish(Err(Error::Installer(e)))
                    },
                    Ok(st) => match select_registration(&st) {
                        None => {
                            self.phase = ConfigPhase::Finished;
                            Step::Finish(Err(Error::ExtensionNotRegistered))
                        },
                        Some(i) => {
                            proof {
                                crate::registration::law_elected_registration_wins(statuses_view(st@));
                            }
                            assert(statuses_view(st@)[i as int] == st@[i as int]@);
                            let appex = appex_path(st[i].app_path.as_str());
                            let e = Effect::ReadPlist(info_plist_path(appex.as_str()));
                            self.appex = appex;
                            self.phase = ConfigPhase::ReadInfo;
                            Step::Perform(e)
                        },
                    },
                }
            },
            (ConfigPhase::ReadInfo, Event::Plist(Err(m))) => {
                self.phase = ConfigPhase::Finished;
                Step::Finish(Err(Error::Installer(installer::Error::Info(InfoError::Plist(m)))))
            },
            (ConfigPhase::ReadInfo, Event::Plist(Ok(v))) => {
                self.phase = ConfigPhase::Finished;
                Step::Finish(config_from(v))
            },
            _ => {
                self.phase = ConfigPhase::Finished;
                Step::Finish(Err(Error::ExtensionNotRegistered))
            },
        }
    }
}

/// A running session: the mounted volume and the port its requests are
/// served on.
#[derive(Debug, PartialEq, Eq)]
pub struct Session {
    pub mounter: Mounter,
    pub server_port: u16,
}

#[verifier::ext_equal]
pub struct SessionView {
    pub mounter: MounterView,
    pub server_port: u16,
}

impl View for Session {
    type V = SessionView;

    open spec fn view(&self) -> SessionView {
        SessionView { mounter: self.mounter@, server_port: self.server_port }
    }
}

/// Where starting a session stands.
#[derive(PartialEq, Eq, Structural, Clone, Copy)]
pub enum StartPhase {
    Config,
    StartSocket,
    Mounting,
    StopSocket,
    Finished,
}

/// Starts a session; see `start_next`.
pub struct SessionStarter {
    pub phase: StartPhase,
    pub mount_point: String,
    pub force: bool,
    pub config: ConfigReader,
    pub server_port: u16,
    pub mount: MountProcedure,
    pub failure: Option<mounter::Error>,
}

#[verifier::ext_equal]
pub struct SessionStarterView {
    pub phase: StartPhase,
    pub mount_point: Seq<char>,
    pub force: bool,
    pub config: ConfigReaderView,
    pub server_port: u16,
    pub mount: MountView,
    pub failure: Option<mounter::ErrorView>,
}

impl View for SessionStarter {
    type V = SessionStarterView;

    open spec fn view(&self) -> SessionStarterView {
        SessionStarterView {
            phase: self.phase,
            mount_point: self.mount_point@,
            force: self.force,
            config: self.config@,
            server_port: self.server_port,
            mount: self.mount@,
            failure: match self.failure {
                Some(e) => Some(e@),
                None => None,
            },
        }
    }
}

/// Whether `ev` answers what starting the session waits for.
pub open spec fn start_accepts(s: SessionStarterView, ev: EventView) -> bool {
    match s.phase {
        StartPhase::Config => config_accepts(s.config, ev),
        StartPhase::Mounting => mount_accepts(s.mount, ev),
        StartPhase::StartSocket | StartPhase::StopSocket => ev is Done,
        StartPhase::Finished => false,
    }
}

/// Starting a session for the extension `fskit_id`, to be mounted at
/// `mount_point`: first read the configuration.
pub open spec fn start_start(fskit_id: Seq<char>, mount_point: Seq<char>, force: bool) -> (SessionStarterView, StepView<SessionView, ErrorView>) {
    let (c, first) = config_start(fskit_id);
    (
        SessionStarterView {
            phase: StartPhase::Config,
            mount_point,
            force,
            config: c,
            server_port: 0,
            mount: mount_start(seq![], seq![], false).0,
            failure: None,
        },
        match first {
            StepView::Perform(e) => StepView::Perform(e),
            StepView::Finish(_) => StepView::Finish(Err(ErrorView::ExtensionNotRegistered)),
        },
    )
}

/// One step of starting a session. The configuration gives the port and the
/// file-system type; the socket is served on the port, and the volume is
/// mounted. Where mounting fails, the socket is stopped before the session
/// reports the mount's error.
pub open spec fn start_next(s: SessionStarterView, ev: EventView) -> (SessionStarterView, StepView<SessionView, ErrorView>) {
    let done = SessionStarterView { phase: StartPhase::Finished, ..s };
    match (s.phase, ev) {
        (StartPhase::Config, _) => {
            let (c, st) = config_next(s.config, ev);
            match st {
                StepView::Perform(e) => (SessionStarterView { config: c, ..s }, StepView::Perform(e)),
                StepView::Finish(Err(e)) => (SessionStarterView { config: c, ..done }, StepView::Finish(Err(e))),
                StepView::Finish(Ok((port, fs_type))) => {
                    let (m, _) = mount_start(s.mount_point, fs_type, s.force);
                    (
                        SessionStarterView {
                            phase: StartPhase::StartSocket,
                            config: c,
                            server_port: port,
                            mount: m,
                            ..s
                        },
                        StepView::Perform(EffectView::StartSocket(port)),
                    )
                },
            }
        },
        (StartPhase::StartSocket, EventView::Done(Err(m))) => (done, StepView::Finish(Err(ErrorView::Socket(m)))),
        (StartPhase::StartSocket, EventView::Done(Ok(()))) => (
            SessionStarterView { phase: StartPhase::Mounting, ..s },
            StepView::Perform(EffectView::Exists(s.mount_point)),
        ),
        (StartPhase::Mounting, _) => {
            let (m, st) = mount_next(s.mount, ev);
            match st {
                StepView::Perform(e) => (SessionStarterView { mount: m, ..s }, StepView::Perform(e)),
                StepView::Finish(Ok(mv)) => (
                    SessionStarterView { mount: m, ..done },
                    StepView::Finish(Ok(SessionView { mounter: mv, server_port: s.server_port })),
                ),
                StepView::Finish(Err(e)) => (
                    SessionStarterView { phase: StartPhase::StopSocket, mount: m, failure: Some(e), ..s },
                    StepView::Perform(EffectView::StopSocket),
                ),
            }
        },
        (StartPhase::StopSocket, EventView::Done(_)) => {
            let cleared = SessionStarterView { failure: None, ..done };
            match s.failure {
                Some(e) => (cleared, StepView::Finish(Err(ErrorView::Mounter(e)))),
                None => (cleared, StepView::Finish(Err(ErrorView::ExtensionNotRegistered))),
            }
        },
        // An answer of another kind; `start_accepts` rules it out.
        _ => (done, StepView::Finish(Err(ErrorView::ExtensionNotRegistered))),
    }
}

impl SessionStarter {
    /// Whether `ev` answers what starting the session waits for.
    pub fn accepts(&self, ev: &Event) -> (b: bool)
        ensures
            b == start_accepts(self@, ev@),
    {
        match self.phase {
            StartPhase::Config => self.config.accepts(ev),
            StartPhase::Mounting => self.mount.accepts(ev),
            StartPhase::StartSocket | StartPhase::StopSocket => matches!(ev, Event::Done(_)),
            StartPhase::Finished => false,
        }
    }

    /// Starts a session for the extension `fskit_id` mounted at `mount_point`.
    pub fn start(fskit_id: &str, mount_point: &str, force: bool) -> (r: (SessionStarter, Step<Session, Error>))
        ensures
            r.0@ == start_start(fskit_id@, mount_point@, force).0,
            r.1@ == start_start(fskit_id@, mount_point@, force).1,
    {
        let (config, first) = read_config(fskit_id);
        let (mount, _) = MountProcedure::start("", "", false);
        proof {
            reveal_strlit("");
        }
        let out = match first {
            Step::Perform(e) => Step::Perform(e),
            Step::Finish(_) => Step::Finish(Err(Error::ExtensionNotRegistered)),
        };
        (
            SessionStarter {
                phase: StartPhase::Config,
                mount_point: mount_point.to_owned(),
                force,
                config,
                server_port: 0,
                mount,
                failure: None,
            },
            out,
        )
    }

    /// Takes the answer to the last request and says what comes next.
    pub fn step(&mut self, ev: Event) -> (out: Step<Session, Error>)
        requires
            start_accepts(old(self)@, ev@),
        ensures
            final(self)@ == start_next(old(self)@, ev@).0,
            out@ == start_next(old(self)@, ev@).1,
    {
        match self.phase {
            StartPhase::Config => {
                match self.config.step(ev) {
                    Step::Perform(e) => Step::Perform(e),
                    Step::Finish(Err(e)) => {
                        self.phase = StartPhase::Finished;
                        Step::Finish(Err(e))
                    },
                    Step::Finish(Ok((port, fs_type))) => {
                        let (m, _) = MountProcedure::start(self.mount_point.as_str(), fs_type.as_str(), self.force);
                        self.mount = m;
                        self.server_port = port;
                        self.phase = StartPhase::StartSocket;
                        Step::Perform(Effect::StartSocket(port))
                    },
                }
            },
            StartPhase::Mounting => {
                match self.mount.step(ev) {
                    Step::Perform(e) => Step::Perform(e),
                    Step::Finish(Ok(m)) => {
                        self.phase = StartPhase::Finished;
                        Step::Finish(Ok(Session { mounter: m, server_port: self.server_port }))
                    },
                    Step::Finish(Err(e)) => {
                        self.failure = Some(e);
                        self.phase = StartPhase::StopSocket;
                        Step::Perform(Effect::StopSocket)
                    },
                }
            },
            StartPhase::StartSocket => {
                match ev {
                    Event::Done(Err(m)) => {
                        self.phase = StartPhase::Finished;
                        Step::Finish(Err(Error::Socket(m)))
                    },
                    Event::Done(Ok(())) => {
                        self.phase = StartPhase::Mounting;
                        Step::Perform(Effect::Exists(self.mount_point.clone()))
                    },
                    _ => {
                        self.phase = StartPhase::Finished;
                        Step::Finish(Err(Error::ExtensionNotRegistered))
                    },
                }
            },
            StartPhase::StopSocket => {
                self.phase = StartPhase::Finished;
                match self.failure.take() {
                    Some(e) => Step::Finish(Err(Error::Mounter(e))),
                    None => Step::Finish(Err(Error::ExtensionNotRegistered)),
                }
            },
            StartPhase::Finished => Step::Finish(Err(Error::ExtensionNotRegistered)),
        }
    }
}


/// A session whose mount fails stops serving the socket before it reports
/// the mount's error; a session that starts reports the mounted volume and
/// the configured port.
pub proof fn law_failed_mount_stops_socket(s: SessionStarterView, ev: EventView)
    ensures
        start_next(s, ev).1 matches StepView::Finish(Err(ErrorView::Mounter(_))) ==> s.phase == StartPhase::StopSocket,
        s.phase == StartPhase::Mounting ==> (mount_next(s.mount, ev).1 matches StepView::Finish(Err(e)) ==> (
            start_next(s, ev).1 == StepView::<SessionView, ErrorView>::Perform(EffectView::StopSocket)
            && start_next(s, ev).0.failure == Some(e))),
        start_next(s, ev).1 matches StepView::Finish(Ok(session)) ==> {
            &&& s.phase == StartPhase::Mounting
            &&& mount_next(s.mount, ev).1 == StepView::<MounterView, mounter::ErrorView>::Finish(Ok(session.mounter))
            &&& session.server_port == s.server_port
        },
{
}

/// A session keeps the options it was started with, and the mount it starts
/// once the configuration is read carries them: the session's mount point,
/// the configured file-system type, and forced exactly when the session is.
/// So, after the socket is served, a forced session whose mount point exists
/// first unmounts whatever is mounted there; an unforced one goes to the disk
/// image at once.
pub proof fn law_session_mount_follows_options(
    fskit_id: Seq<char>,
    mount_point: Seq<char>,
    force: bool,
    s: SessionStarterView,
    ev: EventView,
    port: u16,
    fs_type: Seq<char>,
)
    requires
        s.phase == StartPhase::Config,
        config_next(s.config, ev).1 == StepView::<(u16, Seq<char>), ErrorView>::Finish(Ok((port, fs_type))),
    ensures
        start_start(fskit_id, mount_point, force).0.force == force,
        start_start(fskit_id, mount_point, force).0.mount_point == mount_point,
        start_start(fskit_id, mount_point, force).0.phase == StartPhase::Config,
        start_next(s, ev).0.mount.force == s.force,
        start_next(s, ev).0.mount.mount_point == s.mount_point,
        start_next(s, ev).0.mount.fs_type == fs_type,
        start_next(s, ev).0.server_port == port,
        start_next(s, ev).1 == StepView::<SessionView, ErrorView>::Perform(EffectView::StartSocket(port)),
        ({
            let served = start_next(s, ev).0;
            let checking = start_next(served, EventView::Done(Ok(())));
            &&& checking.1 == StepView::<SessionView, ErrorView>::Perform(EffectView::Exists(s.mount_point))
            &&& start_next(checking.0, EventView::Exists(true)).1 == if s.force {
                StepView::<SessionView, ErrorView>::Perform(EffectView::Run(umount_force(s.mount_point)))
            } else {
                StepView::<SessionView, ErrorView>::Perform(EffectView::Exists(image_path(fs_type)))
            }
        }),
{
}

} // verus!
