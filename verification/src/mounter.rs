//! Mounting an FSKit volume: a raw disk image is attached as a device and
//! mounted with the extension's file-system type; unmounting reverses both.

use vstd::prelude::*;
use crate::command::{
    Command, CommandView, CommandOutput, CommandOutputView, Effect, EffectView, Event, EventView,
    Step, StepView, command, failure_text, describe_failure, make_command, decode_lossy,
    decode_strict, utf8_lossy,
};
use vstd::utf8::{valid_utf8, decode_utf8};
use crate::registration::ran_view;
use crate::text::{chars_of, contains, str_contains, string_of, trim, trim_chars};

verus! {

pub const UMOUNT: &'static str = "umount";
pub const MOUNT: &'static str = "mount";
pub const HDIUTIL: &'static str = "hdiutil";

/// How long a mount may take before it is given up, in milliseconds.
pub const MOUNT_TIMEOUT_MS: u64 = 3000;

/// How long to wait between two looks at a running mount, in milliseconds.
pub const MOUNT_POLL_MS: u64 = 100;

/// Why mounting or unmounting failed.
#[derive(Debug, PartialEq, Eq)]
pub enum Error {
    /// An I/O error (its message).
    Io(String),
    /// The mount point does not exist.
    MountPointMissing,
    /// `hdiutil` named no usable device.
    InvalidDevice,
    /// `hdiutil attach` failed (its description).
    AttachFailed(String),
    /// The file-system extension is disabled.
    ExtensionDisabled,
    /// The mount point is in use.
    MountPointBusy,
    /// The extension was updated; the system must be restarted.
    NeedReboot,
    /// `mount` failed for another reason.
    MountFailed,
    /// `umount` failed (its description).
    UnmountFailed(String),
    /// `hdiutil detach` failed (its description).
    DetachFailed(String),
}

pub enum ErrorView {
    Io(Seq<char>),
    MountPointMissing,
    InvalidDevice,
    AttachFailed(Seq<char>),
    ExtensionDisabled,
    MountPointBusy,
    NeedReboot,
    MountFailed,
    UnmountFailed(Seq<char>),
    DetachFailed(Seq<char>),
}

impl View for Error {
    type V = ErrorView;

    open spec fn view(&self) -> ErrorView {
        match self {
            Error::Io(m) => ErrorView::Io(m@),
            Error::MountPointMissing => ErrorView::MountPointMissing,
            Error::InvalidDevice => ErrorView::InvalidDevice,
            Error::AttachFailed(m) => ErrorView::AttachFailed(m@),
            Error::ExtensionDisabled => ErrorView::ExtensionDisabled,
            Error::MountPointBusy => ErrorView::MountPointBusy,
            Error::NeedReboot => ErrorView::NeedReboot,
            Error::MountFailed => ErrorView::MountFailed,
            Error::UnmountFailed(m) => ErrorView::UnmountFailed(m@),
            Error::DetachFailed(m) => ErrorView::DetachFailed(m@),
        }
    }
}

/// `umount -f <path>`.
pub open spec fn umount_force(path: Seq<char>) -> CommandView {
    command(UMOUNT@, seq!["-f"@, path])
}

pub fn umount_command(path: &str) -> (c: Command)
    ensures
        c@ == umount_force(path@),
{
    let args = vec!["-f".to_owned(), path.to_owned()];
    assert(args.deep_view() =~= seq!["-f"@, path@]);
    make_command(UMOUNT, args)
}

/// `hdiutil attach -imagekey diskimage-class=CRawDiskImage -nomount <image>`.
pub open spec fn hdiutil_attach(image: Seq<char>) -> CommandView {
    command(HDIUTIL@, seq!["attach"@, "-imagekey"@, "diskimage-class=CRawDiskImage"@, "-nomount"@, image])
}

pub fn attach_command(image: &str) -> (c: Command)
    ensures
        c@ == hdiutil_attach(image@),
{
    let args = vec![
        "attach".to_owned(),
        "-imagekey".to_owned(),
        "diskimage-class=CRawDiskImage".to_owned(),
        "-nomount".to_owned(),
        image.to_owned(),
    ];
    assert(args.deep_view() =~= seq!["attach"@, "-imagekey"@, "diskimage-class=CRawDiskImage"@, "-nomount"@, image@]);
    make_command(HDIUTIL, args)
}

/// `hdiutil detach <device>`.
pub open spec fn hdiutil_detach(device: Seq<char>) -> CommandView {
    command(HDIUTIL@, seq!["detach"@, device])
}

pub fn detach_command(device: &str) -> (c: Command)
    ensures
        c@ == hdiutil_detach(device@),
{
    let args = vec!["detach".to_owned(), device.to_owned()];
    assert(args.deep_view() =~= seq!["detach"@, device@]);
    make_command(HDIUTIL, args)
}

/// `mount -F -t <fs_type> <device> <mount_point>`.
pub open spec fn mount_cmd(fs_type: Seq<char>, device: Seq<char>, mount_point: Seq<char>) -> CommandView {
    command(MOUNT@, seq!["-F"@, "-t"@, fs_type, device, mount_point])
}

pub fn mount_command(fs_type: &str, device: &str, mount_point: &str) -> (c: Command)
    ensures
        c@ == mount_cmd(fs_type@, device@, mount_point@),
{
    let args = vec![
        "-F".to_owned(),
        "-t".to_owned(),
        fs_type.to_owned(),
        device.to_owned(),
        mount_point.to_owned(),
    ];
    assert(args.deep_view() =~= seq!["-F"@, "-t"@, fs_type@, device@, mount_point@]);
    make_command(MOUNT, args)
}

/// The disk image of the file-system type `fs_type`: `/tmp/<fs_type>.dmg`.
pub open spec fn image_path(fs_type: Seq<char>) -> Seq<char> {
    "/tmp/"@ + fs_type + ".dmg"@
}

pub fn make_image_path(fs_type: &str) -> (r: String)
    ensures
        r@ == image_path(fs_type@),
{
    let mut out = chars_of("/tmp/");
    let t = chars_of(fs_type);
    let tail = chars_of(".dmg");
    let mut k: usize = 0;
    let ghost p0 = out@;
    while k < t.len()
        invariant
            0 <= k <= t@.len(),
            out@ == p0 + t@.take(k as int),
        decreases t@.len() - k,
    {
        out.push(t[k]);
        k = k + 1;
        assert(out@ =~= p0 + t@.take(k as int));
    }
    assert(t@.take(t@.len() as int) =~= t@);
    let ghost p1 = out@;
    k = 0;
    while k < tail.len()
        invariant
            0 <= k <= tail@.len(),
            out@ == p1 + tail@.take(k as int),
        decreases tail@.len() - k,
    {
        out.push(tail[k]);
        k = k + 1;
        assert(out@ =~= p1 + tail@.take(k as int));
    }
    assert(tail@.take(tail@.len() as int) =~= tail@);
    assert(out@ =~= image_path(fs_type@));
    string_of(out.as_slice())
}

/// What the standard error of a failed `mount` says went wrong.
pub open spec fn mount_failure(stderr: Seq<char>) -> ErrorView {
    if contains(stderr, "is disabled"@) {
        ErrorView::ExtensionDisabled
    } else if contains(stderr, "Resource busy"@) {
        ErrorView::MountPointBusy
    } else if contains(stderr, "Probing resource"@) || contains(stderr, "Loading resource"@) {
        ErrorView::NeedReboot
    } else {
        ErrorView::MountFailed
    }
}

/// Classifies the standard error of a failed `mount`.
pub fn classify_mount_failure(stderr: &str) -> (r: Error)
    ensures
        r@ == mount_failure(stderr@),
{
    if str_contains(stderr, "is disabled") {
        Error::ExtensionDisabled
    } else if str_contains(stderr, "Resource busy") {
        Error::MountPointBusy
    } else if str_contains(stderr, "Probing resource") || str_contains(stderr, "Loading resource") {
        Error::NeedReboot
    } else {
        Error::MountFailed
    }
}

/// The device that attaching `image` produced, given what running
/// `hdiutil_attach(image)` returned: its standard output, which must be UTF-8,
/// trimmed, which must not be empty.
pub open spec fn attached_device(ran: Result<CommandOutputView, Seq<char>>) -> Result<Seq<char>, ErrorView> {
    match ran {
        Err(m) => Err(ErrorView::Io(m)),
        Ok(o) => if !o.success {
            Err(ErrorView::AttachFailed(failure_text(o)))
        } else {
            device_in(if valid_utf8(o.stdout) { Some(decode_utf8(o.stdout)) } else { None })
        },
    }
}

/// The device named by the decoded standard output of `hdiutil attach`
/// (`None` where it was not UTF-8): the text trimmed, which must not be
/// empty.
pub open spec fn device_in(text: Option<Seq<char>>) -> Result<Seq<char>, ErrorView> {
    match text {
        None => Err(ErrorView::InvalidDevice),
        Some(t) => if trim(t).len() == 0 {
            Err(ErrorView::InvalidDevice)
        } else {
            Ok(trim(t))
        },
    }
}

/// The device named by the decoded output of `hdiutil attach`.
pub fn device_of(text: Option<String>) -> (r: Result<String, Error>)
    ensures
        match device_in(match text { Some(t) => Some(t@), None => None }) {
            Ok(d) => r matches Ok(s) && s@ == d,
            Err(e) => r matches Err(err) && err@ == e,
        },
{
    match text {
        None => Err(Error::InvalidDevice),
        Some(t) => {
            let d = trim_chars(&chars_of(t.as_str()));
            if d.len() == 0 {
                Err(Error::InvalidDevice)
            } else {
                Ok(string_of(d.as_slice()))
            }
        },
    }
}

/// The device named by a run of `hdiutil attach`.
pub fn attach_image(ran: Result<CommandOutput, String>) -> (r: Result<String, Error>)
    ensures
        match attached_device(ran_view(ran)) {
            Ok(d) => r matches Ok(s) && s@ == d,
            Err(e) => r matches Err(err) && err@ == e,
        },
{
    match ran {
        Err(m) => Err(Error::Io(m)),
        Ok(o) => {
            if !o.success {
                return Err(Error::AttachFailed(describe_failure(&o)));
            }
            device_of(decode_strict(o.stdout.as_slice()))
        },
    }
}

/// The outcome of a run of `umount -f`.
pub open spec fn unmounted(ran: Result<CommandOutputView, Seq<char>>) -> Result<(), ErrorView> {
    match ran {
        Err(m) => Err(ErrorView::Io(m)),
        Ok(o) => if o.success {
            Ok(())
        } else {
            Err(ErrorView::UnmountFailed(failure_text(o)))
        },
    }
}

/// The outcome of a run of `hdiutil detach`.
pub open spec fn detached(ran: Result<CommandOutputView, Seq<char>>) -> Result<(), ErrorView> {
    match ran {
        Err(m) => Err(ErrorView::Io(m)),
        Ok(o) => if o.success {
            Ok(())
        } else {
            Err(ErrorView::DetachFailed(failure_text(o)))
        },
    }
}

pub open spec fn unit_result(r: Result<(), Error>) -> Result<(), ErrorView> {
    match r {
        Ok(()) => Ok(()),
        Err(e) => Err(e@),
    }
}

/// Decides the outcome of a run of `umount -f`.
pub fn unmount(ran: Result<CommandOutput, String>) -> (r: Result<(), Error>)
    ensures
        unit_result(r) == unmounted(ran_view(ran)),
{
    match ran {
        Err(m) => Err(Error::Io(m)),
        Ok(o) => if o.success {
            Ok(())
        } else {
            Err(Error::UnmountFailed(describe_failure(&o)))
        },
    }
}

/// Decides the outcome of a run of `hdiutil detach`.
pub fn detach(ran: Result<CommandOutput, String>) -> (r: Result<(), Error>)
    ensures
        unit_result(r) == detached(ran_view(ran)),
{
    match ran {
        Err(m) => Err(Error::Io(m)),
        Ok(o) => if o.success {
            Ok(())
        } else {
            Err(Error::DetachFailed(describe_failure(&o)))
        },
    }
}

/// A mounted volume: where it is mounted, and the device it is mounted from.
#[derive(Debug, PartialEq, Eq)]
pub struct Mounter {
    pub path: String,
    pub device: String,
}

#[verifier::ext_equal]
pub struct MounterView {
    pub path: Seq<char>,
    pub device: Seq<char>,
}

impl View for Mounter {
    type V = MounterView;

    open spec fn view(&self) -> MounterView {
        MounterView { path: self.path@, device: self.device@ }
    }
}

/// Where a mount stands.
#[derive(PartialEq, Eq, Structural, Clone, Copy)]
pub enum MountPhase {
    CheckMountPoint,
    ForceUnmount,
    CheckImage,
    CreateImage,
    Attach,
    StartMount,
    Waiting,
    Sleeping,
    Killing,
    Finished,
}

/// Mounts a volume; see `mount_next`.
pub struct MountProcedure {
    pub phase: MountPhase,
    pub mount_point: String,
    pub fs_type: String,
    pub force: bool,
    pub image: String,
    pub device: String,
}

#[verifier::ext_equal]
pub struct MountView {
    pub phase: MountPhase,
    pub mount_point: Seq<char>,
    pub fs_type: Seq<char>,
    pub force: bool,
    pub image: Seq<char>,
    pub device: Seq<char>,
}

impl View for MountProcedure {
    type V = MountView;

    open spec fn view(&self) -> MountView {
        MountView {
            phase: self.phase,
            mount_point: self.mount_point@,
            fs_type: self.fs_type@,
            force: self.force,
            image: self.image@,
            device: self.device@,
        }
    }
}

pub open spec fn mount_at(s: MountView, phase: MountPhase) -> MountView {
    MountView { phase, ..s }
}

/// Whether `ev` answers what the mount waits for.
pub open spec fn mount_accepts(s: MountView, ev: EventView) -> bool {
    match s.phase {
        MountPhase::CheckMountPoint | MountPhase::CheckImage => ev is Exists,
        MountPhase::ForceUnmount | MountPhase::Attach => ev is Ran,
        MountPhase::Waiting => ev is Running || ev is Exited,
        MountPhase::Finished => false,
        _ => ev is Done,
    }
}

/// Starting to mount the file-system type `fs_type` at `mount_point`
/// (unmounting whatever is mounted there first when `force` holds): first ask
/// whether the mount point exists.
pub open spec fn mount_start(mount_point: Seq<char>, fs_type: Seq<char>, force: bool) -> (MountView, StepView<MounterView, ErrorView>) {
    (
        MountView {
            phase: MountPhase::CheckMountPoint,
            mount_point,
            fs_type,
            force,
            image: image_path(fs_type),
            device: seq![],
        },
        StepView::Perform(EffectView::Exists(mount_point)),
    )
}

pub open spec fn mount_finish(s: MountView, r: Result<MounterView, ErrorView>) -> (MountView, StepView<MounterView, ErrorView>) {
    (mount_at(s, MountPhase::Finished), StepView::Finish(r))
}

/// One step of a mount. The mount point must exist; with `force`, whatever is
/// mounted there is unmounted first (the outcome ignored). The image
/// `/tmp/<fs_type>.dmg` is created where missing and attached; `mount` is
/// started on the device it names and polled every 100 ms. It succeeds when
/// `mount` exits successfully; a failed `mount` is classified by its standard
/// error; one that runs for 3 s or longer is killed and reported as
/// `NeedReboot`.
pub open spec fn mount_next(s: MountView, ev: EventView) -> (MountView, StepView<MounterView, ErrorView>) {
    match (s.phase, ev) {
        (MountPhase::CheckMountPoint, EventView::Exists(present)) => if !present {
            mount_finish(s, Err(ErrorView::MountPointMissing))
        } else if s.force {
            (mount_at(s, MountPhase::ForceUnmount), StepView::Perform(EffectView::Run(umount_force(s.mount_point))))
        } else {
            (mount_at(s, MountPhase::CheckImage), StepView::Perform(EffectView::Exists(s.image)))
        },
        (MountPhase::ForceUnmount, EventView::Ran(_)) => (
            mount_at(s, MountPhase::CheckImage),
            StepView::Perform(EffectView::Exists(s.image)),
        ),
        (MountPhase::CheckImage, EventView::Exists(present)) => if present {
            (mount_at(s, MountPhase::Attach), StepView::Perform(EffectView::Run(hdiutil_attach(s.image))))
        } else {
            (mount_at(s, MountPhase::CreateImage), StepView::Perform(EffectView::CreateFile(s.image)))
        },
        (MountPhase::CreateImage, EventView::Done(r)) => match r {
            Err(m) => mount_finish(s, Err(ErrorView::Io(m))),
            Ok(()) => (mount_at(s, MountPhase::Attach), StepView::Perform(EffectView::Run(hdiutil_attach(s.image)))),
        },
        (MountPhase::Attach, EventView::Ran(r)) => match attached_device(r) {
            Err(e) => mount_finish(s, Err(e)),
            Ok(d) => (
                MountView { phase: MountPhase::StartMount, device: d, ..s },
                StepView::Perform(EffectView::Spawn(mount_cmd(s.fs_type, d, s.mount_point))),
            ),
        },
        (MountPhase::StartMount, EventView::Done(r)) => match r {
            Err(m) => mount_finish(s, Err(ErrorView::Io(m))),
            Ok(()) => (mount_at(s, MountPhase::Waiting), StepView::Perform(EffectView::Poll)),
        },
        (MountPhase::Waiting, EventView::Exited(r)) => match r {
            Err(m) => mount_finish(s, Err(ErrorView::Io(m))),
            Ok(o) => if o.success {
                mount_finish(s, Ok(MounterView { path: s.mount_point, device: s.device }))
            } else {
                mount_finish(s, Err(mount_failure(utf8_lossy(o.stderr))))
            },
        },
        (MountPhase::Waiting, EventView::Running(elapsed)) => if elapsed >= MOUNT_TIMEOUT_MS {
            (mount_at(s, MountPhase::Killing), StepView::Perform(EffectView::Kill))
        } else {
            (mount_at(s, MountPhase::Sleeping), StepView::Perform(EffectView::Sleep(MOUNT_POLL_MS)))
        },
        (MountPhase::Sleeping, EventView::Done(_)) => (
            mount_at(s, MountPhase::Waiting),
            StepView::Perform(EffectView::Poll),
        ),
        (MountPhase::Killing, EventView::Done(_)) => mount_finish(s, Err(ErrorView::NeedReboot)),
        // An answer of another kind; `mount_accepts` rules it out.
        _ => mount_finish(s, Err(ErrorView::MountFailed)),
    }
}

impl MountProcedure {
    /// Whether `ev` answers what the mount waits for.
    pub fn accepts(&self, ev: &Event) -> (b: bool)
        ensures
            b == mount_accepts(self@, ev@),
    {
        match self.phase {
            MountPhase::CheckMountPoint | MountPhase::CheckImage => matches!(ev, Event::Exists(_)),
            MountPhase::ForceUnmount | MountPhase::Attach => matches!(ev, Event::Ran(_)),
            MountPhase::Waiting => matches!(ev, Event::Running(_)) || matches!(ev, Event::Exited(_)),
            MountPhase::Finished => false,
            _ => matches!(ev, Event::Done(_)),
        }
    }

    /// Starts mounting the file-system type `fs_type` at `mount_point`.
    pub fn start(mount_point: &str, fs_type: &str, force: bool) -> (r: (MountProcedure, Step<Mounter, Error>))
        ensures
            r.0@ == mount_start(mount_point@, fs_type@, force).0,
            r.1@ == mount_start(mount_point@, fs_type@, force).1,
    {
        let image = make_image_path(fs_type);
        let first = Effect::Exists(mount_point.to_owned());
        (
            MountProcedure {
                phase: MountPhase::CheckMountPoint,
                mount_point: mount_point.to_owned(),
                fs_type: fs_type.to_owned(),
                force,
                image,
                device: String::new(),
            },
            Step::Perform(first),
        )
    }

    fn finish(&mut self, r: Result<Mounter, Error>) -> (out: Step<Mounter, Error>)
        ensures
            final(self)@ == mount_at(old(self)@, MountPhase::Finished),
            out@ == StepView::<MounterView, ErrorView>::Finish(match r { Ok(m) => Ok(m@), Err(e) => Err(e@) }),
    {
        self.phase = MountPhase::Finished;
        Step::Finish(r)
    }

    fn advance(&mut self, phase: MountPhase, e: Effect) -> (out: Step<Mounter, Error>)
        ensures
            final(self)@ == mount_at(old(self)@, phase),
            out@ == StepView::<MounterView, ErrorView>::Perform(e@),
    {
        self.phase = phase;
        Step::Perform(e)
    }

    /// Takes the answer to the last request and says what comes next.
    pub fn step(&mut self, ev: Event) -> (out: Step<Mounter, Error>)
        requires
            mount_accepts(old(self)@, ev@),
        ensures
            final(self)@ == mount_next(old(self)@, ev@).0,
            out@ == mount_next(old(self)@, ev@).1,
    {
        match (self.phase, ev) {
            (MountPhase::CheckMountPoint, Event::Exists(present)) => {
                if !present {
                    self.finish(Err(Error::MountPointMissing))
                } else if self.force {
                    let c = umount_command(self.mount_point.as_str());
                    self.advance(MountPhase::ForceUnmount, Effect::Run(c))
                } else {
                    let e = Effect::Exists(self.image.clone());
                    self.advance(MountPhase::CheckImage, e)
                }
            },
            (MountPhase::ForceUnmount, Event::Ran(_)) => {
                let e = Effect::Exists(self.image.clone());
                self.advance(MountPhase::CheckImage, e)
            },
            (MountPhase::CheckImage, Event::Exists(present)) => {
                if present {
                    let c = attach_command(self.image.as_str());
                    self.advance(MountPhase::Attach, Effect::Run(c))
                } else {
                    let e = Effect::CreateFile(self.image.clone());
                    self.advance(MountPhase::CreateImage, e)
                }
            },
            (MountPhase::CreateImage, Event::Done(r)) => {
                match r {
                    Err(m) => self.finish(Err(Error::Io(m))),
                    Ok(()) => {
                        let c = attach_command(self.image.as_str());
                        self.advance(MountPhase::Attach, Effect::Run(c))
                    },
                }
            },
            (MountPhase::Attach, Event::Ran(r)) => {
                match attach_image(r) {
                    Err(e) => self.finish(Err(e)),
                    Ok(d) => {
                        let c = mount_command(self.fs_type.as_str(), d.as_str(), self.mount_point.as_str());
                        self.device = d;
                        self.advance(MountPhase::StartMount, Effect::Spawn(c))
                    },
                }
            },
            (MountPhase::StartMount, Event::Done(r)) => {
                match r {
                    Err(m) => self.finish(Err(Error::Io(m))),
                    Ok(()) => self.advance(MountPhase::Waiting, Effect::Poll),
                }
            },
            (MountPhase::Waiting, Event::Exited(r)) => {
                match r {
                    Err(m) => self.finish(Err(Error::Io(m))),
                    Ok(o) => {
                        if o.success {
                            let m = Mounter { path: self.mount_point.clone(), device: self.device.clone() };
                            self.finish(Ok(m))
                        } else {
                            let text = decode_lossy(o.stderr.as_slice());
                            let e = classify_mount_failure(text.as_str());
                            self.finish(Err(e))
                        }
                    },
                }
            },
            (MountPhase::Waiting, Event::Running(elapsed)) => {
                if elapsed >= MOUNT_TIMEOUT_MS {
                    self.advance(MountPhase::Killing, Effect::Kill)
                } else {
                    self.advance(MountPhase::Sleeping, Effect::Sleep(MOUNT_POLL_MS))
                }
            },
            (MountPhase::Sleeping, Event::Done(_)) => self.advance(MountPhase::Waiting, Effect::Poll),
            (MountPhase::Killing, Event::Done(_)) => self.finish(Err(Error::NeedReboot)),
            _ => self.finish(Err(Error::MountFailed)),
        }
    }
}

/// Where an unmount stands.
#[derive(PartialEq, Eq, Structural, Clone, Copy)]
pub enum UnmountPhase {
    Unmounting,
    Detaching,
    Finished,
}

/// Unmounts a volume and detaches its device; see `unmount_next`.
pub struct Unmounter {
    pub phase: UnmountPhase,
    pub path: String,
    pub device: String,
}

#[verifier::ext_equal]
pub struct UnmounterView {
    pub phase: UnmountPhase,
    pub path: Seq<char>,
    pub device: Seq<char>,
}

impl View for Unmounter {
    type V = UnmounterView;

    open spec fn view(&self) -> UnmounterView {
        UnmounterView { phase: self.phase, path: self.path@, device: self.device@ }
    }
}

/// Whether `ev` answers what the unmount waits for.
pub open spec fn unmount_accepts(s: UnmounterView, ev: EventView) -> bool {
    s.phase != UnmountPhase::Finished && ev is Ran
}

/// Starting to unmount `m`: first run `umount -f` on its mount point.
pub open spec fn unmount_start(m: MounterView) -> (UnmounterView, StepView<(), ErrorView>) {
    (
        UnmounterView { phase: UnmountPhase::Unmounting, path: m.path, device: m.device },
        StepView::Perform(EffectView::Run(umount_force(m.path))),
    )
}

/// One step of an unmount: `umount -f` on the mount point, then `hdiutil
/// detach` on the device; the first failure ends it.
pub open spec fn unmount_next(s: UnmounterView, ev: EventView) -> (UnmounterView, StepView<(), ErrorView>) {
    match (s.phase, ev) {
        (UnmountPhase::Unmounting, EventView::Ran(r)) => match unmounted(r) {
            Ok(()) => (
                UnmounterView { phase: UnmountPhase::Detaching, ..s },
                StepView::Perform(EffectView::Run(hdiutil_detach(s.device))),
            ),
            Err(e) => (UnmounterView { phase: UnmountPhase::Finished, ..s }, StepView::Finish(Err(e))),
        },
        (UnmountPhase::Detaching, EventView::Ran(r)) => (
            UnmounterView { phase: UnmountPhase::Finished, ..s },
            StepView::Finish(detached(r)),
        ),
        // An answer of another kind; `unmount_accepts` rules it out.
        _ => (UnmounterView { phase: UnmountPhase::Finished, ..s }, StepView::Finish(Err(ErrorView::MountFailed))),
    }
}

impl Mounter {
    /// Starts unmounting this volume.
    pub fn unmount(&self) -> (r: (Unmounter, Step<(), Error>))
        ensures
            r.0@ == unmount_start(self@).0,
            r.1@ == unmount_start(self@).1,
    {
        let c = umount_command(self.path.as_str());
        (
            Unmounter { phase: UnmountPhase::Unmounting, path: self.path.clone(), device: self.device.clone() },
            Step::Perform(Effect::Run(c)),
        )
    }
}

impl Unmounter {
    /// Whether `ev` answers what the unmount waits for.
    pub fn accepts(&self, ev: &Event) -> (b: bool)
        ensures
            b == unmount_accepts(self@, ev@),
    {
        self.phase != UnmountPhase::Finished && matches!(ev, Event::Ran(_))
    }

    /// Takes the answer to the last request and says what comes next.
    pub fn step(&mut self, ev: Event) -> (out: Step<(), Error>)
        requires
            unmount_accepts(old(self)@, ev@),
        ensures
            final(self)@ == unmount_next(old(self)@, ev@).0,
            out@ == unmount_next(old(self)@, ev@).1,
    {
        match (self.phase, ev) {
            (UnmountPhase::Unmounting, Event::Ran(r)) => {
                match unmount(r) {
                    Ok(()) => {
                        self.phase = UnmountPhase::Detaching;
                        Step::Perform(Effect::Run(detach_command(self.device.as_str())))
                    },
                    Err(e) => {
                        self.phase = UnmountPhase::Finished;
                        Step::Finish(Err(e))
                    },
                }
            },
            (UnmountPhase::Detaching, Event::Ran(r)) => {
                self.phase = UnmountPhase::Finished;
                Step::Finish(detach(r))
            },
            _ => {
                self.phase = UnmountPhase::Finished;
                Step::Finish(Err(Error::MountFailed))
            },
        }
    }
}


/// A mount succeeds only when `mount` exits successfully, and the volume it
/// reports is mounted at the requested mount point from the attached device.
pub proof fn law_mount_success_means_mounted(s: MountView, ev: EventView)
    ensures
        mount_next(s, ev).1 matches StepView::Finish(Ok(m)) ==> {
            &&& s.phase == MountPhase::Waiting
            &&& ev matches EventView::Exited(Ok(o))
            &&& o.success
            &&& m == MounterView { path: s.mount_point, device: s.device }
        },
{
}

/// A mount that is still running 3 s after it started is killed, and the
/// kill ends it with `NeedReboot`; one still running earlier is polled again
/// after 100 ms.
pub proof fn law_mount_times_out(s: MountView, elapsed: u64)
    requires
        s.phase == MountPhase::Waiting,
    ensures
        elapsed >= 3000 ==> mount_next(s, EventView::Running(elapsed)).1 == StepView::<MounterView, ErrorView>::Perform(EffectView::Kill)
            && mount_next(mount_next(s, EventView::Running(elapsed)).0, EventView::Done(Ok(()))).1
            == StepView::<MounterView, ErrorView>::Finish(Err(ErrorView::NeedReboot)),
        elapsed < 3000 ==> mount_next(s, EventView::Running(elapsed)).1 == StepView::<MounterView, ErrorView>::Perform(EffectView::Sleep(100))
            && mount_next(mount_next(s, EventView::Running(elapsed)).0, EventView::Done(Ok(()))).1
            == StepView::<MounterView, ErrorView>::Perform(EffectView::Poll),
{
}

/// Once a device is attached it stays named: from the start of `mount` on,
/// the device is not empty.
pub open spec fn mount_inv(s: MountView) -> bool {
    (s.phase == MountPhase::StartMount || s.phase == MountPhase::Waiting || s.phase
        == MountPhase::Sleeping || s.phase == MountPhase::Killing) ==> s.device.len() > 0
}

/// Every step of a mount keeps `mount_inv`, which holds at the start, so a
/// mounted volume always names a non-empty device.
pub proof fn law_mount_device_is_named(s: MountView, ev: EventView, mount_point: Seq<char>, fs_type: Seq<char>, force: bool)
    ensures
        mount_inv(mount_start(mount_point, fs_type, force).0),
        mount_inv(s) ==> mount_inv(mount_next(s, ev).0),
        mount_inv(s) ==> (mount_next(s, ev).1 matches StepView::Finish(Ok(m)) ==> m.device.len() > 0),
{
}

/// An unmount detaches the device only after `umount` succeeded, and
/// succeeds only when the detach succeeded as well.
pub proof fn law_unmount_in_order(s: UnmounterView, ev: EventView)
    ensures
        unmount_next(s, ev).1 == StepView::<(), ErrorView>::Perform(EffectView::Run(hdiutil_detach(s.device))) ==> {
            &&& s.phase == UnmountPhase::Unmounting
            &&& ev matches EventView::Ran(Ok(o))
            &&& o.success
        },
        unmount_next(s, ev).1 == StepView::<(), ErrorView>::Finish(Ok(())) ==> {
            &&& s.phase == UnmountPhase::Detaching
            &&& ev matches EventView::Ran(Ok(o))
            &&& o.success
        },
{
}

/// The answer to the forced unmount decides nothing: whether `umount`
/// succeeded, failed (as it does where nothing is mounted) or could not be
/// run, the mount goes on to the disk image in the same way.
pub proof fn law_forced_unmount_outcome_is_ignored(
    s: MountView,
    r: Result<CommandOutputView, Seq<char>>,
    other: Result<CommandOutputView, Seq<char>>,
)
    requires
        s.phase == MountPhase::ForceUnmount,
    ensures
        mount_next(s, EventView::Ran(r)) == mount_next(s, EventView::Ran(other)),
        mount_next(s, EventView::Ran(r)).1 == StepView::<MounterView, ErrorView>::Perform(EffectView::Exists(s.image)),
        mount_next(s, EventView::Ran(r)).0.phase == MountPhase::CheckImage,
{
}

/// A mount whose mount point exists unmounts whatever is mounted there first
/// exactly when it is forced, and then, whatever that unmount answered, goes
/// on to the disk image `/tmp/<fs_type>.dmg`, as an unforced mount does at
/// once.
pub proof fn law_force_unmounts_first(
    mount_point: Seq<char>,
    fs_type: Seq<char>,
    force: bool,
    r: Result<CommandOutputView, Seq<char>>,
)
    ensures
        ({
            let checked = mount_next(mount_start(mount_point, fs_type, force).0, EventView::Exists(true));
            &&& force ==> checked.1 == StepView::<MounterView, ErrorView>::Perform(
                EffectView::Run(umount_force(mount_point)),
            )
            &&& force ==> mount_next(checked.0, EventView::Ran(r)).1 == StepView::<MounterView, ErrorView>::Perform(
                EffectView::Exists(image_path(fs_type)),
            )
            &&& !force ==> checked.1 == StepView::<MounterView, ErrorView>::Perform(
                EffectView::Exists(image_path(fs_type)),
            )
        }),
{
}

} // verus!
