use fskit_rs::command::{describe, describe_failure, format_command, Command, CommandOutput, Effect, Event, Step};
use fskit_rs::mounter::{
    attach_image, classify_mount_failure, detach, device_of, make_image_path, unmount, Error, MountProcedure, Mounter,
};

fn s(x: &str) -> String {
    x.to_string()
}

fn run(program: &str, args: &[&str]) -> Command {
    Command { program: s(program), args: args.iter().map(|a| s(a)).collect() }
}

fn out(success: bool, stdout: &[u8], stderr: &[u8]) -> CommandOutput {
    CommandOutput { success, status: s("exit status: 1"), stdout: stdout.to_vec(), stderr: stderr.to_vec() }
}

fn exited(success: bool, stderr: &str) -> Event {
    Event::Exited(Ok(out(success, b"", stderr.as_bytes())))
}

fn attach_cmd() -> Command {
    run("hdiutil", &["attach", "-imagekey", "diskimage-class=CRawDiskImage", "-nomount", "/tmp/fskitbridge.dmg"])
}

fn waiting_mount(force: bool) -> MountProcedure {
    let (mut m, first) = MountProcedure::start("/tmp/mnt", "fskitbridge", force);
    assert_eq!(first, Step::Perform(Effect::Exists(s("/tmp/mnt"))));
    if force {
        assert_eq!(m.step(Event::Exists(true)), Step::Perform(Effect::Run(run("umount", &["-f", "/tmp/mnt"]))));
        assert_eq!(m.step(Event::Ran(Err(s("ignored")))), Step::Perform(Effect::Exists(s("/tmp/fskitbridge.dmg"))));
    } else {
        assert_eq!(m.step(Event::Exists(true)), Step::Perform(Effect::Exists(s("/tmp/fskitbridge.dmg"))));
    }
    assert_eq!(m.step(Event::Exists(false)), Step::Perform(Effect::CreateFile(s("/tmp/fskitbridge.dmg"))));
    assert_eq!(m.step(Event::Done(Ok(()))), Step::Perform(Effect::Run(attach_cmd())));
    assert_eq!(
        m.step(Event::Ran(Ok(out(true, b"/dev/disk4          \t\n", b"")))),
        Step::Perform(Effect::Spawn(run("mount", &["-F", "-t", "fskitbridge", "/dev/disk4", "/tmp/mnt"])))
    );
    assert_eq!(m.step(Event::Done(Ok(()))), Step::Perform(Effect::Poll));
    m
}

#[test]
fn mount_attaches_and_mounts() {
    let mut m = waiting_mount(true);
    assert_eq!(m.step(Event::Running(40)), Step::Perform(Effect::Sleep(100)));
    assert_eq!(m.step(Event::Done(Ok(()))), Step::Perform(Effect::Poll));
    assert_eq!(
        m.step(exited(true, "")),
        Step::Finish(Ok(Mounter { path: s("/tmp/mnt"), device: s("/dev/disk4") }))
    );
}

#[test]
fn mount_without_force_skips_unmount() {
    let mut m = waiting_mount(false);
    assert_eq!(m.step(exited(false, "mount: something else")), Step::Finish(Err(Error::MountFailed)));
}

#[test]
fn mount_times_out_after_three_seconds() {
    let mut m = waiting_mount(false);
    assert_eq!(m.step(Event::Running(2999)), Step::Perform(Effect::Sleep(100)));
    assert_eq!(m.step(Event::Done(Ok(()))), Step::Perform(Effect::Poll));
    assert_eq!(m.step(Event::Running(3000)), Step::Perform(Effect::Kill));
    assert_eq!(m.step(Event::Done(Err(s("no such process")))), Step::Finish(Err(Error::NeedReboot)));
}

#[test]
fn mount_failure_is_classified() {
    for (stderr, want) in [
        ("mount: File system named fskitbridge is disabled", Error::ExtensionDisabled),
        ("mount: Resource busy", Error::MountPointBusy),
        ("Probing resource: failed", Error::NeedReboot),
        ("Loading resource", Error::NeedReboot),
        ("is disabled; Resource busy", Error::ExtensionDisabled),
        ("", Error::MountFailed),
    ] {
        let mut m = waiting_mount(false);
        assert_eq!(m.step(exited(false, stderr)), Step::Finish(Err(want)));
    }
    assert_eq!(classify_mount_failure("Resource busy"), Error::MountPointBusy);
}

#[test]
fn mount_errors_before_mounting() {
    let (mut m, _) = MountProcedure::start("/nowhere", "t", true);
    assert_eq!(m.step(Event::Exists(false)), Step::Finish(Err(Error::MountPointMissing)));
    let (mut m, _) = MountProcedure::start("/tmp/mnt", "t", false);
    m.step(Event::Exists(true));
    m.step(Event::Exists(false));
    assert_eq!(m.step(Event::Done(Err(s("read-only")))), Step::Finish(Err(Error::Io(s("read-only")))));
    let (mut m, _) = MountProcedure::start("/tmp/mnt", "t", false);
    m.step(Event::Exists(true));
    m.step(Event::Exists(true));
    assert_eq!(m.step(Event::Ran(Ok(out(false, b"", b"hdiutil: attach failed\n")))), Step::Finish(Err(Error::AttachFailed(s("hdiutil: attach failed")))));
    let mut m = waiting_mount(false);
    assert_eq!(m.step(Event::Exited(Err(s("wait failed")))), Step::Finish(Err(Error::Io(s("wait failed")))));
}

#[test]
fn image_path_is_in_tmp() {
    assert_eq!(make_image_path("fskitbridge"), "/tmp/fskitbridge.dmg");
    assert_eq!(make_image_path(""), "/tmp/.dmg");
}

#[test]
fn attach_output_names_the_device() {
    assert_eq!(attach_image(Ok(out(true, b"/dev/disk5\n", b""))), Ok(s("/dev/disk5")));
    assert_eq!(attach_image(Ok(out(true, b"  \n", b""))), Err(Error::InvalidDevice));
    assert_eq!(attach_image(Ok(out(true, &[0xff, 0xfe], b""))), Err(Error::InvalidDevice));
    assert_eq!(attach_image(Ok(out(false, b"", b""))), Err(Error::AttachFailed(s("exit status: 1"))));
    assert_eq!(attach_image(Err(s("no hdiutil"))), Err(Error::Io(s("no hdiutil"))));
}

#[test]
fn unmount_then_detach() {
    let m = Mounter { path: s("/tmp/mnt"), device: s("/dev/disk4") };
    let (mut u, first) = m.unmount();
    assert_eq!(first, Step::Perform(Effect::Run(run("umount", &["-f", "/tmp/mnt"]))));
    assert_eq!(u.step(Event::Ran(Ok(out(true, b"", b"")))), Step::Perform(Effect::Run(run("hdiutil", &["detach", "/dev/disk4"]))));
    assert_eq!(u.step(Event::Ran(Ok(out(true, b"", b"")))), Step::Finish(Ok(())));
}

#[test]
fn unmount_failures() {
    let m = Mounter { path: s("/tmp/mnt"), device: s("/dev/disk4") };
    let (mut u, _) = m.unmount();
    assert_eq!(u.step(Event::Ran(Ok(out(false, b"", b"umount: not currently mounted")))), Step::Finish(Err(Error::UnmountFailed(s("umount: not currently mounted")))));
    let (mut u, _) = m.unmount();
    u.step(Event::Ran(Ok(out(true, b"", b""))));
    assert_eq!(u.step(Event::Ran(Ok(out(false, b"", b"busy")))), Step::Finish(Err(Error::DetachFailed(s("busy")))));
    assert_eq!(unmount(Err(s("x"))), Err(Error::Io(s("x"))));
    assert_eq!(detach(Ok(out(true, b"", b""))), Ok(()));
}

#[test]
fn failures_are_described_by_trimmed_stderr_or_status() {
    assert_eq!(describe_failure(&out(false, b"", b"  boom \n")), "boom");
    assert_eq!(describe_failure(&out(false, b"", b"\n")), "exit status: 1");
    assert_eq!(describe_failure(&out(false, b"", &[b' ', 0xff, b'x'])), "\u{fffd}x");
    assert_eq!(format_command(&run("umount", &["-f", "/a"])), "umount -f /a");
}

#[test]
fn device_and_description_from_text() {
    assert_eq!(device_of(Some(s(" /dev/disk2\n"))), Ok(s("/dev/disk2")));
    assert_eq!(device_of(Some(s("\n"))), Err(Error::InvalidDevice));
    assert_eq!(device_of(None), Err(Error::InvalidDevice));
    assert_eq!(describe(" x ", "exit status: 3"), "x");
    assert_eq!(describe("", "exit status: 3"), "exit status: 3");
}
