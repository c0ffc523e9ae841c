use fskit_rs::command::{Command, CommandOutput, Effect, Event, Step};
use fskit_rs::info::{Error as InfoError, PlistValue};
use fskit_rs::mounter::{self, Mounter};
use fskit_rs::session::{read_config, Error, Session};
use fskit_rs::{installer, mount, MountOptions};

fn s(x: &str) -> String {
    x.to_string()
}

fn ok(stdout: &str) -> Event {
    Event::Ran(Ok(CommandOutput { success: true, status: s("exit status: 0"), stdout: stdout.as_bytes().to_vec(), stderr: vec![] }))
}

fn dict(entries: Vec<(&str, PlistValue)>) -> PlistValue {
    PlistValue::Dictionary(entries.into_iter().map(|(k, v)| (k.to_string(), v)).collect())
}

fn appex_info(port: PlistValue) -> Event {
    Event::Plist(Ok(dict(vec![
        ("Configuration", dict(vec![("serverPort", port)])),
        ("EXAppExtensionAttributes", dict(vec![("FSFileSystemType", PlistValue::String(s("fskitbridge")))])),
    ])))
}

const LISTING: &str = "path = \"/Users/me/Old.app/Contents/Extensions/FSKitExt.appex\";\nelection = 1;\npath = \"/Applications/Bridge.app/Contents/Extensions/FSKitExt.appex\";\n";

#[test]
fn default_mount_options() {
    let o = MountOptions::default();
    assert_eq!(o.fskit_id, "network.debox.fskitbridge.fskitext");
    assert_eq!(o.mount_point, "/tmp/fskitbridge");
    assert!(o.force);
}

#[test]
fn config_uses_the_elected_registration() {
    let (mut c, first) = read_config("network.debox.fskitbridge.fskitext");
    assert_eq!(
        first,
        Step::Perform(Effect::Run(Command {
            program: s("/usr/bin/pluginkit"),
            args: vec![s("-m"), s("-i"), s("network.debox.fskitbridge.fskitext"), s("--raw")],
        }))
    );
    assert_eq!(
        c.step(ok(LISTING)),
        Step::Perform(Effect::ReadPlist(s("/Applications/Bridge.app/Contents/Extensions/FSKitExt.appex/Contents/Info.plist")))
    );
    assert_eq!(c.step(appex_info(PlistValue::Integer(35367))), Step::Finish(Ok((35367, s("fskitbridge")))));
}

#[test]
fn config_errors() {
    let (mut c, _) = read_config("x");
    assert_eq!(c.step(ok("")), Step::Finish(Err(Error::ExtensionNotRegistered)));
    let (mut c, _) = read_config("x");
    c.step(ok(LISTING));
    assert_eq!(c.step(Event::Plist(Err(s("gone")))), Step::Finish(Err(Error::Installer(installer::Error::Info(InfoError::Plist(s("gone")))))));
    let (mut c, _) = read_config("x");
    c.step(ok(LISTING));
    assert_eq!(c.step(appex_info(PlistValue::Other)), Step::Finish(Err(Error::Installer(installer::Error::Info(InfoError::Invalid)))));
    let (mut c, _) = read_config("x");
    assert_eq!(c.step(Event::Ran(Err(s("no pluginkit")))), Step::Finish(Err(Error::Installer(installer::Error::Io(s("no pluginkit"))))));
}

fn started(force: bool) -> fskit_rs::session::SessionStarter {
    let opts = MountOptions { fskit_id: s("x"), mount_point: s("/tmp/mnt"), force };
    let (mut st, _) = mount(&opts);
    st.step(ok(LISTING));
    assert_eq!(st.step(appex_info(PlistValue::String(s("9000")))), Step::Perform(Effect::StartSocket(9000)));
    assert_eq!(st.step(Event::Done(Ok(()))), Step::Perform(Effect::Exists(s("/tmp/mnt"))));
    st
}

#[test]
fn session_starts_socket_then_mounts() {
    let mut st = started(false);
    st.step(Event::Exists(true));
    st.step(Event::Exists(true));
    st.step(ok("/dev/disk9\n"));
    st.step(Event::Done(Ok(())));
    assert_eq!(
        st.step(Event::Exited(Ok(CommandOutput { success: true, status: s(""), stdout: vec![], stderr: vec![] }))),
        Step::Finish(Ok(Session { mounter: Mounter { path: s("/tmp/mnt"), device: s("/dev/disk9") }, server_port: 9000 }))
    );
}

#[test]
fn failed_mount_stops_the_socket_first() {
    let mut st = started(true);
    assert_eq!(st.step(Event::Exists(false)), Step::Perform(Effect::StopSocket));
    assert_eq!(st.step(Event::Done(Ok(()))), Step::Finish(Err(Error::Mounter(mounter::Error::MountPointMissing))));
}

#[test]
fn socket_failure_ends_the_start() {
    let opts = MountOptions::default();
    let (mut st, _) = mount(&opts);
    st.step(ok(LISTING));
    st.step(appex_info(PlistValue::Integer(1)));
    assert_eq!(st.step(Event::Done(Err(s("address in use")))), Step::Finish(Err(Error::Socket(s("address in use")))));
}

#[test]
fn posix_errors_carry_their_number() {
    let e = fskit_rs::Error::Posix(2);
    assert_eq!(e, fskit_rs::Error::Posix(2));
    let _ = Error::Io(s("unused here"));
}
