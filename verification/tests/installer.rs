use fskit_rs::command::{Command, CommandOutput, Effect, Event, Step};
use fskit_rs::info::{Error as InfoError, PlistValue};
use fskit_rs::installer::{
    is_registered, run_cmd, Activator, Error, Installer, Uninstaller,
};
use fskit_rs::{activate, install, uninstall};

fn s(x: &str) -> String {
    x.to_string()
}

fn run(program: &str, args: &[&str]) -> Effect {
    Effect::Run(Command { program: s(program), args: args.iter().map(|a| s(a)).collect() })
}

fn ok(stdout: &str) -> Event {
    Event::Ran(Ok(CommandOutput { success: true, status: s("exit status: 0"), stdout: stdout.as_bytes().to_vec(), stderr: vec![] }))
}

fn failed(stderr: &str) -> Event {
    Event::Ran(Ok(CommandOutput { success: false, status: s("exit status: 1"), stdout: vec![], stderr: stderr.as_bytes().to_vec() }))
}

fn info_with_id(id: &str) -> Event {
    Event::Plist(Ok(PlistValue::Dictionary(vec![(s("CFBundleIdentifier"), PlistValue::String(s(id)))])))
}

const CODESIGN: &str = "/usr/bin/codesign";
const LSREGISTER: &str = "/System/Library/Frameworks/CoreServices.framework/Frameworks/LaunchServices.framework/Support/lsregister";
const PLUGINKIT: &str = "/usr/bin/pluginkit";
const APP: &str = "/Applications/Bridge.app";
const APPEX: &str = "/Applications/Bridge.app/Contents/Extensions/FSKitExt.appex";
const ID: &str = "network.debox.fskitbridge.fskitext";

fn listing(app: &str, elected: bool) -> String {
    format!(
        "{{\n    election = {};\n    path = \"{}/Contents/Extensions/FSKitExt.appex\";\n}}\n",
        if elected { 1 } else { 0 },
        app
    )
}

fn codesign(path: &str) -> Effect {
    run(CODESIGN, &["--verify", "--deep", "--strict", "--verbose=2", path])
}

fn query() -> Effect {
    run(PLUGINKIT, &["-m", "-i", ID, "--raw"])
}

#[test]
fn install_copies_verifies_and_activates() {
    let (mut m, first) = install("/tmp/Bridge.app");
    assert_eq!(first, Step::Perform(Effect::Exists(s("/tmp/Bridge.app"))));
    let script: Vec<(Event, Step<(), Error>)> = vec![
        (Event::Exists(true), Step::Perform(Effect::Exists(s(APP)))),
        (Event::Exists(false), Step::Perform(codesign("/tmp/Bridge.app"))),
        (ok(""), Step::Perform(run("ditto", &["/tmp/Bridge.app", APP]))),
        (ok(""), Step::Perform(codesign(APP))),
        (ok(""), Step::Perform(Effect::Exists(s(APP)))),
        (Event::Exists(true), Step::Perform(codesign(APP))),
        (ok(""), Step::Perform(Effect::Exists(s(APPEX)))),
        (Event::Exists(true), Step::Perform(Effect::ReadPlist(format!("{}/Contents/Info.plist", APPEX)))),
        (info_with_id(ID), Step::Perform(query())),
        (ok(&listing(APP, false)), Step::Perform(run("/usr/bin/xattr", &["-p", "com.apple.quarantine", APP]))),
        (failed("No such xattr"), Step::Perform(run(LSREGISTER, &["-f", "-R", APP]))),
        (ok(""), Step::Perform(run(PLUGINKIT, &["-a", APPEX]))),
        (ok(""), Step::Perform(run(PLUGINKIT, &["-e", "use", "-p", "com.apple.fskit.fsmodule", "-i", ID]))),
        (failed("ignored"), Step::Perform(query())),
        (ok(&listing(APP, true)), Step::Finish(Ok(()))),
    ];
    for (ev, want) in script {
        let got = m.step(ev);
        assert!(!matches!(got, Step::Perform(Effect::RemoveDirAll(_)) | Step::Perform(Effect::CreateFile(_))));
        assert_eq!(got, want);
    }
}

#[test]
fn install_refuses_missing_source_and_existing_destination() {
    let (mut m, _) = install("/tmp/None.app");
    assert_eq!(m.step(Event::Exists(false)), Step::Finish(Err(Error::AppNotFound)));
    let (mut m, _) = install("/tmp/Bridge.app");
    m.step(Event::Exists(true));
    assert_eq!(m.step(Event::Exists(true)), Step::Finish(Err(Error::AppInstalled)));
}

#[test]
fn install_needs_a_source_name() {
    let (mut m, _) = Installer::start("/tmp/..");
    assert_eq!(m.step(Event::Exists(true)), Step::Finish(Err(Error::InvalidDestination)));
    let (mut m, _) = Installer::start("/");
    assert_eq!(m.step(Event::Exists(true)), Step::Finish(Err(Error::InvalidDestination)));
    let (mut m, _) = Installer::start("/tmp/Bridge.app/");
    assert_eq!(m.step(Event::Exists(true)), Step::Perform(Effect::Exists(s(APP))));
}

#[test]
fn install_stops_on_a_failed_signature_check() {
    let (mut m, _) = install("/tmp/Bridge.app");
    m.step(Event::Exists(true));
    m.step(Event::Exists(false));
    assert_eq!(
        m.step(failed("  code object is not signed at all\n")),
        Step::Finish(Err(Error::CommandFailed {
            command: s("/usr/bin/codesign --verify --deep --strict --verbose=2 /tmp/Bridge.app"),
            status: s("code object is not signed at all"),
        }))
    );
}

#[test]
fn install_reports_io_errors() {
    let (mut m, _) = install("/tmp/Bridge.app");
    m.step(Event::Exists(true));
    m.step(Event::Exists(false));
    m.step(ok(""));
    assert_eq!(m.step(Event::Ran(Err(s("ditto: not found")))), Step::Finish(Err(Error::Io(s("ditto: not found")))));
}

fn activator_at_first_check() -> Activator {
    let (mut a, first) = activate("Bridge.app");
    assert_eq!(first, Step::Perform(Effect::Exists(s(APP))));
    a.step(Event::Exists(true));
    a.step(ok(""));
    a.step(Event::Exists(true));
    assert_eq!(a.step(info_with_id(ID)), Step::Perform(query()));
    a
}

#[test]
fn activation_of_an_active_app_skips_registration() {
    let mut a = activator_at_first_check();
    assert_eq!(a.step(ok(&listing(APP, true))), Step::Finish(Ok(())));
}

#[test]
fn activation_clears_quarantine_where_present() {
    let mut a = activator_at_first_check();
    a.step(ok(&listing(APP, false)));
    assert_eq!(a.step(ok("1")), Step::Perform(run("/usr/bin/xattr", &["-dr", "com.apple.quarantine", APP])));
    assert_eq!(a.step(ok("")), Step::Perform(run(LSREGISTER, &["-f", "-R", APP])));
}

fn activator_at_second_check() -> Activator {
    let mut a = activator_at_first_check();
    a.step(ok(""));
    a.step(failed(""));
    a.step(ok(""));
    a.step(ok(""));
    assert_eq!(a.step(ok("")), Step::Perform(query()));
    a
}

#[test]
fn activation_failure_says_why() {
    let mut a = activator_at_second_check();
    assert_eq!(a.step(ok("")), Step::Finish(Err(Error::ExtensionNotRegistered { bundle_id: s(ID) })));
    let mut a = activator_at_second_check();
    assert_eq!(
        a.step(ok(&listing("/Users/me/Other.app", true))),
        Step::Finish(Err(Error::ExtensionRegisteredElsewhere { bundle_id: s(ID) }))
    );
    let mut a = activator_at_second_check();
    assert_eq!(a.step(ok(&listing(APP, false))), Step::Finish(Err(Error::ExtensionNotElected { bundle_id: s(ID) })));
}

#[test]
fn activation_errors_before_registration() {
    let (mut a, _) = activate("Bridge.app");
    assert_eq!(a.step(Event::Exists(false)), Step::Finish(Err(Error::AppNotInstalled)));
    let (mut a, _) = activate("Bridge.app");
    a.step(Event::Exists(true));
    a.step(ok(""));
    assert_eq!(a.step(Event::Exists(false)), Step::Finish(Err(Error::ExtensionNotFound)));
    let (mut a, _) = activate("Bridge.app");
    a.step(Event::Exists(true));
    a.step(ok(""));
    a.step(Event::Exists(true));
    assert_eq!(a.step(Event::Plist(Err(s("bad plist")))), Step::Finish(Err(Error::Info(InfoError::Plist(s("bad plist"))))));
    let (mut a, _) = activate("Bridge.app");
    a.step(Event::Exists(true));
    a.step(ok(""));
    a.step(Event::Exists(true));
    assert_eq!(a.step(Event::Plist(Ok(PlistValue::Other))), Step::Finish(Err(Error::Info(InfoError::Invalid))));
    let mut a = activator_at_first_check();
    assert_eq!(a.step(ok("path = \"x.appex\";\n")), Step::Perform(run("/usr/bin/xattr", &["-p", "com.apple.quarantine", APP])));
    let mut a = activator_at_first_check();
    assert_eq!(a.step(Event::Ran(Err(s("no pluginkit")))), Step::Perform(run("/usr/bin/xattr", &["-p", "com.apple.quarantine", APP])));
    let mut a = activator_at_second_check();
    assert_eq!(a.step(ok("path = \"x.appex\";\n")), Step::Finish(Err(Error::InvalidExtensionPath)));
    let mut a = activator_at_first_check();
    a.step(ok(""));
    assert_eq!(a.step(Event::Ran(Err(s("xattr missing")))), Step::Finish(Err(Error::Io(s("xattr missing")))));
}

#[test]
fn uninstall_unregisters_cleans_up_and_removes() {
    let (mut u, first) = uninstall("Bridge.app", Some(s("/Users/me")));
    assert_eq!(first, Step::Perform(Effect::Exists(s(APP))));
    let app_info = Event::Plist(Ok(PlistValue::Dictionary(vec![(s("CFBundleIdentifier"), PlistValue::String(s("app.id")))])));
    let script: Vec<(Event, Step<(), Error>)> = vec![
        (Event::Exists(true), Step::Perform(Effect::Exists(s(APPEX)))),
        (Event::Exists(true), Step::Perform(run(PLUGINKIT, &["-r", APPEX]))),
        (failed(""), Step::Perform(run(LSREGISTER, &["-u", APP]))),
        (ok(""), Step::Perform(Effect::ReadPlist(format!("{}/Contents/Info.plist", APP)))),
        (app_info, Step::Perform(Effect::ReadPlist(format!("{}/Contents/Info.plist", APPEX)))),
        (info_with_id(ID), Step::Perform(query())),
        (
            ok(&format!("{}{}", listing(APP, true), listing("/Users/me/Old.app", false))),
            Step::Perform(run(PLUGINKIT, &["-r", "/Users/me/Old.app/Contents/Extensions/FSKitExt.appex"])),
        ),
        (ok(""), Step::Perform(run(LSREGISTER, &["-u", "/Users/me/Old.app"]))),
        (ok(""), Step::Perform(Effect::RemoveDirAll(s("/Users/me/Library/Application Scripts/app.id")))),
        (Event::Done(Err(s("missing"))), Step::Perform(Effect::RemoveDirAll(format!("/Users/me/Library/Application Scripts/{}", ID)))),
        (Event::Done(Ok(())), Step::Perform(Effect::RemoveDirAll(s("/Users/me/Library/Containers/app.id")))),
        (Event::Done(Ok(())), Step::Perform(Effect::RemoveDirAll(format!("/Users/me/Library/Containers/{}", ID)))),
        (Event::Done(Ok(())), Step::Perform(Effect::RemoveDirAll(s(APP)))),
        (Event::Done(Ok(())), Step::Finish(Ok(()))),
    ];
    for (ev, want) in script {
        assert_eq!(u.step(ev), want);
    }
}

#[test]
fn uninstall_without_extension_or_home() {
    let (mut u, _) = Uninstaller::start("Bridge.app", None);
    u.step(Event::Exists(true));
    assert_eq!(u.step(Event::Exists(false)), Step::Perform(run(LSREGISTER, &["-u", APP])));
    u.step(ok(""));
    u.step(Event::Plist(Err(s("no file"))));
    assert_eq!(u.step(Event::Plist(Err(s("no file")))), Step::Perform(Effect::RemoveDirAll(s(APP))));
    assert_eq!(u.step(Event::Done(Err(s("permission denied")))), Step::Finish(Err(Error::Io(s("permission denied")))));
}

#[test]
fn uninstall_of_a_missing_app_fails() {
    let (mut u, _) = uninstall("Gone.app", None);
    assert_eq!(u.step(Event::Exists(false)), Step::Finish(Err(Error::AppNotInstalled)));
}

#[test]
fn is_registered_looks_for_the_bundle_id() {
    assert_eq!(is_registered("a.b", Err(s("x"))), Err(Error::Io(s("x"))));
    assert_eq!(is_registered("a.b", Ok(CommandOutput { success: true, status: s(""), stdout: b"+ a.b(1.0)".to_vec(), stderr: vec![] })), Ok(true));
    assert_eq!(is_registered("a.b", Ok(CommandOutput { success: true, status: s(""), stdout: b"(no matches)".to_vec(), stderr: vec![] })), Ok(false));
    assert_eq!(is_registered("a.b", Ok(CommandOutput { success: false, status: s(""), stdout: b"a.b".to_vec(), stderr: vec![] })), Ok(false));
}

#[test]
fn run_cmd_describes_failures() {
    let c = Command { program: s("ditto"), args: vec![] };
    assert_eq!(
        run_cmd(&c, Ok(CommandOutput { success: false, status: s("exit status: 2"), stdout: vec![], stderr: b" \n".to_vec() })),
        Err(Error::CommandFailed { command: s("ditto "), status: s("exit status: 2") })
    );
    assert!(run_cmd(&c, Ok(CommandOutput { success: true, status: s(""), stdout: vec![], stderr: vec![] })).is_ok());
}

#[test]
fn procedures_say_which_answers_they_wait_for() {
    let (m, _) = install("/tmp/Bridge.app");
    assert!(m.accepts(&Event::Exists(true)));
    assert!(!m.accepts(&ok("")));
    let (mut a, _) = activate("Bridge.app");
    assert!(a.accepts(&Event::Exists(false)));
    a.step(Event::Exists(false));
    assert!(!a.accepts(&Event::Exists(true)));
    let (u, _) = uninstall("Bridge.app", None);
    assert!(u.accepts(&Event::Exists(true)));
    assert!(!u.accepts(&Event::Done(Ok(()))));
}
