use fskit_rs::command::{CommandOutput, Effect};
use fskit_rs::installer::Error;
use fskit_rs::registration::{
    activation, apply_line, host_app_of, parse_statuses, registrations, registrations_command,
    select_registration, Activation, Status,
};

fn s(x: &str) -> String {
    x.to_string()
}

fn st(app: &str, elected: bool) -> Status {
    Status { app_path: s(app), elected }
}

const LISTING: &str = "{\n    identifier = \"network.debox.fskitbridge.fskitext\";\n    election = 0;\n    path = \"/Users/me/Build/Old.app/Contents/Extensions/FSKitExt.appex\";\n}\n{\n    election = 1;\n    path = \"/Applications/Bridge.app/Contents/Extensions/FSKitExt.appex\";\n}\n{\n    path = \"/Applications/Other.app/Contents/Extensions/FSKitExt.appex\";\n}\n";

#[test]
fn parse_statuses_reads_each_registration() {
    let got = parse_statuses(LISTING).unwrap();
    assert_eq!(
        got,
        vec![
            st("/Users/me/Build/Old.app", false),
            st("/Applications/Bridge.app", true),
            st("/Applications/Other.app", false),
        ]
    );
}

#[test]
fn election_applies_to_the_next_path_only() {
    let text = "election = 1;\npath = \"/A.app/Contents/Extensions/X.appex\";\npath = \"/B.app/Contents/Extensions/X.appex\";\n";
    assert_eq!(
        parse_statuses(text).unwrap(),
        vec![st("/A.app", true), st("/B.app", false)]
    );
    let later = "election = 1;\nelection = 2;\npath = \"/A.app/Contents/Extensions/X.appex\";\n";
    assert_eq!(parse_statuses(later).unwrap(), vec![st("/A.app", false)]);
}

#[test]
fn lines_that_do_not_match_exactly_are_ignored() {
    let text = "  election = 1; trailing\n\tpath = \"/A.app/Contents/Extensions/X.appex\";\npath = \"\";\n";
    assert_eq!(parse_statuses(text).unwrap(), vec![st("/A.app", false)]);
    assert_eq!(parse_statuses("").unwrap(), vec![]);
}

#[test]
fn a_path_without_host_application_is_an_error() {
    let text = "path = \"FSKitExt.appex\";\n";
    assert_eq!(parse_statuses(text), Err(Error::InvalidExtensionPath));
}

#[test]
fn one_registration_per_path_line_example() {
    let text = "path = \"/a/b/c/d\";\nnoise\npath = \"/e/f/g/h\";\nelection = 1;\n";
    assert_eq!(parse_statuses(text).unwrap().len(), 2);
}

#[test]
fn host_app_is_three_levels_up() {
    assert_eq!(host_app_of("/Applications/X.app/Contents/Extensions/FSKitExt.appex"), Some(s("/Applications/X.app")));
    assert_eq!(host_app_of("Contents/Extensions/FSKitExt.appex"), Some(s("")));
    assert_eq!(host_app_of("Extensions/FSKitExt.appex"), None);
    assert_eq!(host_app_of("/x"), None);
}

#[test]
fn apply_line_uses_the_captures() {
    let mut v = vec![];
    assert_eq!(apply_line(&mut v, false, Some(s("1")), None), Ok(true));
    assert_eq!(apply_line(&mut v, true, Some(s("01")), None), Ok(false));
    assert_eq!(apply_line(&mut v, true, None, Some(Some(s("/A.app")))), Ok(false));
    assert_eq!(v, vec![st("/A.app", true)]);
    assert_eq!(apply_line(&mut v, true, None, Some(None)), Err(Error::InvalidExtensionPath));
}

#[test]
fn elected_registration_wins() {
    let list = vec![st("/a", false), st("/b", true), st("/c", true)];
    assert_eq!(select_registration(&list), Some(1));
    let none_elected = vec![st("/a", false), st("/b", false)];
    assert_eq!(select_registration(&none_elected), Some(0));
    assert_eq!(select_registration(&vec![]), None);
}

#[test]
fn activation_classification() {
    let app = "/Applications/Bridge.app";
    assert_eq!(activation(&vec![st(app, true)], app), Activation::Active);
    assert_eq!(activation(&vec![], app), Activation::NotRegistered);
    assert_eq!(activation(&vec![st("/x.app", true)], app), Activation::RegisteredElsewhere);
    assert_eq!(activation(&vec![st(app, false), st("/x.app", true)], app), Activation::NotElected);
}

fn output(success: bool, stdout: &[u8], stderr: &[u8]) -> CommandOutput {
    CommandOutput { success, status: s("exit status: 1"), stdout: stdout.to_vec(), stderr: stderr.to_vec() }
}

#[test]
fn registrations_query_and_outcomes() {
    let c = registrations_command("id.x");
    assert_eq!(c.program, "/usr/bin/pluginkit");
    assert_eq!(c.args, vec![s("-m"), s("-i"), s("id.x"), s("--raw")]);
    assert_eq!(
        registrations("id.x", Ok(output(true, LISTING.as_bytes(), b""))).unwrap().len(),
        3
    );
    assert_eq!(registrations("id.x", Err(s("spawn failed"))), Err(Error::Io(s("spawn failed"))));
    assert_eq!(
        registrations("id.x", Ok(output(false, b"", b" no such plugin \n"))),
        Err(Error::CommandFailed { command: s("/usr/bin/pluginkit -m -i id.x --raw"), status: s("no such plugin") })
    );
    let _ = Effect::Run(c);
}
