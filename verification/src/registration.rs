//! Reading PlugInKit's registrations of an extension: which host applications
//! it is registered from, and which of them is elected.

use vstd::prelude::*;
use crate::command::{Command, CommandOutput, command, decode_lossy, utf8_lossy, make_command};
use crate::installer::{Error, ErrorView, PLUGINKIT, run_cmd, command_outcome};
use crate::paths::{parent_path, path_parent, opt_view};
use crate::pattern::{compile, first_group, regex_compiles, regex_group_one};
use crate::text::{chars_of, lines, split_lines, string_of, str_eq};

verus! {

/// A line that reports whether the next registration is elected.
pub const ELECTION_PATTERN: &'static str = "^\\s*election = (\\d+);$";

/// A line that reports the path of a registered extension.
pub const PATH_PATTERN: &'static str = "^\\s*path = \"([^\"]+)\";$";

/// One registration: the host application it comes from, and whether it is
/// the elected one.
#[derive(Debug, Clone, PartialEq, Eq)]
pub struct Status {
    pub app_path: String,
    pub elected: bool,
}

pub struct StatusView {
    pub app_path: Seq<char>,
    pub elected: bool,
}

impl View for Status {
    type V = StatusView;

    open spec fn view(&self) -> StatusView {
        StatusView { app_path: self.app_path@, elected: self.elected }
    }
}

pub open spec fn statuses_view(s: Seq<Status>) -> Seq<StatusView> {
    s.map_values(|x: Status| x@)
}

/// The path three levels above `p`: the host application of an extension
/// bundle at `<app>/Contents/Extensions/<name>.appex`.
pub open spec fn third_parent(p: Seq<char>) -> Option<Seq<char>> {
    match path_parent(p) {
        Some(a) => match path_parent(a) {
            Some(b) => path_parent(b),
            None => None,
        },
        None => None,
    }
}

/// What one line does to the registrations read so far and to the pending
/// election flag, given what the election pattern captured in it and, for a
/// line the path pattern matched, the host application above the path.
pub open spec fn line_effect(
    statuses: Seq<StatusView>,
    elected: bool,
    election: Option<Seq<char>>,
    app: Option<Option<Seq<char>>>,
) -> Result<(Seq<StatusView>, bool), ErrorView> {
    let e = match election {
        Some(g) => g == seq!['1'],
        None => elected,
    };
    match app {
        None => Ok((statuses, e)),
        Some(None) => Err(ErrorView::InvalidExtensionPath),
        Some(Some(a)) => Ok((statuses.push(StatusView { app_path: a, elected: e }), false)),
    }
}

/// The host application of a path line, if the path pattern matched it.
pub open spec fn line_app(line: Seq<char>) -> Option<Option<Seq<char>>> {
    match regex_group_one(PATH_PATTERN@, line) {
        Some(p) => Some(third_parent(p)),
        None => None,
    }
}

/// The registrations read from `lines`, with the election flag left pending.
pub open spec fn scan_lines(lines: Seq<Seq<char>>) -> Result<(Seq<StatusView>, bool), ErrorView>
    decreases lines.len(),
{
    if lines.len() == 0 {
        Ok((seq![], false))
    } else {
        match scan_lines(lines.drop_last()) {
            Ok((s, e)) => line_effect(
                s,
                e,
                regex_group_one(ELECTION_PATTERN@, lines.last()),
                line_app(lines.last()),
            ),
            Err(err) => Err(err),
        }
    }
}

/// The registrations that PlugInKit's raw listing `stdout` reports.
pub open spec fn statuses_in(stdout: Seq<char>) -> Result<Seq<StatusView>, ErrorView> {
    if !regex_compiles(ELECTION_PATTERN@) || !regex_compiles(PATH_PATTERN@) {
        Err(ErrorView::InvalidPattern)
    } else {
        match scan_lines(lines(stdout)) {
            Ok((s, _)) => Ok(s),
            Err(e) => Err(e),
        }
    }
}

pub open spec fn nested_view(o: Option<Option<String>>) -> Option<Option<Seq<char>>> {
    match o {
        None => None,
        Some(a) => Some(opt_view(a)),
    }
}

/// Applies one line: `election` is what the election pattern captured in it,
/// and `app` is `None` where the path pattern did not match, else the host
/// application above the captured path (`None` where there is none). Returns
/// the pending election flag.
pub fn apply_line(
    statuses: &mut Vec<Status>,
    elected: bool,
    election: Option<String>,
    app: Option<Option<String>>,
) -> (r: Result<bool, Error>)
    ensures
        match line_effect(
            statuses_view(old(statuses)@),
            elected,
            opt_view(election),
            nested_view(app),
        ) {
            Ok((s, e)) => r == Ok::<bool, Error>(e) && statuses_view(final(statuses)@) == s,
            Err(v) => r matches Err(err) && err@ == v,
        },
{
    proof {
        reveal_strlit("1");
    }
    assert("1"@ =~= seq!['1']);
    let e = match election {
        Some(g) => str_eq(g.as_str(), "1"),
        None => elected,
    };
    assert(e == match opt_view(election) { Some(g) => g == seq!['1'], None => elected });
    match app {
        None => Ok(e),
        Some(None) => Err(Error::InvalidExtensionPath),
        Some(Some(a)) => {
            let ghost before = statuses_view(statuses@);
            statuses.push(Status { app_path: a, elected: e });
            assert(statuses_view(statuses@) =~= before.push(StatusView { app_path: a@, elected: e }));
            Ok(false)
        },
    }
}

/// The host application three levels above the extension path `p`.
pub fn host_app_of(p: &str) -> (r: Option<String>)
    ensures
        opt_view(r) == third_parent(p@),
{
    match parent_path(p) {
        Some(a) => match parent_path(a.as_str()) {
            Some(b) => parent_path(b.as_str()),
            None => None,
        },
        None => None,
    }
}

proof fn lemma_scan_error_persists(lines: Seq<Seq<char>>, k: int, e: ErrorView)
    requires
        0 <= k <= lines.len(),
        scan_lines(lines.take(k)) == Err::<(Seq<StatusView>, bool), ErrorView>(e),
    ensures
        scan_lines(lines) == Err::<(Seq<StatusView>, bool), ErrorView>(e),
    decreases lines.len(),
{
    if k < lines.len() {
        assert(lines.drop_last().take(k) =~= lines.take(k));
        lemma_scan_error_persists(lines.drop_last(), k, e);
    } else {
        assert(lines.take(k) =~= lines);
    }
}

/// Reads the registrations out of PlugInKit's raw listing (`pluginkit -m -i
/// <id> --raw`): an `election = N;` line sets whether the next registration is
/// elected (`N` being `1`), and a `path = "<appex>";` line adds the
/// registration of the host application three levels above `<appex>`.
pub fn parse_statuses(stdout: &str) -> (r: Result<Vec<Status>, Error>)
    ensures
        match statuses_in(stdout@) {
            Ok(s) => r matches Ok(v) && statuses_view(v@) == s,
            Err(e) => r matches Err(err) && err@ == e,
        },
{
    let election_re = match compile(ELECTION_PATTERN) {
        Some(p) => p,
        None => return Err(Error::InvalidPattern),
    };
    let path_re = match compile(PATH_PATTERN) {
        Some(p) => p,
        None => return Err(Error::InvalidPattern),
    };
    let text = chars_of(stdout);
    let all = split_lines(&text);
    let ghost ls = lines(stdout@);
    assert(all@.map_values(|l: Vec<char>| l@) == ls);
    let mut list: Vec<Status> = Vec::new();
    let mut elected = false;
    let mut i: usize = 0;
    assert(ls.take(0) =~= seq![]);
    assert(statuses_view(list@) =~= seq![]);
    while i < all.len()
        invariant
            0 <= i <= all@.len() == ls.len(),
            all@.map_values(|l: Vec<char>| l@) == ls,
            ls == lines(stdout@),
            election_re.source() == ELECTION_PATTERN@,
            path_re.source() == PATH_PATTERN@,
            regex_compiles(ELECTION_PATTERN@),
            regex_compiles(PATH_PATTERN@),
            scan_lines(ls.take(i as int)) == Ok::<(Seq<StatusView>, bool), ErrorView>(
                (statuses_view(list@), elected),
            ),
        decreases all@.len() - i,
    {
        let line = string_of(all[i].as_slice());
        assert(line@ == ls[i as int]);
        assert(ls.take(i + 1).drop_last() =~= ls.take(i as int));
        assert(ls.take(i + 1).last() == ls[i as int]);
        let election = first_group(&election_re, line.as_str());
        let app = match first_group(&path_re, line.as_str()) {
            Some(p) => Some(host_app_of(p.as_str())),
            None => None,
        };
        let ghost ev = opt_view(election);
        let ghost av = nested_view(app);
        assert(ev == regex_group_one(ELECTION_PATTERN@, ls[i as int]));
        assert(av == line_app(ls[i as int]));
        assert(scan_lines(ls.take(i + 1)) == line_effect(statuses_view(list@), elected, ev, av));
        match apply_line(&mut list, elected, election, app) {
            Ok(e) => {
                elected = e;
            },
            Err(err) => {
                proof {
                    lemma_scan_error_persists(ls, i + 1, err@);
                }
                return Err(err);
            },
        }
        i = i + 1;
    }
    assert(ls.take(ls.len() as int) =~= ls);
    Ok(list)
}

/// `pluginkit -m -i <appex_id> --raw`: lists the registrations of the
/// extension `appex_id`.
pub open spec fn registrations_query(appex_id: Seq<char>) -> crate::command::CommandView {
    command(PLUGINKIT@, seq!["-m"@, "-i"@, appex_id, "--raw"@])
}

/// The command that lists the registrations of the extension `appex_id`.
pub fn registrations_command(appex_id: &str) -> (c: Command)
    ensures
        c@ == registrations_query(appex_id@),
{
    let args = vec!["-m".to_owned(), "-i".to_owned(), appex_id.to_owned(), "--raw".to_owned()];
    assert(args.deep_view() =~= seq!["-m"@, "-i"@, appex_id@, "--raw"@]);
    make_command(PLUGINKIT, args)
}

/// The registrations of `appex_id`, given what running
/// `registrations_query(appex_id)` returned.
pub open spec fn registrations_of(
    appex_id: Seq<char>,
    ran: Result<crate::command::CommandOutputView, Seq<char>>,
) -> Result<Seq<StatusView>, ErrorView> {
    match command_outcome(registrations_query(appex_id), ran) {
        Ok(o) => statuses_in(utf8_lossy(o.stdout)),
        Err(e) => Err(e),
    }
}

pub open spec fn ran_view(ran: Result<CommandOutput, String>) -> Result<
    crate::command::CommandOutputView,
    Seq<char>,
> {
    match ran {
        Ok(o) => Ok(o@),
        Err(m) => Err(m@),
    }
}

/// The registrations of the extension `appex_id`, given what running
/// `registrations_command(appex_id)` returned.
pub fn registrations(appex_id: &str, ran: Result<CommandOutput, String>) -> (r: Result<
    Vec<Status>,
    Error,
>)
    ensures
        match registrations_of(appex_id@, ran_view(ran)) {
            Ok(s) => r matches Ok(v) && statuses_view(v@) == s,
            Err(e) => r matches Err(err) && err@ == e,
        },
{
    let c = registrations_command(appex_id);
    match run_cmd(&c, ran) {
        Ok(o) => {
            let text = decode_lossy(o.stdout.as_slice());
            parse_statuses(text.as_str())
        },
        Err(e) => Err(e),
    }
}

/// The first elected registration at index `i` or later.
pub open spec fn first_elected_from(s: Seq<StatusView>, i: int) -> Option<int>
    decreases s.len() - i,
{
    if i < 0 || i >= s.len() {
        None
    } else if s[i].elected {
        Some(i)
    } else {
        first_elected_from(s, i + 1)
    }
}

/// The registration to use: the first elected one, else the first one.
pub open spec fn chosen(s: Seq<StatusView>) -> Option<int> {
    match first_elected_from(s, 0) {
        Some(i) => Some(i),
        None => if s.len() > 0 {
            Some(0)
        } else {
            None
        },
    }
}

/// Picks the registration to use (the first elected one, else the first one)
/// and returns its index.
pub fn select_registration(statuses: &Vec<Status>) -> (r: Option<usize>)
    ensures
        match chosen(statuses_view(statuses@)) {
            Some(i) => r == Some(i as usize),
            None => r is None,
        },
{
    let ghost sv = statuses_view(statuses@);
    let mut i: usize = 0;
    while i < statuses.len()
        invariant
            0 <= i <= statuses@.len(),
            sv == statuses_view(statuses@),
            first_elected_from(sv, 0) == first_elected_from(sv, i as int),
        decreases statuses@.len() - i,
    {
        if statuses[i].elected {
            return Some(i);
        }
        i = i + 1;
    }
    if statuses.len() > 0 {
        Some(0)
    } else {
        None
    }
}

proof fn lemma_first_elected_from(s: Seq<StatusView>, i: int)
    requires
        0 <= i,
    ensures
        match first_elected_from(s, i) {
            Some(k) => i <= k < s.len() && s[k].elected && forall|j: int|
                i <= j < k ==> !(#[trigger] s[j]).elected,
            None => forall|j: int| i <= j < s.len() ==> !(#[trigger] s[j]).elected,
        },
    decreases s.len() - i,
{
    if i < s.len() {
        lemma_first_elected_from(s, i + 1);
    }
}

/// The registration that is used is an elected one whenever any is elected,
/// and then the first elected one; where none is elected it is the first
/// registration; and there is one exactly when the list is not empty.
pub proof fn law_elected_registration_wins(s: Seq<StatusView>)
    ensures
        chosen(s) is None <==> s.len() == 0,
        chosen(s) matches Some(i) ==> 0 <= i < s.len() && (forall|j: int|
            0 <= j < i ==> !(#[trigger] s[j]).elected),
        (exists|j: int| 0 <= j < s.len() && (#[trigger] s[j]).elected) ==> (chosen(s) matches Some(
            i,
        ) && s[i].elected),
        (forall|j: int| 0 <= j < s.len() ==> !(#[trigger] s[j]).elected) ==> chosen(s) == if s.len()
            > 0 {
            Some(0int)
        } else {
            None
        },
{
    lemma_first_elected_from(s, 0);
}

/// Whether PlugInKit considers a host application active.
#[derive(Debug, PartialEq, Eq, Structural)]
pub enum Activation {
    /// A registration from the application is elected.
    Active,
    /// There is no registration at all.
    NotRegistered,
    /// Every registration comes from another application.
    RegisteredElsewhere,
    /// The application's registration is not elected.
    NotElected,
}

/// How the registrations `s` stand towards the host application at `app`.
pub open spec fn activation_of(s: Seq<StatusView>, app: Seq<char>) -> Activation {
    if exists|i: int| 0 <= i < s.len() && (#[trigger] s[i]).app_path == app && s[i].elected {
        Activation::Active
    } else if s.len() == 0 {
        Activation::NotRegistered
    } else if !exists|i: int| 0 <= i < s.len() && (#[trigger] s[i]).app_path == app {
        Activation::RegisteredElsewhere
    } else {
        Activation::NotElected
    }
}

/// Classifies the registrations `statuses` for the host application at `app`.
pub fn activation(statuses: &Vec<Status>, app: &str) -> (r: Activation)
    ensures
        r == activation_of(statuses_view(statuses@), app@),
{
    let ghost sv = statuses_view(statuses@);
    let mut from_app = false;
    let mut i: usize = 0;
    while i < statuses.len()
        invariant
            0 <= i <= statuses@.len(),
            sv == statuses_view(statuses@),
            from_app == exists|j: int| 0 <= j < i && (#[trigger] sv[j]).app_path == app@,
            forall|j: int| 0 <= j < i ==> !((#[trigger] sv[j]).app_path == app@ && sv[j].elected),
        decreases statuses@.len() - i,
    {
        if str_eq(statuses[i].app_path.as_str(), app) {
            assert(sv[i as int].app_path == app@);
            if statuses[i].elected {
                return Activation::Active;
            }
            from_app = true;
        }
        i = i + 1;
    }
    if statuses.len() == 0 {
        Activation::NotRegistered
    } else if !from_app {
        Activation::RegisteredElsewhere
    } else {
        Activation::NotElected
    }
}


/// How many of `lines` the path pattern matches.
pub open spec fn path_line_count(lines: Seq<Seq<char>>) -> nat
    decreases lines.len(),
{
    if lines.len() == 0 {
        0
    } else {
        path_line_count(lines.drop_last()) + if line_app(lines.last()) is Some {
            1nat
        } else {
            0nat
        }
    }
}

/// Reading a listing yields one registration for each path line, and fails
/// exactly where some path line has no host application above it.
pub proof fn law_one_registration_per_path_line(lines: Seq<Seq<char>>)
    ensures
        scan_lines(lines) matches Ok((st, _)) ==> st.len() == path_line_count(lines),
        scan_lines(lines) is Err <==> exists|i: int|
            0 <= i < lines.len() && line_app(#[trigger] lines[i]) == Some(None::<Seq<char>>),
    decreases lines.len(),
{
    if lines.len() > 0 {
        let init = lines.drop_last();
        law_one_registration_per_path_line(init);
        if exists|i: int| 0 <= i < init.len() && line_app(#[trigger] init[i]) == Some(None::<Seq<char>>) {
            let i = choose|i: int| 0 <= i < init.len() && line_app(#[trigger] init[i]) == Some(None::<Seq<char>>);
            assert(lines[i] == init[i]);
        }
        if exists|i: int| 0 <= i < lines.len() && line_app(#[trigger] lines[i]) == Some(None::<Seq<char>>) {
            let i = choose|i: int| 0 <= i < lines.len() && line_app(#[trigger] lines[i]) == Some(None::<Seq<char>>);
            if i < init.len() {
                assert(init[i] == lines[i]);
            }
        }
    }
}

/// A line that is neither an election line nor a path line (an identifier
/// line, a brace, a blank line) changes nothing: the registrations read so
/// far and the pending election flag stay as they are.
pub proof fn law_other_lines_keep_the_election(statuses: Seq<StatusView>, elected: bool)
    ensures
        line_effect(statuses, elected, None, None) == Ok::<(Seq<StatusView>, bool), ErrorView>((statuses, elected)),
{
}

/// Whether the patterns leave `line` alone: it is neither an election line
/// nor a path line.
pub open spec fn unrelated_line(line: Seq<char>) -> bool {
    regex_group_one(ELECTION_PATTERN@, line) is None && regex_group_one(PATH_PATTERN@, line) is None
}

/// Lines that neither pattern matches change nothing anywhere in a listing:
/// reading `lines` followed by such lines gives what reading `lines` gives.
pub proof fn law_other_lines_change_nothing(lines: Seq<Seq<char>>, rest: Seq<Seq<char>>)
    requires
        forall|k: int| 0 <= k < rest.len() ==> unrelated_line(#[trigger] rest[k]),
    ensures
        scan_lines(lines + rest) == scan_lines(lines),
    decreases rest.len(),
{
    if rest.len() > 0 {
        let init = rest.drop_last();
        assert(forall|k: int| 0 <= k < init.len() ==> init[k] == rest[k]);
        law_other_lines_change_nothing(lines, init);
        assert((lines + rest).drop_last() =~= lines + init);
        assert((lines + rest).last() == rest[rest.len() - 1]);
        assert(unrelated_line(rest[rest.len() - 1]));
    }
}

/// An election line decides whether the registration of the next path line
/// is elected, however many other lines (identifiers, versions, braces) stand
/// between them; after the path line the flag is pending no more.
pub proof fn law_election_reaches_the_next_path(
    before: Seq<Seq<char>>,
    election_line: Seq<char>,
    between: Seq<Seq<char>>,
    path_line: Seq<char>,
    s: Seq<StatusView>,
    e: bool,
    g: Seq<char>,
    a: Seq<char>,
)
    requires
        scan_lines(before) == Ok::<(Seq<StatusView>, bool), ErrorView>((s, e)),
        regex_group_one(ELECTION_PATTERN@, election_line) == Some(g),
        line_app(election_line) is None,
        forall|k: int| 0 <= k < between.len() ==> unrelated_line(#[trigger] between[k]),
        regex_group_one(ELECTION_PATTERN@, path_line) is None,
        line_app(path_line) == Some(Some(a)),
    ensures
        scan_lines(before + seq![election_line] + between + seq![path_line])
            == Ok::<(Seq<StatusView>, bool), ErrorView>((s.push(StatusView { app_path: a, elected: g == seq!['1'] }), false)),
{
    let with_election = before + seq![election_line];
    law_other_lines_change_nothing(with_election, between);
    assert(with_election.drop_last() =~= before);
    assert(with_election.last() == election_line);
    assert(scan_lines(with_election) == Ok::<(Seq<StatusView>, bool), ErrorView>((s, g == seq!['1'])));
    let all = with_election + between + seq![path_line];
    assert(all.drop_last() =~= with_election + between);
    assert(all.last() == path_line);
}

/// Whether a host application is active does not depend on the order in which
/// PlugInKit lists the registrations: it is active exactly when one of its
/// registrations, at whatever position, is elected.
pub proof fn law_activation_ignores_order(s: Seq<StatusView>, t: Seq<StatusView>, app: Seq<char>)
    ensures
        activation_of(s + t, app) == activation_of(t + s, app),
        (exists|i: int| 0 <= i < s.len() && (#[trigger] s[i]).app_path == app && s[i].elected)
            ==> activation_of(s + t, app) == Activation::Active && activation_of(t + s, app) == Activation::Active,
{
    let st = s + t;
    let ts = t + s;
    // Where an entry of one concatenation stands in the other.
    if exists|i: int| 0 <= i < st.len() && (#[trigger] st[i]).app_path == app && st[i].elected {
        let i = choose|i: int| 0 <= i < st.len() && (#[trigger] st[i]).app_path == app && st[i].elected;
        let j = if i < s.len() { t.len() + i } else { i - s.len() };
        assert(ts[j] == st[i]);
    }
    if exists|i: int| 0 <= i < ts.len() && (#[trigger] ts[i]).app_path == app && ts[i].elected {
        let i = choose|i: int| 0 <= i < ts.len() && (#[trigger] ts[i]).app_path == app && ts[i].elected;
        let j = if i < t.len() { s.len() + i } else { i - t.len() };
        assert(st[j] == ts[i]);
    }
    if exists|i: int| 0 <= i < st.len() && (#[trigger] st[i]).app_path == app {
        let i = choose|i: int| 0 <= i < st.len() && (#[trigger] st[i]).app_path == app;
        let j = if i < s.len() { t.len() + i } else { i - s.len() };
        assert(ts[j] == st[i]);
    }
    if exists|i: int| 0 <= i < ts.len() && (#[trigger] ts[i]).app_path == app {
        let i = choose|i: int| 0 <= i < ts.len() && (#[trigger] ts[i]).app_path == app;
        let j = if i < t.len() { s.len() + i } else { i - t.len() };
        assert(st[j] == ts[i]);
    }
    if exists|i: int| 0 <= i < s.len() && (#[trigger] s[i]).app_path == app && s[i].elected {
        let i = choose|i: int| 0 <= i < s.len() && (#[trigger] s[i]).app_path == app && s[i].elected;
        assert(st[i] == s[i]);
    }
}

/// The four answers about a host application, in terms of the registrations
/// alone: active when one of its registrations is elected; not registered
/// when there is none at all; registered elsewhere when every registration
/// comes from another application; not elected when it has registrations and
/// none of them is elected.
pub proof fn law_activation_classification(s: Seq<StatusView>, app: Seq<char>)
    ensures
        activation_of(s, app) == Activation::Active <==> exists|i: int|
            0 <= i < s.len() && (#[trigger] s[i]).app_path == app && s[i].elected,
        activation_of(s, app) == Activation::NotRegistered <==> s.len() == 0,
        activation_of(s, app) == Activation::RegisteredElsewhere <==> s.len() > 0 && forall|i: int|
            0 <= i < s.len() ==> (#[trigger] s[i]).app_path != app,
        activation_of(s, app) == Activation::NotElected <==> (exists|i: int|
            0 <= i < s.len() && (#[trigger] s[i]).app_path == app) && forall|i: int|
            0 <= i < s.len() && (#[trigger] s[i]).app_path == app ==> !s[i].elected,
{
}

} // verus!
