//! The outside work that the decision procedures ask for, the answers they
//! take back, and how a finished command is described.
//!
//! A procedure is a value with a `step` method: given the answer to its last
//! request, it either asks for the next piece of work (`Step::Perform`) or
//! finishes (`Step::Finish`). Whoever drives it performs each `Effect` and
//! hands back the matching `Event`.

use vstd::prelude::*;
use crate::info::PlistValue;
use vstd::utf8::{valid_utf8, decode_utf8};
use crate::text::{join_spaced, join_with_spaces, trim, trim_chars, chars_of, string_of};

verus! {

/// A program to run with its arguments.
#[derive(Debug, PartialEq, Eq)]
pub struct Command {
    pub program: String,
    pub args: Vec<String>,
}

pub struct CommandView {
    pub program: Seq<char>,
    pub args: Seq<Seq<char>>,
}

impl View for Command {
    type V = CommandView;

    open spec fn view(&self) -> CommandView {
        CommandView { program: self.program@, args: self.args.deep_view() }
    }
}

/// The command `program args...`.
pub open spec fn command(program: Seq<char>, args: Seq<Seq<char>>) -> CommandView {
    CommandView { program, args }
}

/// What a finished command reported: whether it exited successfully, its exit
/// status as text, and the bytes it wrote to its two output streams.
#[derive(Debug, PartialEq, Eq)]
pub struct CommandOutput {
    pub success: bool,
    pub status: String,
    pub stdout: Vec<u8>,
    pub stderr: Vec<u8>,
}

pub struct CommandOutputView {
    pub success: bool,
    pub status: Seq<char>,
    pub stdout: Seq<u8>,
    pub stderr: Seq<u8>,
}

impl View for CommandOutput {
    type V = CommandOutputView;

    open spec fn view(&self) -> CommandOutputView {
        CommandOutputView {
            success: self.success,
            status: self.status@,
            stdout: self.stdout@,
            stderr: self.stderr@,
        }
    }
}

/// The text that `String::from_utf8_lossy` makes of `bytes`.
pub uninterp spec fn utf8_lossy(bytes: Seq<u8>) -> Seq<char>;

/// `String::from_utf8_lossy`: decodes `bytes`, replacing invalid sequences
/// with U+FFFD. The contract names the result and states what the
/// documentation says: valid UTF-8 is decoded unchanged. How invalid
/// sequences are replaced is left to the name.
#[verifier::external_body]
pub fn decode_lossy(bytes: &[u8]) -> (s: String)
    ensures
        s@ == utf8_lossy(bytes@),
        valid_utf8(bytes@) ==> s@ == decode_utf8(bytes@),
{
    String::from_utf8_lossy(bytes).into_owned()
}

/// `std::str::from_utf8`: the text of `bytes` exactly when they are valid
/// UTF-8.
#[verifier::external_body]
pub fn decode_strict(bytes: &[u8]) -> (r: Option<String>)
    ensures
        r is Some <==> valid_utf8(bytes@),
        r matches Some(s) ==> s@ == decode_utf8(bytes@),
{
    std::str::from_utf8(bytes).ok().map(|s| s.to_owned())
}

/// How a failed command is described, given its decoded standard error and
/// its exit status: the standard error trimmed, or the status where that is
/// empty.
pub open spec fn description(stderr: Seq<char>, status: Seq<char>) -> Seq<char> {
    let t = trim(stderr);
    if t.len() == 0 {
        status
    } else {
        t
    }
}

/// How a failed command is described.
pub open spec fn failure_text(o: CommandOutputView) -> Seq<char> {
    description(utf8_lossy(o.stderr), o.status)
}

/// Describes a failed command from its decoded standard error and its exit
/// status.
pub fn describe(stderr: &str, status: &str) -> (r: String)
    ensures
        r@ == description(stderr@, status@),
{
    let t = trim_chars(&chars_of(stderr));
    if t.len() == 0 {
        status.to_owned()
    } else {
        string_of(t.as_slice())
    }
}

/// Describes a failed command.
pub fn describe_failure(o: &CommandOutput) -> (r: String)
    ensures
        r@ == failure_text(o@),
{
    let text = decode_lossy(o.stderr.as_slice());
    describe(text.as_str(), o.status.as_str())
}

/// The command line `program arg1 arg2 ...` (with one space after the program
/// even when there are no arguments).
pub open spec fn command_line(c: CommandView) -> Seq<char> {
    c.program + seq![' '] + join_spaced(c.args)
}

/// Writes out a command line.
pub fn format_command(c: &Command) -> (r: String)
    ensures
        r@ == command_line(c@),
{
    let mut out = chars_of(c.program.as_str());
    out.push(' ');
    let ghost prefix = out@;
    let rest = join_with_spaces(&c.args);
    let mut k: usize = 0;
    while k < rest.len()
        invariant
            0 <= k <= rest@.len(),
            out@ == prefix + rest@.take(k as int),
        decreases rest@.len() - k,
    {
        out.push(rest[k]);
        k = k + 1;
        assert(out@ =~= prefix + rest@.take(k as int));
    }
    assert(rest@.take(rest@.len() as int) =~= rest@);
    assert(c.args@.map_values(|s: String| s@) =~= c.args.deep_view());
    string_of(out.as_slice())
}

/// A piece of outside work.
#[derive(Debug, PartialEq, Eq)]
pub enum Effect {
    /// Does the path exist? Answered by `Event::Exists`.
    Exists(String),
    /// Run the command to completion, capturing its output. Answered by
    /// `Event::Ran`.
    Run(Command),
    /// Start the command with its standard error captured, without waiting.
    /// Answered by `Event::Done`.
    Spawn(Command),
    /// Has the started command exited? Answered by `Event::Exited` or, while
    /// it runs, by `Event::Running` with the milliseconds since it started.
    Poll,
    /// Kill the started command. Answered by `Event::Done`.
    Kill,
    /// Sleep for the milliseconds given. Answered by `Event::Done`.
    Sleep(u64),
    /// Create an empty file. Answered by `Event::Done`.
    CreateFile(String),
    /// Remove a directory and everything in it. Answered by `Event::Done`.
    RemoveDirAll(String),
    /// Read a property list from a file. Answered by `Event::Plist`.
    ReadPlist(String),
    /// Start serving file-system requests on a port. Answered by
    /// `Event::Done`.
    StartSocket(u16),
    /// Stop serving file-system requests. Answered by `Event::Done`.
    StopSocket,
}

pub enum EffectView {
    Exists(Seq<char>),
    Run(CommandView),
    Spawn(CommandView),
    Poll,
    Kill,
    Sleep(u64),
    CreateFile(Seq<char>),
    RemoveDirAll(Seq<char>),
    ReadPlist(Seq<char>),
    StartSocket(u16),
    StopSocket,
}

impl View for Effect {
    type V = EffectView;

    open spec fn view(&self) -> EffectView {
        match self {
            Effect::Exists(p) => EffectView::Exists(p@),
            Effect::Run(c) => EffectView::Run(c@),
            Effect::Spawn(c) => EffectView::Spawn(c@),
            Effect::Poll => EffectView::Poll,
            Effect::Kill => EffectView::Kill,
            Effect::Sleep(ms) => EffectView::Sleep(*ms),
            Effect::CreateFile(p) => EffectView::CreateFile(p@),
            Effect::RemoveDirAll(p) => EffectView::RemoveDirAll(p@),
            Effect::ReadPlist(p) => EffectView::ReadPlist(p@),
            Effect::StartSocket(port) => EffectView::StartSocket(*port),
            Effect::StopSocket => EffectView::StopSocket,
        }
    }
}

/// The answer to an `Effect`. An `Err` carries the message of the I/O error
/// that stopped the work.
#[derive(Debug, PartialEq, Eq)]
pub enum Event {
    Exists(bool),
    Ran(Result<CommandOutput, String>),
    Done(Result<(), String>),
    Plist(Result<PlistValue, String>),
    Running(u64),
    Exited(Result<CommandOutput, String>),
}

pub enum EventView {
    Exists(bool),
    Ran(Result<CommandOutputView, Seq<char>>),
    Done(Result<(), Seq<char>>),
    Plist(Result<PlistValue, Seq<char>>),
    Running(u64),
    Exited(Result<CommandOutputView, Seq<char>>),
}

impl View for Event {
    type V = EventView;

    open spec fn view(&self) -> EventView {
        match self {
            Event::Exists(b) => EventView::Exists(*b),
            Event::Ran(Ok(o)) => EventView::Ran(Ok(o@)),
            Event::Ran(Err(m)) => EventView::Ran(Err(m@)),
            Event::Done(Ok(())) => EventView::Done(Ok(())),
            Event::Done(Err(m)) => EventView::Done(Err(m@)),
            Event::Plist(Ok(v)) => EventView::Plist(Ok(*v)),
            Event::Plist(Err(m)) => EventView::Plist(Err(m@)),
            Event::Running(ms) => EventView::Running(*ms),
            Event::Exited(Ok(o)) => EventView::Exited(Ok(o@)),
            Event::Exited(Err(m)) => EventView::Exited(Err(m@)),
        }
    }
}

/// Whether `ev` is an answer of the kind that `effect` asks for.
pub open spec fn answers(effect: EffectView, ev: EventView) -> bool {
    match effect {
        EffectView::Exists(_) => ev is Exists,
        EffectView::Run(_) => ev is Ran,
        EffectView::Poll => ev is Running || ev is Exited,
        EffectView::ReadPlist(_) => ev is Plist,
        _ => ev is Done,
    }
}

/// What a procedure does next: ask for a piece of work, or finish.
#[derive(Debug, PartialEq, Eq)]
pub enum Step<T, E> {
    Perform(Effect),
    Finish(Result<T, E>),
}

pub enum StepView<T, E> {
    Perform(EffectView),
    Finish(Result<T, E>),
}

impl<T: View, E: View> View for Step<T, E> {
    type V = StepView<T::V, E::V>;

    open spec fn view(&self) -> StepView<T::V, E::V> {
        match self {
            Step::Perform(e) => StepView::Perform(e@),
            Step::Finish(Ok(t)) => StepView::Finish(Ok(t@)),
            Step::Finish(Err(e)) => StepView::Finish(Err(e@)),
        }
    }
}

/// Builds a command from a program and its arguments.
pub fn make_command(program: &str, args: Vec<String>) -> (c: Command)
    ensures
        c@ == command(program@, args.deep_view()),
{
    Command { program: program.to_owned(), args }
}

/// A copy of an effect.
pub fn clone_effect(e: &Effect) -> (r: Effect)
    ensures
        r@ == e@,
{
    match e {
        Effect::Exists(p) => Effect::Exists(p.clone()),
        Effect::Run(c) => Effect::Run(clone_command(c)),
        Effect::Spawn(c) => Effect::Spawn(clone_command(c)),
        Effect::Poll => Effect::Poll,
        Effect::Kill => Effect::Kill,
        Effect::Sleep(ms) => Effect::Sleep(*ms),
        Effect::CreateFile(p) => Effect::CreateFile(p.clone()),
        Effect::RemoveDirAll(p) => Effect::RemoveDirAll(p.clone()),
        Effect::ReadPlist(p) => Effect::ReadPlist(p.clone()),
        Effect::StartSocket(port) => Effect::StartSocket(*port),
        Effect::StopSocket => Effect::StopSocket,
    }
}

/// A copy of a command.
pub fn clone_command(c: &Command) -> (r: Command)
    ensures
        r@ == c@,
{
    let mut args: Vec<String> = Vec::new();
    let mut i: usize = 0;
    while i < c.args.len()
        invariant
            0 <= i <= c.args@.len(),
            args.deep_view() == c.args.deep_view().take(i as int),
        decreases c.args@.len() - i,
    {
        let a = c.args[i].clone();
        assert(a@ == c.args.deep_view()[i as int]);
        let ghost before = args.deep_view();
        args.push(a);
        assert(args.deep_view() =~= before.push(a@));
        i = i + 1;
        assert(args.deep_view() =~= c.args.deep_view().take(i as int));
    }
    assert(c.args.deep_view().take(c.args@.len() as int) =~= c.args.deep_view());
    Command { program: c.program.clone(), args }
}

/// Whether `ev` is an answer of the kind that `effect` asks for.
pub fn answers_effect(effect: &Effect, ev: &Event) -> (b: bool)
    ensures
        b == answers(effect@, ev@),
{
    match effect {
        Effect::Exists(_) => matches!(ev, Event::Exists(_)),
        Effect::Run(_) => matches!(ev, Event::Ran(_)),
        Effect::Poll => matches!(ev, Event::Running(_)) || matches!(ev, Event::Exited(_)),
        Effect::ReadPlist(_) => matches!(ev, Event::Plist(_)),
        _ => matches!(ev, Event::Done(_)),
    }
}

} // verus!
