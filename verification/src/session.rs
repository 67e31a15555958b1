//! The steps of a session: from the state and what just happened to the next
//! state, the text to write and the work to do next.
//!
//! The caller does the work (it reads, opens the database, runs a statement)
//! and reports what came of it as an [`Event`]; [`Session::step`] answers with
//! a [`Reply`]. A session begins by asking for the database, opens it, and
//! then asks for statements until the input ends. A statement that the engine
//! refuses is reported and the session goes on.

use vstd::prelude::*;
use vstd::string::*;
use crate::result_set::ResultSet;

verus! {

/// Where a session stands.
#[derive(Debug, Clone, Copy, PartialEq, Eq, Structural)]
pub enum Phase {
    /// The line that names the database was asked for.
    AwaitingPath,
    /// The database is being opened.
    Opening,
    /// A statement was asked for.
    AwaitingStatement,
    /// A statement is being run.
    Executing,
    /// The session is over.
    Finished,
}

/// What the caller reports.
#[derive(Debug, Clone, PartialEq, Eq)]
pub enum Event {
    /// A line was read.
    Line(String),
    /// The input has ended.
    EndOfInput,
    /// The database is open.
    Opened,
    /// The database could not be opened.
    OpenFailed,
    /// The statement ran and produced this result set.
    Answered(ResultSet),
    /// The engine refused the statement, with these details.
    Refused(String),
}

/// What the caller is to do next.
#[derive(Debug, Clone, PartialEq, Eq)]
pub enum Action {
    /// Write the prompt marker, read a line and report it.
    Ask,
    /// Open the database of this name and report how it went.
    Open(String),
    /// Run this statement and report how it went.
    Execute(String),
    /// Leave: in good order where `clean` holds, and else as a failure.
    Exit { clean: bool },
}

/// An [`Action`] with its texts as sequences of characters.
pub enum Command {
    Ask,
    Open(Seq<char>),
    Execute(Seq<char>),
    Exit { clean: bool },
}

impl View for Action {
    type V = Command;

    open spec fn view(&self) -> Command {
        match *self {
            Action::Ask => Command::Ask,
            Action::Open(t) => Command::Open(t@),
            Action::Execute(t) => Command::Execute(t@),
            Action::Exit { clean } => Command::Exit { clean },
        }
    }
}

/// The answer to an event: a text to write to the output as it is (it may be
/// empty), and then the work to do.
#[derive(Debug, Clone, PartialEq, Eq)]
pub struct Reply {
    pub say: String,
    pub action: Action,
}

/// The name under which the database is opened: the engine's name for a
/// database in memory where the line is empty, and else the line itself.
pub open spec fn target_of(line: Seq<char>) -> Seq<char> {
    if line.len() == 0 {
        ":memory:"@
    } else {
        line
    }
}

/// The text of the first line of output.
pub open spec fn banner_text() -> Seq<char> {
    "DB file (leave blank to keep db alive only in memory):\n"@
}

/// The lines that confirm that the database of this name is open.
pub open spec fn opened_text(target: Seq<char>) -> Seq<char> {
    "Opened DB \""@ + target + "\"\n\n"@
}

/// The line that reports a statement that the engine refused.
pub open spec fn error_text(details: Seq<char>) -> Seq<char> {
    "ERROR: "@ + details + "\n"@
}

/// Whether an event can be reported in a phase.
pub open spec fn expects(phase: Phase, event: Event) -> bool {
    match phase {
        Phase::AwaitingPath | Phase::AwaitingStatement => event is Line || event is EndOfInput,
        Phase::Opening => event is Opened || event is OpenFailed,
        Phase::Executing => event is Answered || event is Refused,
        Phase::Finished => false,
    }
}

/// The phase that follows an expected event.
pub open spec fn next_phase(phase: Phase, event: Event) -> Phase {
    match phase {
        Phase::AwaitingPath => if event is Line {
            Phase::Opening
        } else {
            Phase::Finished
        },
        Phase::Opening => if event is Opened {
            Phase::AwaitingStatement
        } else {
            Phase::Finished
        },
        Phase::AwaitingStatement => if event is Line {
            Phase::Executing
        } else {
            Phase::Finished
        },
        Phase::Executing => Phase::AwaitingStatement,
        Phase::Finished => Phase::Finished,
    }
}

/// The database name after an expected event: it is set by the line that
/// names the database and kept from then on.
pub open spec fn next_target(phase: Phase, target: Seq<char>, event: Event) -> Seq<char> {
    match (phase, event) {
        (Phase::AwaitingPath, Event::Line(line)) => target_of(line@),
        _ => target,
    }
}

/// The text to write after an expected event.
pub open spec fn said(phase: Phase, target: Seq<char>, event: Event) -> Seq<char> {
    match (phase, event) {
        (Phase::Opening, Event::Opened) => opened_text(target),
        (Phase::Executing, Event::Answered(rs)) => rs.display_text() + "\n"@,
        (Phase::Executing, Event::Refused(details)) => error_text(details@),
        _ => Seq::<char>::empty(),
    }
}

/// The work to do after an expected event.
pub open spec fn command(phase: Phase, event: Event) -> Command {
    match (phase, event) {
        (Phase::AwaitingPath, Event::Line(line)) => Command::Open(target_of(line@)),
        (Phase::AwaitingPath, _) => Command::Exit { clean: false },
        (Phase::Opening, Event::Opened) => Command::Ask,
        (Phase::Opening, _) => Command::Exit { clean: false },
        (Phase::AwaitingStatement, Event::Line(line)) => Command::Execute(line@),
        (Phase::AwaitingStatement, _) => Command::Exit { clean: true },
        (Phase::Executing, _) => Command::Ask,
        (Phase::Finished, _) => Command::Exit { clean: true },
    }
}

/// The name under which the database is opened for a given first line.
pub fn database_target(line: &str) -> (target: String)
    ensures
        target@ == target_of(line@),
{
    if line.is_empty() {
        String::from_str(":memory:")
    } else {
        String::from_str(line)
    }
}

/// The lines that confirm that the database is open.
pub fn opened_message(target: &str) -> (text: String)
    ensures
        text@ == opened_text(target@),
{
    let mut text = String::from_str("Opened DB \"");
    text.append(target);
    text.append("\"\n\n");
    text
}

/// The line that reports a refused statement.
pub fn error_message(details: &str) -> (text: String)
    ensures
        text@ == error_text(details@),
{
    let mut text = String::from_str("ERROR: ");
    text.append(details);
    text.append("\n");
    text
}

/// A session: its phase and the name of its database.
#[derive(Debug)]
pub struct Session {
    phase: Phase,
    target: String,
}

impl Session {
    /// Where the session stands.
    pub closed spec fn phase(self) -> Phase {
        self.phase
    }

    /// The name of the database: empty until the line that names it was read.
    pub closed spec fn target(self) -> Seq<char> {
        self.target@
    }

    /// Begins a session: the first line of output is to be written and the
    /// line that names the database asked for.
    pub fn begin() -> (r: (Session, Reply))
        ensures
            r.0.phase() == Phase::AwaitingPath,
            r.0.target() == Seq::<char>::empty(),
            r.1.say@ == banner_text(),
            r.1.action@ == Command::Ask,
    {
        let session = Session { phase: Phase::AwaitingPath, target: String::new() };
        let say = String::from_str("DB file (leave blank to keep db alive only in memory):\n");
        (session, Reply { say, action: Action::Ask })
    }

    /// Where the session stands.
    pub fn current_phase(&self) -> (p: Phase)
        ensures
            p == self.phase(),
    {
        self.phase
    }

    /// Whether the session is over.
    pub fn is_finished(&self) -> (b: bool)
        ensures
            b == (self.phase() == Phase::Finished),
    {
        self.phase == Phase::Finished
    }

    /// Takes one event.
    ///
    /// An event that the phase does not expect changes nothing and has no
    /// reply. Every other event has one: the session moves to the phase
    /// that follows, and the reply holds the text to write and the work to do.
    pub fn step(&mut self, event: Event) -> (reply: Option<Reply>)
        ensures
            !expects(old(self).phase(), event) ==> reply is None
                && final(self).phase() == old(self).phase()
                && final(self).target() == old(self).target(),
            expects(old(self).phase(), event) ==> reply is Some
                && final(self).phase() == next_phase(old(self).phase(), event)
                && final(self).target() == next_target(old(self).phase(), old(self).target(), event)
                && (reply->0).say@ == said(old(self).phase(), old(self).target(), event)
                && (reply->0).action@ == command(old(self).phase(), event),
    {
        match (self.phase, event) {
            (Phase::AwaitingPath, Event::Line(line)) => {
                let target = database_target(line.as_str());
                self.target = target.clone();
                self.phase = Phase::Opening;
                Some(Reply { say: String::new(), action: Action::Open(target) })
            },
            (Phase::AwaitingPath, Event::EndOfInput) => {
                self.phase = Phase::Finished;
                Some(Reply { say: String::new(), action: Action::Exit { clean: false } })
            },
            (Phase::Opening, Event::Opened) => {
                self.phase = Phase::AwaitingStatement;
                let say = opened_message(self.target.as_str());
                Some(Reply { say, action: Action::Ask })
            },
            (Phase::Opening, Event::OpenFailed) => {
                self.phase = Phase::Finished;
                Some(Reply { say: String::new(), action: Action::Exit { clean: false } })
            },
            (Phase::AwaitingStatement, Event::Line(line)) => {
                self.phase = Phase::Executing;
                Some(Reply { say: String::new(), action: Action::Execute(line) })
            },
            (Phase::AwaitingStatement, Event::EndOfInput) => {
                self.phase = Phase::Finished;
                Some(Reply { say: String::new(), action: Action::Exit { clean: true } })
            },
            (Phase::Executing, Event::Answered(rs)) => {
                self.phase = Phase::AwaitingStatement;
                let mut say = rs.display();
                say.append("\n");
                Some(Reply { say, action: Action::Ask })
            },
            (Phase::Executing, Event::Refused(details)) => {
                self.phase = Phase::AwaitingStatement;
                let say = error_message(details.as_str());
                Some(Reply { say, action: Action::Ask })
            },
            _ => None,
        }
    }
}

/// No outcome of a statement ends the session: whether the statement was
/// answered or refused, something is written, the database keeps its name
/// and the next statement is asked for.
pub proof fn lemma_statement_outcome_goes_on(target: Seq<char>, event: Event)
    requires
        event is Answered || event is Refused,
    ensures
        expects(Phase::Executing, event),
        next_phase(Phase::Executing, event) == Phase::AwaitingStatement,
        command(Phase::Executing, event) == Command::Ask,
        next_target(Phase::Executing, target, event) == target,
        said(Phase::Executing, target, event).len() > 0,
{
    reveal_strlit("\n");
}

/// What is written for a refused statement is one line that begins with
/// `ERROR: ` and goes on with the engine's details.
pub proof fn lemma_refusal_is_reported(target: Seq<char>, details: String)
    ensures
        said(Phase::Executing, target, Event::Refused(details)) == "ERROR: "@ + details@ + "\n"@,
        said(Phase::Executing, target, Event::Refused(details)).subrange(0, 7) == "ERROR: "@,
        said(Phase::Executing, target, Event::Refused(details)).last() == '\n',
{
    reveal_strlit("ERROR: ");
    reveal_strlit("\n");
    assert(said(Phase::Executing, target, Event::Refused(details)).subrange(0, 7) =~= "ERROR: "@);
}

/// What is written for an answer without rows is the line `No Data`, whatever
/// the column names are.
pub proof fn lemma_answer_without_rows_is_no_data(target: Seq<char>, answer: ResultSet)
    requires
        answer.rows@.len() == 0,
    ensures
        said(Phase::Executing, target, Event::Answered(answer)) == "No Data\n"@,
{
    reveal_strlit("No Data");
    reveal_strlit("\n");
    reveal_strlit("No Data\n");
    assert(said(Phase::Executing, target, Event::Answered(answer)) =~= "No Data\n"@);
}

/// A session is over only once the input has ended or the database could not
/// be opened, and it ends in good order only where the input ended while a
/// statement was asked for.
pub proof fn lemma_only_end_or_open_failure_finishes(phase: Phase, event: Event)
    requires
        expects(phase, event),
        next_phase(phase, event) == Phase::Finished,
    ensures
        event is EndOfInput || event is OpenFailed,
        command(phase, event) is Exit,
        command(phase, event)->clean <==> phase == Phase::AwaitingStatement,
{
}

/// The database is asked for once: no event leads back to the first phase,
/// and a session that is over expects nothing more.
pub proof fn lemma_no_way_back(phase: Phase, event: Event)
    ensures
        expects(phase, event) ==> next_phase(phase, event) != Phase::AwaitingPath,
        !expects(Phase::Finished, event),
{
}

/// The caller is told to leave exactly when the session is over.
pub proof fn lemma_exit_means_finished(phase: Phase, event: Event)
    requires
        expects(phase, event),
    ensures
        command(phase, event) is Exit <==> next_phase(phase, event) == Phase::Finished,
{
}

/// An empty first line names the database in memory; any other line names
/// itself.
pub proof fn lemma_target_of_first_line(line: Seq<char>)
    ensures
        line.len() == 0 ==> target_of(line) == ":memory:"@,
        line.len() > 0 ==> target_of(line) == line,
        target_of(line).len() > 0,
{
    reveal_strlit(":memory:");
}

} // verus!
