//! Reconciling one rule with the filesystem.
//!
//! A [`Reconciler`] holds a rule and how far its reconciliation has come.
//! It never touches the filesystem: [`Reconciler::request`] says what it
//! needs done or looked up, and [`Reconciler::accept`] takes the answer. The
//! caller goes round until the request is [`Action::Finish`].
//!
//! The order is fixed. The source is resolved and must exist before the
//! destination is looked at. The destination is judged by what is at its
//! own path: a symbolic link there is judged by its target as written,
//! whether or not that target exists. A destination that is there is never
//! changed. Only where nothing is at the destination is it created, parent
//! directories first.

use vstd::prelude::*;
use crate::diff::{diff_chunks, verdict, Verdict};
use crate::paths::{parent_dir, parent_of};
use crate::rule::{Mode, Rule, RuleView};
use crate::text::same_text;

verus! {

/// What applying one rule came to.
#[derive(Clone, Copy, Debug, PartialEq, Eq, Structural)]
pub enum Outcome {
    /// The destination did not exist and was created in the given mode.
    Created(Mode),
    /// The destination already is what the rule asks for.
    AlreadySatisfied(Mode),
    /// The destination exists and is something else. It was left as it is.
    Conflict,
    /// The source does not exist.
    SourceMissing,
    /// Creating the parent directories, the link or the copy failed.
    IoFailure,
}

impl Outcome {
    /// Whether the rule was skipped: anything but created or already
    /// satisfied.
    pub open spec fn skipped(self) -> bool {
        !(self is Created || self is AlreadySatisfied)
    }

    /// Whether the rule was skipped, and its line is an error to report.
    pub fn is_skipped(&self) -> (skipped: bool)
        ensures
            skipped == self.skipped(),
    {
        match self {
            Outcome::Created(_) => false,
            Outcome::AlreadySatisfied(_) => false,
            _ => true,
        }
    }
}

/// How far the reconciliation of a rule has come: what answer it waits for.
#[derive(Clone, Copy, Debug, PartialEq, Eq, Structural)]
pub enum Phase {
    /// For the canonical form of the source.
    Resolve,
    /// For whether the source exists.
    SourceCheck,
    /// For the target of the destination, if it is a symbolic link.
    LinkCheck,
    /// For whether the destination, which is no link, exists.
    DestinationCheck,
    /// For the source to be opened.
    SourceOpen,
    /// For the destination to be opened.
    DestinationOpen,
    /// For the next chunk of the source.
    SourceRead,
    /// For the next chunk of the destination.
    DestinationRead,
    /// For the destination's parent directories to be created.
    ParentCreate,
    /// For the link or the copy to be made.
    Materialize,
    /// For nothing: the outcome is known.
    Finished(Outcome),
}

/// The outcome of a rule and the line that tells the operator of it.
#[derive(Debug, PartialEq, Eq)]
pub struct Report {
    pub outcome: Outcome,
    pub line: String,
}

/// A [`Report`] as a mathematical value.
pub struct ReportView {
    pub outcome: Outcome,
    pub line: Seq<char>,
}

impl View for Report {
    type V = ReportView;

    open spec fn view(&self) -> ReportView {
        ReportView { outcome: self.outcome, line: self.line@ }
    }
}

/// What a [`Reconciler`] asks its caller to do next.
#[derive(Debug, PartialEq, Eq)]
pub enum Action {
    /// Canonicalise this path, following links and resolving `.` and `..`.
    Canonicalize(String),
    /// Say whether this path exists, following links.
    Exists(String),
    /// Read the target of this path, if it is a symbolic link. The link
    /// itself is asked for, whether or not its target exists.
    ReadLink(String),
    /// Open the source, at this path, for reading.
    OpenSource(String),
    /// Open the destination, at this path, for reading.
    OpenDestination(String),
    /// Read up to [`BUF_SIZE`] bytes from the opened source.
    ReadSource,
    /// Read up to [`BUF_SIZE`] bytes from the opened destination.
    ReadDestination,
    /// Create this directory and all its parents.
    CreateDirs(String),
    /// Create a symbolic link at `link` that points to `target`.
    Symlink { target: String, link: String },
    /// Copy the bytes of the file at `from` to `to`.
    Copy { from: String, to: String },
    /// Nothing more: report this.
    Finish(Report),
}

/// An [`Action`] as a mathematical value.
pub enum ActionView {
    Canonicalize(Seq<char>),
    Exists(Seq<char>),
    ReadLink(Seq<char>),
    OpenSource(Seq<char>),
    OpenDestination(Seq<char>),
    ReadSource,
    ReadDestination,
    CreateDirs(Seq<char>),
    Symlink { target: Seq<char>, link: Seq<char> },
    Copy { from: Seq<char>, to: Seq<char> },
    Finish(ReportView),
}

impl ActionView {
    /// Whether carrying the action out changes the filesystem.
    pub open spec fn mutates(self) -> bool {
        self is CreateDirs || self is Symlink || self is Copy
    }
}

impl View for Action {
    type V = ActionView;

    open spec fn view(&self) -> ActionView {
        match self {
            Action::Canonicalize(p) => ActionView::Canonicalize(p@),
            Action::Exists(p) => ActionView::Exists(p@),
            Action::ReadLink(p) => ActionView::ReadLink(p@),
            Action::OpenSource(p) => ActionView::OpenSource(p@),
            Action::OpenDestination(p) => ActionView::OpenDestination(p@),
            Action::ReadSource => ActionView::ReadSource,
            Action::ReadDestination => ActionView::ReadDestination,
            Action::CreateDirs(p) => ActionView::CreateDirs(p@),
            Action::Symlink { target, link } => ActionView::Symlink { target: target@, link: link@ },
            Action::Copy { from, to } => ActionView::Copy { from: from@, to: to@ },
            Action::Finish(report) => ActionView::Finish(report@),
        }
    }
}

/// The answer to an [`Action`].
#[derive(Debug, PartialEq, Eq)]
pub enum Event {
    /// The canonical form of the path, or `None` where it cannot be had, or
    /// cannot be had as text: a path that is not valid UTF-8 counts as none.
    Canonical(Option<String>),
    /// Whether the path exists.
    Exists(bool),
    /// The link's target, or `None` where the path is no symbolic link. A
    /// target that is not valid UTF-8 is given with U+FFFD in place of what
    /// is not: it is still a link's target.
    LinkTarget(Option<String>),
    /// Whether the file was opened.
    Opened(bool),
    /// The bytes read, none at the end of the file; `None` where the read
    /// failed.
    Chunk(Option<Vec<u8>>),
    /// A change was made, or failed for the cause given.
    Completed(Result<(), String>),
}

/// An [`Event`] as a mathematical value.
pub enum EventView {
    Canonical(Option<Seq<char>>),
    Exists(bool),
    LinkTarget(Option<Seq<char>>),
    Opened(bool),
    Chunk(Option<Seq<u8>>),
    Completed(Result<(), Seq<char>>),
}

impl View for Event {
    type V = EventView;

    open spec fn view(&self) -> EventView {
        match self {
            Event::Canonical(path) => EventView::Canonical(path.deep_view()),
            Event::Exists(found) => EventView::Exists(*found),
            Event::LinkTarget(target) => EventView::LinkTarget(target.deep_view()),
            Event::Opened(opened) => EventView::Opened(*opened),
            Event::Chunk(Some(bytes)) => EventView::Chunk(Some(bytes@)),
            Event::Chunk(None) => EventView::Chunk(None),
            Event::Completed(Ok(_)) => EventView::Completed(Ok(())),
            Event::Completed(Err(cause)) => EventView::Completed(Err(cause@)),
        }
    }
}

/// A rule on its way through reconciliation.
pub struct Reconciler {
    name: String,
    source: String,
    destination: String,
    mode: Mode,
    phase: Phase,
    parent: String,
    held: Vec<u8>,
    cause: String,
}

/// A [`Reconciler`] as a mathematical value.
pub struct ReconcilerView {
    /// The rule's name.
    pub name: Seq<char>,
    /// The source: as stored until it is resolved, then as resolved.
    pub source: Seq<char>,
    /// The destination, as stored.
    pub destination: Seq<char>,
    /// The rule's mode.
    pub mode: Mode,
    /// What answer is waited for.
    pub phase: Phase,
    /// The directory to create, once it is known that one has to be.
    pub parent: Seq<char>,
    /// The source's chunk that waits for the destination's.
    pub held: Seq<u8>,
    /// Why a change failed, once one has.
    pub cause: Seq<char>,
}

impl View for Reconciler {
    type V = ReconcilerView;

    closed spec fn view(&self) -> ReconcilerView {
        ReconcilerView {
            name: self.name@,
            source: self.source@,
            destination: self.destination@,
            mode: self.mode,
            phase: self.phase,
            parent: self.parent@,
            held: self.held@,
            cause: self.cause@,
        }
    }
}

/// The reconciliation of `rule` under `name`, before anything is known.
pub open spec fn start(rule: RuleView, name: Seq<char>) -> ReconcilerView {
    ReconcilerView {
        name,
        source: rule.src,
        destination: rule.dst,
        mode: rule.mode,
        phase: Phase::Resolve,
        parent: Seq::empty(),
        held: Seq::empty(),
        cause: Seq::empty(),
    }
}

/// The source to work with: its canonical form where there is one, else the
/// path as it was stored.
pub open spec fn resolved(stored: Seq<char>, canonical: Option<Seq<char>>) -> Seq<char> {
    match canonical {
        Some(path) => path,
        None => stored,
    }
}

/// What follows the look at the destination's link target.
///
/// A link at the destination is judged at once, by its target as written
/// and whether or not the target exists: it satisfies a link rule where it
/// points to exactly the source, path for path, and is in conflict with
/// anything else. Where the destination is no link, it is next asked
/// whether it exists.
pub open spec fn after_link_check(mode: Mode, source: Seq<char>, target: Option<Seq<char>>) -> Phase {
    match target {
        Some(path) => if mode == Mode::Link && path == source {
            Phase::Finished(Outcome::AlreadySatisfied(Mode::Link))
        } else {
            Phase::Finished(Outcome::Conflict)
        },
        None => Phase::DestinationCheck,
    }
}

/// What follows on a destination that exists and is no link: it is in
/// conflict with a link rule, and under a copy rule its contents are
/// compared with the source's.
pub open spec fn after_destination_check(mode: Mode) -> Phase {
    match mode {
        Mode::Link => Phase::Finished(Outcome::Conflict),
        Mode::Copy => Phase::SourceOpen,
    }
}

/// What follows a pair of chunks, the source's and the destination's.
pub open spec fn after_chunks(src: Seq<u8>, dst: Seq<u8>) -> Phase {
    match verdict(src, dst) {
        Verdict::Same => Phase::Finished(Outcome::AlreadySatisfied(Mode::Copy)),
        Verdict::Different => Phase::Finished(Outcome::Conflict),
        Verdict::Undecided => Phase::SourceRead,
    }
}

/// How a reconciliation that has found no destination goes on: to creating
/// `parent` where the destination has a parent, else straight to the link or
/// the copy. In any other phase than [`Phase::DestinationCheck`] nothing
/// changes.
pub open spec fn with_parent(m: ReconcilerView, parent: Option<Seq<char>>) -> ReconcilerView {
    if m.phase != Phase::DestinationCheck {
        m
    } else {
        match parent {
            Some(dir) => ReconcilerView { parent: dir, phase: Phase::ParentCreate, ..m },
            None => ReconcilerView { phase: Phase::Materialize, ..m },
        }
    }
}

/// The reconciliation after an answer.
///
/// An event that does not answer the pending request changes nothing, nor
/// does any event once the outcome is known. A read that fails ends the
/// comparison: what cannot be read is not known to be the same, so the
/// destination is in conflict.
pub open spec fn next(m: ReconcilerView, event: EventView) -> ReconcilerView {
    match (m.phase, event) {
        (Phase::Resolve, EventView::Canonical(canonical)) => ReconcilerView {
            source: resolved(m.source, canonical),
            phase: Phase::SourceCheck,
            ..m
        },
        (Phase::SourceCheck, EventView::Exists(found)) => ReconcilerView {
            phase: if found {
                Phase::LinkCheck
            } else {
                Phase::Finished(Outcome::SourceMissing)
            },
            ..m
        },
        (Phase::DestinationCheck, EventView::Exists(found)) => if found {
            ReconcilerView { phase: after_destination_check(m.mode), ..m }
        } else {
            with_parent(m, parent_of(m.destination))
        },
        (Phase::LinkCheck, EventView::LinkTarget(target)) => ReconcilerView {
            phase: after_link_check(m.mode, m.source, target),
            ..m
        },
        (Phase::SourceOpen, EventView::Opened(opened)) => ReconcilerView {
            phase: if opened {
                Phase::DestinationOpen
            } else {
                Phase::Finished(Outcome::Conflict)
            },
            ..m
        },
        (Phase::DestinationOpen, EventView::Opened(opened)) => ReconcilerView {
            phase: if opened {
                Phase::SourceRead
            } else {
                Phase::Finished(Outcome::Conflict)
            },
            ..m
        },
        (Phase::SourceRead, EventView::Chunk(Some(bytes))) => ReconcilerView {
            held: bytes,
            phase: Phase::DestinationRead,
            ..m
        },
        (Phase::DestinationRead, EventView::Chunk(Some(bytes))) => ReconcilerView {
            phase: after_chunks(m.held, bytes),
            ..m
        },
        (Phase::SourceRead, EventView::Chunk(None)) => ReconcilerView {
            phase: Phase::Finished(Outcome::Conflict),
            ..m
        },
        (Phase::DestinationRead, EventView::Chunk(None)) => ReconcilerView {
            phase: Phase::Finished(Outcome::Conflict),
            ..m
        },
        (Phase::ParentCreate, EventView::Completed(Ok(_))) => ReconcilerView {
            phase: Phase::Materialize,
            ..m
        },
        (Phase::Materialize, EventView::Completed(Ok(_))) => ReconcilerView {
            phase: Phase::Finished(Outcome::Created(m.mode)),
            ..m
        },
        (Phase::ParentCreate, EventView::Completed(Err(cause))) => ReconcilerView {
            cause,
            phase: Phase::Finished(Outcome::IoFailure),
            ..m
        },
        (Phase::Materialize, EventView::Completed(Err(cause))) => ReconcilerView {
            cause,
            phase: Phase::Finished(Outcome::IoFailure),
            ..m
        },
        _ => m,
    }
}

/// The line that tells the operator of `outcome`.
pub open spec fn line(m: ReconcilerView, outcome: Outcome) -> Seq<char> {
    match outcome {
        Outcome::Created(Mode::Copy) => "Copyto: ["@ + m.name + "] > "@ + m.destination,
        Outcome::Created(Mode::Link) => "Linkto: ["@ + m.name + "] > "@ + m.destination,
        Outcome::AlreadySatisfied(Mode::Copy) => "Copied: ["@ + m.name + "]"@,
        Outcome::AlreadySatisfied(Mode::Link) => "Linked: ["@ + m.name + "]"@,
        Outcome::Conflict => "Skiped: ["@ + m.name + "] target "@ + m.destination + " exists"@,
        Outcome::SourceMissing => "Skiped: ["@ + m.name + "] source "@ + m.source
            + " not exists"@,
        Outcome::IoFailure => "Skiped: ["@ + m.name + "] "@ + m.destination + ": "@ + m.cause,
    }
}

/// What the reconciliation asks for in its phase.
pub open spec fn request(m: ReconcilerView) -> ActionView {
    match m.phase {
        Phase::Resolve => ActionView::Canonicalize(m.source),
        Phase::SourceCheck => ActionView::Exists(m.source),
        Phase::DestinationCheck => ActionView::Exists(m.destination),
        Phase::LinkCheck => ActionView::ReadLink(m.destination),
        Phase::SourceOpen => ActionView::OpenSource(m.source),
        Phase::DestinationOpen => ActionView::OpenDestination(m.destination),
        Phase::SourceRead => ActionView::ReadSource,
        Phase::DestinationRead => ActionView::ReadDestination,
        Phase::ParentCreate => ActionView::CreateDirs(m.parent),
        Phase::Materialize => match m.mode {
            Mode::Link => ActionView::Symlink { target: m.source, link: m.destination },
            Mode::Copy => ActionView::Copy { from: m.source, to: m.destination },
        },
        Phase::Finished(outcome) => ActionView::Finish(
            ReportView { outcome, line: line(m, outcome) },
        ),
    }
}

impl Reconciler {
    /// The reconciliation of `rule` under `name`, before anything is known.
    pub fn new(rule: Rule, name: String) -> (machine: Reconciler)
        ensures
            machine@ == start(rule@, name@),
    {
        Reconciler {
            name,
            source: rule.src,
            destination: rule.dst,
            mode: rule.mode,
            phase: Phase::Resolve,
            parent: String::new(),
            held: Vec::new(),
            cause: String::new(),
        }
    }

    /// What answer is waited for.
    pub fn phase(&self) -> (phase: Phase)
        ensures
            phase == self@.phase,
    {
        self.phase
    }

    /// The outcome, once it is known.
    pub fn outcome(&self) -> (outcome: Option<Outcome>)
        ensures
            outcome == (match self@.phase {
                Phase::Finished(o) => Some(o),
                _ => None,
            }),
    {
        match self.phase {
            Phase::Finished(o) => Some(o),
            _ => None,
        }
    }

    /// The line that tells the operator of `outcome`.
    pub fn line(&self, outcome: Outcome) -> (text: String)
        ensures
            text@ == line(self@, outcome),
    {
        let name = self.name.as_str();
        let destination = self.destination.as_str();
        match outcome {
            Outcome::Created(Mode::Copy) => String::from_str("Copyto: [").concat(name).concat(
                "] > ",
            ).concat(destination),
            Outcome::Created(Mode::Link) => String::from_str("Linkto: [").concat(name).concat(
                "] > ",
            ).concat(destination),
            Outcome::AlreadySatisfied(Mode::Copy) => String::from_str("Copied: [").concat(
                name,
            ).concat("]"),
            Outcome::AlreadySatisfied(Mode::Link) => String::from_str("Linked: [").concat(
                name,
            ).concat("]"),
            Outcome::Conflict => String::from_str("Skiped: [").concat(name).concat(
                "] target ",
            ).concat(destination).concat(" exists"),
            Outcome::SourceMissing => String::from_str("Skiped: [").concat(name).concat(
                "] source ",
            ).concat(self.source.as_str()).concat(" not exists"),
            Outcome::IoFailure => String::from_str("Skiped: [").concat(name).concat("] ").concat(
                destination,
            ).concat(": ").concat(self.cause.as_str()),
        }
    }

    /// What the caller is asked to do next.
    pub fn request(&self) -> (action: Action)
        ensures
            action@ == request(self@),
    {
        match self.phase {
            Phase::Resolve => Action::Canonicalize(self.source.clone()),
            Phase::SourceCheck => Action::Exists(self.source.clone()),
            Phase::DestinationCheck => Action::Exists(self.destination.clone()),
            Phase::LinkCheck => Action::ReadLink(self.destination.clone()),
            Phase::SourceOpen => Action::OpenSource(self.source.clone()),
            Phase::DestinationOpen => Action::OpenDestination(self.destination.clone()),
            Phase::SourceRead => Action::ReadSource,
            Phase::DestinationRead => Action::ReadDestination,
            Phase::ParentCreate => Action::CreateDirs(self.parent.clone()),
            Phase::Materialize => match self.mode {
                Mode::Link => Action::Symlink {
                    target: self.source.clone(),
                    link: self.destination.clone(),
                },
                Mode::Copy => Action::Copy {
                    from: self.source.clone(),
                    to: self.destination.clone(),
                },
            },
            Phase::Finished(outcome) => Action::Finish(
                Report { outcome, line: self.line(outcome) },
            ),
        }
    }

    /// Goes on from a destination that does not exist, given its parent
    /// directory as `std::path` sees it: to creating that directory, or to
    /// the link or the copy at once where there is none to create.
    pub fn create_parent(&mut self, parent: Option<String>)
        ensures
            final(self)@ == with_parent(old(self)@, parent.deep_view()),
    {
        if self.phase == Phase::DestinationCheck {
            match parent {
                Some(dir) => {
                    self.parent = dir;
                    self.phase = Phase::ParentCreate;
                },
                None => {
                    self.phase = Phase::Materialize;
                },
            }
        }
    }

    /// Whether the destination's link target satisfies the rule, and what
    /// follows from it.
    fn is_linked(&self, target: &Option<String>) -> (phase: Phase)
        ensures
            phase == after_link_check(self@.mode, self@.source, target.deep_view()),
    {
        match target {
            Some(path) => match self.mode {
                Mode::Link => if same_text(path.as_str(), self.source.as_str()) {
                    Phase::Finished(Outcome::AlreadySatisfied(Mode::Link))
                } else {
                    Phase::Finished(Outcome::Conflict)
                },
                Mode::Copy => Phase::Finished(Outcome::Conflict),
            },
            None => Phase::DestinationCheck,
        }
    }

    /// Takes the answer to the pending request.
    pub fn accept(&mut self, event: Event)
        ensures
            final(self)@ == next(old(self)@, event@),
    {
        match (self.phase, event) {
            (Phase::Resolve, Event::Canonical(canonical)) => {
                if let Some(path) = canonical {
                    self.source = path;
                }
                self.phase = Phase::SourceCheck;
            },
            (Phase::SourceCheck, Event::Exists(found)) => {
                self.phase = if found {
                    Phase::LinkCheck
                } else {
                    Phase::Finished(Outcome::SourceMissing)
                };
            },
            (Phase::DestinationCheck, Event::Exists(found)) => {
                if found {
                    self.phase = match self.mode {
                        Mode::Link => Phase::Finished(Outcome::Conflict),
                        Mode::Copy => Phase::SourceOpen,
                    };
                } else {
                    let parent = parent_dir(self.destination.as_str());
                    self.create_parent(parent);
                }
            },
            (Phase::LinkCheck, Event::LinkTarget(target)) => {
                self.phase = self.is_linked(&target);
            },
            (Phase::SourceOpen, Event::Opened(opened)) => {
                self.phase = if opened {
                    Phase::DestinationOpen
                } else {
                    Phase::Finished(Outcome::Conflict)
                };
            },
            (Phase::DestinationOpen, Event::Opened(opened)) => {
                self.phase = if opened {
                    Phase::SourceRead
                } else {
                    Phase::Finished(Outcome::Conflict)
                };
            },
            (Phase::SourceRead, Event::Chunk(Some(bytes))) => {
                self.held = bytes;
                self.phase = Phase::DestinationRead;
            },
            (Phase::DestinationRead, Event::Chunk(Some(bytes))) => {
                self.phase = match diff_chunks(self.held.as_slice(), bytes.as_slice()) {
                    Verdict::Same => Phase::Finished(Outcome::AlreadySatisfied(Mode::Copy)),
                    Verdict::Different => Phase::Finished(Outcome::Conflict),
                    Verdict::Undecided => Phase::SourceRead,
                };
            },
            (Phase::SourceRead, Event::Chunk(None)) => {
                self.phase = Phase::Finished(Outcome::Conflict);
            },
            (Phase::DestinationRead, Event::Chunk(None)) => {
                self.phase = Phase::Finished(Outcome::Conflict);
            },
            (Phase::ParentCreate, Event::Completed(Ok(_))) => {
                self.phase = Phase::Materialize;
            },
            (Phase::Materialize, Event::Completed(Ok(_))) => {
                self.phase = Phase::Finished(Outcome::Created(self.mode));
            },
            (Phase::ParentCreate, Event::Completed(Err(cause))) => {
                self.cause = cause;
                self.phase = Phase::Finished(Outcome::IoFailure);
            },
            (Phase::Materialize, Event::Completed(Err(cause))) => {
                self.cause = cause;
                self.phase = Phase::Finished(Outcome::IoFailure);
            },
            _ => {},
        }
    }
}

} // verus!
