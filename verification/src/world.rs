//! What reconciliation comes to, stated over a model of the filesystem.
//!
//! A [`World`] holds what the filesystem would answer to the requests of one
//! rule's [`Reconciler`](crate::engine::Reconciler), and how making the link
//! or the copy changes those answers. [`apply`] runs a reconciliation
//! against a world. The lemmas say what always comes of that.
//!
//! The destination is what is at its own path: a link there is a link,
//! whether or not its target exists. In a world a read of a regular file
//! fills the buffer as far as the file reaches. What is no regular file, a directory for one, may still open:
//! every read of it fails.

use vstd::prelude::*;
use crate::diff::{after_chunk, chunk, diff_files, rounds, verdict, Verdict, lemma_diff_files_is_equality};
use crate::engine::{next, request, resolved, start, ActionView, EventView, Outcome, Phase, ReconcilerView};
use crate::paths::parent_of;
use crate::rule::{Mode, RuleView};

verus! {

/// What a path names, the path itself and not what a link at it points to.
pub enum Node {
    /// Nothing.
    Absent,
    /// A symbolic link to `target`; `resolves` says whether the target
    /// exists.
    Link { target: Seq<char>, resolves: bool },
    /// A regular file with these bytes.
    File(Seq<u8>),
    /// Anything else, a directory for one. It may open for reading, and
    /// every read of it fails.
    Other { opens: bool },
}

impl Node {
    /// Whether anything is at the path: a link counts, whether or not its
    /// target exists.
    pub open spec fn present(self) -> bool {
        !(self is Absent)
    }

    /// Whether a path that names this exists when links are followed.
    pub open spec fn reachable(self) -> bool {
        match self {
            Node::Absent => false,
            Node::Link { target, resolves } => resolves,
            _ => true,
        }
    }

    /// The link target read from a path that names this.
    pub open spec fn link_target(self) -> Option<Seq<char>> {
        match self {
            Node::Link { target, resolves } => Some(target),
            _ => None,
        }
    }
}

/// The filesystem as one rule's reconciliation meets it.
pub struct World {
    /// The canonical form of the rule's stored source, where it has one.
    pub canonical: Option<Seq<char>>,
    /// Whether the resolved source exists.
    pub source_exists: bool,
    /// Whether the source opens for reading.
    pub source_opens: bool,
    /// What the reads of the opened source give: its bytes, or nothing
    /// where every read fails.
    pub source_bytes: Option<Seq<u8>>,
    /// What the destination path names.
    pub destination: Node,
    /// Why the destination's parent directories cannot be created, if they
    /// cannot.
    pub dirs_failure: Option<Seq<char>>,
    /// Why the link or the copy cannot be made, if it cannot.
    pub create_failure: Option<Seq<char>>,
    /// What a copy reports of a source that it cannot read.
    pub copy_failure: Seq<char>,
    /// What making a link or a copy reports where something is at the
    /// destination.
    pub occupied_failure: Seq<char>,
    /// What is still unread of the opened source.
    pub source_unread: Seq<u8>,
    /// What is still unread of the opened destination.
    pub destination_unread: Seq<u8>,
}

/// How the destination stands to the source.
pub enum DestState {
    /// Nothing is at its path.
    Absent,
    /// It is a symbolic link whose target, as written, is the source.
    SatisfiedLink,
    /// It is no link and has the source's bytes.
    SatisfiedCopy,
    /// Something is there and is neither: a link to another path, whether
    /// or not that path exists, a file with other bytes, or anything else.
    Conflict,
}

impl World {
    /// The source that the rule is reconciled with.
    pub open spec fn source(self, rule: RuleView) -> Seq<char> {
        resolved(rule.src, self.canonical)
    }

    /// The bytes that can be had of the source: it opens and its reads
    /// succeed.
    pub open spec fn source_content(self) -> Option<Seq<u8>> {
        if self.source_opens {
            self.source_bytes
        } else {
            None
        }
    }

    /// How the destination stands to `source`.
    pub open spec fn classify(self, source: Seq<char>) -> DestState {
        match self.destination {
            Node::Absent => DestState::Absent,
            Node::Link { target, resolves } => if target == source {
                DestState::SatisfiedLink
            } else {
                DestState::Conflict
            },
            Node::File(bytes) => if self.source_content() == Some(bytes) {
                DestState::SatisfiedCopy
            } else {
                DestState::Conflict
            },
            Node::Other { opens } => DestState::Conflict,
        }
    }

    /// What comes of making the link or the copy in `mode`. A copy fails
    /// also where the source cannot be read. The model follows creation
    /// only where nothing is at the destination: over a link, a file or
    /// anything else it counts as failed, and no reconciliation asks for it
    /// there.
    pub open spec fn creation(self, mode: Mode) -> Result<(), Seq<char>> {
        if self.destination.present() {
            Err(self.occupied_failure)
        } else {
            match self.create_failure {
                Some(cause) => Err(cause),
                None => if mode == Mode::Copy && self.source_content() is None {
                    Err(self.copy_failure)
                } else {
                    Ok(())
                },
            }
        }
    }

    /// What is at the destination once `action` has made the link or the
    /// copy where nothing was. The source is what the reconciliation links
    /// to and copies from, so a link resolves where the source exists, and
    /// a copy has the source's bytes. What was at the destination stays.
    pub open spec fn made(self, action: ActionView) -> Node {
        if self.destination.present() {
            self.destination
        } else {
            match (action, self.source_content()) {
                (ActionView::Symlink { target, link }, _) => Node::Link {
                    target,
                    resolves: self.source_exists,
                },
                (ActionView::Copy { from, to }, Some(bytes)) => Node::File(bytes),
                _ => self.destination,
            }
        }
    }

    /// The answer to the request that `m` has pending.
    pub open spec fn answer(self, m: ReconcilerView) -> EventView {
        match m.phase {
            Phase::Resolve => EventView::Canonical(self.canonical),
            Phase::SourceCheck => EventView::Exists(self.source_exists),
            Phase::DestinationCheck => EventView::Exists(self.destination.reachable()),
            Phase::LinkCheck => EventView::LinkTarget(self.destination.link_target()),
            Phase::SourceOpen => EventView::Opened(self.source_opens),
            Phase::DestinationOpen => EventView::Opened(
                match self.destination {
                    Node::File(bytes) => true,
                    Node::Other { opens } => opens,
                    _ => false,
                },
            ),
            Phase::SourceRead => EventView::Chunk(
                if self.source_bytes is Some {
                    Some(chunk(self.source_unread))
                } else {
                    None
                },
            ),
            Phase::DestinationRead => EventView::Chunk(
                if self.destination is File {
                    Some(chunk(self.destination_unread))
                } else {
                    None
                },
            ),
            Phase::ParentCreate => EventView::Completed(
                match self.dirs_failure {
                    Some(cause) => Err(cause),
                    None => Ok(()),
                },
            ),
            Phase::Materialize => EventView::Completed(self.creation(m.mode)),
            Phase::Finished(_) => EventView::Exists(false),
        }
    }

    /// The world once the request that `m` has pending was carried out.
    pub open spec fn after(self, m: ReconcilerView) -> World {
        match m.phase {
            Phase::SourceOpen => match self.source_bytes {
                Some(bytes) => World { source_unread: bytes, ..self },
                None => self,
            },
            Phase::DestinationOpen => match self.destination {
                Node::File(bytes) => World { destination_unread: bytes, ..self },
                _ => self,
            },
            Phase::SourceRead => World { source_unread: after_chunk(self.source_unread), ..self },
            Phase::DestinationRead => World {
                destination_unread: after_chunk(self.destination_unread),
                ..self
            },
            Phase::Materialize => if self.creation(m.mode) is Ok {
                World { destination: self.made(request(m)), ..self }
            } else {
                self
            },
            _ => self,
        }
    }

    /// Whether `other` is this world but for how far the opened files have
    /// been read.
    pub open spec fn agrees(self, other: World) -> bool {
        &&& self.canonical == other.canonical
        &&& self.source_exists == other.source_exists
        &&& self.source_opens == other.source_opens
        &&& self.source_bytes == other.source_bytes
        &&& self.destination == other.destination
        &&& self.dirs_failure == other.dirs_failure
        &&& self.create_failure == other.create_failure
        &&& self.copy_failure == other.copy_failure
        &&& self.occupied_failure == other.occupied_failure
    }

    /// How many requests are enough to reconcile any rule in this world.
    pub open spec fn budget(self) -> nat {
        let src = match self.source_bytes {
            Some(bytes) => bytes,
            None => Seq::empty(),
        };
        let dst = match self.destination {
            Node::File(bytes) => bytes,
            _ => Seq::empty(),
        };
        6 + 2 * rounds(src, dst)
    }
}

/// What the table of reconciliation gives for `rule` in `w`.
///
/// A missing source comes before all else. What is at the destination is
/// judged: it satisfies the rule's mode, or it is in conflict. Where nothing
/// is there it is created: the parent directories where it has a parent,
/// then the link or the copy, and either may fail.
pub open spec fn expected(rule: RuleView, w: World) -> Outcome {
    if !w.source_exists {
        Outcome::SourceMissing
    } else {
        match (w.classify(w.source(rule)), rule.mode) {
            (DestState::Absent, mode) => if w.dirs_failure is Some && parent_of(rule.dst) is Some {
                Outcome::IoFailure
            } else if w.creation(mode) is Err {
                Outcome::IoFailure
            } else {
                Outcome::Created(mode)
            },
            (DestState::SatisfiedLink, Mode::Link) => Outcome::AlreadySatisfied(Mode::Link),
            (DestState::SatisfiedCopy, Mode::Copy) => Outcome::AlreadySatisfied(Mode::Copy),
            _ => Outcome::Conflict,
        }
    }
}

/// The request that creates the destination of `rule` in `w`: the link to
/// the resolved source, or the copy of it, at the destination as stored.
pub open spec fn creating(rule: RuleView, w: World) -> ActionView {
    match rule.mode {
        Mode::Link => ActionView::Symlink { target: w.source(rule), link: rule.dst },
        Mode::Copy => ActionView::Copy { from: w.source(rule), to: rule.dst },
    }
}

/// Where a reconciliation has come to, in which world, and what it has
/// asked for on the way.
pub struct Run {
    pub machine: ReconcilerView,
    pub world: World,
    pub requests: Seq<ActionView>,
}

impl Run {
    /// The outcome, where the reconciliation has finished.
    pub open spec fn outcome(self) -> Option<Outcome> {
        match self.machine.phase {
            Phase::Finished(outcome) => Some(outcome),
            _ => None,
        }
    }

    /// Whether nothing was asked for that changes the filesystem.
    pub open spec fn quiet(self) -> bool {
        forall|i: int| 0 <= i < self.requests.len() ==> !(#[trigger] self.requests[i]).mutates()
    }
}

/// Lets `m` go on in `w` for at most `fuel` requests, each answered as the
/// world answers it, until the outcome is known.
pub open spec fn run(m: ReconcilerView, w: World, fuel: nat) -> Run
    decreases fuel,
{
    if fuel == 0 || m.phase is Finished {
        Run { machine: m, world: w, requests: Seq::empty() }
    } else {
        let rest = run(next(m, w.answer(m)), w.after(m), (fuel - 1) as nat);
        Run { requests: seq![request(m)] + rest.requests, ..rest }
    }
}

/// The whole reconciliation of `rule` under `name` in `w`.
pub open spec fn apply(rule: RuleView, name: Seq<char>, w: World) -> Run {
    run(start(rule, name), w, w.budget())
}

/// One request of a run that has not finished, answered by the world.
proof fn lemma_step(m: ReconcilerView, w: World, fuel: nat) -> (to: (ReconcilerView, World))
    requires
        fuel > 0,
        !(m.phase is Finished),
    ensures
        to.0 == next(m, w.answer(m)),
        to.1 == w.after(m),
        run(m, w, fuel).machine == run(to.0, to.1, (fuel - 1) as nat).machine,
        run(m, w, fuel).world == run(to.0, to.1, (fuel - 1) as nat).world,
        run(m, w, fuel).requests == seq![request(m)] + run(
            to.0,
            to.1,
            (fuel - 1) as nat,
        ).requests,
        !request(m).mutates() && run(to.0, to.1, (fuel - 1) as nat).quiet() ==> run(
            m,
            w,
            fuel,
        ).quiet(),
{
    let to = (next(m, w.answer(m)), w.after(m));
    let rest = run(to.0, to.1, (fuel - 1) as nat);
    if !request(m).mutates() && rest.quiet() {
        let all = run(m, w, fuel).requests;
        assert forall|i: int| 0 <= i < all.len() implies !(#[trigger] all[i]).mutates() by {
            if i > 0 {
                assert(all[i] == rest.requests[i - 1]);
            }
        }
    }
    to
}

/// From the first read on, a run compares what is unread of two opened
/// files that can be read, asks for nothing but reads, and leaves the files
/// as they are.
proof fn lemma_run_compares(m: ReconcilerView, w: World, fuel: nat)
    requires
        m.phase == Phase::SourceRead,
        w.source_bytes is Some,
        w.destination is File,
        fuel >= 2 * rounds(w.source_unread, w.destination_unread),
    ensures
        run(m, w, fuel).outcome() == Some(
            if diff_files(w.source_unread, w.destination_unread) {
                Outcome::AlreadySatisfied(Mode::Copy)
            } else {
                Outcome::Conflict
            },
        ),
        run(m, w, fuel).quiet(),
        run(m, w, fuel).world.agrees(w),
    decreases w.source_unread.len(),
{
    let (m1, w1) = lemma_step(m, w, fuel);
    let (m2, w2) = lemma_step(m1, w1, (fuel - 1) as nat);
    if verdict(chunk(w.source_unread), chunk(w.destination_unread)) == Verdict::Undecided {
        lemma_run_compares(m2, w2, (fuel - 2) as nat);
    }
}

/// Everything that a whole reconciliation comes to.
proof fn lemma_apply(rule: RuleView, name: Seq<char>, w: World)
    ensures
        apply(rule, name, w).outcome() == Some(expected(rule, w)),
        expected(rule, w) is Created ==> apply(rule, name, w).world == (World {
            destination: w.made(creating(rule, w)),
            ..w
        }),
        !(expected(rule, w) is Created) ==> apply(rule, name, w).world.agrees(w),
        !(expected(rule, w) is Created || expected(rule, w) is IoFailure) ==> apply(
            rule,
            name,
            w,
        ).quiet(),
{
    let fuel = w.budget();
    let m0 = start(rule, name);
    let (m1, w1) = lemma_step(m0, w, fuel);
    let (m2, w2) = lemma_step(m1, w1, (fuel - 1) as nat);
    if w.source_exists {
        let (m3, w3) = lemma_step(m2, w2, (fuel - 2) as nat);
        if m3.phase == Phase::DestinationCheck {
            let (m4, w4) = lemma_step(m3, w3, (fuel - 3) as nat);
            if m4.phase == Phase::SourceOpen {
                let (m5, w5) = lemma_step(m4, w4, (fuel - 4) as nat);
                if m5.phase == Phase::DestinationOpen {
                    let (m6, w6) = lemma_step(m5, w5, (fuel - 5) as nat);
                    if m6.phase == Phase::SourceRead {
                        if w.source_bytes is Some && w.destination is File {
                            lemma_run_compares(m6, w6, (fuel - 6) as nat);
                            lemma_diff_files_is_equality(
                                w6.source_unread,
                                w6.destination_unread,
                            );
                        } else {
                            let (m7, w7) = lemma_step(m6, w6, (fuel - 6) as nat);
                            if m7.phase == Phase::DestinationRead {
                                let (m8, w8) = lemma_step(m7, w7, (fuel - 7) as nat);
                            }
                        }
                    }
                }
            } else if m4.phase == Phase::ParentCreate {
                let (m5, w5) = lemma_step(m4, w4, (fuel - 4) as nat);
                if m5.phase == Phase::Materialize {
                    let (m6, w6) = lemma_step(m5, w5, (fuel - 5) as nat);
                }
            } else if m4.phase == Phase::Materialize {
                let (m5, w5) = lemma_step(m4, w4, (fuel - 4) as nat);
            }
        }
    }
}

/// A reconciliation always finishes, with the outcome that the table gives:
/// a missing source first, then the destination judged against the rule's
/// mode, and created only where it does not exist.
pub proof fn lemma_apply_follows_table(rule: RuleView, name: Seq<char>, w: World)
    ensures
        apply(rule, name, w).outcome() == Some(expected(rule, w)),
{
    lemma_apply(rule, name, w);
}

/// A rule whose source does not exist is reported as such, whatever is at
/// the destination, and nothing is asked for that changes the filesystem.
pub proof fn lemma_missing_source_changes_nothing(rule: RuleView, name: Seq<char>, w: World)
    requires
        !w.source_exists,
    ensures
        apply(rule, name, w).outcome() == Some(Outcome::SourceMissing),
        apply(rule, name, w).quiet(),
        apply(rule, name, w).world == w,
{
    let fuel = w.budget();
    let (m1, w1) = lemma_step(start(rule, name), w, fuel);
    let (m2, w2) = lemma_step(m1, w1, (fuel - 1) as nat);
}

/// What is at the destination is never changed, be it a file, a link,
/// whether or not its target exists, or anything else: whatever the rule
/// and whatever the outcome, nothing is asked for that changes the
/// filesystem, and the outcome is neither a creation nor an I/O failure.
pub proof fn lemma_existing_destination_is_left_alone(rule: RuleView, name: Seq<char>, w: World)
    requires
        w.destination.present(),
    ensures
        apply(rule, name, w).quiet(),
        apply(rule, name, w).world.agrees(w),
        !(apply(rule, name, w).outcome() matches Some(Outcome::Created(_))),
        apply(rule, name, w).outcome() != Some(Outcome::IoFailure),
{
    lemma_apply(rule, name, w);
}

/// Under a link rule, a destination that is a link to another path than the
/// resolved source is a conflict, whether or not that path exists, and the
/// link is left as it is.
pub proof fn lemma_link_elsewhere_is_conflict(
    rule: RuleView,
    name: Seq<char>,
    w: World,
    target: Seq<char>,
    resolves: bool,
)
    requires
        rule.mode == Mode::Link,
        w.source_exists,
        w.destination == (Node::Link { target, resolves }),
        target != w.source(rule),
    ensures
        apply(rule, name, w).outcome() == Some(Outcome::Conflict),
        apply(rule, name, w).quiet(),
        apply(rule, name, w).world.destination == w.destination,
{
    lemma_apply(rule, name, w);
}

/// Under a copy rule, a destination that is a regular file satisfies the
/// rule exactly when it has the source's bytes, all of them and no more.
/// Nothing else about the file is asked, and it is left as it is.
pub proof fn lemma_copy_judges_bytes(
    rule: RuleView,
    name: Seq<char>,
    w: World,
    src: Seq<u8>,
    dst: Seq<u8>,
)
    requires
        rule.mode == Mode::Copy,
        w.source_exists,
        w.source_content() == Some(src),
        w.destination == Node::File(dst),
    ensures
        src == dst ==> apply(rule, name, w).outcome() == Some(
            Outcome::AlreadySatisfied(Mode::Copy),
        ),
        src != dst ==> apply(rule, name, w).outcome() == Some(Outcome::Conflict),
        apply(rule, name, w).quiet(),
        apply(rule, name, w).world.destination == w.destination,
{
    lemma_apply(rule, name, w);
}

/// What is asked for on the way to creating a destination, in order: the
/// source's canonical form, whether the source exists, the destination's
/// link target, whether the destination exists, the parent directories
/// where the destination has a parent, and last the link or the copy, from
/// the resolved source to the destination as stored.
pub proof fn lemma_creation_asks_in_order(rule: RuleView, name: Seq<char>, w: World)
    requires
        w.source_exists,
        !w.destination.present(),
        w.dirs_failure is None,
    ensures
        apply(rule, name, w).requests == seq![
            ActionView::Canonicalize(rule.src),
            ActionView::Exists(w.source(rule)),
            ActionView::ReadLink(rule.dst),
            ActionView::Exists(rule.dst),
        ] + (match parent_of(rule.dst) {
            Some(dir) => seq![ActionView::CreateDirs(dir)],
            None => Seq::empty(),
        }) + seq![creating(rule, w)],
{
    let fuel = w.budget();
    let (m1, w1) = lemma_step(start(rule, name), w, fuel);
    let (m2, w2) = lemma_step(m1, w1, (fuel - 1) as nat);
    let (m3, w3) = lemma_step(m2, w2, (fuel - 2) as nat);
    let (m4, w4) = lemma_step(m3, w3, (fuel - 3) as nat);
    let (m5, w5) = lemma_step(m4, w4, (fuel - 4) as nat);
    if parent_of(rule.dst) is Some {
        let (m6, w6) = lemma_step(m5, w5, (fuel - 5) as nat);
    }
}

/// Under a copy rule, a symbolic link at the destination is a conflict,
/// wherever it points and whether or not its target exists. Nothing is
/// copied through the link, and the link is left as it is.
pub proof fn lemma_link_under_copy_is_conflict(rule: RuleView, name: Seq<char>, w: World)
    requires
        rule.mode == Mode::Copy,
        w.source_exists,
        w.destination is Link,
    ensures
        apply(rule, name, w).outcome() == Some(Outcome::Conflict),
        apply(rule, name, w).quiet(),
        apply(rule, name, w).world.destination == w.destination,
{
    lemma_apply(rule, name, w);
}

/// Under a copy rule, a destination that exists is in conflict wherever
/// the bytes of the two cannot both be had: the destination is no regular
/// file, a directory for one, or the source does not open, or a read of
/// either fails. The reconciliation ends, and nothing is asked for that
/// changes the filesystem.
pub proof fn lemma_unreadable_is_conflict(rule: RuleView, name: Seq<char>, w: World)
    requires
        rule.mode == Mode::Copy,
        w.source_exists,
        w.destination.present(),
        !(w.destination is File) || w.source_content() is None,
    ensures
        apply(rule, name, w).outcome() == Some(Outcome::Conflict),
        apply(rule, name, w).quiet(),
        apply(rule, name, w).world.destination == w.destination,
{
    lemma_apply(rule, name, w);
}

/// Applying a rule is idempotent. Where the first application creates the
/// destination, it leaves there what satisfies the rule: the link to the
/// resolved source, or the file with the source's bytes. Applied again to
/// what the first left, the rule is found satisfied, nothing is asked for
/// that changes the filesystem, and the destination stays as it is.
pub proof fn lemma_apply_is_idempotent(rule: RuleView, name: Seq<char>, w: World)
    requires
        apply(rule, name, w).outcome() == Some(Outcome::Created(rule.mode)),
    ensures
        rule.mode == Mode::Link ==> apply(rule, name, w).world.destination == (Node::Link {
            target: w.source(rule),
            resolves: true,
        }),
        rule.mode == Mode::Copy ==> (w.source_content() matches Some(bytes) && apply(
            rule,
            name,
            w,
        ).world.destination == Node::File(bytes)),
        apply(rule, name, apply(rule, name, w).world).outcome() == Some(
            Outcome::AlreadySatisfied(rule.mode),
        ),
        apply(rule, name, apply(rule, name, w).world).quiet(),
        apply(rule, name, apply(rule, name, w).world).world.destination == apply(
            rule,
            name,
            w,
        ).world.destination,
{
    lemma_apply(rule, name, w);
    lemma_apply(rule, name, apply(rule, name, w).world);
}

/// When the first application creates: the source exists, nothing is at
/// the destination, not even a link to nothing, and neither the parent
/// directories, where there are any to create, nor the link or the copy
/// fails.
pub proof fn lemma_creates_where_absent(rule: RuleView, name: Seq<char>, w: World)
    ensures
        apply(rule, name, w).outcome() == Some(Outcome::Created(rule.mode)) <==> {
            &&& w.source_exists
            &&& !w.destination.present()
            &&& !(w.dirs_failure is Some && parent_of(rule.dst) is Some)
            &&& w.creation(rule.mode) is Ok
        },
{
    lemma_apply(rule, name, w);
}

} // verus!
