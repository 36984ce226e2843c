//! What a whole entry does against a given filesystem, and the laws of the
//! engine stated over it.
//!
//! A [`World`] fixes every answer the driver could give: what is at the source
//! and at the destination, whether contents differ, what the user says, and
//! whether each filesystem primitive works. Linking fails while something
//! occupies the destination, as a symlink primitive does.
use vstd::prelude::*;
use crate::reconcile::{
    counted, initial, mutating, next, touches_dest, Command, DestInfo, Event, Mode, Outcome,
    Reconciler,
};

verus! {

/// The answers a driver gives for one entry.
pub struct World {
    pub source_exists: bool,
    pub source_is_dir: bool,
    pub parent_ok: bool,
    pub dest: DestInfo,
    pub differs: bool,
    pub answer: bool,
    pub remove_ok: bool,
    pub link_ok: bool,
}

/// The driver's answer to `c`, and whether the destination is occupied after it.
pub open spec fn respond(w: World, occupied: bool, c: Command) -> (Event, bool) {
    match c {
        Command::CheckSource => (
            Event::Source { exists: w.source_exists, is_dir: w.source_is_dir },
            occupied,
        ),
        Command::MakeParent => (if w.parent_ok {
            Event::Succeeded
        } else {
            Event::Failed
        }, occupied),
        Command::CheckDest => (Event::Dest(w.dest), occupied),
        Command::Compare { .. } => (Event::Compared { differs: w.differs }, occupied),
        Command::Confirm => (Event::Answered { yes: w.answer }, occupied),
        Command::Remove { .. } => if w.remove_ok {
            (Event::Succeeded, false)
        } else {
            (Event::Failed, occupied)
        },
        Command::Link { .. } => if w.link_ok && !occupied {
            (Event::Succeeded, true)
        } else {
            (Event::Failed, occupied)
        },
        Command::Finish(_) => (Event::Failed, occupied),
    }
}

/// The commands issued from `c` on, and the entry's outcome.
pub open spec fn drive(m: Reconciler, c: Command, w: World, occupied: bool, fuel: nat) -> (
    Seq<Command>,
    Outcome,
)
    decreases fuel,
{
    match c {
        Command::Finish(o) => (seq![c], o),
        _ => if fuel == 0 {
            (seq![c], Outcome::Failed)
        } else {
            let (ev, occ) = respond(w, occupied, c);
            let (m2, c2) = next(m, ev);
            let (t, o) = drive(m2, c2, w, occ, (fuel - 1) as nat);
            (seq![c] + t, o)
        },
    }
}

/// One entry reconciled in `mode` against `w`, from the first command to the last.
pub open spec fn session(mode: Mode, force: bool, dry: bool, w: World) -> (Seq<Command>, Outcome) {
    drive(
        initial(mode, force, dry),
        Command::CheckSource,
        w,
        w.dest.occupied || w.dest.is_symlink,
        8,
    )
}

/// Create mode with the source present and the destination free: the parent
/// is made, one symlink is created, and the entry counts once.
pub proof fn law_create_links_once(force: bool, w: World)
    requires
        w.source_exists,
        !w.dest.occupied,
        !w.dest.is_symlink,
        w.parent_ok,
        w.link_ok,
    ensures
        session(Mode::Create, force, false, w) == (
            seq![
                Command::CheckSource,
                Command::MakeParent,
                Command::CheckDest,
                Command::Link { dir: w.source_is_dir },
                Command::Finish(Outcome::Performed),
            ],
            Outcome::Performed,
        ),
        counted(session(Mode::Create, force, false, w).1),
{
    reveal_with_fuel(drive, 9);
    assert(session(Mode::Create, force, false, w).0 =~= seq![
        Command::CheckSource,
        Command::MakeParent,
        Command::CheckDest,
        Command::Link { dir: w.source_is_dir },
        Command::Finish(Outcome::Performed),
    ]);
}

/// Create mode where a symlink already stands at the destination: the link
/// fails, the entry does not count, and nothing removes or replaces what is
/// there.
pub proof fn law_create_keeps_existing_link(force: bool, w: World)
    requires
        w.source_exists,
        w.dest.is_symlink,
    ensures
        session(Mode::Create, force, false, w).1 == Outcome::Failed,
        !counted(session(Mode::Create, force, false, w).1),
        forall|i: int|
            0 <= i < session(Mode::Create, force, false, w).0.len() ==> !(#[trigger] session(
                Mode::Create,
                force,
                false,
                w,
            ).0[i] is Remove),
{
    reveal_with_fuel(drive, 9);
}

/// Overwrite mode where the destination is a regular file with the source's
/// contents: no question is asked, the file is replaced by a symlink, and the
/// entry counts once.
pub proof fn law_overwrite_identical(force: bool, w: World)
    requires
        w.source_exists,
        w.dest.occupied,
        !w.dest.is_symlink,
        !w.dest.is_dir,
        !w.differs,
        w.parent_ok,
        w.remove_ok,
        w.link_ok,
    ensures
        session(Mode::Overwrite, force, false, w) == (
            seq![
                Command::CheckSource,
                Command::MakeParent,
                Command::CheckDest,
                Command::Compare { recursive: w.source_is_dir },
                Command::Remove { recursive: false },
                Command::Link { dir: w.source_is_dir },
                Command::Finish(Outcome::Performed),
            ],
            Outcome::Performed,
        ),
        counted(session(Mode::Overwrite, force, false, w).1),
{
    reveal_with_fuel(drive, 9);
    assert(session(Mode::Overwrite, force, false, w).0 =~= seq![
        Command::CheckSource,
        Command::MakeParent,
        Command::CheckDest,
        Command::Compare { recursive: w.source_is_dir },
        Command::Remove { recursive: false },
        Command::Link { dir: w.source_is_dir },
        Command::Finish(Outcome::Performed),
    ]);
}

/// Overwrite mode, without force, where the destination is not a symlink and
/// differs from the source, and the user declines: the destination is left as
/// it is and the entry does not count.
pub proof fn law_overwrite_declined(dry: bool, w: World)
    requires
        w.dest.occupied,
        !w.dest.is_symlink,
        w.differs,
        !w.answer,
    ensures
        !counted(session(Mode::Overwrite, false, dry, w).1),
        forall|i: int|
            0 <= i < session(Mode::Overwrite, false, dry, w).0.len() ==> !touches_dest(
                #[trigger] session(Mode::Overwrite, false, dry, w).0[i],
            ),
{
    reveal_with_fuel(drive, 9);
}

/// Delete mode where a symlink stands at the destination: it is removed and
/// the entry counts once.
pub proof fn law_delete_removes_link(force: bool, w: World)
    requires
        w.dest.wf(),
        w.source_exists,
        w.dest.is_symlink,
        w.parent_ok,
        w.remove_ok,
    ensures
        session(Mode::Delete, force, false, w).1 == Outcome::Performed,
        session(Mode::Delete, force, false, w).0.contains(
            Command::Remove { recursive: w.dest.is_dir },
        ),
{
    reveal_with_fuel(drive, 9);
    assert(session(Mode::Delete, force, false, w).0 =~= seq![
        Command::CheckSource,
        Command::MakeParent,
        Command::CheckDest,
        Command::Remove { recursive: w.dest.is_dir },
        Command::Finish(Outcome::Performed),
    ]);
    assert(session(Mode::Delete, force, false, w).0[3] == Command::Remove {
        recursive: w.dest.is_dir,
    });
}

/// Delete mode where nothing is at the destination: nothing is removed or
/// created there, and the entry ends without error.
pub proof fn law_delete_absent(force: bool, dry: bool, w: World)
    requires
        !w.dest.occupied,
        !w.dest.is_symlink,
        w.parent_ok,
    ensures
        session(Mode::Delete, force, dry, w).1 != Outcome::Failed,
        !counted(session(Mode::Delete, force, dry, w).1),
        forall|i: int|
            0 <= i < session(Mode::Delete, force, dry, w).0.len() ==> !touches_dest(
                #[trigger] session(Mode::Delete, force, dry, w).0[i],
            ),
{
    reveal_with_fuel(drive, 9);
}

/// A dry run issues no command that changes the filesystem, in any mode and
/// against any filesystem, and never counts.
pub proof fn law_dry_run_inert(mode: Mode, force: bool, w: World)
    ensures
        !counted(session(mode, force, true, w).1),
        forall|i: int|
            0 <= i < session(mode, force, true, w).0.len() ==> !mutating(
                #[trigger] session(mode, force, true, w).0[i],
            ),
{
    reveal_with_fuel(drive, 9);
}

/// An entry whose source is missing is skipped without error in every mode:
/// after looking at the source, nothing else is done.
pub proof fn law_missing_source_skipped(mode: Mode, force: bool, dry: bool, w: World)
    requires
        !w.source_exists,
    ensures
        session(mode, force, dry, w) == (
            seq![Command::CheckSource, Command::Finish(Outcome::SourceMissing)],
            Outcome::SourceMissing,
        ),
{
    reveal_with_fuel(drive, 9);
    assert(session(mode, force, dry, w).0 =~= seq![
        Command::CheckSource,
        Command::Finish(Outcome::SourceMissing),
    ]);
}

} // verus!
