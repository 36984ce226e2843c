//! The per-entry reconciliation engine.
//!
//! One manifest entry is reconciled by a [`Reconciler`]: a state machine that
//! hands its driver one [`Command`] at a time (look at the source, create the
//! destination's parent, look at the destination, compare contents, ask the
//! user, remove, link) and is told the result as an [`Event`]. All decisions
//! are made here; the driver only performs the filesystem and terminal work.
use vstd::prelude::*;
use vstd::string::StrSliceExecFns;
use crate::manifest::ManifestEntry;
use crate::paths::{expand, expanded, file_name, file_name_of, join, joined};
use crate::text::{trim, trimmed};

verus! {

/// What a run does to every entry.
#[derive(Clone, Copy, PartialEq, Eq, Structural, Debug)]
pub enum Mode {
    Create,
    Overwrite,
    Delete,
}

/// Run-wide settings, fixed before the first entry is read.
pub struct Config {
    pub file: String,
    pub basedir: String,
    pub mode: Mode,
    pub verbose: bool,
    pub force: bool,
    pub dry: bool,
    pub debug: bool,
}

/// What the driver saw at the destination path.
#[derive(Clone, Copy, PartialEq, Eq, Structural, Debug)]
pub struct DestInfo {
    /// Something, a dangling symlink included, occupies the path.
    pub occupied: bool,
    /// The path itself is a symlink.
    pub is_symlink: bool,
    /// The path leads to a directory.
    pub is_dir: bool,
}

impl DestInfo {
    /// A symlink or a directory at the path occupies it.
    pub open spec fn wf(self) -> bool {
        (self.is_symlink || self.is_dir) ==> self.occupied
    }
}

/// What a dry run would have done.
#[derive(Clone, Copy, PartialEq, Eq, Structural, Debug)]
pub enum Report {
    WouldRemove,
    WouldLink,
    WouldReplace,
}

/// How one entry ended.
#[derive(Clone, Copy, PartialEq, Eq, Structural, Debug)]
pub enum Outcome {
    /// The filesystem was changed as the mode asks.
    Performed,
    /// The source does not exist; nothing was done.
    SourceMissing,
    /// The user declined to overwrite; nothing was done.
    Declined,
    /// Delete mode found nothing at the destination.
    NothingToRemove,
    /// Dry run: nothing was done, this is what would have been.
    DryRun(Report),
    /// A filesystem step failed.
    Failed,
}

/// The next thing the driver must do, and report back on.
#[derive(Clone, Copy, PartialEq, Eq, Structural, Debug)]
pub enum Command {
    /// Look at the source: answer `Event::Source`.
    CheckSource,
    /// Create the destination's parent directory, recursively.
    MakeParent,
    /// Look at the destination: answer `Event::Dest`.
    CheckDest,
    /// Compare the source's and the destination's contents: answer `Event::Compared`.
    Compare { recursive: bool },
    /// Ask the user whether to overwrite: answer `Event::Answered`.
    Confirm,
    /// Remove the destination, recursively when asked.
    Remove { recursive: bool },
    /// Create the symlink `dest -> source`; `dir` tells the source is a directory.
    Link { dir: bool },
    /// The entry is done.
    Finish(Outcome),
}

/// What the driver reports after performing a command.
#[derive(Clone, Copy, PartialEq, Eq, Structural, Debug)]
pub enum Event {
    Source { exists: bool, is_dir: bool },
    Dest(DestInfo),
    Compared { differs: bool },
    Answered { yes: bool },
    Succeeded,
    Failed,
}

/// Where the machine stands.
#[derive(Clone, Copy, PartialEq, Eq, Structural, Debug)]
pub enum Stage {
    CheckingSource,
    MakingParent,
    CheckingDest,
    Comparing,
    Confirming,
    Removing { then_link: bool },
    Linking,
    Finished,
}

/// The state of one entry's reconciliation.
#[derive(Clone, Copy, PartialEq, Eq, Structural, Debug)]
pub struct Reconciler {
    pub mode: Mode,
    pub force: bool,
    pub dry: bool,
    pub source_is_dir: bool,
    pub dest: DestInfo,
    pub stage: Stage,
}

/// A command that changes the filesystem.
pub open spec fn mutating(c: Command) -> bool {
    c is MakeParent || c is Remove || c is Link
}

/// A command that changes what is at the destination path.
pub open spec fn touches_dest(c: Command) -> bool {
    c is Remove || c is Link
}

/// Whether an outcome adds to the run's operation count.
pub open spec fn counted(o: Outcome) -> bool {
    o is Performed
}

/// The machine before the first command of an entry.
pub open spec fn initial(mode: Mode, force: bool, dry: bool) -> Reconciler {
    Reconciler {
        mode,
        force,
        dry,
        source_is_dir: false,
        dest: DestInfo { occupied: false, is_symlink: false, is_dir: false },
        stage: Stage::CheckingSource,
    }
}

pub open spec fn finish(m: Reconciler, o: Outcome) -> (Reconciler, Command) {
    (Reconciler { stage: Stage::Finished, ..m }, Command::Finish(o))
}

/// An existing destination that is not a symlink, met in Overwrite mode, is
/// compared with the source before anything is removed.
pub open spec fn conflict(mode: Mode, d: DestInfo) -> bool {
    mode == Mode::Overwrite && d.occupied && !d.is_symlink
}

/// The mode's action, once any conflict is settled.
pub open spec fn act(m: Reconciler) -> (Reconciler, Command) {
    match m.mode {
        Mode::Delete => if m.dry {
            finish(m, Outcome::DryRun(Report::WouldRemove))
        } else if m.dest.occupied {
            (
                Reconciler { stage: Stage::Removing { then_link: false }, ..m },
                Command::Remove { recursive: m.dest.is_dir },
            )
        } else {
            finish(m, Outcome::NothingToRemove)
        },
        Mode::Overwrite => if m.dry {
            finish(m, Outcome::DryRun(Report::WouldReplace))
        } else if m.dest.occupied {
            (
                Reconciler { stage: Stage::Removing { then_link: true }, ..m },
                Command::Remove { recursive: m.dest.is_dir },
            )
        } else {
            (Reconciler { stage: Stage::Linking, ..m }, Command::Link { dir: m.source_is_dir })
        },
        Mode::Create => if m.dry {
            finish(m, Outcome::DryRun(Report::WouldLink))
        } else {
            (Reconciler { stage: Stage::Linking, ..m }, Command::Link { dir: m.source_is_dir })
        },
    }
}

/// The transition of the machine on one event. An event that does not answer
/// the last command, or reports a failure, ends the entry as failed.
pub open spec fn next(m: Reconciler, ev: Event) -> (Reconciler, Command) {
    match (m.stage, ev) {
        (Stage::CheckingSource, Event::Source { exists, is_dir }) => {
            let m2 = Reconciler { source_is_dir: is_dir, ..m };
            if !exists {
                finish(m2, Outcome::SourceMissing)
            } else if m.dry {
                (Reconciler { stage: Stage::CheckingDest, ..m2 }, Command::CheckDest)
            } else {
                (Reconciler { stage: Stage::MakingParent, ..m2 }, Command::MakeParent)
            }
        },
        (Stage::MakingParent, Event::Succeeded) => (
            Reconciler { stage: Stage::CheckingDest, ..m },
            Command::CheckDest,
        ),
        (Stage::CheckingDest, Event::Dest(d)) => {
            let m2 = Reconciler { dest: d, ..m };
            if conflict(m.mode, d) {
                (
                    Reconciler { stage: Stage::Comparing, ..m2 },
                    Command::Compare { recursive: m.source_is_dir },
                )
            } else {
                act(m2)
            }
        },
        (Stage::Comparing, Event::Compared { differs }) => if differs && !m.force {
            (Reconciler { stage: Stage::Confirming, ..m }, Command::Confirm)
        } else {
            act(m)
        },
        (Stage::Confirming, Event::Answered { yes }) => if yes {
            act(m)
        } else {
            finish(m, Outcome::Declined)
        },
        (Stage::Removing { then_link }, Event::Succeeded) => if then_link {
            (Reconciler { stage: Stage::Linking, ..m }, Command::Link { dir: m.source_is_dir })
        } else {
            finish(m, Outcome::Performed)
        },
        (Stage::Linking, Event::Succeeded) => finish(m, Outcome::Performed),
        _ => finish(m, Outcome::Failed),
    }
}

impl Reconciler {
    /// A machine for one entry of a run with `cfg`. Its first command is
    /// always `Command::CheckSource`.
    pub fn new(cfg: &Config) -> (r: Reconciler)
        ensures
            r == initial(cfg.mode, cfg.force, cfg.dry),
    {
        Reconciler {
            mode: cfg.mode,
            force: cfg.force,
            dry: cfg.dry,
            source_is_dir: false,
            dest: DestInfo { occupied: false, is_symlink: false, is_dir: false },
            stage: Stage::CheckingSource,
        }
    }

    fn finish(&mut self, o: Outcome) -> (r: Command)
        ensures
            (*final(self), r) == finish(*old(self), o),
    {
        self.stage = Stage::Finished;
        Command::Finish(o)
    }

    fn act(&mut self) -> (r: Command)
        ensures
            (*final(self), r) == act(*old(self)),
    {
        match self.mode {
            Mode::Delete => if self.dry {
                self.finish(Outcome::DryRun(Report::WouldRemove))
            } else if self.dest.occupied {
                self.stage = Stage::Removing { then_link: false };
                Command::Remove { recursive: self.dest.is_dir }
            } else {
                self.finish(Outcome::NothingToRemove)
            },
            Mode::Overwrite => if self.dry {
                self.finish(Outcome::DryRun(Report::WouldReplace))
            } else if self.dest.occupied {
                self.stage = Stage::Removing { then_link: true };
                Command::Remove { recursive: self.dest.is_dir }
            } else {
                self.stage = Stage::Linking;
                Command::Link { dir: self.source_is_dir }
            },
            Mode::Create => if self.dry {
                self.finish(Outcome::DryRun(Report::WouldLink))
            } else {
                self.stage = Stage::Linking;
                Command::Link { dir: self.source_is_dir }
            },
        }
    }

    /// Advances the machine on the driver's report and returns the next command.
    pub fn step(&mut self, ev: Event) -> (r: Command)
        ensures
            (*final(self), r) == next(*old(self), ev),
    {
        match (self.stage, ev) {
            (Stage::CheckingSource, Event::Source { exists, is_dir }) => {
                self.source_is_dir = is_dir;
                if !exists {
                    self.finish(Outcome::SourceMissing)
                } else if self.dry {
                    self.stage = Stage::CheckingDest;
                    Command::CheckDest
                } else {
                    self.stage = Stage::MakingParent;
                    Command::MakeParent
                }
            },
            (Stage::MakingParent, Event::Succeeded) => {
                self.stage = Stage::CheckingDest;
                Command::CheckDest
            },
            (Stage::CheckingDest, Event::Dest(d)) => {
                self.dest = d;
                if self.mode == Mode::Overwrite && d.occupied && !d.is_symlink {
                    self.stage = Stage::Comparing;
                    Command::Compare { recursive: self.source_is_dir }
                } else {
                    self.act()
                }
            },
            (Stage::Comparing, Event::Compared { differs }) => if differs && !self.force {
                self.stage = Stage::Confirming;
                Command::Confirm
            } else {
                self.act()
            },
            (Stage::Confirming, Event::Answered { yes }) => if yes {
                self.act()
            } else {
                self.finish(Outcome::Declined)
            },
            (Stage::Removing { then_link }, Event::Succeeded) => if then_link {
                self.stage = Stage::Linking;
                Command::Link { dir: self.source_is_dir }
            } else {
                self.finish(Outcome::Performed)
            },
            (Stage::Linking, Event::Succeeded) => self.finish(Outcome::Performed),
            _ => self.finish(Outcome::Failed),
        }
    }
}

impl Outcome {
    /// Whether this outcome adds to the run's operation count.
    pub fn counts(&self) -> (r: bool)
        ensures
            r == counted(*self),
    {
        match self {
            Outcome::Performed => true,
            _ => false,
        }
    }
}

/// Adds one entry's outcome to the run's operation count.
pub fn tally(count: &mut u64, o: Outcome)
    requires
        *old(count) < u64::MAX,
    ensures
        *final(count) == if counted(o) {
            *old(count) + 1
        } else {
            *old(count) as int
        },
{
    if o.counts() {
        *count = *count + 1;
    }
}

pub open spec fn lower_ascii(c: char) -> char {
    if 'A' <= c && c <= 'Z' {
        ((c as u32) + 32) as char
    } else {
        c
    }
}

/// An answer that agrees: `y` or `yes` in any case, with whitespace around.
pub open spec fn affirmative(input: Seq<char>) -> bool {
    let t = trimmed(input);
    (t.len() == 1 && lower_ascii(t[0]) == 'y') || (t.len() == 3 && lower_ascii(t[0]) == 'y'
        && lower_ascii(t[1]) == 'e' && lower_ascii(t[2]) == 's')
}

fn is_letter(c: char, lower: char, upper: char) -> (r: bool)
    requires
        'a' <= lower <= 'z',
        upper as u32 == lower as u32 - 32,
    ensures
        r == (lower_ascii(c) == lower),
{
    c == lower || c == upper
}

/// Whether the user's answer to an overwrite question agrees to it. Anything
/// else, an empty answer included, declines.
pub fn is_affirmative(input: &str) -> (r: bool)
    ensures
        r == affirmative(input@),
{
    let t = trim(input);
    let n = t.unicode_len();
    if n == 1 {
        is_letter(t.get_char(0), 'y', 'Y')
    } else if n == 3 {
        is_letter(t.get_char(0), 'y', 'Y') && is_letter(t.get_char(1), 'e', 'E') && is_letter(
            t.get_char(2),
            's',
            'S',
        )
    } else {
        false
    }
}

/// The paths of one entry that do not depend on the disk: the source under
/// the base directory and the expanded destination directory.
pub struct ResolvedPaths {
    pub source: String,
    pub dest_dir: String,
}

impl ResolvedPaths {
    /// Resolves `entry` against the run's base directory and the variables of `env`.
    pub fn resolve(cfg: &Config, entry: &ManifestEntry, env: &Vec<(String, String)>) -> (r:
        ResolvedPaths)
        ensures
            r.source@ == joined(cfg.basedir@, entry.source_relative@),
            r.dest_dir@ == expanded(entry.dest_template@, env@),
    {
        ResolvedPaths {
            source: join(cfg.basedir.as_str(), entry.source_relative.as_str()),
            dest_dir: expand(entry.dest_template.as_str(), env),
        }
    }

    /// The destination path: the source's file name under the destination
    /// directory; none when the source path has no file name.
    pub fn dest(&self) -> (r: Option<String>)
        ensures
            match file_name_of(self.source@) {
                None => r is None,
                Some(name) => r matches Some(d) && d@ == joined(self.dest_dir@, name),
            },
    {
        match file_name(self.source.as_str()) {
            Some(name) => Some(join(self.dest_dir.as_str(), name.as_str())),
            None => None,
        }
    }
}

} // verus!
