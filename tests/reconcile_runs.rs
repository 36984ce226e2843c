use std::collections::HashMap;

use neostow::manifest::parse_line;
use neostow::reconcile::{
    is_affirmative, tally, Command, Config, DestInfo, Event, Mode, Outcome, Reconciler, Report,
    ResolvedPaths,
};

#[derive(Clone, Debug, PartialEq)]
enum Node {
    File(String),
    Dir,
    Link(String),
}

struct Fake {
    nodes: HashMap<String, Node>,
    answer: bool,
    prompts: usize,
    commands: Vec<Command>,
}

impl Fake {
    fn new(nodes: &[(&str, Node)], answer: bool) -> Fake {
        Fake {
            nodes: nodes.iter().map(|(p, n)| (p.to_string(), n.clone())).collect(),
            answer,
            prompts: 0,
            commands: Vec::new(),
        }
    }

    fn resolve(&self, path: &str) -> Option<&Node> {
        match self.nodes.get(path) {
            Some(Node::Link(t)) => self.nodes.get(t),
            other => other,
        }
    }

    fn content(&self, path: &str) -> Option<String> {
        match self.resolve(path) {
            Some(Node::File(c)) => Some(c.clone()),
            _ => None,
        }
    }

    fn entry(&mut self, cfg: &Config, source: &str, dest: &str) -> Outcome {
        let mut m = Reconciler::new(cfg);
        let mut cmd = Command::CheckSource;
        loop {
            self.commands.push(cmd);
            let ev = match cmd {
                Command::CheckSource => Event::Source {
                    exists: self.resolve(source).is_some(),
                    is_dir: self.resolve(source) == Some(&Node::Dir),
                },
                Command::MakeParent => Event::Succeeded,
                Command::CheckDest => Event::Dest(DestInfo {
                    occupied: self.nodes.contains_key(dest),
                    is_symlink: matches!(self.nodes.get(dest), Some(Node::Link(_))),
                    is_dir: self.resolve(dest) == Some(&Node::Dir),
                }),
                Command::Compare { .. } => Event::Compared {
                    differs: self.content(source) != self.content(dest),
                },
                Command::Confirm => {
                    self.prompts += 1;
                    Event::Answered { yes: self.answer }
                }
                Command::Remove { .. } => {
                    self.nodes.remove(dest);
                    Event::Succeeded
                }
                Command::Link { .. } => {
                    if self.nodes.contains_key(dest) {
                        Event::Failed
                    } else {
                        self.nodes.insert(dest.to_string(), Node::Link(source.to_string()));
                        Event::Succeeded
                    }
                }
                Command::Finish(o) => return o,
            };
            cmd = m.step(ev);
        }
    }

    fn run(&mut self, cfg: &Config, manifest: &str, env: &Vec<(String, String)>) -> u64 {
        let mut count: u64 = 0;
        for line in manifest.lines() {
            if let Some(entry) = parse_line(line) {
                let paths = ResolvedPaths::resolve(cfg, &entry, env);
                let dest = paths.dest().unwrap();
                let o = self.entry(cfg, &paths.source, &dest);
                tally(&mut count, o);
            }
        }
        count
    }
}

fn config(mode: Mode, force: bool, dry: bool) -> Config {
    Config {
        file: "/repo/.neostow".to_string(),
        basedir: "/repo".to_string(),
        mode,
        verbose: false,
        force,
        dry,
        debug: false,
    }
}

fn home() -> Vec<(String, String)> {
    vec![("HOME".to_string(), "/home/u".to_string())]
}

#[test]
fn create_makes_one_link() {
    let mut fs = Fake::new(&[("/repo/vimrc", Node::File("set nu".into()))], false);
    let count = fs.run(&config(Mode::Create, false, false), "vimrc = ~", &home());
    assert_eq!(count, 1);
    assert_eq!(fs.nodes.get("/home/u/vimrc"), Some(&Node::Link("/repo/vimrc".into())));
}

#[test]
fn second_create_run_fails_and_keeps_link() {
    let mut fs = Fake::new(&[("/repo/vimrc", Node::File("set nu".into()))], false);
    let cfg = config(Mode::Create, false, false);
    assert_eq!(fs.run(&cfg, "vimrc = ~", &home()), 1);
    assert_eq!(fs.run(&cfg, "vimrc = ~", &home()), 0);
    assert_eq!(fs.nodes.get("/home/u/vimrc"), Some(&Node::Link("/repo/vimrc".into())));
    assert!(!fs.commands.iter().any(|c| matches!(c, Command::Remove { .. })));
}

#[test]
fn overwrite_identical_file_without_prompt() {
    let mut fs = Fake::new(
        &[("/repo/rc", Node::File("same".into())), ("/home/u/rc", Node::File("same".into()))],
        false,
    );
    let count = fs.run(&config(Mode::Overwrite, false, false), "rc = $HOME", &home());
    assert_eq!(count, 1);
    assert_eq!(fs.prompts, 0);
    assert_eq!(fs.nodes.get("/home/u/rc"), Some(&Node::Link("/repo/rc".into())));
}

#[test]
fn overwrite_declined_leaves_destination() {
    let mut fs = Fake::new(
        &[("/repo/rc", Node::File("new".into())), ("/home/u/rc", Node::File("old".into()))],
        false,
    );
    let count = fs.run(&config(Mode::Overwrite, false, false), "rc = ~", &home());
    assert_eq!(count, 0);
    assert_eq!(fs.prompts, 1);
    assert_eq!(fs.nodes.get("/home/u/rc"), Some(&Node::File("old".into())));
}

#[test]
fn overwrite_accepted_replaces_destination() {
    let mut fs = Fake::new(
        &[("/repo/rc", Node::File("new".into())), ("/home/u/rc", Node::File("old".into()))],
        true,
    );
    assert_eq!(fs.run(&config(Mode::Overwrite, false, false), "rc = ~", &home()), 1);
    assert_eq!(fs.prompts, 1);
    assert_eq!(fs.nodes.get("/home/u/rc"), Some(&Node::Link("/repo/rc".into())));
}

#[test]
fn overwrite_forced_skips_prompt() {
    let mut fs = Fake::new(
        &[("/repo/rc", Node::File("new".into())), ("/home/u/rc", Node::File("old".into()))],
        false,
    );
    assert_eq!(fs.run(&config(Mode::Overwrite, true, false), "rc = ~", &home()), 1);
    assert_eq!(fs.prompts, 0);
    assert_eq!(fs.nodes.get("/home/u/rc"), Some(&Node::Link("/repo/rc".into())));
}

#[test]
fn overwrite_replaces_symlink_without_compare() {
    let mut fs = Fake::new(
        &[
            ("/repo/rc", Node::File("new".into())),
            ("/elsewhere", Node::File("x".into())),
            ("/home/u/rc", Node::Link("/elsewhere".into())),
        ],
        false,
    );
    assert_eq!(fs.run(&config(Mode::Overwrite, false, false), "rc = ~", &home()), 1);
    assert!(!fs.commands.iter().any(|c| matches!(c, Command::Compare { .. })));
    assert_eq!(fs.nodes.get("/home/u/rc"), Some(&Node::Link("/repo/rc".into())));
}

#[test]
fn create_does_not_replace_real_file() {
    let mut fs = Fake::new(
        &[("/repo/rc", Node::File("new".into())), ("/home/u/rc", Node::File("old".into()))],
        true,
    );
    assert_eq!(fs.run(&config(Mode::Create, true, false), "rc = ~", &home()), 0);
    assert_eq!(fs.nodes.get("/home/u/rc"), Some(&Node::File("old".into())));
}

#[test]
fn delete_removes_symlink() {
    let mut fs = Fake::new(
        &[("/repo/rc", Node::File("a".into())), ("/home/u/rc", Node::Link("/repo/rc".into()))],
        false,
    );
    assert_eq!(fs.run(&config(Mode::Delete, false, false), "rc = ~", &home()), 1);
    assert!(fs.nodes.get("/home/u/rc").is_none());
}

#[test]
fn delete_without_destination_does_nothing() {
    let mut fs = Fake::new(&[("/repo/rc", Node::File("a".into()))], false);
    let mut m = Reconciler::new(&config(Mode::Delete, false, false));
    assert_eq!(m.step(Event::Source { exists: true, is_dir: false }), Command::MakeParent);
    assert_eq!(m.step(Event::Succeeded), Command::CheckDest);
    let none = DestInfo { occupied: false, is_symlink: false, is_dir: false };
    assert_eq!(m.step(Event::Dest(none)), Command::Finish(Outcome::NothingToRemove));
    assert_eq!(fs.run(&config(Mode::Delete, false, false), "rc = ~", &home()), 0);
    assert_eq!(fs.nodes.len(), 1);
}

#[test]
fn dry_run_never_mutates() {
    for mode in [Mode::Create, Mode::Overwrite, Mode::Delete] {
        let start = [
            ("/repo/a", Node::File("1".into())),
            ("/repo/b", Node::File("2".into())),
            ("/home/u/b", Node::File("3".into())),
            ("/repo/c", Node::File("4".into())),
            ("/home/u/c", Node::Link("/repo/c".into())),
        ];
        let mut fs = Fake::new(&start, true);
        let before = fs.nodes.clone();
        let count = fs.run(&config(mode, false, true), "a = ~\nb = ~\nc = ~\nmissing = ~", &home());
        assert_eq!(count, 0);
        assert_eq!(fs.nodes, before);
        assert!(!fs.commands.iter().any(|c| matches!(
            c,
            Command::MakeParent | Command::Remove { .. } | Command::Link { .. }
        )));
    }
}

#[test]
fn dry_run_reports() {
    let src = Event::Source { exists: true, is_dir: false };
    let none = DestInfo { occupied: false, is_symlink: false, is_dir: false };
    let cases = [
        (Mode::Create, Report::WouldLink),
        (Mode::Overwrite, Report::WouldReplace),
        (Mode::Delete, Report::WouldRemove),
    ];
    for (mode, report) in cases {
        let mut m = Reconciler::new(&config(mode, false, true));
        assert_eq!(m.step(src), Command::CheckDest);
        assert_eq!(m.step(Event::Dest(none)), Command::Finish(Outcome::DryRun(report)));
    }
}

#[test]
fn missing_source_is_skipped_in_every_mode() {
    for mode in [Mode::Create, Mode::Overwrite, Mode::Delete] {
        let mut fs = Fake::new(&[("/home/u/x", Node::Link("/repo/x".into()))], false);
        let before = fs.nodes.clone();
        assert_eq!(fs.run(&config(mode, false, false), "x = ~", &home()), 0);
        assert_eq!(fs.nodes, before);
        let mut m = Reconciler::new(&config(mode, false, false));
        assert_eq!(
            m.step(Event::Source { exists: false, is_dir: false }),
            Command::Finish(Outcome::SourceMissing)
        );
    }
}

#[test]
fn failure_ends_entry() {
    let mut m = Reconciler::new(&config(Mode::Create, false, false));
    assert_eq!(m.step(Event::Source { exists: true, is_dir: true }), Command::MakeParent);
    assert_eq!(m.step(Event::Failed), Command::Finish(Outcome::Failed));
}

#[test]
fn directory_source_links_as_directory() {
    let mut m = Reconciler::new(&config(Mode::Overwrite, false, false));
    m.step(Event::Source { exists: true, is_dir: true });
    m.step(Event::Succeeded);
    let dir = DestInfo { occupied: true, is_symlink: false, is_dir: true };
    assert_eq!(m.step(Event::Dest(dir)), Command::Compare { recursive: true });
    assert_eq!(m.step(Event::Compared { differs: false }), Command::Remove { recursive: true });
    assert_eq!(m.step(Event::Succeeded), Command::Link { dir: true });
    assert_eq!(m.step(Event::Succeeded), Command::Finish(Outcome::Performed));
}

#[test]
fn answers() {
    assert!(is_affirmative("y"));
    assert!(is_affirmative("YES\n"));
    assert!(is_affirmative("  Yes "));
    assert!(!is_affirmative(""));
    assert!(!is_affirmative("n"));
    assert!(!is_affirmative("yeah"));
    assert!(!is_affirmative("ye"));
}

#[test]
fn tally_counts_performed_only() {
    let mut c: u64 = 41;
    tally(&mut c, Outcome::Performed);
    assert_eq!(c, 42);
    tally(&mut c, Outcome::Declined);
    tally(&mut c, Outcome::Failed);
    tally(&mut c, Outcome::DryRun(Report::WouldLink));
    assert_eq!(c, 42);
    assert!(Outcome::Performed.counts());
    assert!(!Outcome::SourceMissing.counts());
}
