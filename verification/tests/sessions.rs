//! Conversations with a small world of a repository and two files.

use savepoint::console::{Message, Tint};
use savepoint::files::{
    completed, create_errfile, create_statefile, is_there, read_statefile, rm_errfile, rm_statefile,
};
use savepoint::finalize::{finalize, FinalizeState};
use savepoint::git::{
    branch, commit, current_branch, is_git_available, is_git_repo, BranchState, CommitState,
};
use savepoint::merge::{merge_squashed, MergeState};
use savepoint::protocol::{
    CommandLine, EventKind, Failure, FailureKind, IoKind, Marker, Received, Reply, Request,
    WatchedPath,
};
use savepoint::savepoint::{SavePoint, State, TestState};
use savepoint::session::{run, Commands, Session};
use savepoint::setup::{setup_or_resume, SetupState};
use savepoint::start::{start, StartArgs, StartState};
use savepoint::turn::{Error, Next, Output, Turn};

struct World {
    git: bool,
    repo: bool,
    branch: String,
    branches: Vec<String>,
    staged: Option<String>,
    commits: Vec<(String, String)>,
    statefile: Option<String>,
    errfile: bool,
    disk_full: bool,
    broken: Vec<&'static str>,
    tests: Vec<bool>,
    running: Vec<bool>,
    events: Vec<Received>,
    asked: Vec<String>,
}

fn failure(kind: FailureKind, text: &str) -> Failure {
    Failure { kind, text: text.to_string() }
}

impl World {
    fn on(branch: &str) -> World {
        World {
            git: true,
            repo: true,
            branch: branch.to_string(),
            branches: vec![branch.to_string()],
            staged: None,
            commits: Vec::new(),
            statefile: None,
            errfile: false,
            disk_full: false,
            broken: Vec::new(),
            tests: Vec::new(),
            running: Vec::new(),
            events: Vec::new(),
            asked: Vec::new(),
        }
    }

    /// A session that was started from feat/foo.
    fn savepoint_repo() -> World {
        let mut world = World::on("savepoint/test");
        world.branches = vec!["main".to_string(), "feat/foo".to_string(), "savepoint/test".to_string()];
        world.statefile = Some("feat/foo".to_string());
        world
    }

    fn git_command(&mut self, words: &[&str]) -> Result<Vec<u8>, Failure> {
        if !self.git {
            return Err(failure(FailureKind::Run(IoKind::NotFound), "no such file"));
        }
        if words == ["--version"] {
            return Ok(b"git version 2.40.0\n".to_vec());
        }
        if !self.repo || self.broken.contains(&words[0]) {
            return Err(failure(FailureKind::Exit, "exit status 128"));
        }
        let here = self.branch.clone();
        match words {
            ["rev-parse", "--is-inside-work-tree"] => Ok(b"true\n".to_vec()),
            ["rev-parse", "--abbrev-ref", "HEAD"] => Ok(format!("{here}\n").into_bytes()),
            ["checkout", "-b", name] => {
                self.branches.push(name.to_string());
                self.branch = name.to_string();
                Ok(Vec::new())
            }
            ["checkout", name] if self.branches.contains(&name.to_string()) => {
                self.branch = name.to_string();
                Ok(Vec::new())
            }
            ["merge", "--squash", name] if self.branches.contains(&name.to_string()) => {
                self.staged = Some(name.to_string());
                Ok(Vec::new())
            }
            ["commit", "-m", message] if self.staged.is_some() => {
                self.staged = None;
                self.commits.push((here, message.to_string()));
                Ok(Vec::new())
            }
            ["commit", "-am", message] => {
                self.commits.push((here, message.to_string()));
                Ok(Vec::new())
            }
            _ => Err(failure(FailureKind::Exit, "exit status 1")),
        }
    }

    fn run(&mut self, command: &CommandLine) -> Result<Vec<u8>, Failure> {
        let words: Vec<&str> = command.args.iter().map(|a| a.as_str()).collect();
        match command.program.as_str() {
            "git" => self.git_command(&words),
            "which" if words == ["which"] => Ok(b"/usr/bin/which\n".to_vec()),
            "which" => Err(failure(FailureKind::Exit, "exit status 1")),
            _ => {
                if self.tests.remove(0) {
                    Ok(b"ok\n".to_vec())
                } else {
                    Err(failure(FailureKind::Exit, "exit status 2"))
                }
            }
        }
    }

    fn answer(&mut self, request: Request) -> Reply {
        self.asked.push(match &request {
            Request::Run(c) => format!("{} {}", c.program, c.args.join(" ")),
            Request::Exists(file) => format!("exists {}", file.path()),
            Request::Read(file) => format!("read {}", file.path()),
            Request::Write(file, text) => format!("write {} {text}", file.path()),
            Request::Remove(file) => format!("remove {}", file.path()),
            Request::HandleInterrupt => "handle".to_string(),
            Request::Watch(path) => format!("watch {path}"),
            Request::Running => "running".to_string(),
            Request::NextEvent(millis) => format!("next {millis}"),
        });
        let full = self.disk_full;
        let missing = || failure(FailureKind::Other, "No such file or directory (os error 2)");
        match request {
            Request::Run(command) => Reply::Ran(self.run(&command)),
            Request::Exists(Marker::Errfile) => Reply::Exists(Ok(self.errfile)),
            Request::Exists(Marker::Statefile) => Reply::Exists(Ok(self.statefile.is_some())),
            Request::Read(Marker::Statefile) => Reply::Text(self.statefile.clone().ok_or(missing())),
            Request::Read(Marker::Errfile) => Reply::Text(Err(missing())),
            Request::Write(..) if full => {
                Reply::Done(Err(failure(FailureKind::Other, "No space left on device")))
            }
            Request::Write(Marker::Statefile, text) => {
                self.statefile = Some(text);
                Reply::Done(Ok(()))
            }
            Request::Write(Marker::Errfile, _) => {
                self.errfile = true;
                Reply::Done(Ok(()))
            }
            Request::Remove(Marker::Statefile) => {
                Reply::Done(self.statefile.take().map(|_| ()).ok_or(missing()))
            }
            Request::Remove(Marker::Errfile) => {
                let there = self.errfile;
                self.errfile = false;
                Reply::Done(if there { Ok(()) } else { Err(missing()) })
            }
            Request::HandleInterrupt => Reply::Done(Ok(())),
            Request::Watch(_) => Reply::Done(Ok(())),
            Request::Running => Reply::Running(if self.running.is_empty() {
                false
            } else {
                self.running.remove(0)
            }),
            Request::NextEvent(_) => Reply::Received(if self.events.is_empty() {
                Received::Nothing
            } else {
                self.events.remove(0)
            }),
        }
    }
}

/// Runs a conversation to its end. What was shown comes with the result.
fn drive<S, R>(
    world: &mut World,
    first: Turn<S, R>,
    resume: fn(S, Reply) -> Turn<S, R>,
) -> (Result<R, Error>, Vec<Output>) {
    let mut turn = first;
    let mut shown = Vec::new();
    loop {
        shown.append(&mut turn.output);
        match turn.next {
            Next::Return(result) => return (result, shown),
            Next::Do(request, state) => turn = resume(state, world.answer(request)),
        }
    }
}

fn do_finalize(world: &mut World, message: Option<&str>, dryrun: bool) -> Result<(), Error> {
    drive(world, finalize(message.map(|m| m.to_string()), dryrun), FinalizeState::resume).0
}

fn do_setup(world: &mut World, dryrun: bool) -> Result<(), Error> {
    drive(world, setup_or_resume(dryrun), SetupState::resume).0
}

fn do_test(world: &mut World, point: SavePoint, dryrun: bool, quiet: bool) -> Result<SavePoint, Error> {
    let program = point.program.clone();
    drive(world, point.test(&program, dryrun, quiet), TestState::resume).0
}

fn start_args(dryrun: bool) -> StartArgs {
    StartArgs {
        filetype: "rs".to_string(),
        command: vec!["cargo".to_string(), "test".to_string()],
        dryrun,
        clear: false,
        quiet: false,
    }
}

fn saved(name: &str) -> Received {
    Received::Event(
        EventKind::Modify,
        vec![WatchedPath { file_name: Some(name.as_bytes().to_vec()) }],
    )
}

fn log(tint: Tint, text: &str) -> Output {
    Output::Log(Message { text: text.to_string(), tint })
}

fn point(state: State) -> SavePoint {
    SavePoint { program: "cargo".to_string(), args: vec!["test".to_string()], state }
}

// The machine

fn app_case(state: State, program: &str, params: &str) {
    for errfile in [false, true] {
        let mut world = World::on("main");
        world.errfile = errfile;
        let args = vec![params.to_string()];
        let looked = world.answer(Request::Exists(Marker::Errfile));
        let app = SavePoint::new(program, &args, &looked);
        let run = do_test(&mut world, app, true, true);
        assert_eq!(run.expect("SavePoint::test returned an error").state, state);
    }
}

#[test]
fn app_test() {
    app_case(State::Passing, "which", "which");
    app_case(State::Failing, "which", "nonexistingbin12345");
}

#[test]
fn machine_starts_as_the_errfile_tells() {
    let args = vec!["test".to_string()];
    let there = SavePoint::new("cargo", &args, &Reply::Exists(Ok(true)));
    assert_eq!(there, point(State::Failing));
    let absent = SavePoint::new("cargo", &args, &Reply::Exists(Ok(false)));
    assert_eq!(absent, point(State::Passing));
    let unknown = Reply::Exists(Err(failure(FailureKind::Other, "permission denied")));
    assert_eq!(SavePoint::new("cargo", &args, &unknown), point(State::Failing));
}

#[test]
fn passing_while_passing_is_a_no_op() {
    let mut world = World::on("savepoint/a");
    world.tests = vec![true];
    let result = do_test(&mut world, point(State::Passing), false, false);
    assert_eq!(result, Ok(point(State::Passing)));
    assert_eq!(world.asked, ["cargo test"]);
    assert!(world.commits.is_empty());
}

#[test]
fn first_failure_writes_the_errfile() {
    let mut world = World::on("savepoint/a");
    world.tests = vec![false];
    let first = point(State::Passing).test("cargo", false, false);
    let (result, shown) = drive(&mut world, first, TestState::resume);
    assert_eq!(result, Ok(point(State::Failing)));
    assert_eq!(world.asked, ["cargo test", "write .checkpoint.error "]);
    assert!(world.errfile);
    assert_eq!(shown, [Output::Line("done!".to_string()), log(Tint::Red, "Error!")]);
}

#[test]
fn failing_again_stays_failing() {
    let mut world = World::on("savepoint/a");
    world.tests = vec![false];
    world.errfile = true;
    let result = do_test(&mut world, point(State::Failing), false, false);
    assert_eq!(result, Ok(point(State::Failing)));
    assert!(world.errfile);
    assert!(world.commits.is_empty());
}

#[test]
fn failure_counts_though_the_errfile_cannot_be_written() {
    let mut world = World::on("savepoint/a");
    world.tests = vec![false];
    world.disk_full = true;
    let result = do_test(&mut world, point(State::Passing), false, false);
    assert_eq!(result, Ok(point(State::Failing)));
    assert!(!world.errfile);
}

#[test]
fn passing_again_commits_and_removes_the_errfile() {
    let mut world = World::on("savepoint/a");
    world.tests = vec![true];
    world.errfile = true;
    let first = point(State::Failing).test("cargo", false, true);
    let (result, shown) = drive(&mut world, first, TestState::resume);
    assert_eq!(result, Ok(point(State::Passing)));
    assert_eq!(
        world.asked,
        ["cargo test", "git commit -am SAVEPOINT REACHED!", "remove .checkpoint.error"]
    );
    assert_eq!(
        world.commits,
        [("savepoint/a".to_string(), "SAVEPOINT REACHED!".to_string())]
    );
    assert!(!world.errfile);
    assert_eq!(
        shown,
        [
            Output::SpinnerStart("Running cargo...".to_string()),
            Output::SpinnerStop,
            Output::Line("done!".to_string()),
            log(Tint::Green, "Autosaving!"),
        ]
    );
}

#[test]
fn dry_run_says_autosaving_and_commits_nothing() {
    let mut world = World::on("savepoint/a");
    world.tests = vec![true];
    world.errfile = true;
    let first = point(State::Failing).test("cargo", true, false);
    let (result, shown) = drive(&mut world, first, TestState::resume);
    assert_eq!(result, Ok(point(State::Passing)));
    assert_eq!(world.asked, ["cargo test", "remove .checkpoint.error"]);
    assert!(world.commits.is_empty());
    assert_eq!(
        shown,
        [Output::Line("done!".to_string()), log(Tint::Green, "(dry run) Autosaving!")]
    );
}

#[test]
fn failed_commit_is_fatal_and_keeps_the_errfile() {
    let mut world = World::on("savepoint/a");
    world.tests = vec![true];
    world.errfile = true;
    world.broken = vec!["commit"];
    let first = point(State::Failing).test("cargo", false, false);
    let (result, shown) = drive(&mut world, first, TestState::resume);
    let error = result.unwrap_err();
    assert_eq!(error.message, "Git command error.");
    assert_eq!(
        error.suggestion.as_deref(),
        Some("Consider manually removing the `.checkpoint.error` file")
    );
    assert!(world.errfile);
    assert_eq!(shown.last(), Some(&log(Tint::Red, "Fatal error!")));
}

#[test]
fn errfile_that_is_gone_is_an_error() {
    let mut world = World::on("savepoint/a");
    world.tests = vec![true];
    let error = do_test(&mut world, point(State::Failing), false, false).unwrap_err();
    assert_eq!(error.message, "No such file or directory (os error 2)");
    assert_eq!(error.suggestion, None);
}

#[test]
fn pass_and_fail_alone() {
    let mut world = World::on("savepoint/a");
    world.errfile = true;
    let (passed, _) = drive(&mut world, point(State::Failing).pass(false), TestState::resume);
    assert_eq!(passed, Ok(point(State::Passing)));
    let (failed, _) = drive(&mut world, point(State::Passing).fail(), TestState::resume);
    assert_eq!(failed, Ok(point(State::Failing)));
    assert!(world.errfile);
}

// Git

#[test]
fn is_git_repo_ok_inside_repo() {
    let mut world = World::on("main");
    let ran = world.git_command(&["rev-parse", "--is-inside-work-tree"]);
    let result = is_git_repo(Reply::Ran(ran));
    assert!(result.is_ok());
}

#[test]
fn is_git_repo_err_outside_repo() {
    let mut world = World::on("main");
    world.repo = false;
    let ran = world.git_command(&["rev-parse", "--is-inside-work-tree"]);
    let result = is_git_repo(Reply::Ran(ran));
    assert!(result.is_err());
    assert_eq!(
        result.unwrap_err().message,
        "Current directory is not a git repository, consider running 'git init'"
    );
}

#[test]
fn git_that_is_missing_is_told_apart() {
    assert_eq!(is_git_available(Reply::Ran(Ok(b"git version 2\n".to_vec()))), Ok(()));
    let missing = failure(FailureKind::Run(IoKind::NotFound), "not found");
    assert_eq!(
        is_git_available(Reply::Ran(Err(missing))).unwrap_err().message,
        "could not find `git` command"
    );
    let denied = failure(FailureKind::Run(IoKind::Other), "permission denied");
    assert_eq!(
        is_git_available(Reply::Ran(Err(denied))).unwrap_err().message,
        "checking for `git` command failed with unexpected error permission denied"
    );
    let exit = failure(FailureKind::Exit, "exit status 1");
    assert_eq!(
        is_git_available(Reply::Ran(Err(exit))).unwrap_err().message,
        "checking for `git` command failed with unexpected error exit status 1"
    );
}

#[test]
fn current_branch_is_what_git_prints() {
    let branch = current_branch(Reply::Ran(Ok(b"  feat/foo\r\n".to_vec())));
    assert_eq!(branch, Ok("feat/foo".to_string()));
    let umlaut = current_branch(Reply::Ran(Ok("größe\n".as_bytes().to_vec())));
    assert_eq!(umlaut, Ok("größe".to_string()));
    let broken = current_branch(Reply::Ran(Ok(vec![b'a', 0xff, b'b', b'\n'])));
    assert_eq!(broken, Ok("a\u{fffd}b".to_string()));
    let error = current_branch(Reply::Ran(Err(failure(FailureKind::Exit, "x")))).unwrap_err();
    assert_eq!(error.message, "Git command error.");
    assert_eq!(
        error.suggestion.as_deref(),
        Some("Check if current directory is a git repository")
    );
}

#[test]
fn named_branch_is_checked_out() {
    let mut world = World::savepoint_repo();
    let (result, shown) = drive(&mut world, branch(Some("main"), false), BranchState::resume);
    assert_eq!(result, Ok("main".to_string()));
    assert_eq!(world.asked, ["git checkout main"]);
    assert_eq!(shown, [log(Tint::Green, "Switching to branch main!")]);
}

#[test]
fn branch_that_is_missing_is_an_error() {
    let mut world = World::on("main");
    let (result, _) = drive(&mut world, branch(Some("gone"), false), BranchState::resume);
    assert_eq!(result.unwrap_err().message, "Git command error.");
}

#[test]
fn new_branches_have_fresh_savepoint_names() {
    let mut world = World::on("main");
    let (first, _) = drive(&mut world, branch(None, false), BranchState::resume);
    let first = first.unwrap();
    let (second, _) = drive(&mut world, branch(None, false), BranchState::resume);
    let second = second.unwrap();
    for name in [&first, &second] {
        let id = name.strip_prefix("savepoint/").unwrap();
        let lengths: Vec<usize> = id.split('-').map(|group| group.len()).collect();
        assert_eq!(lengths, [8, 4, 4, 4, 12]);
        assert!(id.chars().all(|c| c == '-' || c.is_ascii_digit() || ('a'..='f').contains(&c)));
        assert_eq!(id.chars().nth(14), Some('4'));
        assert!(matches!(id.chars().nth(19), Some('8' | '9' | 'a' | 'b')));
    }
    assert_ne!(first, second);
    assert_eq!(world.asked[0], format!("git checkout -b {first}"));
    assert_eq!(world.branch, second);
}

#[test]
fn dry_branch_is_only_said() {
    let mut world = World::on("main");
    let (result, shown) = drive(&mut world, branch(Some("other"), true), BranchState::resume);
    assert_eq!(result, Ok("other".to_string()));
    assert!(world.asked.is_empty());
    assert_eq!(shown, [log(Tint::Green, "(dry run) Switching to branch other!")]);
}

#[test]
fn commit_takes_all_changes() {
    let mut world = World::on("savepoint/a");
    let (result, shown) = drive(&mut world, commit("message", false), CommitState::resume);
    assert_eq!(result, Ok(()));
    assert_eq!(world.asked, ["git commit -am message"]);
    assert_eq!(shown, [log(Tint::Green, "Autosaving!")]);
}

// Merging

#[test]
fn merge_squashed_test() {
    let mut world = World::savepoint_repo();
    let merging = merge_squashed("feat/foo".to_string(), Some("test merge".to_string()), false);
    let (result, shown) = drive(&mut world, merging, MergeState::resume);
    result.expect("merge_squashed failed");
    assert_eq!(world.branch, "feat/foo");
    assert_eq!(world.commits, [("feat/foo".to_string(), "test merge".to_string())]);
    assert_eq!(
        shown,
        [
            log(Tint::Green, "Merging squashed savepoints from savepoint/test to feat/foo!"),
            log(Tint::Green, "Switching to branch feat/foo!"),
        ]
    );
}

#[test]
fn dry_merge_only_asks_for_the_branch() {
    let mut world = World::savepoint_repo();
    let merging = merge_squashed("feat/foo".to_string(), None, true);
    let (result, _) = drive(&mut world, merging, MergeState::resume);
    assert_eq!(result, Ok(()));
    assert_eq!(world.asked, ["git rev-parse --abbrev-ref HEAD"]);
    assert_eq!(world.branch, "savepoint/test");
}

#[test]
fn merge_into_a_missing_branch_is_an_error() {
    let mut world = World::savepoint_repo();
    let merging = merge_squashed("gone".to_string(), None, false);
    let error = drive(&mut world, merging, MergeState::resume).0.unwrap_err();
    assert_eq!(error.message, "Git command error.");
    assert_eq!(world.asked, ["git rev-parse --abbrev-ref HEAD", "git checkout gone"]);
}

#[test]
fn merge_conflict_is_an_error() {
    let mut world = World::savepoint_repo();
    world.broken = vec!["merge"];
    let merging = merge_squashed("feat/foo".to_string(), None, false);
    let error = drive(&mut world, merging, MergeState::resume).0.unwrap_err();
    assert_eq!(error.message, "Squashing commits failed.");
    assert_eq!(error.suggestion.as_deref(), Some("Resolve conflicts manually and commit."));
}

#[test]
fn empty_merge_is_an_error() {
    let mut world = World::savepoint_repo();
    world.broken = vec!["commit"];
    let merging = merge_squashed("feat/foo".to_string(), None, false);
    let error = drive(&mut world, merging, MergeState::resume).0.unwrap_err();
    assert_eq!(error.message, "Git commit failed.");
    assert_eq!(
        error.suggestion.as_deref(),
        Some("Check that the squash produced staged changes.")
    );
}

// The statefile

#[test]
fn statefile_roundtrip() {
    let mut world = World::on("main");
    completed(world.answer(create_statefile("main"))).expect("create_statefile failed");
    let read = world.answer(Request::Read(Marker::Statefile));
    let branch_info = read_statefile(read).expect("read_statefile failed");
    completed(world.answer(rm_statefile())).expect("rm_statefile failed");
    let looked = world.answer(Request::Exists(Marker::Statefile));
    let statefile_exists = is_there(looked).expect("looking failed");
    assert_eq!(branch_info, "main");
    assert!(!statefile_exists);
}

#[test]
fn read_statefile_missing_errors() {
    let mut world = World::on("main");
    let res = read_statefile(world.answer(Request::Read(Marker::Statefile)));
    let err = res.expect_err("read_statefile should error on missing file");
    let msg = format!("{err:?}");
    assert!(
        msg.contains("Could not read statefile"),
        "error should mention statefile; got: {msg}"
    );
}

#[test]
fn statefile_is_read_without_white_space_around() {
    let read = read_statefile(Reply::Text(Ok("\u{a0} feat/foo \n\n".to_string())));
    assert_eq!(read, Ok("feat/foo".to_string()));
}

#[test]
fn errfile_is_removed_once() {
    let mut world = World::savepoint_repo();
    assert_eq!(completed(world.answer(create_errfile())), Ok(()));
    assert!(world.errfile);
    assert_eq!(completed(world.answer(rm_errfile())), Ok(()));
    assert!(!world.errfile);
    let error = completed(world.answer(rm_errfile())).unwrap_err();
    assert_eq!(error.message, "No such file or directory (os error 2)");
    assert_eq!(world.statefile.as_deref(), Some("feat/foo"));
}

#[test]
fn failing_twice_is_failing_once() {
    let mut world = World::on("savepoint/a");
    world.tests = vec![false, false];
    let once = do_test(&mut world, point(State::Passing), false, false).unwrap();
    assert!(world.errfile);
    let twice = do_test(&mut world, once, false, false);
    assert_eq!(twice, Ok(point(State::Failing)));
    assert!(world.errfile);
}

#[test]
fn requests_for_the_two_files() {
    assert_eq!(create_errfile(), Request::Write(Marker::Errfile, String::new()));
    assert_eq!(rm_errfile(), Request::Remove(Marker::Errfile));
    assert_eq!(rm_statefile(), Request::Remove(Marker::Statefile));
    assert_eq!(Marker::Errfile.path(), ".checkpoint.error");
    assert_eq!(Marker::Statefile.path(), ".checkpoint.start");
}

// Finalizing

#[test]
fn finalize_happy_path() {
    let mut world = World::savepoint_repo();
    let res = do_finalize(&mut world, Some("done"), false);
    res.expect("finalize should succeed");
    assert_eq!(world.branch, "feat/foo");
    assert_eq!(world.commits, [("feat/foo".to_string(), "done".to_string())]);
    assert!(world.statefile.is_none());
    assert_eq!(
        world.asked,
        [
            "git --version",
            "git rev-parse --is-inside-work-tree",
            "read .checkpoint.start",
            "git rev-parse --abbrev-ref HEAD",
            "git checkout feat/foo",
            "git merge --squash savepoint/test",
            "git commit -m done",
            "remove .checkpoint.error",
            "remove .checkpoint.start",
        ]
    );
}

#[test]
fn finalize_errors_without_statefile() {
    let mut world = World::on("main");
    let res = do_finalize(&mut world, None, false);
    assert!(res.is_err(), "finalize should error without statefile");
    let error = res.unwrap_err();
    assert_eq!(error.message, "Could not read statefile");
    assert_eq!(error.suggestion.as_deref(), Some("Consider running 'savepoint start' first"));
}

#[test]
fn finalize_succeeds_when_errfile_absent() {
    let mut world = World::savepoint_repo();
    let res = do_finalize(&mut world, None, false);
    res.expect("finalize should succeed even when errfile is absent");
    assert_eq!(
        world.commits,
        [(
            "feat/foo".to_string(),
            "Savepoint: changes from savepoint/test integrated!".to_string()
        )]
    );
}

#[test]
fn finalize_removes_errfile_when_present() {
    let mut world = World::savepoint_repo();
    world.errfile = true;
    let res = do_finalize(&mut world, None, false);
    res.expect("finalize should succeed");
    assert!(!world.errfile, "errfile should be removed");
}

#[test]
fn finalize_dryrun_doesnt_change_state() {
    let mut world = World::savepoint_repo();
    let (res, shown) = drive(&mut world, finalize(None, true), FinalizeState::resume);
    res.expect("dryrun finalize should succeed");
    assert_eq!(world.branch, "savepoint/test", "dryrun should not switch branches");
    assert!(world.statefile.is_some(), "statefile should be preserved in dryrun");
    assert_eq!(world.asked, ["read .checkpoint.start", "git rev-parse --abbrev-ref HEAD"]);
    assert_eq!(
        shown,
        [
            log(
                Tint::Green,
                "(dry run) Merging squashed savepoints from savepoint/test to feat/foo!"
            ),
            log(Tint::Green, "Finalized! Savepoints squashed into feat/foo."),
        ]
    );
}

#[test]
fn failed_merge_keeps_the_statefile() {
    for step in ["checkout", "merge", "commit"] {
        let mut world = World::savepoint_repo();
        world.broken = vec![step];
        assert!(do_finalize(&mut world, None, false).is_err());
        assert_eq!(world.statefile.as_deref(), Some("feat/foo"));
    }
}

#[test]
fn finalize_needs_git_and_a_repository() {
    let mut world = World::savepoint_repo();
    world.git = false;
    let error = do_finalize(&mut world, None, false).unwrap_err();
    assert_eq!(error.message, "could not find `git` command");
    let mut world = World::savepoint_repo();
    world.repo = false;
    let error = do_finalize(&mut world, None, false).unwrap_err();
    assert!(error.message.contains("not a git repository"));
    assert_eq!(world.asked, ["git --version", "git rev-parse --is-inside-work-tree"]);
}

// Setting up

#[test]
fn setup_or_resume_resumes_when_statefile_and_on_savepoint_branch() {
    let mut world = World::on("savepoint/existing");
    world.statefile = Some("main".to_string());
    let result = do_setup(&mut world, false);
    result.expect("setup_or_resume should succeed");
    assert_eq!(world.branch, "savepoint/existing", "should not switch branch");
    assert_eq!(world.statefile.as_deref(), Some("main"), "should not overwrite statefile");
}

#[test]
fn setup_or_resume_refuses_on_savepoint_branch_without_statefile() {
    let mut world = World::on("savepoint/parent");
    let err = do_setup(&mut world, false)
        .expect_err("setup_or_resume should refuse on savepoint/* with no statefile");
    let msg = format!("{err:?}");
    assert!(
        msg.contains("Cannot determine base branch"),
        "error should mention missing base branch; got: {msg}"
    );
    assert_eq!(
        err.message,
        "Cannot determine base branch for savepoint session on `savepoint/parent`: no statefile found."
    );
    assert_eq!(
        err.suggestion.as_deref(),
        Some("Switch to your work branch before running `savepoint start` or `savepoint finalize` to wrap up any existing session.")
    );
    assert!(world.statefile.is_none(), "should not have written a statefile");
    assert_eq!(world.branch, "savepoint/parent", "should not have switched branches");
}

#[test]
fn setup_or_resume_fresh_setup_when_no_statefile_and_normal_branch() {
    let mut world = World::on("main");
    let result = do_setup(&mut world, false);
    result.expect("setup_or_resume should succeed");
    assert_eq!(world.statefile.as_deref(), Some("main"));
    assert!(
        world.branch.starts_with("savepoint/"),
        "should switch to savepoint/ branch; got: {}",
        world.branch
    );
}

#[test]
fn old_statefile_is_overwritten_from_a_work_branch() {
    let mut world = World::on("main");
    world.statefile = Some("elsewhere".to_string());
    do_setup(&mut world, false).unwrap();
    assert_eq!(world.statefile.as_deref(), Some("main"));
}

#[test]
fn dry_setup_records_but_does_not_branch() {
    let mut world = World::on("main");
    do_setup(&mut world, true).unwrap();
    assert_eq!(world.statefile.as_deref(), Some("main"));
    assert_eq!(world.branch, "main");
}

#[test]
fn setup_tells_of_each_failure() {
    let mut world = World::on("main");
    world.disk_full = true;
    assert_eq!(do_setup(&mut world, false).unwrap_err().message, "No space left on device");
    let mut world = World::on("main");
    world.broken = vec!["checkout"];
    assert_eq!(do_setup(&mut world, false).unwrap_err().message, "Git command error.");
    let looked = failure(FailureKind::Other, "permission denied");
    let turn = SetupState::LookingForStatefile { starting_branch: "main".to_string(), dryrun: false }
        .resume(Reply::Exists(Err(looked)));
    assert!(matches!(turn.next, Next::Return(Err(e)) if e.message == "permission denied"));
}

#[test]
fn second_start_resumes_the_session() {
    let mut world = World::on("main");
    do_setup(&mut world, false).unwrap();
    let branch = world.branch.clone();
    world.asked.clear();
    do_setup(&mut world, false).unwrap();
    assert_eq!(world.branch, branch);
    assert_eq!(world.statefile.as_deref(), Some("main"));
    assert_eq!(world.asked, ["git rev-parse --abbrev-ref HEAD", "exists .checkpoint.start"]);
}

// The loop

#[test]
fn loop_runs_tests_on_changes_and_autosaves() {
    let mut world = World::on("main");
    world.tests = vec![true, false, true];
    // at the head, after the tests and while waiting, for each of three runs
    world.running = vec![true, true, true, true, true, true, true, true, false];
    world.events = vec![saved("lib.rs"), Received::Nothing, saved("main.rs")];
    let (result, shown) = drive(&mut world, start(start_args(false)), StartState::resume);
    assert_eq!(result, Ok(()));
    assert_eq!(world.commits.len(), 1);
    assert_eq!(world.commits[0].1, "SAVEPOINT REACHED!");
    assert!(world.commits[0].0.starts_with("savepoint/"));
    assert!(!world.errfile);
    let stopped =
        "Savepoint stopped. Consider running `savepoint finalize` to merge auto-commits.";
    assert_eq!(shown.last(), Some(&log(Tint::Yellow, stopped)));
    let monitoring = shown.iter().filter(|o| **o == log(Tint::White, "Monitoring...")).count();
    assert_eq!(monitoring, 3);
    assert_eq!(
        &world.asked[6..12],
        ["handle", "watch .", "exists .checkpoint.error", "running", "cargo test", "running"]
    );
}

#[test]
fn loop_clears_the_screen_between_runs() {
    let mut world = World::on("main");
    world.tests = vec![true, true];
    world.running = vec![true, true, true, true, false];
    world.events = vec![saved("lib.rs")];
    let mut args = start_args(false);
    args.clear = true;
    let (result, shown) = drive(&mut world, start(args), StartState::resume);
    assert_eq!(result, Ok(()));
    assert!(shown.contains(&Output::Raw("\u{1b}[2J\u{1b}[1;1H".to_string())));
}

#[test]
fn loop_runs_the_tests_once_per_awaited_change() {
    for clear in [false, true] {
        let mut world = World::on("main");
        world.tests = vec![true, true, true];
        world.running = vec![true; 11];
        world.events = vec![
            saved("a.rs"),
            // taken along with the one before
            saved("b.rs"),
            Received::Nothing,
            saved("notes.md"),
            saved("c.rs"),
        ];
        let mut args = start_args(false);
        args.clear = clear;
        let mut turn = start(args);
        let mut before = Vec::new();
        let mut between = Vec::new();
        loop {
            match turn.next {
                Next::Return(result) => {
                    assert_eq!(result, Ok(()));
                    break;
                }
                Next::Do(request, state) => {
                    if matches!(&request, Request::Run(c) if c.program == "cargo") {
                        between.push(before);
                    }
                    before = turn.output;
                    turn = state.resume(world.answer(request));
                }
            }
        }
        let cleared = || Output::Raw("\u{1b}[2J\u{1b}[1;1H".to_string());
        assert_eq!(between.len(), 3);
        assert_eq!(between[0], []);
        for shown in &between[1..] {
            assert_eq!(*shown, if clear { vec![cleared()] } else { Vec::new() });
        }
    }
}

#[test]
fn loop_waits_for_the_file_type() {
    let mut world = World::on("main");
    world.tests = vec![true];
    world.running = vec![true, true, true, true, true, false];
    world.events = vec![saved("notes.md"), Received::Fault, saved("rs")];
    let (result, _) = drive(&mut world, start(start_args(false)), StartState::resume);
    assert_eq!(result, Ok(()));
    assert_eq!(world.asked.iter().filter(|a| *a == "cargo test").count(), 1);
}

#[test]
fn loop_that_is_interrupted_stops_at_once() {
    let mut world = World::on("main");
    let (result, shown) = drive(&mut world, start(start_args(false)), StartState::resume);
    assert_eq!(result, Ok(()));
    assert_eq!(shown.len(), 2);
    assert_eq!(world.asked.iter().filter(|a| *a == "cargo test").count(), 0);
}

#[test]
fn dry_loop_runs_no_git_but_the_question_for_the_branch() {
    let mut world = World::on("main");
    world.tests = vec![false, true];
    world.running = vec![true, true, true, true, false];
    world.events = vec![saved("lib.rs")];
    let (result, _) = drive(&mut world, start(start_args(true)), StartState::resume);
    assert_eq!(result, Ok(()));
    let git: Vec<&String> = world.asked.iter().filter(|a| a.starts_with("git")).collect();
    assert_eq!(git, ["git rev-parse --abbrev-ref HEAD"]);
    assert_eq!(world.asked[0], "git rev-parse --abbrev-ref HEAD");
    assert_eq!(world.branch, "main");
    assert!(world.commits.is_empty());
}

#[test]
fn loop_without_a_command_is_an_error_after_the_setup() {
    let mut world = World::on("main");
    let mut args = start_args(false);
    args.command = Vec::new();
    let (result, _) = drive(&mut world, start(args), StartState::resume);
    assert_eq!(result.unwrap_err().message, "Missing argument: COMMAND");
    assert!(world.branch.starts_with("savepoint/"));
}

#[test]
fn loop_looks_for_git_first() {
    let mut world = World::on("main");
    world.git = false;
    let (result, _) = drive(&mut world, start(start_args(false)), StartState::resume);
    assert_eq!(result.unwrap_err().message, "could not find `git` command");
    assert_eq!(world.asked, ["git --version"]);
    assert!(world.statefile.is_none());
}

#[test]
fn failures_of_handler_and_watcher_end_the_loop() {
    let mut turn = start(start_args(false));
    let mut world = World::on("main");
    for refused in [Request::HandleInterrupt, Request::Watch(".".to_string())] {
        loop {
            match turn.next {
                Next::Do(request, state) if request == refused => {
                    let fault = Reply::Done(Err(failure(FailureKind::Other, "refused")));
                    turn = state.resume(fault);
                    break;
                }
                Next::Do(request, state) => turn = state.resume(world.answer(request)),
                Next::Return(_) => panic!("the loop ended early"),
            }
        }
        assert!(matches!(turn.next, Next::Return(Err(e)) if e.message == "refused"));
        world = World::on("main");
        turn = start(start_args(false));
    }
}

#[test]
fn next_session_autosaves_what_the_last_one_left_failing() {
    let mut world = World::on("main");
    world.tests = vec![false];
    world.running = vec![true, false];
    let (result, _) = drive(&mut world, start(start_args(false)), StartState::resume);
    assert_eq!(result, Ok(()));
    assert_eq!(world.statefile.as_deref(), Some("main"));
    assert!(world.errfile);
    assert!(world.commits.is_empty());
    world.tests = vec![true];
    world.running = vec![true, false];
    let (result, _) = drive(&mut world, start(start_args(false)), StartState::resume);
    assert_eq!(result, Ok(()));
    assert!(!world.errfile);
    assert_eq!(world.commits.len(), 1);
}

// Commands

#[test]
fn finalize_merges_into_the_branch_that_start_was_on() {
    let mut world = World::on("feat/bar");
    world.tests = vec![false, true];
    world.running = vec![true, true, true, true, false];
    world.events = vec![saved("lib.rs")];
    let (started, _) = drive(&mut world, run(Commands::Start(start_args(false))), Session::resume);
    assert_eq!(started, Ok(()));
    let savepoint_branch = world.branch.clone();
    let finalizing = run(Commands::Finalize { message: None, dryrun: false });
    let (finalized, shown) = drive(&mut world, finalizing, Session::resume);
    assert_eq!(finalized, Ok(()));
    assert_eq!(world.branch, "feat/bar");
    assert_eq!(world.commits.len(), 2);
    assert_eq!(world.commits[0], (savepoint_branch.clone(), "SAVEPOINT REACHED!".to_string()));
    assert_eq!(
        world.commits[1],
        (
            "feat/bar".to_string(),
            format!("Savepoint: changes from {savepoint_branch} integrated!")
        )
    );
    assert!(world.statefile.is_none());
    assert_eq!(
        shown.last(),
        Some(&log(Tint::Green, "Finalized! Savepoints squashed into feat/bar."))
    );
}

#[test]
fn errors_of_commands_are_passed_on() {
    let mut world = World::on("main");
    world.repo = false;
    let starting = run(Commands::Start(start_args(false)));
    let (started, _) = drive(&mut world, starting, Session::resume);
    assert!(started.unwrap_err().message.contains("not a git repository"));
    let finalizing = run(Commands::Finalize { message: None, dryrun: true });
    let (finalized, _) = drive(&mut world, finalizing, Session::resume);
    assert_eq!(finalized.unwrap_err().message, "Could not read statefile");
}
