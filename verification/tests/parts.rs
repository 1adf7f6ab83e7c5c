//! The parts that decide nothing by themselves: text, log lines, extensions, and
//! the wait for a change.

use savepoint::console::{clear, log, log_line, Message, Tint};
use savepoint::git::{is_savepoint_branch, savepoint_branch_name};
use savepoint::protocol::{EventKind, Received, Reply, Request, WatchedPath};
use savepoint::savepoint::cmdr;
use savepoint::text::printed_text;
use savepoint::turn::Next;
use savepoint::watch::{blockforfile, extension, is_wanted_event, BlockState};

#[test]
fn printed_text_is_trimmed() {
    assert_eq!(printed_text(b" \t main \r\n"), "main");
    assert_eq!(printed_text(b""), "");
    assert_eq!(printed_text(b" \n "), "");
    assert_eq!(printed_text("\u{2003}\u{85}x y\u{3000}".as_bytes()), "x y");
    // no white space, though it looks like it
    assert_eq!(printed_text("\u{200b}x".as_bytes()), "\u{200b}x");
    assert_eq!(printed_text(&[0xff, b'x']), "\u{fffd}x");
}

#[test]
fn trimming_twice_is_trimming_once() {
    let once = printed_text(b"  a b \n");
    assert_eq!(printed_text(once.as_bytes()), once);
}

#[test]
fn savepoint_branches_are_told_by_their_prefix() {
    assert!(is_savepoint_branch("savepoint/x"));
    assert!(is_savepoint_branch("savepoint/"));
    assert!(!is_savepoint_branch("savepoint"));
    assert!(!is_savepoint_branch("feat/savepoint/x"));
    assert!(!is_savepoint_branch("Savepoint/x"));
    assert_eq!(savepoint_branch_name("x"), "savepoint/x");
}

fn message(tint: Tint, text: &str) -> Message {
    Message { text: text.to_string(), tint }
}

#[test]
fn log_lines_are_bold_and_colored_or_bare() {
    // the override is one for the whole process
    colored::control::set_override(true);
    let prefix = "\u{1b}[1;34m🏁 CHECKPOINT: \u{1b}[0m";
    for (tint, code) in [
        (Tint::Red, "31"),
        (Tint::Green, "32"),
        (Tint::Yellow, "33"),
        (Tint::Blue, "34"),
        (Tint::White, "37"),
    ] {
        assert_eq!(
            log(&message(tint, "text")),
            format!("{prefix}\u{1b}[1;{code}mtext\u{1b}[0m\n")
        );
    }
    // the color goes on after a reset
    let line = log(&message(Tint::Green, "a\u{1b}[0mb"));
    assert_eq!(
        line,
        format!("{prefix}\u{1b}[1;32ma\u{1b}[0m\u{1b}[1;32mb\u{1b}[0m\n")
    );
    colored::control::set_override(false);
    assert_eq!(log(&message(Tint::Red, "Error!")), "🏁 CHECKPOINT: Error!\n");
    assert_eq!(log_line("a", "b"), "ab\n");
}

#[test]
fn clearing_the_screen() {
    assert_eq!(clear(), "\u{1b}[2J\u{1b}[1;1H");
}

#[test]
fn quiet_tests_are_captured() {
    let args = vec!["test".to_string()];
    let quiet = cmdr("cargo", &args, true);
    assert!(quiet.capture && quiet.combine_output && !quiet.log_command);
    let loud = cmdr("cargo", &args, false);
    assert!(!loud.capture && !loud.combine_output && !loud.log_command);
    assert_eq!(loud.program, "cargo");
    assert_eq!(loud.args, ["test"]);
}

#[test]
fn extensions_follow_the_last_dot() {
    assert_eq!(extension(b"main.rs"), Some(b"rs".to_vec()));
    assert_eq!(extension(b"a.tar.gz"), Some(b"gz".to_vec()));
    assert_eq!(extension(b"Makefile"), None);
    assert_eq!(extension(b".bashrc"), None);
    assert_eq!(extension(b".bashrc.bak"), Some(b"bak".to_vec()));
    assert_eq!(extension(b"name."), Some(Vec::new()));
    assert_eq!(extension(b".."), None);
    assert_eq!(extension(b"..."), Some(Vec::new()));
    assert_eq!(extension(b""), None);
    assert_eq!(extension(&[0xff, b'.', 0xfe]), Some(vec![0xfe]));
}

#[test]
fn extensions_are_those_of_paths() {
    for name in ["main.rs", "a.b.c", "x", ".x", ".x.y", "x.", "..x", "...", ".."] {
        let path = std::path::Path::new(name);
        let expected = path.extension().map(|e| e.as_encoded_bytes().to_vec());
        assert_eq!(extension(name.as_bytes()), expected, "{name}");
    }
}

fn event(kind: EventKind, names: &[&str]) -> Received {
    let paths = names
        .iter()
        .map(|n| WatchedPath { file_name: Some(n.as_bytes().to_vec()) })
        .collect();
    Received::Event(kind, paths)
}

#[test]
fn only_modifications_of_the_file_type_are_wanted() {
    assert!(is_wanted_event(&event(EventKind::Modify, &["main.rs"]), "rs"));
    assert!(is_wanted_event(&event(EventKind::Modify, &["main.rs", "x.md"]), "rs"));
    assert!(!is_wanted_event(&event(EventKind::Modify, &["x.md", "main.rs"]), "rs"));
    assert!(!is_wanted_event(&event(EventKind::Modify, &[]), "rs"));
    assert!(!is_wanted_event(&event(EventKind::Modify, &["rs"]), "rs"));
    assert!(!is_wanted_event(&event(EventKind::Modify, &["main.rss"]), "rs"));
    assert!(!is_wanted_event(&event(EventKind::Modify, &["main.RS"]), "rs"));
    for kind in [
        EventKind::Any,
        EventKind::Access,
        EventKind::Create,
        EventKind::Remove,
        EventKind::Other,
    ] {
        assert!(!is_wanted_event(&event(kind, &["main.rs"]), "rs"));
    }
    assert!(!is_wanted_event(&Received::Nothing, "rs"));
    assert!(!is_wanted_event(&Received::Fault, "rs"));
    let root = Received::Event(EventKind::Modify, vec![WatchedPath { file_name: None }]);
    assert!(!is_wanted_event(&root, "rs"));
}

fn next_of(state: BlockState, reply: Reply) -> Option<(Request, BlockState)> {
    match state.resume(reply).next {
        Next::Do(request, state) => Some((request, state)),
        Next::Return(result) => {
            assert_eq!(result, Ok(()));
            None
        }
    }
}

#[test]
fn wait_ends_when_the_changes_are_drained() {
    let first = match blockforfile("rs".to_string()).next {
        Next::Do(Request::Running, state) => state,
        _ => panic!("the running flag comes first"),
    };
    let (request, state) = next_of(first, Reply::Running(true)).unwrap();
    assert_eq!(request, Request::NextEvent(100));
    let (request, state) =
        next_of(state, Reply::Received(event(EventKind::Create, &["a.rs"]))).unwrap();
    assert_eq!(request, Request::Running);
    let (_, state) = next_of(state, Reply::Running(true)).unwrap();
    let (request, state) = next_of(state, Reply::Received(Received::Nothing)).unwrap();
    assert_eq!(request, Request::Running);
    let (_, state) = next_of(state, Reply::Running(true)).unwrap();
    let (request, state) =
        next_of(state, Reply::Received(event(EventKind::Modify, &["a.rs"]))).unwrap();
    assert_eq!(request, Request::NextEvent(100));
    assert_eq!(state, BlockState::Draining);
    let (_, state) = next_of(state, Reply::Received(Received::Fault)).unwrap();
    let (_, state) =
        next_of(state, Reply::Received(event(EventKind::Any, &["x.md"]))).unwrap();
    assert_eq!(next_of(state, Reply::Received(Received::Nothing)), None);
}

#[test]
fn wait_ends_when_the_session_is_to_stop() {
    let state = BlockState::Checking { extension: "rs".to_string() };
    assert_eq!(next_of(state, Reply::Running(false)), None);
}
