//! Laws of merging the savepoints of a session, and of the git commands that this
//! and autosaving are made of.

use vstd::prelude::*;

use crate::console::{MessageView, Tint};
use crate::git::{BranchView, CommitState};
use crate::laws::beginning;
use crate::laws::ending;
use crate::laws::history;
use crate::laws::history::{Input, Machine};
use crate::merge::MergeView;
use crate::protocol::{CommandView, ReplyKind, ReplyView, RequestView};
use crate::turn::{ErrorView, NextView, OutputView};

verus! {

/// All that merging asks for, in order, where nothing fails. In a dry run that is
/// only which branch is checked out.
pub open spec fn merge_plan(
    starting_branch: Seq<char>,
    msg: Option<Seq<char>>,
    savepoint_branch: Seq<char>,
    dryrun: bool,
) -> Seq<RequestView> {
    let asking = RequestView::Run(CommandView::git_current_branch());
    if dryrun {
        seq![asking]
    } else {
        seq![
            asking,
            RequestView::Run(CommandView::git_checkout(starting_branch)),
            RequestView::Run(CommandView::git_merge_squash(savepoint_branch)),
            RequestView::Run(
                CommandView::git_commit(crate::merge::merge_message(msg, savepoint_branch)),
            ),
        ]
    }
}

/// The plan for the branch that the first reply tells of.
pub open spec fn merge_plan_of(
    starting_branch: Seq<char>,
    msg: Option<Seq<char>>,
    dryrun: bool,
    inputs: Seq<Input>,
) -> Seq<RequestView> {
    merge_plan(starting_branch, msg, ending::branch_told(inputs[0].reply), dryrun)
}

/// The error that a failure of each request of the plan leads to.
pub open spec fn merge_error(n: nat) -> ErrorView {
    if n == 2 {
        crate::merge::squash_error()
    } else if n == 3 {
        crate::merge::merge_commit_error()
    } else {
        crate::git::git_error()
    }
}

/// The state in which the reply to each request of the plan is waited for.
spec fn state_in_merge(
    starting_branch: Seq<char>,
    msg: Option<Seq<char>>,
    dryrun: bool,
    inputs: Seq<Input>,
    n: nat,
) -> MergeView {
    let savepoint_branch = ending::branch_told(inputs[0].reply);
    if n == 0 {
        MergeView::AskingBranch { starting_branch, msg, dryrun }
    } else if n == 1 {
        MergeView::Switching {
            branch: BranchView { name: starting_branch },
            savepoint_branch,
            msg,
        }
    } else if n == 2 {
        MergeView::Squashing { savepoint_branch, msg }
    } else {
        MergeView::Committing
    }
}

proof fn lemma_merge_turn(
    starting_branch: Seq<char>,
    msg: Option<Seq<char>>,
    dryrun: bool,
    inputs: Seq<Input>,
    n: nat,
)
    requires
        history::is_history(MergeView::begin(starting_branch, msg, dryrun), inputs),
        n <= inputs.len(),
    ensures
        match history::turn_at(MergeView::begin(starting_branch, msg, dryrun), inputs, n).next {
            NextView::Do(request, state) => {
                &&& n < merge_plan_of(starting_branch, msg, dryrun, inputs).len()
                &&& request == merge_plan_of(starting_branch, msg, dryrun, inputs)[n as int]
                &&& state == state_in_merge(starting_branch, msg, dryrun, inputs, n)
                &&& beginning::all_done(inputs, n)
            },
            NextView::Return(Ok(())) => {
                &&& n == merge_plan_of(starting_branch, msg, dryrun, inputs).len()
                &&& beginning::all_done(inputs, n)
            },
            NextView::Return(Err(error)) => {
                &&& 0 < n <= merge_plan_of(starting_branch, msg, dryrun, inputs).len()
                &&& inputs[n - 1].reply.is_failure()
                &&& error == merge_error((n - 1) as nat)
            },
        },
    decreases n,
{
    let first = MergeView::begin(starting_branch, msg, dryrun);
    if n > 0 {
        let m = (n - 1) as nat;
        lemma_merge_turn(starting_branch, msg, dryrun, inputs, m);
        assert(history::turn_at(first, inputs, m).next is Do);
        assert(history::turn_at(first, inputs, n) == state_in_merge(
            starting_branch,
            msg,
            dryrun,
            inputs,
            m,
        ).step(inputs[m as int]));
    }
}

/// Merging asks for one thing after the other: which branch is checked out, and
/// then, except in a dry run, a switch to the base branch, the squashed merge of
/// the branch that was checked out, and a commit. It succeeds if nothing fails,
/// and a request that fails is the last one and decides the error.
pub proof fn merge_follows_its_plan(
    starting_branch: Seq<char>,
    msg: Option<Seq<char>>,
    dryrun: bool,
    inputs: Seq<Input>,
)
    requires
        history::is_history(MergeView::begin(starting_branch, msg, dryrun), inputs),
    ensures
        inputs.len() <= merge_plan_of(starting_branch, msg, dryrun, inputs).len(),
        forall|n: nat|
            n <= inputs.len() ==> match #[trigger] history::request_at(
                MergeView::begin(starting_branch, msg, dryrun),
                inputs,
                n,
            ) {
                Some(request) => {
                    &&& n < merge_plan_of(starting_branch, msg, dryrun, inputs).len()
                    &&& request == merge_plan_of(starting_branch, msg, dryrun, inputs)[n as int]
                },
                None => n == inputs.len(),
            },
        history::succeeds(MergeView::begin(starting_branch, msg, dryrun), inputs) == (
        inputs.len() == merge_plan_of(starting_branch, msg, dryrun, inputs).len()
            && beginning::all_done(inputs, inputs.len())),
        forall|error: ErrorView| #[trigger]
            history::fails_with(
                MergeView::begin(starting_branch, msg, dryrun),
                inputs,
                error,
            ) == (0 < inputs.len() && inputs.last().reply.is_failure() && error == merge_error(
                (inputs.len() - 1) as nat,
            )),
{
    let first = MergeView::begin(starting_branch, msg, dryrun);
    assert forall|n: nat| n <= inputs.len() implies match #[trigger] history::request_at(
        first,
        inputs,
        n,
    ) {
        Some(request) => {
            &&& n < merge_plan_of(starting_branch, msg, dryrun, inputs).len()
            &&& request == merge_plan_of(starting_branch, msg, dryrun, inputs)[n as int]
        },
        None => n == inputs.len(),
    } by {
        lemma_merge_turn(starting_branch, msg, dryrun, inputs, n);
        if n < inputs.len() {
            assert(history::turn_at(first, inputs, n).next is Do);
        }
    }
    lemma_merge_turn(starting_branch, msg, dryrun, inputs, inputs.len());
    if inputs.len() > 0 {
        let m = (inputs.len() - 1) as nat;
        assert(history::turn_at(first, inputs, m).next is Do);
        lemma_merge_turn(starting_branch, msg, dryrun, inputs, m);
    }
}


/// Merging, word for word. `savepoint_branch` is what git printed, but for white
/// space around it. It is merged, squashed, into the base branch, and the commit
/// carries the message that was given, all of it, or one that names the savepoint
/// branch. A dry run only says what would be done.
pub proof fn merge_word_for_word(
    starting_branch: Seq<char>,
    msg: Option<Seq<char>>,
    dryrun: bool,
    inputs: Seq<Input>,
    stdout: Seq<u8>,
    before: Seq<char>,
    savepoint_branch: Seq<char>,
    after: Seq<char>,
)
    requires
        history::is_history(MergeView::begin(starting_branch, msg, dryrun), inputs),
        inputs.len() >= 1,
        inputs[0].reply == ReplyView::Ran(Ok(stdout)),
        crate::text::utf8_lossy(stdout) == before + savepoint_branch + after,
        crate::text::is_blank(before),
        crate::text::is_trimmed(savepoint_branch),
        crate::text::is_blank(after),
    ensures
        history::shows_and_asks(
            history::turn_at(MergeView::begin(starting_branch, msg, dryrun), inputs, 0),
            seq![],
            RequestView::Run(
                (CommandView {
                    program: "git"@,
                    args: seq!["rev-parse"@, "--abbrev-ref"@, "HEAD"@],
                    capture: true,
                    combine_output: false,
                    log_command: false,
                }),
            ),
        ),
        dryrun ==> history::shows_and_returns(
            history::turn_at(MergeView::begin(starting_branch, msg, dryrun), inputs, 1),
            seq![
                OutputView::Log(
                    (MessageView {
                        text: "(dry run) "@ + ("Merging squashed savepoints from "@ + savepoint_branch + " to "@ + starting_branch + "!"@),
                        tint: Tint::Green,
                    }),
                ),
            ],
            (),
        ),
        !dryrun ==> history::shows_and_asks(
            history::turn_at(MergeView::begin(starting_branch, msg, dryrun), inputs, 1),
            seq![
                OutputView::Log(
                    (MessageView {
                        text: "Merging squashed savepoints from "@ + savepoint_branch + " to "@ + starting_branch + "!"@,
                        tint: Tint::Green,
                    }),
                ),
                OutputView::Log(
                    (MessageView {
                        text: "Switching to branch "@ + starting_branch + "!"@,
                        tint: Tint::Green,
                    }),
                ),
            ],
            RequestView::Run(
                (CommandView {
                    program: "git"@,
                    args: seq!["checkout"@, starting_branch],
                    capture: false,
                    combine_output: false,
                    log_command: false,
                }),
            ),
        ),
        inputs.len() >= 2 ==> match inputs[1].reply {
            ReplyView::Ran(Ok(_)) => history::shows_and_asks(
                history::turn_at(MergeView::begin(starting_branch, msg, dryrun), inputs, 2),
                seq![],
                RequestView::Run(
                    (CommandView {
                        program: "git"@,
                        args: seq!["merge"@, "--squash"@, savepoint_branch],
                        capture: false,
                        combine_output: false,
                        log_command: false,
                    }),
                ),
            ),
            ReplyView::Ran(Err(_)) => history::shows_and_fails(
                history::turn_at(MergeView::begin(starting_branch, msg, dryrun), inputs, 2),
                seq![],
                "Git command error."@,
                Some("Check if current directory is a git repository"@),
            ),
            _ => false,
        },
        inputs.len() >= 3 ==> match inputs[2].reply {
            ReplyView::Ran(Ok(_)) => match msg {
                Some(given) => history::shows_and_asks(
                    history::turn_at(MergeView::begin(starting_branch, msg, dryrun), inputs, 3),
                    seq![],
                    RequestView::Run(
                        (CommandView {
                            program: "git"@,
                            args: seq!["commit"@, "-m"@, given],
                            capture: false,
                            combine_output: false,
                            log_command: false,
                        }),
                    ),
                ),
                None => history::shows_and_asks(
                    history::turn_at(MergeView::begin(starting_branch, msg, dryrun), inputs, 3),
                    seq![],
                    RequestView::Run(
                        (CommandView {
                            program: "git"@,
                            args: seq!["commit"@, "-m"@, "Savepoint: changes from "@ + savepoint_branch + " integrated!"@],
                            capture: false,
                            combine_output: false,
                            log_command: false,
                        }),
                    ),
                ),
            },
            ReplyView::Ran(Err(_)) => history::shows_and_fails(
                history::turn_at(MergeView::begin(starting_branch, msg, dryrun), inputs, 3),
                seq![],
                "Squashing commits failed."@,
                Some("Resolve conflicts manually and commit."@),
            ),
            _ => false,
        },
        inputs.len() >= 4 ==> match inputs[3].reply {
            ReplyView::Ran(Ok(_)) => history::shows_and_returns(
                history::turn_at(MergeView::begin(starting_branch, msg, dryrun), inputs, 4),
                seq![],
                (),
            ),
            ReplyView::Ran(Err(_)) => history::shows_and_fails(
                history::turn_at(MergeView::begin(starting_branch, msg, dryrun), inputs, 4),
                seq![],
                "Git commit failed."@,
                Some("Check that the squash produced staged changes."@),
            ),
            _ => false,
        },
{
    let first = MergeView::begin(starting_branch, msg, dryrun);
    crate::text::trimming_leaves_the_middle(before, savepoint_branch, after);
    assert forall|n: nat| n < inputs.len() implies n < 4 && #[trigger] history::turn_at(
        first,
        inputs,
        n + 1,
    ) == state_in_merge(starting_branch, msg, dryrun, inputs, n).step(inputs[n as int])
        && inputs[n as int].reply.kind() == ReplyKind::Ran by {
        lemma_merge_turn(starting_branch, msg, dryrun, inputs, n);
        assert(history::turn_at(first, inputs, n).next is Do);
    }
    assert(history::turn_at(first, inputs, 0 + 1) == state_in_merge(
        starting_branch,
        msg,
        dryrun,
        inputs,
        0,
    ).step(inputs[0]));
    if inputs.len() >= 2 {
        assert(history::turn_at(first, inputs, 1 + 1) == state_in_merge(
            starting_branch,
            msg,
            dryrun,
            inputs,
            1,
        ).step(inputs[1]));
    }
    if inputs.len() >= 3 {
        assert(history::turn_at(first, inputs, 2 + 1) == state_in_merge(
            starting_branch,
            msg,
            dryrun,
            inputs,
            2,
        ).step(inputs[2]));
    }
    if inputs.len() >= 4 {
        assert(history::turn_at(first, inputs, 3 + 1) == state_in_merge(
            starting_branch,
            msg,
            dryrun,
            inputs,
            3,
        ).step(inputs[3]));
    }
}

/// A merge for which git cannot tell the branch is an error.
pub proof fn merge_needs_the_branch(
    starting_branch: Seq<char>,
    msg: Option<Seq<char>>,
    dryrun: bool,
    inputs: Seq<Input>,
)
    requires
        history::is_history(MergeView::begin(starting_branch, msg, dryrun), inputs),
        inputs.len() >= 1,
        inputs[0].reply is Ran,
        inputs[0].reply->Ran_0 is Err,
    ensures
        history::shows_and_fails(
            history::turn_at(MergeView::begin(starting_branch, msg, dryrun), inputs, 1),
            seq![],
            "Git command error."@,
            Some("Check if current directory is a git repository"@),
        ),
{
    let first = MergeView::begin(starting_branch, msg, dryrun);
    lemma_merge_turn(starting_branch, msg, dryrun, inputs, 0);
    assert(history::turn_at(first, inputs, 1) == state_in_merge(
        starting_branch,
        msg,
        dryrun,
        inputs,
        0,
    ).step(inputs[0]));
}

/// Switching to a branch, word for word: to one that is there, or to a new one,
/// which is told to git by `-b`. A dry run only says so.
pub proof fn branch_word_for_word(name: Seq<char>, create: bool, state: BranchView, reply: ReplyView)
    requires
        state.name == name,
        reply.kind() == ReplyKind::Ran,
    ensures
        history::shows_and_returns(
            BranchView::switch(name, create, true),
            seq![
                OutputView::Log(
                    (MessageView {
                        text: "(dry run) "@ + ("Switching to branch "@ + name + "!"@),
                        tint: Tint::Green,
                    }),
                ),
            ],
            name,
        ),
        history::shows_and_asks(
            BranchView::switch(name, create, false),
            seq![
                OutputView::Log(
                    (MessageView {
                        text: "Switching to branch "@ + name + "!"@,
                        tint: Tint::Green,
                    }),
                ),
            ],
            RequestView::Run(
                (CommandView {
                    program: "git"@,
                    args: if create {
                        seq!["checkout"@, "-b"@, name]
                    } else {
                        seq!["checkout"@, name]
                    },
                    capture: false,
                    combine_output: false,
                    log_command: false,
                }),
            ),
        ),
        BranchView::switch(name, create, false).next matches NextView::Do(_, s) && s == state,
        match reply {
            ReplyView::Ran(Ok(_)) => history::shows_and_returns(state.after(reply), seq![], name),
            ReplyView::Ran(Err(_)) => history::shows_and_fails(
                state.after(reply),
                seq![],
                "Git command error."@,
                Some("Check if current directory is a git repository"@),
            ),
            _ => false,
        },
{
}

/// Where no name is given, the branch is created under the prefix `savepoint/` and
/// the id; where one is given, it is that one, and it is not created.
pub proof fn branch_goes_by_the_name_if_given(name: Option<Seq<char>>, dryrun: bool, id: Seq<char>)
    ensures
        BranchView::begin(name, dryrun, id) == match name {
            Some(given) => BranchView::switch(given, false, dryrun),
            None => BranchView::switch("savepoint/"@ + id, true, dryrun),
        },
{
}

/// An autosave, word for word. A dry run only says so.
pub proof fn commit_word_for_word(message: Seq<char>, state: CommitState, reply: ReplyView)
    requires
        reply.kind() == ReplyKind::Ran,
    ensures
        history::shows_and_returns(
            CommitState::begin(message, true),
            seq![
                OutputView::Log(
                    (MessageView {
                        text: "(dry run) Autosaving!"@,
                        tint: Tint::Green,
                    }),
                ),
            ],
            (),
        ),
        history::shows_and_asks(
            CommitState::begin(message, false),
            seq![
                OutputView::Log(
                    (MessageView {
                        text: "Autosaving!"@,
                        tint: Tint::Green,
                    }),
                ),
            ],
            RequestView::Run(
                (CommandView {
                    program: "git"@,
                    args: seq!["commit"@, "-am"@, message],
                    capture: false,
                    combine_output: false,
                    log_command: false,
                }),
            ),
        ),
        match reply {
            ReplyView::Ran(Ok(_)) => history::shows_and_returns(state.after(reply), seq![], ()),
            ReplyView::Ran(Err(_)) => history::shows_and_fails(
                state.after(reply),
                seq![
                    OutputView::Log(
                        (MessageView {
                            text: "Fatal error!"@,
                            tint: Tint::Red,
                        }),
                    ),
                ],
                "Git command error."@,
                Some("Consider manually removing the `.checkpoint.error` file"@),
            ),
            _ => false,
        },
{
}

} // verus!
