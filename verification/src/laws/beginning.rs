//! Laws of setting up a session, and of finding back to where it started.

use vstd::prelude::*;

use crate::console::{MessageView, Tint};
use crate::git::BranchView;
use crate::laws::ending;
use crate::laws::history;
use crate::laws::history::{Input, Machine};
use crate::protocol::{CommandView, Marker, ReplyView, RequestView};
use crate::setup::SetupView;
use crate::turn::{ErrorView, NextView, OutputView};

verus! {

/// All that setting up asks for, in order, where a new session is set up and
/// nothing fails. In a dry run no branch is created.
pub open spec fn setup_plan(starting_branch: Seq<char>, id: Seq<char>, dryrun: bool) -> Seq<
    RequestView,
> {
    let recording = seq![
        RequestView::Run(CommandView::git_current_branch()),
        RequestView::Exists(Marker::Statefile),
        RequestView::Write(Marker::Statefile, starting_branch),
    ];
    if dryrun {
        recording
    } else {
        recording.push(
            RequestView::Run(
                CommandView::git_checkout_new(crate::git::savepoint_prefix() + id),
            ),
        )
    }
}

/// The plan for the branch that the replies tell of and the id that comes up.
pub open spec fn setup_plan_of(dryrun: bool, inputs: Seq<Input>) -> Seq<RequestView> {
    setup_plan(ending::branch_told(inputs[0].reply), inputs[2].id, dryrun)
}

/// The branch that was checked out belongs to a session.
pub open spec fn on_savepoint_branch(inputs: Seq<Input>) -> bool {
    crate::git::names_savepoint(ending::branch_told(inputs[0].reply))
}

/// The first `n` replies are of success.
pub open spec fn all_done(inputs: Seq<Input>, n: nat) -> bool {
    forall|k: int| 0 <= k < n ==> !(#[trigger] inputs[k]).reply.is_failure()
}

/// The error that a failure of each request of the plan leads to.
pub open spec fn setup_error(n: nat, reply: ReplyView) -> ErrorView {
    if n == 1 {
        crate::files::presence(reply)->Err_0
    } else if n == 2 {
        crate::files::completion(reply)->Err_0
    } else {
        crate::git::git_error()
    }
}

/// The state in which the reply to each request of the plan is waited for.
spec fn state_in_setup(dryrun: bool, inputs: Seq<Input>, n: nat) -> SetupView {
    if n == 0 {
        SetupView::AskingBranch { dryrun }
    } else if n == 1 {
        SetupView::LookingForStatefile {
            starting_branch: ending::branch_told(inputs[0].reply),
            dryrun,
        }
    } else if n == 2 {
        SetupView::Recording { dryrun }
    } else {
        SetupView::Branching {
            branch: BranchView { name: crate::git::savepoint_prefix() + inputs[2].id },
        }
    }
}

proof fn lemma_setup_turn(dryrun: bool, inputs: Seq<Input>, n: nat)
    requires
        history::is_history(SetupView::begin(dryrun), inputs),
        n <= inputs.len(),
    ensures
        match history::turn_at(SetupView::begin(dryrun), inputs, n).next {
            NextView::Do(request, state) => {
                &&& n < setup_plan_of(dryrun, inputs).len()
                &&& request == setup_plan_of(dryrun, inputs)[n as int]
                &&& state == state_in_setup(dryrun, inputs, n)
                &&& all_done(inputs, n)
                &&& n >= 2 ==> !on_savepoint_branch(inputs)
            },
            NextView::Return(Ok(())) => {
                &&& all_done(inputs, n)
                &&& if on_savepoint_branch(inputs) {
                    n == 2 && inputs[1].reply == ReplyView::Exists(Ok(true))
                } else {
                    n == setup_plan_of(dryrun, inputs).len()
                }
            },
            NextView::Return(Err(error)) => {
                ||| {
                    &&& 0 < n && inputs[n - 1].reply.is_failure()
                    &&& error == setup_error((n - 1) as nat, inputs[n - 1].reply)
                }
                ||| {
                    &&& n == 2 && on_savepoint_branch(inputs)
                    &&& inputs[1].reply == ReplyView::Exists(Ok(false))
                    &&& error == crate::setup::no_base_error(
                        ending::branch_told(inputs[0].reply),
                    )
                }
            },
        },
    decreases n,
{
    let first = SetupView::begin(dryrun);
    if n > 0 {
        let m = (n - 1) as nat;
        lemma_setup_turn(dryrun, inputs, m);
        assert(history::turn_at(first, inputs, m).next is Do);
        assert(history::turn_at(first, inputs, n) == state_in_setup(dryrun, inputs, m).step(
            inputs[m as int],
        ));
    }
}

/// Setting up asks for one thing after the other, in a fixed order. From a branch
/// that belongs to a session nothing is changed: the session is gone on with if
/// there is a statefile, and refused if there is none. From any other branch the
/// statefile is made to name it, and a savepoint branch is created. A request
/// that fails is the last one, and the error tells of it.
pub proof fn setup_follows_its_plan(dryrun: bool, inputs: Seq<Input>)
    requires
        history::is_history(SetupView::begin(dryrun), inputs),
    ensures
        inputs.len() <= setup_plan_of(dryrun, inputs).len(),
        forall|n: nat|
            n <= inputs.len() ==> match #[trigger] history::request_at(
                SetupView::begin(dryrun),
                inputs,
                n,
            ) {
                Some(request) => {
                    &&& n < setup_plan_of(dryrun, inputs).len()
                    &&& request == setup_plan_of(dryrun, inputs)[n as int]
                    &&& on_savepoint_branch(inputs) && inputs.len() > 0
                        ==> request.is_read_only()
                },
                None => n == inputs.len(),
            },
        history::succeeds(SetupView::begin(dryrun), inputs) == (all_done(inputs, inputs.len())
            && if on_savepoint_branch(inputs) {
            inputs.len() == 2 && inputs[1].reply == ReplyView::Exists(Ok(true))
        } else {
            inputs.len() == setup_plan_of(dryrun, inputs).len()
        }),
        inputs.len() == 2 && on_savepoint_branch(inputs) && inputs[1].reply == ReplyView::Exists(
            Ok(false),
        ) ==> history::fails_with(
            SetupView::begin(dryrun),
            inputs,
            crate::setup::no_base_error(ending::branch_told(inputs[0].reply)),
        ),
        0 < inputs.len() && inputs.last().reply.is_failure() ==> history::fails_with(
            SetupView::begin(dryrun),
            inputs,
            setup_error((inputs.len() - 1) as nat, inputs.last().reply),
        ),
{
    let first = SetupView::begin(dryrun);
    lemma_setup_turn(dryrun, inputs, inputs.len());
    assert forall|n: nat| n <= inputs.len() implies match #[trigger] history::request_at(
        first,
        inputs,
        n,
    ) {
        Some(request) => {
            &&& n < setup_plan_of(dryrun, inputs).len()
            &&& request == setup_plan_of(dryrun, inputs)[n as int]
            &&& on_savepoint_branch(inputs) && inputs.len() > 0 ==> request.is_read_only()
        },
        None => n == inputs.len(),
    } by {
        lemma_setup_turn(dryrun, inputs, n);
        if n < inputs.len() {
            assert(history::turn_at(first, inputs, n).next is Do);
        }
    }
    if inputs.len() > 0 {
        let m = (inputs.len() - 1) as nat;
        lemma_setup_turn(dryrun, inputs, m);
        assert(history::turn_at(first, inputs, m).next is Do);
        assert(history::turn_at(first, inputs, inputs.len()) == state_in_setup(
            dryrun,
            inputs,
            m,
        ).step(inputs[m as int]));
    }
}

/// The branches that sessions create belong to sessions, and their names have no
/// white space around them.
pub proof fn new_branch_is_a_savepoint_branch(id: Seq<char>)
    requires
        crate::git::is_v4_text(id),
    ensures
        crate::git::names_savepoint(crate::git::savepoint_prefix() + id),
        crate::text::is_trimmed(crate::git::savepoint_prefix() + id),
{
    let prefix = crate::git::savepoint_prefix();
    assert((prefix + id).subrange(0, prefix.len() as int) =~= prefix);
    reveal_strlit("savepoint/");
    assert((prefix + id).first() == 's');
    assert((prefix + id).last() == id[35]);
}

/// Starting again while a session is under way goes on with it: on the branch
/// that the session created, with the statefile still there, nothing is changed.
pub proof fn second_start_resumes(
    id: Seq<char>,
    stdout: Seq<u8>,
    dryrun: bool,
    inputs: Seq<Input>,
)
    requires
        crate::git::is_v4_text(id),
        // git prints the name of the branch and a line break
        crate::text::utf8_lossy(stdout) == (crate::git::savepoint_prefix() + id).push('\n'),
        history::is_history(SetupView::begin(dryrun), inputs),
        inputs.len() == 2,
        inputs[0].reply == ReplyView::Ran(Ok(stdout)),
        inputs[1].reply == ReplyView::Exists(Ok(true)),
    ensures
        history::succeeds(SetupView::begin(dryrun), inputs),
        forall|n: nat|
            n <= inputs.len() ==> match #[trigger] history::request_at(
                SetupView::begin(dryrun),
                inputs,
                n,
            ) {
                Some(request) => request.is_read_only(),
                None => true,
            },
{
    new_branch_is_a_savepoint_branch(id);
    crate::text::trimming_undoes_trailing_space(crate::git::savepoint_prefix() + id, '\n');
    setup_follows_its_plan(dryrun, inputs);
}

/// What a session records in the statefile is what finalizing reads back.
pub proof fn statefile_round_trip(stdout: Seq<u8>)
    ensures
        crate::files::recorded_branch(ReplyView::Text(Ok(crate::git::branch_in(stdout)))) == Ok::<
            Seq<char>,
            ErrorView,
        >(crate::git::branch_in(stdout)),
{
    crate::text::trimming_is_idempotent(crate::text::utf8_lossy(stdout));
}


/// A branch is a session's if and only if its name starts with the ten characters
/// `savepoint/`.
pub proof fn savepoint_branches_by_their_characters(name: Seq<char>)
    ensures
        crate::git::names_savepoint(name) == (name.len() >= 10 && name[0] == 's' && name[1] == 'a'
            && name[2] == 'v' && name[3] == 'e' && name[4] == 'p' && name[5] == 'o' && name[6]
            == 'i' && name[7] == 'n' && name[8] == 't' && name[9] == '/'),
{
    reveal_strlit("savepoint/");
    let prefix = crate::git::savepoint_prefix();
    if name.len() >= 10 {
        assert forall|i: int| 0 <= i < 10 implies name.subrange(0, 10)[i] == name[i] by {}
        if prefix =~= name.subrange(0, 10) {
            assert(forall|i: int| 0 <= i < 10 ==> prefix[i] == name.subrange(0, 10)[i]);
        }
        if name[0] == 's' && name[1] == 'a' && name[2] == 'v' && name[3] == 'e' && name[4] == 'p'
            && name[5] == 'o' && name[6] == 'i' && name[7] == 'n' && name[8] == 't' && name[9]
            == '/' {
            assert(prefix =~= name.subrange(0, 10));
        }
    }
}

/// Setting up starts with the question to git which branch is checked out, and
/// git's answer is collected, not shown.
pub proof fn setup_collects_the_name_of_the_branch(dryrun: bool, inputs: Seq<Input>)
    ensures
        history::shows_and_asks(
            history::turn_at(SetupView::begin(dryrun), inputs, 0),
            seq![],
            RequestView::Run(
                (CommandView {
                    program: "git"@,
                    args: seq!["rev-parse"@, "--abbrev-ref"@, "HEAD"@],
                    capture: true,
                    combine_output: false,
                    log_command: false,
                }),
            ),
        ),
{
}

/// If git cannot tell the branch there is no session. If it can, the statefile is
/// looked for next.
pub proof fn setup_needs_the_branch(dryrun: bool, inputs: Seq<Input>)
    requires
        history::is_history(SetupView::begin(dryrun), inputs),
        inputs.len() >= 1,
    ensures
        match inputs[0].reply {
            ReplyView::Ran(Ok(_)) => history::shows_and_asks(
                history::turn_at(SetupView::begin(dryrun), inputs, 1),
                seq![],
                RequestView::Exists(Marker::Statefile),
            ),
            ReplyView::Ran(Err(_)) => history::shows_and_fails(
                history::turn_at(SetupView::begin(dryrun), inputs, 1),
                seq![],
                "Git command error."@,
                Some("Check if current directory is a git repository"@),
            ),
            _ => false,
        },
{
    lemma_setup_turn(dryrun, inputs, 0);
    assert(history::turn_at(SetupView::begin(dryrun), inputs, 0).next is Do);
    assert(history::turn_at(SetupView::begin(dryrun), inputs, 1) == state_in_setup(
        dryrun,
        inputs,
        0,
    ).step(inputs[0]));
}

/// `name` is what git printed, but for white space around it. From a branch whose
/// name does not start with the ten characters `savepoint/` a session is set up,
/// and the statefile is made to hold that name, all of it. From any other branch
/// the session is gone on with, or refused if there is no statefile.
pub proof fn setup_goes_by_the_name_of_the_branch(
    dryrun: bool,
    inputs: Seq<Input>,
    stdout: Seq<u8>,
    before: Seq<char>,
    name: Seq<char>,
    after: Seq<char>,
)
    requires
        history::is_history(SetupView::begin(dryrun), inputs),
        inputs.len() >= 2,
        inputs[0].reply == ReplyView::Ran(Ok(stdout)),
        crate::text::utf8_lossy(stdout) == before + name + after,
        crate::text::is_blank(before),
        crate::text::is_trimmed(name),
        crate::text::is_blank(after),
    ensures
        match inputs[1].reply {
            ReplyView::Exists(Ok(there)) => if name.len() < 10 || name[0] != 's' || name[1] != 'a'
                || name[2] != 'v' || name[3] != 'e' || name[4] != 'p' || name[5] != 'o' || name[6]
                != 'i' || name[7] != 'n' || name[8] != 't' || name[9] != '/' {
                history::shows_and_asks(
                    history::turn_at(SetupView::begin(dryrun), inputs, 2),
                    seq![],
                    RequestView::Write(Marker::Statefile, name),
                )
            } else if there {
                history::shows_and_returns(
                    history::turn_at(SetupView::begin(dryrun), inputs, 2),
                    seq![],
                    (),
                )
            } else {
                history::shows_and_fails(
                    history::turn_at(SetupView::begin(dryrun), inputs, 2),
                    seq![],
                    "Cannot determine base branch for savepoint session on `"@ + name
                        + "`: no statefile found."@,
                    Some(
                        "Switch to your work branch before running `savepoint start` or `savepoint finalize` to wrap up any existing session."@,
                    ),
                )
            },
            ReplyView::Exists(Err(failure)) => history::shows_and_fails(
                history::turn_at(SetupView::begin(dryrun), inputs, 2),
                seq![],
                failure.text,
                None,
            ),
            _ => false,
        },
{
    crate::text::trimming_leaves_the_middle(before, name, after);
    savepoint_branches_by_their_characters(name);
    lemma_setup_turn(dryrun, inputs, 1);
    assert(history::turn_at(SetupView::begin(dryrun), inputs, 1).next is Do);
    assert(history::turn_at(SetupView::begin(dryrun), inputs, 2) == state_in_setup(
        dryrun,
        inputs,
        1,
    ).step(inputs[1]));
}

/// Once the statefile is written, the session gets a branch of its own under the
/// prefix `savepoint/` and the id that came up. A dry run only says so.
pub proof fn setup_creates_the_savepoint_branch(dryrun: bool, inputs: Seq<Input>)
    requires
        history::is_history(SetupView::begin(dryrun), inputs),
        inputs.len() >= 3,
    ensures
        match inputs[2].reply {
            ReplyView::Done(Ok(())) => if dryrun {
                history::shows_and_returns(
                    history::turn_at(SetupView::begin(dryrun), inputs, 3),
                    seq![
                        OutputView::Log(
                            (MessageView {
                                text: "(dry run) "@ + ("Switching to branch "@ + ("savepoint/"@
                                    + inputs[2].id) + "!"@),
                                tint: Tint::Green,
                            }),
                        ),
                    ],
                    (),
                )
            } else {
                history::shows_and_asks(
                    history::turn_at(SetupView::begin(dryrun), inputs, 3),
                    seq![
                        OutputView::Log(
                            (MessageView {
                                text: "Switching to branch "@ + ("savepoint/"@ + inputs[2].id)
                                    + "!"@,
                                tint: Tint::Green,
                            }),
                        ),
                    ],
                    RequestView::Run(
                        (CommandView {
                            program: "git"@,
                            args: seq!["checkout"@, "-b"@, "savepoint/"@ + inputs[2].id],
                            capture: false,
                            combine_output: false,
                            log_command: false,
                        }),
                    ),
                )
            },
            ReplyView::Done(Err(failure)) => history::shows_and_fails(
                history::turn_at(SetupView::begin(dryrun), inputs, 3),
                seq![],
                failure.text,
                None,
            ),
            _ => false,
        },
        inputs.len() >= 4 ==> match inputs[3].reply {
            ReplyView::Ran(Ok(_)) => history::shows_and_returns(
                history::turn_at(SetupView::begin(dryrun), inputs, 4),
                seq![],
                (),
            ),
            ReplyView::Ran(Err(_)) => history::shows_and_fails(
                history::turn_at(SetupView::begin(dryrun), inputs, 4),
                seq![],
                "Git command error."@,
                Some("Check if current directory is a git repository"@),
            ),
            _ => false,
        },
{
    let first = SetupView::begin(dryrun);
    lemma_setup_turn(dryrun, inputs, 2);
    assert(history::turn_at(first, inputs, 2).next is Do);
    assert(history::turn_at(first, inputs, 3) == state_in_setup(dryrun, inputs, 2).step(inputs[2]));
    if inputs.len() >= 4 {
        lemma_setup_turn(dryrun, inputs, 3);
        assert(history::turn_at(first, inputs, 3).next is Do);
        assert(history::turn_at(first, inputs, 4) == state_in_setup(dryrun, inputs, 3).step(
            inputs[3],
        ));
    }
}

} // verus!
