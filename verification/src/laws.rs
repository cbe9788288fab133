//! What holds of every run of the machine.

use vstd::prelude::*;
use crate::environment::{eval_all_spec, eval_spec, lookup_spec, FrameView};
use crate::error::{ErrorKindView, ErrorView};
use crate::machine::{ActionView, BlockKindView, MachineView, ModeView, ResponseView, Stage};
use crate::microverse::handshake_spec;
use crate::statement::{ExpressionView, StatementKindView, StatementView};
use crate::value::ValueView;

verus! {

/// Whether a failure is one that the evaluation of an expression can end in.
pub open spec fn of_expression(kind: ErrorKindView) -> bool {
    kind is UnknownVariable || kind is IndexUnindexable || kind is IndexOutOfBounds
        || kind is UnexpectedType || kind is InvalidBinaryExpression
}

/// The evaluation of an expression ends in a value or in a failure of a
/// variable, of an index, of a type or of an operator: it calls no function
/// and reaches no extension.
pub proof fn law_expression_failures(frames: Seq<FrameView>, frame: int, expr: ExpressionView)
    ensures
        eval_spec(frames, frame, expr) matches Err(kind) ==> of_expression(kind),
    decreases expr, 0nat,
{
    match expr {
        ExpressionView::List(items) => {
            law_expressions_failures(frames, frame, items, items.len());
        },
        ExpressionView::Index(target, index) => {
            law_expression_failures(frames, frame, *target);
            law_expression_failures(frames, frame, *index);
        },
        ExpressionView::Binary(lhs, op, rhs) => {
            law_expression_failures(frames, frame, *lhs);
            law_expression_failures(frames, frame, *rhs);
        },
        _ => {},
    }
}

/// The evaluation of a sequence of expressions ends in as many values as
/// there are expressions, or in a failure that the evaluation of an
/// expression can end in.
pub proof fn law_expressions_failures(
    frames: Seq<FrameView>,
    frame: int,
    items: Seq<ExpressionView>,
    n: nat,
)
    requires
        n <= items.len(),
    ensures
        eval_all_spec(frames, frame, items, n) matches Err(kind) ==> of_expression(kind),
        eval_all_spec(frames, frame, items, n) matches Ok(values) ==> values.len() == n,
    decreases items, n,
{
    if n > 0 {
        law_expressions_failures(frames, frame, items, (n - 1) as nat);
        law_expression_failures(frames, frame, items[n - 1]);
    }
}

/// A call with a number of arguments other than the number of parameters of
/// the function fails, whatever the arguments are. The failure names the
/// function and gives the number of its parameters and the number of
/// arguments of the call, against the call.
pub proof fn law_argument_count(
    m: MachineView,
    place: StatementView,
    target: Option<Seq<char>>,
    name: Seq<char>,
    args: Seq<ExpressionView>,
)
    requires
        m.mode is Running,
        m.stack.len() > 0,
        m.stack.last().pc < m.stack.last().block.len(),
        m.stack.last().block[m.stack.last().pc as int] == place,
        place.kind == (StatementKindView::FunctionCall { target, name, args }),
        lookup_spec(m.frames, m.stack.last().frame as int, name) matches Some(
            ValueView::Function { params, .. },
        ) && params.len() != args.len(),
    ensures
        ({
            let callee = lookup_spec(m.frames, m.stack.last().frame as int, name)->0;
            m.step_spec() == m.fail(
                ErrorKindView::InvalidArguments(
                    callee->name,
                    callee->params.len() as usize,
                    args.len() as usize,
                ),
                place,
            )
        }),
{
}

/// A call with as many arguments as the function has parameters never fails
/// on the count.
pub proof fn law_argument_count_met(
    m: MachineView,
    place: StatementView,
    target: Option<Seq<char>>,
    name: Seq<char>,
    args: Seq<ExpressionView>,
)
    requires
        m.mode is Running,
        m.stack.len() > 0,
        m.stack.last().pc < m.stack.last().block.len(),
        m.stack.last().block[m.stack.last().pc as int] == place,
        place.kind == (StatementKindView::FunctionCall { target, name, args }),
        lookup_spec(m.frames, m.stack.last().frame as int, name) matches Some(
            ValueView::Function { params, .. },
        ) && params.len() == args.len(),
    ensures
        !(m.step_spec().1 matches ActionView::Failed(error) && error.kind is InvalidArguments),
{
    law_expressions_failures(
        m.frames,
        m.stack.last().frame as int,
        args,
        args.len(),
    );
}

/// A function whose body comes to its end has not returned: the call fails,
/// and the failure names the function, against the call.
pub proof fn law_no_return(m: MachineView)
    requires
        m.mode is Running,
        m.stack.len() > 0,
        m.stack.last().pc >= m.stack.last().block.len(),
        m.stack.last().kind is Call,
    ensures
        m.step_spec() == m.fail(
            ErrorKindView::NoReturn(m.stack.last().kind->function),
            m.stack.last().kind->site,
        ),
{
}

/// A step reports a function that has not returned only where the body of
/// that function has come to its end. So a function that executes a return
/// on every path is never reported: a return leaves the body before its end.
#[verifier::rlimit(40)]
pub proof fn law_no_return_only_at_end(m: MachineView)
    requires
        !(m.mode is Releasing),
        m.step_spec().1 matches ActionView::Failed(error) && error.kind is NoReturn,
    ensures
        m.mode is Running,
        m.stack.len() > 0,
        m.stack.last().pc >= m.stack.last().block.len(),
        m.stack.last().kind matches BlockKindView::Call { site, function, .. }
            && m.step_spec().1 == ActionView::Failed(
            ErrorView { place: site, kind: ErrorKindView::NoReturn(function) },
        ),
{
    if m.mode is Running && m.stack.len() > 0 {
        let top = m.stack.last();
        let frame = top.frame as int;
        if top.pc >= top.block.len() {
            if let BlockKindView::Loop { place, condition } = top.kind {
                law_expression_failures(m.frames, frame, condition);
            }
        } else {
            let s = top.block[top.pc as int];
            match s.kind {
                StatementKindView::Assignment(_, value) => {
                    law_expression_failures(m.frames, frame, value);
                },
                StatementKindView::Expression(value) => {
                    law_expression_failures(m.frames, frame, value);
                },
                StatementKindView::If(condition, _, _) => {
                    law_expression_failures(m.frames, frame, condition);
                },
                StatementKindView::While(condition, _) => {
                    law_expression_failures(m.frames, frame, condition);
                },
                StatementKindView::Return(value) => {
                    law_expression_failures(m.frames, frame, value);
                },
                StatementKindView::FunctionCall { target, name, args } => {
                    law_expressions_failures(m.frames, frame, args, args.len());
                },
                _ => {},
            }
        }
    }
}

/// A return leaves the body of the function: once the machine has returned
/// a value from the body, the step that reaches the body takes it off the
/// stack and hands the value to the caller, and no failure comes of it.
pub proof fn law_return_leaves(m: MachineView, value: ValueView)
    requires
        m.mode == ModeView::Returning(value),
    ensures
        !(m.step_spec().1 is Failed),
        m.stack.len() > 0 ==> m.step_spec().0.stack == m.stack.drop_last(),
        m.stack.len() > 0 && m.stack.last().kind is Call ==> m.step_spec().0.mode is Running,
{
}

/// In the block of an extension a statement of any kind but a direct
/// function call fails, and the failure carries the statement.
pub proof fn law_call_only(m: MachineView)
    requires
        m.mode is Running,
        m.stack.len() > 0,
        m.stack.last().kind is Extension,
        m.stack.last().pc < m.stack.last().block.len(),
        !(m.stack.last().block[m.stack.last().pc as int].kind is FunctionCall),
    ensures
        ({
            let s = m.stack.last().block[m.stack.last().pc as int];
            m.step_spec() == m.fail(ErrorKindView::NonFunctionCallInDylib(s), s)
        }),
{
}

/// The handshake accepts the version of the host and no other: a library
/// without a marker is refused by name, and one that reports another
/// version, smaller or larger, is refused with the version that it reports.
pub proof fn law_handshake(library: Seq<char>, host: u32, reported: Option<u32>)
    ensures
        handshake_spec(library, host, reported) is Ok <==> reported == Some(host),
        reported is None ==> handshake_spec(library, host, reported) == Err::<(), ErrorKindView>(
            ErrorKindView::MissingAbiCompat { library },
        ),
        reported is Some && reported != Some(host) ==> handshake_spec(library, host, reported)
            == Err::<(), ErrorKindView>(ErrorKindView::IncompatibleAbi(reported->0)),
{
}

/// A library that fails the handshake registers nothing and is not held:
/// the machine asks for its release, and its next step hands out the failure
/// of the handshake against the statement that asked for the library.
pub proof fn law_refused_library(m: MachineView, reported: Option<u32>)
    requires
        m.mode matches ModeView::Loading { stage, .. } && stage == Stage::Handshake,
        reported != Some(m.host_abi),
    ensures
        ({
            let (waiting, release) = m.resume_spec(ResponseView::Abi(reported));
            let (stopped, failed) = waiting.step_spec();
            &&& release == ActionView::Release(m.mode->Loading_library)
            &&& waiting.frames == m.frames
            &&& waiting.stack == m.stack
            &&& stopped.frames == m.frames
            &&& stopped.libraries == m.libraries
            &&& stopped.mode is Done
            &&& failed == ActionView::Failed(
                ErrorView {
                    place: m.mode->Loading_place,
                    kind: handshake_spec(m.mode->Loading_library, m.host_abi, reported)->Err_0,
                },
            )
        }),
{
}

/// A library that passes the handshake is asked for its entry points. Once
/// they are listed the library is held, and each of them can be called from
/// anywhere: its name is bound in the global frame to the handle of the
/// entry point.
pub proof fn law_admitted_library(m: MachineView, exports: Seq<Seq<char>>, name: Seq<char>)
    requires
        m.mode matches ModeView::Loading { stage, .. } && stage == Stage::Handshake,
        m.frames.len() > 0,
        exports.contains(name),
    ensures
        ({
            let (listing, enumerate) = m.resume_spec(ResponseView::Abi(Some(m.host_abi)));
            let (running, action) = listing.resume_spec(ResponseView::Exports(exports));
            &&& enumerate == ActionView::Enumerate(m.mode->Loading_library)
            &&& listing.frames == m.frames
            &&& action == ActionView::Continue
            &&& running.mode is Running
            &&& running.libraries == m.libraries.push(m.mode->Loading_library)
            &&& lookup_spec(running.frames, 0, name) == Some(
                ValueView::Native { library: m.mode->Loading_library, symbol: name },
            )
        }),
{
    assert(exports.take(exports.len() as int) =~= exports);
    crate::microverse::law_registered(
        m.frames[0].vars,
        m.mode->Loading_library,
        exports,
        exports.len(),
        name,
    );
}

/// A native call that returns nothing at all fails the run against the
/// call; one that returns a value, be it the absence value of the language,
/// does not, and the machine runs on.
pub proof fn law_native_return(m: MachineView, returned: Option<ValueView>)
    requires
        m.mode is Calling,
    ensures
        returned is None ==> m.resume_spec(ResponseView::Returned(returned)) == m.fail(
            ErrorKindView::DylibReturnedNil,
            m.mode->Calling_place,
        ),
        returned is Some ==> m.resume_spec(ResponseView::Returned(returned)).1
            == ActionView::Continue && m.resume_spec(
            ResponseView::Returned(returned),
        ).0.mode is Running,
{
}

/// A failure is handed out with the statement that was being executed when
/// it arose: the statement at which the top block stands or, at the end of a
/// block, the loop whose condition failed or the call of the function that
/// has not returned.
pub proof fn law_failure_place(m: MachineView)
    requires
        m.mode is Running,
        m.step_spec().1 is Failed,
    ensures
        m.stack.len() > 0,
        ({
            let top = m.stack.last();
            let error = m.step_spec().1->Failed_0;
            if top.pc < top.block.len() {
                error.place == top.block[top.pc as int]
            } else {
                match top.kind {
                    BlockKindView::Loop { place, .. } => error.place == place,
                    BlockKindView::Call { site, .. } => error.place == site,
                    _ => false,
                }
            }
        }),
{
}

/// A failure is handed out once: the step or the answer that fails stops
/// the machine, and a machine that has stopped does nothing but say so.
pub proof fn law_failure_is_final(m: MachineView, response: ResponseView)
    ensures
        m.step_spec().1 is Failed ==> m.step_spec().0.mode is Done,
        m.resume_spec(response).1 is Failed ==> m.resume_spec(response).0.mode is Done,
        m.mode is Done ==> m.step_spec() == (m, ActionView::Halted),
        m.mode is Done ==> m.resume_spec(response) == (m, ActionView::Continue),
{
}

/// Whether the blocks of a machine see frames that exist: every block runs
/// in a frame of the environment, and the body of a function runs in a frame
/// that is younger than the frame of any block below it.
pub open spec fn frames_live(m: MachineView) -> bool {
    &&& m.frames.len() > 0
    &&& forall|i: int| 0 <= i < m.stack.len() ==> (#[trigger] m.stack[i]).frame < m.frames.len()
    &&& forall|i: int, j: int|
        0 <= j < i < m.stack.len() && (#[trigger] m.stack[i]).kind is Call ==> (
        #[trigger] m.stack[j]).frame < m.stack[i].frame
}

/// A machine that is about to run a program sees frames that exist.
pub proof fn law_initial_frames_live(program: Seq<StatementView>, host_abi: u32)
    ensures
        frames_live(crate::machine::initial_spec(program, host_abi)),
{
}

/// No step takes a frame away from under a block: the frame of a call is
/// destroyed only when the body of the function is left, and no block below
/// the body runs in it.
#[verifier::rlimit(40)]
pub proof fn law_step_keeps_frames_live(m: MachineView)
    requires
        frames_live(m),
        m.frames.len() < usize::MAX,
    ensures
        frames_live(m.step_spec().0),
{
    if m.mode is Running && m.stack.len() > 0 {
        let top = m.stack.last();
        if top.pc < top.block.len() {
            let moved = crate::machine::advance_spec(m.stack);
            assert(forall|i: int|
                0 <= i < moved.len() ==> (#[trigger] moved[i]).frame == m.stack[i].frame);
            assert(forall|i: int|
                0 <= i < moved.len() ==> (#[trigger] moved[i]).kind == m.stack[i].kind);
        }
    }
    if m.mode is Returning && m.stack.len() > 0 {
        let rest = m.stack.drop_last();
        assert(forall|i: int| 0 <= i < rest.len() ==> (#[trigger] rest[i]) == m.stack[i]);
        if m.stack.last().kind is Call {
            assert(forall|j: int|
                0 <= j < rest.len() ==> (#[trigger] m.stack[j]).frame < m.stack[m.stack.len()
                    - 1].frame);
        }
    }
}

/// No answer of the host takes a frame away from under a block.
#[verifier::rlimit(40)]
pub proof fn law_resume_keeps_frames_live(m: MachineView, response: ResponseView)
    requires
        frames_live(m),
    ensures
        frames_live(m.resume_spec(response).0),
{
    let moved = crate::machine::advance_spec(m.stack);
    assert(forall|i: int|
        0 <= i < moved.len() ==> (#[trigger] moved[i]).frame == m.stack[i].frame);
    assert(forall|i: int| 0 <= i < moved.len() ==> (#[trigger] moved[i]).kind == m.stack[i].kind);
}

} // verus!
