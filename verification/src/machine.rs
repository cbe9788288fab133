//! The evaluator: a machine that runs a statement tree one step at a time.
//!
//! Every step ends in an [`Action`]. Most steps ask for nothing but the next
//! step. A step that needs the host, to open a native extension or to call
//! into one, says so, and the machine waits until the host answers with a
//! [`Response`]. A failure is handed out once, with the statement that
//! caused it, and ends the run.

use vstd::prelude::*;
use crate::environment::{
    assign_spec, capture_spec, eval_all_spec, eval_spec, lookup_spec, release_spec, Environment,
    FrameView,
};
use crate::error::{Error, ErrorKind, ErrorKindView, ErrorView};
use crate::microverse::{handshake_spec, native_result_spec, register_spec};
use crate::microverse::{call_only, handshake, native_result, register};
use crate::statement::{
    block_view, expressions_view, names_view, optional_view, Expression, ExpressionView, Statement,
    StatementKind, StatementKindView, StatementView,
};
use crate::value::{values_view, Function, Type, Value, ValueView};

verus! {

/// Why a block is being run.
pub enum BlockKind {
    /// The program itself.
    Program,
    /// An arm of a conditional.
    Branch,
    /// The body of a loop: the loop statement, and the condition that is
    /// tested again whenever the body ends.
    Loop { place: Statement, condition: Expression },
    /// The body of a function: the call, the name of the function, and the
    /// name that takes what the function returns.
    Call { site: Statement, function: String, target: Option<String> },
    /// The block of an extension.
    Extension,
}

/// A block that is being run: where it stands, and the frame that its
/// statements see.
pub struct Activation {
    pub kind: BlockKind,
    pub block: Vec<Statement>,
    pub pc: usize,
    pub frame: usize,
}

/// How far the loading of an extension has come.
#[derive(Clone, Copy, Debug, PartialEq, Eq, Structural)]
pub enum Stage {
    /// The host was asked to open the library.
    Open,
    /// The host was asked for the version that the library's marker reports.
    Handshake,
    /// The host was asked for the names of the entry points.
    Exports,
}

/// What the machine is doing.
pub enum Mode {
    /// Running statements.
    Running,
    /// Leaving the blocks of a function that has returned a value.
    Returning(Value),
    /// Waiting for the host while an extension is loaded.
    Loading { place: Statement, library: String, body: Vec<Statement>, stage: Stage },
    /// Waiting for the host while a native entry point runs.
    Calling { place: Statement, target: Option<String> },
    /// Holding a failure until the host has released a refused library.
    Releasing(Error),
    /// Stopped.
    Done,
}

/// What a step asks of the host.
#[derive(Debug)]
pub enum Action {
    /// Nothing: take the next step.
    Continue,
    /// Open the library as a loadable module, and answer with
    /// [`Response::Opened`] or [`Response::OpenFailed`].
    Open(String),
    /// Look up the compatibility marker of the library just opened, and
    /// answer with [`Response::Abi`].
    LookupAbi(String),
    /// List the entry points that the library exports, and answer with
    /// [`Response::Exports`].
    Enumerate(String),
    /// Call an entry point with the arguments, and answer with
    /// [`Response::Returned`].
    CallNative { library: String, symbol: String, args: Vec<Value> },
    /// Release the library: it was refused. Then take the next step.
    Release(String),
    /// Nothing: the machine waits for an answer.
    Waiting,
    /// The run has failed.
    Failed(Error),
    /// The machine has stopped.
    Halted,
}

/// What the host answers.
#[derive(Debug)]
pub enum Response {
    Opened,
    OpenFailed(std::io::Error),
    /// The version that the marker reports, or nothing if the library has no
    /// marker.
    Abi(Option<u32>),
    Exports(Vec<String>),
    /// What the entry point returned, or nothing if it returned a null.
    Returned(Option<Value>),
}

/// The evaluator.
pub struct Machine {
    pub env: Environment,
    pub stack: Vec<Activation>,
    pub mode: Mode,
    pub host_abi: u32,
    /// The libraries that were admitted, in the order of their admission.
    /// The host holds them open until the session ends.
    pub libraries: Vec<String>,
}

/// The mathematical content of a [`BlockKind`].
pub enum BlockKindView {
    Program,
    Branch,
    Loop { place: StatementView, condition: ExpressionView },
    Call { site: StatementView, function: Seq<char>, target: Option<Seq<char>> },
    Extension,
}

/// The mathematical content of an [`Activation`].
pub struct ActivationView {
    pub kind: BlockKindView,
    pub block: Seq<StatementView>,
    pub pc: usize,
    pub frame: usize,
}

/// The mathematical content of a [`Mode`].
pub enum ModeView {
    Running,
    Returning(ValueView),
    Loading { place: StatementView, library: Seq<char>, body: Seq<StatementView>, stage: Stage },
    Calling { place: StatementView, target: Option<Seq<char>> },
    Releasing(ErrorView),
    Done,
}

/// The mathematical content of an [`Action`].
pub enum ActionView {
    Continue,
    Open(Seq<char>),
    LookupAbi(Seq<char>),
    Enumerate(Seq<char>),
    CallNative { library: Seq<char>, symbol: Seq<char>, args: Seq<ValueView> },
    Release(Seq<char>),
    Waiting,
    Failed(ErrorView),
    Halted,
}

/// The mathematical content of a [`Response`].
pub enum ResponseView {
    Opened,
    OpenFailed(std::io::Error),
    Abi(Option<u32>),
    Exports(Seq<Seq<char>>),
    Returned(Option<ValueView>),
}

/// The mathematical content of a [`Machine`].
pub struct MachineView {
    pub frames: Seq<FrameView>,
    pub stack: Seq<ActivationView>,
    pub mode: ModeView,
    pub host_abi: u32,
    pub libraries: Seq<Seq<char>>,
}

impl View for BlockKind {
    type V = BlockKindView;

    open spec fn view(&self) -> BlockKindView {
        match self {
            BlockKind::Program => BlockKindView::Program,
            BlockKind::Branch => BlockKindView::Branch,
            BlockKind::Loop { place, condition } => BlockKindView::Loop {
                place: place@,
                condition: condition@,
            },
            BlockKind::Call { site, function, target } => BlockKindView::Call {
                site: site@,
                function: function@,
                target: optional_view(*target),
            },
            BlockKind::Extension => BlockKindView::Extension,
        }
    }
}

impl View for Activation {
    type V = ActivationView;

    open spec fn view(&self) -> ActivationView {
        ActivationView {
            kind: self.kind@,
            block: block_view(self.block@),
            pc: self.pc,
            frame: self.frame,
        }
    }
}

impl View for Mode {
    type V = ModeView;

    open spec fn view(&self) -> ModeView {
        match self {
            Mode::Running => ModeView::Running,
            Mode::Returning(value) => ModeView::Returning(value@),
            Mode::Loading { place, library, body, stage } => ModeView::Loading {
                place: place@,
                library: library@,
                body: block_view(body@),
                stage: *stage,
            },
            Mode::Calling { place, target } => ModeView::Calling {
                place: place@,
                target: optional_view(*target),
            },
            Mode::Releasing(error) => ModeView::Releasing(error@),
            Mode::Done => ModeView::Done,
        }
    }
}

impl View for Action {
    type V = ActionView;

    open spec fn view(&self) -> ActionView {
        match self {
            Action::Continue => ActionView::Continue,
            Action::Open(library) => ActionView::Open(library@),
            Action::LookupAbi(library) => ActionView::LookupAbi(library@),
            Action::Enumerate(library) => ActionView::Enumerate(library@),
            Action::CallNative { library, symbol, args } => ActionView::CallNative {
                library: library@,
                symbol: symbol@,
                args: values_view(args@),
            },
            Action::Release(library) => ActionView::Release(library@),
            Action::Waiting => ActionView::Waiting,
            Action::Failed(error) => ActionView::Failed(error@),
            Action::Halted => ActionView::Halted,
        }
    }
}

impl View for Response {
    type V = ResponseView;

    open spec fn view(&self) -> ResponseView {
        match self {
            Response::Opened => ResponseView::Opened,
            Response::OpenFailed(err) => ResponseView::OpenFailed(*err),
            Response::Abi(reported) => ResponseView::Abi(*reported),
            Response::Exports(names) => ResponseView::Exports(names_view(names@)),
            Response::Returned(returned) => ResponseView::Returned(
                crate::environment::found_view(*returned),
            ),
        }
    }
}

/// The contents of the activations of a stack, one by one.
pub open spec fn stack_view(stack: Seq<Activation>) -> Seq<ActivationView> {
    Seq::new(stack.len(), |i: int| stack[i]@)
}

impl View for Machine {
    type V = MachineView;

    open spec fn view(&self) -> MachineView {
        MachineView {
            frames: self.env@,
            stack: stack_view(self.stack@),
            mode: self.mode@,
            host_abi: self.host_abi,
            libraries: names_view(self.libraries@),
        }
    }
}

/// The stack after its top block has moved on by one statement.
pub open spec fn advance_spec(stack: Seq<ActivationView>) -> Seq<ActivationView> {
    if stack.len() > 0 && stack.last().pc < usize::MAX {
        stack.update(
            stack.len() - 1,
            ActivationView { pc: (stack.last().pc + 1) as usize, ..stack.last() },
        )
    } else {
        stack
    }
}

/// The bindings of the frame of a call after the first `n` parameters were
/// bound, each to the argument at its place.
pub open spec fn bind_spec(params: Seq<Seq<char>>, values: Seq<ValueView>, n: nat) -> Map<
    Seq<char>,
    ValueView,
>
    decreases n,
{
    if n == 0 || n > params.len() || n > values.len() {
        Map::empty()
    } else {
        bind_spec(params, values, (n - 1) as nat).insert(params[n - 1], values[n - 1])
    }
}

/// The frames after a value was bound to the name that takes it, if there is
/// such a name, in the frame of the block on top of the stack.
pub open spec fn deliver_spec(
    frames: Seq<FrameView>,
    stack: Seq<ActivationView>,
    target: Option<Seq<char>>,
    value: ValueView,
) -> Seq<FrameView> {
    match target {
        Some(name) => if stack.len() > 0 {
            assign_spec(frames, stack.last().frame, name, value)
        } else {
            frames
        },
        None => frames,
    }
}

impl MachineView {
    /// The run fails: the machine stops and hands out the failure with the
    /// statement that caused it.
    pub open spec fn fail(self, kind: ErrorKindView, place: StatementView) -> (
        MachineView,
        ActionView,
    ) {
        (MachineView { mode: ModeView::Done, ..self }, ActionView::Failed(ErrorView { place, kind }))
    }

    /// What follows the evaluation of a condition: `on_true` if it is true,
    /// `on_false` if it is false, and the failure of the run, against
    /// `place`, if the condition fails or is no boolean.
    pub open spec fn branch(
        self,
        condition: Result<ValueView, ErrorKindView>,
        place: StatementView,
        on_true: MachineView,
        on_false: MachineView,
    ) -> (MachineView, ActionView) {
        match condition {
            Ok(ValueView::Bool(b)) => (
                if b {
                    on_true
                } else {
                    on_false
                },
                ActionView::Continue,
            ),
            Ok(other) => self.fail(
                ErrorKindView::UnexpectedType { actual: other.type_of(), expected: Type::Bool },
                place,
            ),
            Err(kind) => self.fail(kind, place),
        }
    }

    /// The machine with another block on top of the stack, after the block
    /// that was on top has moved on by one statement.
    pub open spec fn enter(
        self,
        kind: BlockKindView,
        block: Seq<StatementView>,
        frame: usize,
    ) -> MachineView {
        MachineView {
            stack: advance_spec(self.stack).push(ActivationView { kind, block, pc: 0, frame }),
            ..self
        }
    }

    /// A step of a machine that is leaving the blocks of a function with the
    /// value that the function returned. A block of the function is left
    /// behind. With the body of the function itself its frame is destroyed,
    /// the value is bound to the name that takes it, and the machine runs on
    /// after the call. A return outside any function stops the machine.
    pub open spec fn unwind_spec(self, value: ValueView) -> (MachineView, ActionView) {
        if self.stack.len() == 0 {
            (MachineView { mode: ModeView::Done, ..self }, ActionView::Halted)
        } else {
            let top = self.stack.last();
            let rest = self.stack.drop_last();
            match top.kind {
                BlockKindView::Program => (
                    MachineView { stack: rest, mode: ModeView::Done, ..self },
                    ActionView::Halted,
                ),
                BlockKindView::Call { site, function, target } => (
                    MachineView {
                        frames: deliver_spec(
                            release_spec(self.frames, top.frame),
                            rest,
                            target,
                            value,
                        ),
                        stack: rest,
                        mode: ModeView::Running,
                        ..self
                    },
                    ActionView::Continue,
                ),
                _ => (MachineView { stack: rest, ..self }, ActionView::Continue),
            }
        }
    }

    /// A step of a machine whose top block has no statement left. The end of
    /// the program stops the machine. The end of the body of a function
    /// fails the call: the function has not returned. At the end of the body
    /// of a loop the condition decides whether the body runs again.
    pub open spec fn finish_spec(self) -> (MachineView, ActionView) {
        let top = self.stack.last();
        let rest = self.stack.drop_last();
        match top.kind {
            BlockKindView::Program => (
                MachineView { stack: rest, mode: ModeView::Done, ..self },
                ActionView::Halted,
            ),
            BlockKindView::Loop { place, condition } => self.branch(
                eval_spec(self.frames, top.frame as int, condition),
                place,
                MachineView {
                    stack: self.stack.update(
                        self.stack.len() - 1,
                        ActivationView { pc: 0, ..top },
                    ),
                    ..self
                },
                MachineView { stack: rest, ..self },
            ),
            BlockKindView::Call { site, function, target } => self.fail(
                ErrorKindView::NoReturn(function),
                site,
            ),
            _ => (MachineView { stack: rest, ..self }, ActionView::Continue),
        }
    }

    /// The call of `name` with the arguments `args` by the statement `place`.
    /// The name has to be bound to a function or to a native entry point. A
    /// function is called with as many arguments as it has parameters, no
    /// more and no fewer, whatever the arguments are; then the arguments are
    /// evaluated, a frame binds the parameters to them over the frame in
    /// which the function was defined, and the body is entered. For a native
    /// entry point the arguments are evaluated and the host is asked to make
    /// the call.
    pub open spec fn call_spec(
        self,
        place: StatementView,
        target: Option<Seq<char>>,
        name: Seq<char>,
        args: Seq<ExpressionView>,
    ) -> (MachineView, ActionView) {
        let frame = self.stack.last().frame;
        match lookup_spec(self.frames, frame as int, name) {
            None => self.fail(ErrorKindView::UnknownVariable(name), place),
            Some(ValueView::Function { name: function, params, body, env }) => if args.len()
                != params.len() {
                self.fail(
                    ErrorKindView::InvalidArguments(
                        function,
                        params.len() as usize,
                        args.len() as usize,
                    ),
                    place,
                )
            } else {
                match eval_all_spec(self.frames, frame as int, args, args.len()) {
                    Err(kind) => self.fail(kind, place),
                    Ok(values) => (
                        MachineView {
                            frames: self.frames.push(
                                FrameView {
                                    vars: bind_spec(params, values, params.len()),
                                    parent: if env < self.frames.len() {
                                        Some(env)
                                    } else {
                                        None
                                    },
                                    captured: false,
                                },
                            ),
                            ..self
                        }.enter(
                            BlockKindView::Call { site: place, function, target },
                            body,
                            self.frames.len() as usize,
                        ),
                        ActionView::Continue,
                    ),
                }
            },
            Some(ValueView::Native { library, symbol }) => match eval_all_spec(
                self.frames,
                frame as int,
                args,
                args.len(),
            ) {
                Err(kind) => self.fail(kind, place),
                Ok(values) => (
                    MachineView { mode: ModeView::Calling { place, target }, ..self },
                    ActionView::CallNative { library, symbol, args: values },
                ),
            },
            Some(other) => self.fail(
                ErrorKindView::UnexpectedType { actual: other.type_of(), expected: Type::Function },
                place,
            ),
        }
    }

    /// A step of a running machine whose top block stands at the statement
    /// `s`. In the block of an extension anything but a direct function call
    /// fails. A failure inside the statement fails the run against the
    /// statement.
    pub open spec fn execute_spec(self, s: StatementView) -> (MachineView, ActionView) {
        let top = self.stack.last();
        let frame = top.frame;
        let moved = MachineView { stack: advance_spec(self.stack), ..self };
        if top.kind is Extension && !(s.kind is FunctionCall) {
            self.fail(ErrorKindView::NonFunctionCallInDylib(s), s)
        } else {
            match s.kind {
                StatementKindView::Assignment(name, value) => match eval_spec(
                    self.frames,
                    frame as int,
                    value,
                ) {
                    Ok(v) => (
                        MachineView { frames: assign_spec(self.frames, frame, name, v), ..moved },
                        ActionView::Continue,
                    ),
                    Err(kind) => self.fail(kind, s),
                },
                StatementKindView::Expression(value) => match eval_spec(
                    self.frames,
                    frame as int,
                    value,
                ) {
                    Ok(_) => (moved, ActionView::Continue),
                    Err(kind) => self.fail(kind, s),
                },
                StatementKindView::If(condition, then_block, else_block) => self.branch(
                    eval_spec(self.frames, frame as int, condition),
                    s,
                    self.enter(BlockKindView::Branch, then_block, frame),
                    self.enter(BlockKindView::Branch, else_block, frame),
                ),
                StatementKindView::While(condition, body) => self.branch(
                    eval_spec(self.frames, frame as int, condition),
                    s,
                    self.enter(BlockKindView::Loop { place: s, condition }, body, frame),
                    moved,
                ),
                StatementKindView::Function(name, params, body) => (
                    MachineView {
                        frames: capture_spec(
                            assign_spec(
                                self.frames,
                                frame,
                                name,
                                ValueView::Function { name, params, body, env: frame },
                            ),
                            frame,
                        ),
                        ..moved
                    },
                    ActionView::Continue,
                ),
                StatementKindView::Return(value) => match eval_spec(
                    self.frames,
                    frame as int,
                    value,
                ) {
                    Ok(v) => (
                        MachineView { mode: ModeView::Returning(v), ..self },
                        ActionView::Continue,
                    ),
                    Err(kind) => self.fail(kind, s),
                },
                StatementKindView::FunctionCall { target, name, args } => self.call_spec(
                    s,
                    target,
                    name,
                    args,
                ),
                StatementKindView::Extension(library, body) => (
                    MachineView {
                        mode: ModeView::Loading { place: s, library, body, stage: Stage::Open },
                        ..self
                    },
                    ActionView::Open(library),
                ),
            }
        }
    }

    /// One step of the machine.
    pub open spec fn step_spec(self) -> (MachineView, ActionView) {
        match self.mode {
            ModeView::Done => (self, ActionView::Halted),
            ModeView::Releasing(error) => (
                MachineView { mode: ModeView::Done, ..self },
                ActionView::Failed(error),
            ),
            ModeView::Loading { .. } => (self, ActionView::Waiting),
            ModeView::Calling { .. } => (self, ActionView::Waiting),
            ModeView::Returning(value) => self.unwind_spec(value),
            ModeView::Running => if self.stack.len() == 0 {
                (MachineView { mode: ModeView::Done, ..self }, ActionView::Halted)
            } else if self.stack.last().pc >= self.stack.last().block.len() {
                self.finish_spec()
            } else {
                self.execute_spec(self.stack.last().block[self.stack.last().pc as int])
            },
        }
    }

    /// What an answer of the host does to a machine that waits for it. The
    /// loading of an extension goes through its stages in order: the library
    /// is opened, its marker is looked up and compared, and only then are its
    /// entry points listed and registered, and the library joins those that
    /// the host holds open. A library that fails the handshake is released
    /// before the failure is handed out. An answer that the machine does not
    /// wait for changes nothing.
    pub open spec fn resume_spec(self, response: ResponseView) -> (MachineView, ActionView) {
        match self.mode {
            ModeView::Loading { place, library, body, stage } => match (stage, response) {
                (Stage::Open, ResponseView::Opened) => (
                    MachineView {
                        mode: ModeView::Loading { place, library, body, stage: Stage::Handshake },
                        ..self
                    },
                    ActionView::LookupAbi(library),
                ),
                (Stage::Open, ResponseView::OpenFailed(err)) => self.fail(
                    ErrorKindView::IOError(err),
                    place,
                ),
                (Stage::Handshake, ResponseView::Abi(reported)) => match handshake_spec(
                    library,
                    self.host_abi,
                    reported,
                ) {
                    Ok(_) => (
                        MachineView {
                            mode: ModeView::Loading { place, library, body, stage: Stage::Exports },
                            ..self
                        },
                        ActionView::Enumerate(library),
                    ),
                    Err(kind) => (
                        MachineView {
                            mode: ModeView::Releasing(ErrorView { place, kind }),
                            ..self
                        },
                        ActionView::Release(library),
                    ),
                },
                (Stage::Exports, ResponseView::Exports(names)) => (
                    MachineView {
                        frames: register_spec(self.frames, library, names),
                        mode: ModeView::Running,
                        libraries: self.libraries.push(library),
                        ..self
                    }.enter(
                        BlockKindView::Extension,
                        body,
                        if self.stack.len() > 0 {
                            self.stack.last().frame
                        } else {
                            0
                        },
                    ),
                    ActionView::Continue,
                ),
                _ => (self, ActionView::Waiting),
            },
            ModeView::Calling { place, target } => match response {
                ResponseView::Returned(returned) => match native_result_spec(returned) {
                    Ok(value) => (
                        MachineView {
                            frames: deliver_spec(self.frames, self.stack, target, value),
                            stack: advance_spec(self.stack),
                            mode: ModeView::Running,
                            ..self
                        },
                        ActionView::Continue,
                    ),
                    Err(kind) => self.fail(kind, place),
                },
                _ => (self, ActionView::Waiting),
            },
            _ => (self, ActionView::Continue),
        }
    }

    /// Up to `budget` steps of the machine: it stops early at the first step
    /// that asks for anything but the next step.
    pub open spec fn run_spec(self, budget: nat) -> (MachineView, ActionView)
        decreases budget,
    {
        if budget == 0 {
            (self, ActionView::Continue)
        } else {
            let (next, action) = self.step_spec();
            if action is Continue {
                next.run_spec((budget - 1) as nat)
            } else {
                (next, action)
            }
        }
    }
}

/// The machine that is about to run a program.
pub open spec fn initial_spec(program: Seq<StatementView>, host_abi: u32) -> MachineView {
    MachineView {
        frames: seq![crate::environment::global_frame()],
        stack: seq![
            ActivationView { kind: BlockKindView::Program, block: program, pc: 0, frame: 0 },
        ],
        mode: ModeView::Running,
        host_abi,
        libraries: Seq::empty(),
    }
}

impl Machine {
    /// A machine that is about to run a program on a host of the given
    /// compatibility version.
    pub fn new(program: Vec<Statement>, host_abi: u32) -> (r: Machine)
        ensures
            r@ == initial_spec(block_view(program@), host_abi),
    {
        let mut stack: Vec<Activation> = Vec::new();
        stack.push(Activation { kind: BlockKind::Program, block: program, pc: 0, frame: 0 });
        let r = Machine {
            env: Environment::new(),
            stack,
            mode: Mode::Running,
            host_abi,
            libraries: Vec::new(),
        };
        assert(r@.stack =~= initial_spec(block_view(program@), host_abi).stack);
        assert(r@.libraries =~= Seq::<Seq<char>>::empty());
        r
    }

    /// Stops the machine and hands out a failure.
    fn fail(&mut self, kind: ErrorKind, place: Statement) -> (action: Action)
        ensures
            (final(self)@, action@) == old(self)@.fail(kind@, place@),
    {
        self.mode = Mode::Done;
        Action::Failed(Error::new(kind, place))
    }

    /// Moves the top block on by one statement.
    fn advance(&mut self)
        ensures
            final(self)@ == (MachineView { stack: advance_spec(old(self)@.stack), ..old(self)@ }),
    {
        match self.stack.pop() {
            Some(top) => {
                let pc = if top.pc < usize::MAX {
                    top.pc + 1
                } else {
                    top.pc
                };
                self.stack.push(
                    Activation { kind: top.kind, block: top.block, pc, frame: top.frame },
                );
                assert(self@.stack =~= advance_spec(old(self)@.stack));
            },
            None => {
                assert(self@.stack =~= advance_spec(old(self)@.stack));
            },
        }
    }

    /// Moves the top block on by one statement and puts another block on top
    /// of it.
    fn enter(&mut self, kind: BlockKind, block: Vec<Statement>, frame: usize)
        ensures
            final(self)@ == old(self)@.enter(kind@, block_view(block@), frame),
    {
        self.advance();
        self.stack.push(Activation { kind, block, pc: 0, frame });
        assert(self@.stack =~= old(self)@.enter(kind@, block_view(block@), frame).stack);
    }

    /// Takes the top block off the stack.
    fn pop(&mut self) -> (top: Option<Activation>)
        ensures
            match top {
                Some(activation) => old(self)@.stack.len() > 0 && activation@ == old(
                    self,
                )@.stack.last() && final(self)@ == (MachineView {
                    stack: old(self)@.stack.drop_last(),
                    ..old(self)@
                }),
                None => old(self)@.stack.len() == 0 && final(self)@ == old(self)@,
            },
    {
        let top = self.stack.pop();
        assert(top is Some ==> self@.stack =~= old(self)@.stack.drop_last());
        assert(top is None ==> self@.stack =~= old(self)@.stack);
        top
    }

    /// Binds a value to the name that takes it, if there is one, in the
    /// frame of the top block.
    fn deliver(&mut self, target: Option<String>, value: Value)
        ensures
            final(self)@ == (MachineView {
                frames: deliver_spec(
                    old(self)@.frames,
                    old(self)@.stack,
                    optional_view(target),
                    value@,
                ),
                ..old(self)@
            }),
    {
        match target {
            Some(name) => {
                let n = self.stack.len();
                if n > 0 {
                    let frame = self.stack[n - 1].frame;
                    self.env.assign(frame, name, value);
                }
            },
            None => {},
        }
    }

    /// Whether a condition holds, or the failure of the run if the condition
    /// has failed or is no boolean.
    fn truth(&mut self, condition: Result<Value, ErrorKind>, place: Statement) -> (r: Result<
        bool,
        Action,
    >)
        ensures
            match r {
                Ok(b) => crate::value::result_view(condition) == Ok::<ValueView, ErrorKindView>(
                    ValueView::Bool(b),
                ) && final(self)@ == old(self)@,
                Err(action) => !(crate::value::result_view(condition) matches Ok(
                    ValueView::Bool(_),
                )) && (final(self)@, action@) == old(self)@.branch(
                    crate::value::result_view(condition),
                    place@,
                    old(self)@,
                    old(self)@,
                ),
            },
    {
        match condition {
            Ok(Value::Bool(b)) => Ok(b),
            Ok(other) => {
                let kind = ErrorKind::UnexpectedType {
                    actual: other.get_type(),
                    expected: Type::Bool,
                };
                Err(self.fail(kind, place))
            },
            Err(kind) => Err(self.fail(kind, place)),
        }
    }
}

impl Machine {
    /// A step of a machine that is leaving the blocks of a function with the
    /// value that the function returned.
    fn unwind(&mut self, value: Value) -> (action: Action)
        requires
            old(self)@.mode == ModeView::Returning(value@),
        ensures
            (final(self)@, action@) == old(self)@.unwind_spec(value@),
    {
        match self.pop() {
            None => {
                self.mode = Mode::Done;
                Action::Halted
            },
            Some(top) => match top.kind {
                BlockKind::Program => {
                    self.mode = Mode::Done;
                    Action::Halted
                },
                BlockKind::Call { site, function, target } => {
                    self.env.release_frame(top.frame);
                    self.deliver(target, value);
                    self.mode = Mode::Running;
                    Action::Continue
                },
                _ => Action::Continue,
            },
        }
    }

    /// A step of a running machine whose top block has no statement left.
    fn finish(&mut self) -> (action: Action)
        requires
            old(self)@.stack.len() > 0,
        ensures
            (final(self)@, action@) == old(self)@.finish_spec(),
    {
        let n = self.stack.len();
        match &self.stack[n - 1].kind {
            BlockKind::Program => {
                self.pop();
                self.mode = Mode::Done;
                Action::Halted
            },
            BlockKind::Loop { place, condition } => {
                let place = place.duplicate();
                let condition = self.env.evaluate(self.stack[n - 1].frame, condition);
                match self.truth(condition, place) {
                    Ok(true) => {
                        match self.stack.pop() {
                            Some(top) => {
                                self.stack.push(
                                    Activation {
                                        kind: top.kind,
                                        block: top.block,
                                        pc: 0,
                                        frame: top.frame,
                                    },
                                );
                            },
                            None => {},
                        }
                        assert(self@.stack =~= old(self)@.stack.update(
                            old(self)@.stack.len() - 1,
                            ActivationView { pc: 0, ..old(self)@.stack.last() },
                        ));
                        Action::Continue
                    },
                    Ok(false) => {
                        self.pop();
                        Action::Continue
                    },
                    Err(action) => action,
                }
            },
            BlockKind::Call { site, function, target } => {
                let kind = ErrorKind::NoReturn(function.clone());
                let place = site.duplicate();
                self.fail(kind, place)
            },
            _ => {
                self.pop();
                Action::Continue
            },
        }
    }

    /// Adds the frame of a call: the parameters, each bound to the argument
    /// at its place, over the frame in which the function was defined.
    fn open_frame(&mut self, params: &Vec<String>, values: &Vec<Value>, env: usize) -> (frame:
        usize)
        requires
            params@.len() == values@.len(),
        ensures
            frame == old(self)@.frames.len(),
            final(self)@ == (MachineView {
                frames: old(self)@.frames.push(
                    FrameView {
                        vars: bind_spec(names_view(params@), values_view(values@), params@.len()),
                        parent: if env < old(self)@.frames.len() {
                            Some(env)
                        } else {
                            None
                        },
                        captured: false,
                    },
                ),
                ..old(self)@
            }),
    {
        let parent = if env < self.env.len() {
            Some(env)
        } else {
            None
        };
        let frame = self.env.push_frame(parent);
        let mut i: usize = 0;
        while i < params.len()
            invariant
                i <= params.len(),
                params@.len() == values@.len(),
                frame == old(self)@.frames.len(),
                self.stack == old(self).stack,
                self.mode == old(self).mode,
                self.host_abi == old(self).host_abi,
                self.libraries == old(self).libraries,
                self@.frames == old(self)@.frames.push(
                    FrameView {
                        vars: bind_spec(names_view(params@), values_view(values@), i as nat),
                        parent,
                        captured: false,
                    },
                ),
            decreases params.len() - i,
        {
            self.env.assign(frame, params[i].clone(), values[i].duplicate());
            i = i + 1;
            assert(self@.frames =~= old(self)@.frames.push(
                FrameView {
                    vars: bind_spec(names_view(params@), values_view(values@), i as nat),
                    parent,
                    captured: false,
                },
            ));
        }
        frame
    }

    /// The call of `name` with the arguments `args` by the statement `place`.
    #[verifier::rlimit(40)]
    fn call(
        &mut self,
        place: Statement,
        target: Option<String>,
        name: &String,
        args: &Vec<Expression>,
    ) -> (action: Action)
        requires
            old(self)@.stack.len() > 0,
        ensures
            (final(self)@, action@) == old(self)@.call_spec(
                place@,
                optional_view(target),
                name@,
                expressions_view(args@),
            ),
    {
        let n = self.stack.len();
        let frame = self.stack[n - 1].frame;
        match self.env.lookup(frame, name) {
            None => self.fail(ErrorKind::UnknownVariable(name.clone()), place),
            Some(Value::Function(f)) => {
                if args.len() != f.params.len() {
                    let kind = ErrorKind::InvalidArguments(f.name, f.params.len(), args.len());
                    return self.fail(kind, place);
                }
                match self.env.evaluate_all(frame, args) {
                    Err(kind) => self.fail(kind, place),
                    Ok(values) => {
                        let callee = self.open_frame(&f.params, &values, f.env);
                        self.enter(
                            BlockKind::Call { site: place, function: f.name, target },
                            f.body,
                            callee,
                        );
                        Action::Continue
                    },
                }
            },
            Some(Value::Native(handle)) => match self.env.evaluate_all(frame, args) {
                Err(kind) => self.fail(kind, place),
                Ok(values) => {
                    self.mode = Mode::Calling { place, target };
                    Action::CallNative {
                        library: handle.library,
                        symbol: handle.symbol,
                        args: values,
                    }
                },
            },
            Some(other) => {
                let kind = ErrorKind::UnexpectedType {
                    actual: other.get_type(),
                    expected: Type::Function,
                };
                self.fail(kind, place)
            },
        }
    }

    /// A step of a running machine whose top block stands at a statement.
    #[verifier::rlimit(40)]
    fn execute(&mut self) -> (action: Action)
        requires
            old(self)@.stack.len() > 0,
            old(self)@.stack.last().pc < old(self)@.stack.last().block.len(),
        ensures
            (final(self)@, action@) == old(self)@.execute_spec(
                old(self)@.stack.last().block[old(self)@.stack.last().pc as int],
            ),
    {
        let n = self.stack.len();
        let frame = self.stack[n - 1].frame;
        let statement = self.stack[n - 1].block[self.stack[n - 1].pc].duplicate();
        let place = statement.duplicate();
        if let BlockKind::Extension = &self.stack[n - 1].kind {
            match call_only(&statement) {
                Err(kind) => {
                    return self.fail(kind, place);
                },
                Ok(_) => {},
            }
        }
        match statement.kind {
            StatementKind::Assignment(name, value) => match self.env.evaluate(frame, &value) {
                Ok(v) => {
                    self.env.assign(frame, name, v);
                    self.advance();
                    Action::Continue
                },
                Err(kind) => self.fail(kind, place),
            },
            StatementKind::Expression(value) => match self.env.evaluate(frame, &value) {
                Ok(_) => {
                    self.advance();
                    Action::Continue
                },
                Err(kind) => self.fail(kind, place),
            },
            StatementKind::If(condition, then_block, else_block) => {
                let condition = self.env.evaluate(frame, &condition);
                match self.truth(condition, place) {
                    Ok(true) => {
                        self.enter(BlockKind::Branch, then_block, frame);
                        Action::Continue
                    },
                    Ok(false) => {
                        self.enter(BlockKind::Branch, else_block, frame);
                        Action::Continue
                    },
                    Err(action) => action,
                }
            },
            StatementKind::While(condition, body) => {
                let outcome = self.env.evaluate(frame, &condition);
                let again = place.duplicate();
                match self.truth(outcome, place) {
                    Ok(true) => {
                        self.enter(BlockKind::Loop { place: again, condition }, body, frame);
                        Action::Continue
                    },
                    Ok(false) => {
                        self.advance();
                        Action::Continue
                    },
                    Err(action) => action,
                }
            },
            StatementKind::Function(name, params, body) => {
                let function = Function { name: name.clone(), params, body, env: frame };
                self.env.assign(frame, name, Value::Function(function));
                self.env.capture(frame);
                self.advance();
                Action::Continue
            },
            StatementKind::Return(value) => match self.env.evaluate(frame, &value) {
                Ok(v) => {
                    self.mode = Mode::Returning(v);
                    Action::Continue
                },
                Err(kind) => self.fail(kind, place),
            },
            StatementKind::FunctionCall { target, name, args } => self.call(
                place,
                target,
                &name,
                &args,
            ),
            StatementKind::Extension(library, body) => {
                let action = Action::Open(library.clone());
                self.mode = Mode::Loading { place, library, body, stage: Stage::Open };
                action
            },
        }
    }

    /// Takes one step.
    pub fn step(&mut self) -> (action: Action)
        ensures
            (final(self)@, action@) == old(self)@.step_spec(),
    {
        match &self.mode {
            Mode::Done => {
                return Action::Halted;
            },
            Mode::Loading { .. } => {
                return Action::Waiting;
            },
            Mode::Calling { .. } => {
                return Action::Waiting;
            },
            Mode::Running => {
                let n = self.stack.len();
                if n == 0 {
                    self.mode = Mode::Done;
                    return Action::Halted;
                } else if self.stack[n - 1].pc >= self.stack[n - 1].block.len() {
                    return self.finish();
                } else {
                    return self.execute();
                }
            },
            _ => {},
        }
        let mut mode = Mode::Done;
        std::mem::swap(&mut mode, &mut self.mode);
        match mode {
            Mode::Releasing(error) => Action::Failed(error),
            Mode::Returning(value) => {
                self.mode = Mode::Returning(value.duplicate());
                self.unwind(value)
            },
            _ => Action::Halted,
        }
    }

    /// Takes up to `budget` steps, and stops early at the first step that
    /// asks for anything but the next step.
    pub fn run(&mut self, budget: u64) -> (action: Action)
        ensures
            (final(self)@, action@) == old(self)@.run_spec(budget as nat),
    {
        let mut left: u64 = budget;
        while left > 0
            invariant
                old(self)@.run_spec(budget as nat) == self@.run_spec(left as nat),
            decreases left,
        {
            let action = self.step();
            match action {
                Action::Continue => {
                    left = left - 1;
                },
                _ => {
                    return action;
                },
            }
        }
        Action::Continue
    }
}

impl Machine {
    /// The frame of the block on top of the stack; the global frame if the
    /// stack is empty.
    fn top_frame(&self) -> (frame: usize)
        ensures
            frame == if self@.stack.len() > 0 {
                self@.stack.last().frame
            } else {
                0
            },
    {
        let n = self.stack.len();
        if n > 0 {
            self.stack[n - 1].frame
        } else {
            0
        }
    }

    /// Takes an answer of the host.
    #[verifier::rlimit(40)]
    pub fn resume(&mut self, response: Response) -> (action: Action)
        ensures
            (final(self)@, action@) == old(self)@.resume_spec(response@),
    {
        match &self.mode {
            Mode::Loading { .. } => {},
            Mode::Calling { .. } => {},
            _ => {
                return Action::Continue;
            },
        }
        let mut mode = Mode::Done;
        std::mem::swap(&mut mode, &mut self.mode);
        match mode {
            Mode::Loading { place, library, body, stage } => match (stage, response) {
                (Stage::Open, Response::Opened) => {
                    let action = Action::LookupAbi(library.clone());
                    self.mode = Mode::Loading { place, library, body, stage: Stage::Handshake };
                    action
                },
                (Stage::Open, Response::OpenFailed(err)) => {
                    self.fail(ErrorKind::IOError(err), place)
                },
                (Stage::Handshake, Response::Abi(reported)) => {
                    match handshake(&library, self.host_abi, reported) {
                        Ok(_) => {
                            let action = Action::Enumerate(library.clone());
                            self.mode = Mode::Loading {
                                place,
                                library,
                                body,
                                stage: Stage::Exports,
                            };
                            action
                        },
                        Err(kind) => {
                            self.mode = Mode::Releasing(Error::new(kind, place));
                            Action::Release(library)
                        },
                    }
                },
                (Stage::Exports, Response::Exports(names)) => {
                    register(&mut self.env, &library, &names);
                    self.libraries.push(library.clone());
                    assert(names_view(self.libraries@) =~= names_view(old(self).libraries@).push(
                        library@,
                    ));
                    self.mode = Mode::Running;
                    let frame = self.top_frame();
                    self.enter(BlockKind::Extension, body, frame);
                    Action::Continue
                },
                (stage, _) => {
                    self.mode = Mode::Loading { place, library, body, stage };
                    Action::Waiting
                },
            },
            Mode::Calling { place, target } => match response {
                Response::Returned(returned) => match native_result(returned) {
                    Ok(value) => {
                        self.deliver(target, value);
                        self.advance();
                        self.mode = Mode::Running;
                        Action::Continue
                    },
                    Err(kind) => self.fail(kind, place),
                },
                _ => {
                    self.mode = Mode::Calling { place, target };
                    Action::Waiting
                },
            },
            _ => Action::Continue,
        }
    }

    /// The value of a name in the global frame.
    pub fn global(&self, name: &String) -> (r: Option<Value>)
        ensures
            crate::environment::found_view(r) == lookup_spec(self@.frames, 0, name@),
    {
        self.env.lookup(0, name)
    }

    /// Whether the machine has stopped.
    pub fn is_done(&self) -> (r: bool)
        ensures
            r == (self@.mode is Done),
    {
        match &self.mode {
            Mode::Done => true,
            _ => false,
        }
    }
}

} // verus!
