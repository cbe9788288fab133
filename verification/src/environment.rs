//! The environment: frames that map names to values, each linked to the frame
//! in which lookup goes on.

use vstd::prelude::*;
use crate::error::{ErrorKind, ErrorKindView, SwResult};
use crate::statement::{Expression, ExpressionView};
use crate::value::{binary_spec, result_view, values_view, Type, Value, ValueView};

verus! {

/// A name bound to a value.
pub struct Binding {
    pub name: String,
    pub value: Value,
}

/// One layer of bindings. `parent` is the frame in which lookup goes on when
/// a name is not bound here; `captured` tells that a function was defined
/// here, so that the frame has to outlive the call that it was made for.
pub struct Frame {
    pub bindings: Vec<Binding>,
    pub parent: Option<usize>,
    pub captured: bool,
}

/// The mathematical content of a [`Frame`].
pub struct FrameView {
    pub vars: Map<Seq<char>, ValueView>,
    pub parent: Option<usize>,
    pub captured: bool,
}

/// The mapping that a sequence of bindings stands for: each binding maps its
/// name to its value, and a later binding of a name replaces an earlier one.
pub open spec fn bindings_map(bindings: Seq<Binding>) -> Map<Seq<char>, ValueView>
    decreases bindings.len(),
{
    if bindings.len() == 0 {
        Map::empty()
    } else {
        bindings_map(bindings.drop_last()).insert(bindings.last().name@, bindings.last().value@)
    }
}

impl View for Frame {
    type V = FrameView;

    open spec fn view(&self) -> FrameView {
        FrameView {
            vars: bindings_map(self.bindings@),
            parent: self.parent,
            captured: self.captured,
        }
    }
}

/// A name that no binding holds is not in the mapping.
proof fn lemma_bindings_absent(bindings: Seq<Binding>, name: Seq<char>)
    requires
        forall|j: int| 0 <= j < bindings.len() ==> bindings[j].name@ != name,
    ensures
        !bindings_map(bindings).dom().contains(name),
    decreases bindings.len(),
{
    if bindings.len() > 0 {
        lemma_bindings_absent(bindings.drop_last(), name);
    }
}

/// The last binding of a name gives the value that the mapping has for it.
proof fn lemma_bindings_last(bindings: Seq<Binding>, name: Seq<char>, i: int)
    requires
        0 <= i < bindings.len(),
        bindings[i].name@ == name,
        forall|j: int| i < j < bindings.len() ==> bindings[j].name@ != name,
    ensures
        bindings_map(bindings).dom().contains(name),
        bindings_map(bindings)[name] == bindings[i].value@,
    decreases bindings.len(),
{
    if i < bindings.len() - 1 {
        lemma_bindings_last(bindings.drop_last(), name, i);
    }
}

/// Replacing the last binding of a name binds the name anew and leaves the
/// other names as they are.
proof fn lemma_bindings_update(bindings: Seq<Binding>, i: int, binding: Binding)
    requires
        0 <= i < bindings.len(),
        bindings[i].name@ == binding.name@,
        forall|j: int| i < j < bindings.len() ==> bindings[j].name@ != binding.name@,
    ensures
        bindings_map(bindings.update(i, binding)) == bindings_map(bindings).insert(
            binding.name@,
            binding.value@,
        ),
    decreases bindings.len(),
{
    let updated = bindings.update(i, binding);
    if i == bindings.len() - 1 {
        assert(updated.drop_last() =~= bindings.drop_last());
        assert(bindings_map(updated) =~= bindings_map(bindings).insert(
            binding.name@,
            binding.value@,
        ));
    } else {
        lemma_bindings_update(bindings.drop_last(), i, binding);
        assert(updated.drop_last() =~= bindings.drop_last().update(i, binding));
        assert(bindings_map(updated) =~= bindings_map(bindings).insert(
            binding.name@,
            binding.value@,
        ));
    }
}

impl Frame {
    /// The place of the last binding of a name, if there is one.
    fn find(&self, name: &String) -> (r: Option<usize>)
        ensures
            match r {
                Some(i) => i < self.bindings.len() && self.bindings@[i as int].name@ == name@
                    && forall|j: int|
                    i < j < self.bindings.len() ==> self.bindings@[j].name@ != name@,
                None => forall|j: int|
                    0 <= j < self.bindings.len() ==> self.bindings@[j].name@ != name@,
            },
    {
        let mut i: usize = self.bindings.len();
        while i > 0
            invariant
                i <= self.bindings.len(),
                forall|j: int| i <= j < self.bindings.len() ==> self.bindings@[j].name@ != name@,
            decreases i,
        {
            i = i - 1;
            if self.bindings[i].name == *name {
                return Some(i);
            }
        }
        None
    }

    /// The value that the frame itself binds to a name.
    pub fn get(&self, name: &String) -> (r: Option<Value>)
        ensures
            match r {
                Some(value) => self@.vars.dom().contains(name@) && self@.vars[name@] == value@,
                None => !self@.vars.dom().contains(name@),
            },
    {
        match self.find(name) {
            Some(i) => {
                proof {
                    lemma_bindings_last(self.bindings@, name@, i as int);
                }
                Some(self.bindings[i].value.duplicate())
            },
            None => {
                proof {
                    lemma_bindings_absent(self.bindings@, name@);
                }
                None
            },
        }
    }

    /// Binds a name to a value in this frame, in place of what the frame
    /// bound to it before.
    pub fn set(&mut self, name: String, value: Value)
        ensures
            final(self)@ == (FrameView {
                vars: old(self)@.vars.insert(name@, value@),
                ..old(self)@
            }),
    {
        let found = self.find(&name);
        let binding = Binding { name, value };
        match found {
            Some(i) => {
                proof {
                    lemma_bindings_update(self.bindings@, i as int, binding);
                }
                self.bindings.set(i, binding);
            },
            None => {
                self.bindings.push(binding);
                assert(self.bindings@.drop_last() =~= old(self).bindings@);
            },
        }
    }
}

/// The frames of a run. The first one is the global frame; a call adds one.
pub struct Environment {
    pub frames: Vec<Frame>,
}

/// The contents of a sequence of frames, one by one.
pub open spec fn frames_view(frames: Seq<Frame>) -> Seq<FrameView> {
    Seq::new(frames.len(), |i: int| frames[i]@)
}

impl View for Environment {
    type V = Seq<FrameView>;

    open spec fn view(&self) -> Seq<FrameView> {
        frames_view(self.frames@)
    }
}

/// The value of a name as seen from a frame: that of the innermost frame
/// that binds the name, going from the frame outwards along the parent
/// links. A link counts only if it leads to an earlier frame.
pub open spec fn lookup_spec(frames: Seq<FrameView>, frame: int, name: Seq<char>) -> Option<
    ValueView,
>
    decreases frame,
{
    if frame < 0 || frame >= frames.len() {
        None
    } else if frames[frame].vars.dom().contains(name) {
        Some(frames[frame].vars[name])
    } else {
        match frames[frame].parent {
            Some(parent) => if parent < frame {
                lookup_spec(frames, parent as int, name)
            } else {
                None
            },
            None => None,
        }
    }
}

/// The index that an integer asks for. A negative integer asks for the index
/// that it wraps to, which no list and no text has.
pub open spec fn index_of_int_spec(i: i32) -> usize {
    if i >= 0 {
        i as usize
    } else {
        (usize::MAX + 1 + i) as usize
    }
}

/// The index that an integer asks for.
pub fn index_of_int(i: i32) -> (r: usize)
    ensures
        r == index_of_int_spec(i),
{
    if i >= 0 {
        i as usize
    } else {
        usize::MAX - ((-(i + 1)) as usize)
    }
}

/// The value of an expression as seen from a frame. The parts of an
/// expression are evaluated from left to right, and the first failure is the
/// failure of the whole.
pub open spec fn eval_spec(frames: Seq<FrameView>, frame: int, expr: ExpressionView) -> Result<
    ValueView,
    ErrorKindView,
>
    decreases expr, 0nat,
{
    match expr {
        ExpressionView::Nil => Ok(ValueView::Nil),
        ExpressionView::Bool(b) => Ok(ValueView::Bool(b)),
        ExpressionView::Int(i) => Ok(ValueView::Int(i)),
        ExpressionView::Float(bits) => Ok(ValueView::Float(bits)),
        ExpressionView::Str(text) => Ok(ValueView::Str(text)),
        ExpressionView::List(items) => match eval_all_spec(frames, frame, items, items.len()) {
            Ok(values) => Ok(ValueView::List(values)),
            Err(kind) => Err(kind),
        },
        ExpressionView::Variable(name) => match lookup_spec(frames, frame, name) {
            Some(value) => Ok(value),
            None => Err(ErrorKindView::UnknownVariable(name)),
        },
        ExpressionView::Index(target, index) => match eval_spec(frames, frame, *target) {
            Ok(container) => match eval_spec(frames, frame, *index) {
                Ok(ValueView::Int(i)) => container.index_spec(index_of_int_spec(i)),
                Ok(other) => Err(
                    ErrorKindView::UnexpectedType { actual: other.type_of(), expected: Type::Int },
                ),
                Err(kind) => Err(kind),
            },
            Err(kind) => Err(kind),
        },
        ExpressionView::Binary(lhs, op, rhs) => match eval_spec(frames, frame, *lhs) {
            Ok(left) => match eval_spec(frames, frame, *rhs) {
                Ok(right) => binary_spec(left, op, right),
                Err(kind) => Err(kind),
            },
            Err(kind) => Err(kind),
        },
    }
}

/// The values of the first `n` expressions of a sequence, or the failure of
/// the first one that fails.
pub open spec fn eval_all_spec(
    frames: Seq<FrameView>,
    frame: int,
    items: Seq<ExpressionView>,
    n: nat,
) -> Result<Seq<ValueView>, ErrorKindView>
    decreases items, n,
{
    if n == 0 || n > items.len() {
        Ok(Seq::empty())
    } else {
        match eval_all_spec(frames, frame, items, (n - 1) as nat) {
            Ok(values) => match eval_spec(frames, frame, items[n - 1]) {
                Ok(value) => Ok(values.push(value)),
                Err(kind) => Err(kind),
            },
            Err(kind) => Err(kind),
        }
    }
}

/// The content of what evaluating a sequence of expressions returns.
pub open spec fn results_view(r: SwResult<Vec<Value>>) -> Result<Seq<ValueView>, ErrorKindView> {
    match r {
        Ok(values) => Ok(values_view(values@)),
        Err(kind) => Err(kind@),
    }
}

/// The content of a value that may be missing.
pub open spec fn found_view(r: Option<Value>) -> Option<ValueView> {
    match r {
        Some(value) => Some(value@),
        None => None,
    }
}

/// The frame in which every run starts: no bindings, no parent.
pub open spec fn global_frame() -> FrameView {
    FrameView { vars: Map::empty(), parent: None, captured: false }
}

impl Environment {
    /// An environment with the global frame alone.
    pub fn new() -> (r: Environment)
        ensures
            r@ == seq![global_frame()],
    {
        let mut frames: Vec<Frame> = Vec::new();
        frames.push(Frame { bindings: Vec::new(), parent: None, captured: false });
        let r = Environment { frames };
        assert(r@ =~= seq![global_frame()]);
        r
    }

    /// The number of frames.
    pub fn len(&self) -> (n: usize)
        ensures
            n == self@.len(),
    {
        self.frames.len()
    }

    /// The value of a name as seen from a frame.
    pub fn lookup(&self, frame: usize, name: &String) -> (r: Option<Value>)
        ensures
            found_view(r) == lookup_spec(self@, frame as int, name@),
    {
        if frame >= self.frames.len() {
            return None;
        }
        let mut current: usize = frame;
        loop
            invariant
                current < self.frames.len(),
                lookup_spec(self@, frame as int, name@) == lookup_spec(
                    self@,
                    current as int,
                    name@,
                ),
            decreases current,
        {
            match self.frames[current].get(name) {
                Some(value) => {
                    return Some(value);
                },
                None => {},
            }
            match self.frames[current].parent {
                Some(parent) => {
                    if parent < current {
                        current = parent;
                    } else {
                        return None;
                    }
                },
                None => {
                    return None;
                },
            }
        }
    }

    /// Binds a name to a value in a frame. An environment that does not have
    /// the frame is left as it is.
    pub fn assign(&mut self, frame: usize, name: String, value: Value)
        ensures
            final(self)@ == assign_spec(old(self)@, frame, name@, value@),
    {
        if frame >= self.frames.len() {
            return ;
        }
        let mut target = Frame { bindings: Vec::new(), parent: None, captured: false };
        std::mem::swap(&mut target, &mut self.frames[frame]);
        target.set(name, value);
        self.frames.set(frame, target);
        assert(self@ =~= old(self)@.update(
            frame as int,
            FrameView {
                vars: old(self)@[frame as int].vars.insert(name@, value@),
                ..old(self)@[frame as int]
            },
        ));
    }

    /// Notes that a function was defined in a frame. An environment that
    /// does not have the frame is left as it is.
    pub fn capture(&mut self, frame: usize)
        ensures
            final(self)@ == capture_spec(old(self)@, frame),
    {
        if frame >= self.frames.len() {
            return ;
        }
        let mut target = Frame { bindings: Vec::new(), parent: None, captured: false };
        std::mem::swap(&mut target, &mut self.frames[frame]);
        target.captured = true;
        self.frames.set(frame, target);
        assert(self@ =~= old(self)@.update(
            frame as int,
            FrameView { captured: true, ..old(self)@[frame as int] },
        ));
    }

    /// Adds an empty frame with the given parent and returns its place.
    pub fn push_frame(&mut self, parent: Option<usize>) -> (frame: usize)
        ensures
            frame == old(self)@.len(),
            final(self)@ == old(self)@.push(
                FrameView { vars: Map::empty(), parent, captured: false },
            ),
    {
        let frame = self.frames.len();
        self.frames.push(Frame { bindings: Vec::new(), parent, captured: false });
        assert(self@ =~= old(self)@.push(
            FrameView { vars: Map::empty(), parent, captured: false },
        ));
        frame
    }

    /// Destroys a frame at the end of the call that it was made for. The
    /// frame stays if a function was defined in it, or if it is not the last
    /// one; the global frame always stays.
    pub fn release_frame(&mut self, frame: usize)
        ensures
            final(self)@ == release_spec(old(self)@, frame),
    {
        let n = self.frames.len();
        if frame > 0 && n > 0 && frame == n - 1 && !self.frames[frame].captured {
            self.frames.pop();
            assert(self@ =~= old(self)@.drop_last());
        }
    }

    /// The value of an expression as seen from a frame.
    pub fn evaluate(&self, frame: usize, expr: &Expression) -> (r: SwResult<Value>)
        ensures
            result_view(r) == eval_spec(self@, frame as int, expr@),
        decreases expr, 0nat,
    {
        match expr {
            Expression::Nil => Ok(Value::Nil),
            Expression::Bool(b) => Ok(Value::Bool(*b)),
            Expression::Int(i) => Ok(Value::Int(*i)),
            Expression::Float(bits) => Ok(Value::Float(*bits)),
            Expression::Str(text) => Ok(Value::Str(text.clone())),
            Expression::List(items) => {
                assert(decreases_to!(*expr => expr->List_0));
                match self.evaluate_all(frame, items) {
                    Ok(values) => Ok(Value::List(values)),
                    Err(kind) => Err(kind),
                }
            },
            Expression::Variable(name) => match self.lookup(frame, name) {
                Some(value) => Ok(value),
                None => Err(ErrorKind::UnknownVariable(name.clone())),
            },
            Expression::Index(target, index) => {
                let container = self.evaluate(frame, target)?;
                match self.evaluate(frame, index)? {
                    Value::Int(i) => container.index(index_of_int(i)),
                    other => Err(
                        ErrorKind::UnexpectedType { actual: other.get_type(), expected: Type::Int },
                    ),
                }
            },
            Expression::Binary(lhs, op, rhs) => {
                let left = self.evaluate(frame, lhs)?;
                let right = self.evaluate(frame, rhs)?;
                left.binary(*op, &right)
            },
        }
    }

    /// The values of the expressions of a sequence as seen from a frame, or
    /// the failure of the first one that fails.
    pub fn evaluate_all(&self, frame: usize, items: &Vec<Expression>) -> (r: SwResult<Vec<Value>>)
        ensures
            results_view(r) == eval_all_spec(
                self@,
                frame as int,
                crate::statement::expressions_view(items@),
                items@.len(),
            ),
            r matches Ok(values) ==> values@.len() == items@.len(),
        decreases items, items@.len(),
    {
        let ghost views = crate::statement::expressions_view(items@);
        let mut values: Vec<Value> = Vec::new();
        let mut i: usize = 0;
        assert(values_view(values@) =~= Seq::<ValueView>::empty());
        while i < items.len()
            invariant
                i <= items.len(),
                values@.len() == i,
                views == crate::statement::expressions_view(items@),
                eval_all_spec(self@, frame as int, views, i as nat) == Ok::<
                    Seq<ValueView>,
                    ErrorKindView,
                >(values_view(values@)),
            decreases items.len() - i,
        {
            match self.evaluate(frame, &items[i]) {
                Ok(value) => {
                    let ghost before = values_view(values@);
                    values.push(value);
                    assert(values_view(values@) =~= before.push(value@));
                    i = i + 1;
                },
                Err(kind) => {
                    proof {
                        lemma_eval_all_fails(self@, frame as int, views, i as nat, items@.len());
                    }
                    return Err(kind);
                },
            }
        }
        Ok(values)
    }
}

/// The frames after a name was bound to a value in one of them.
pub open spec fn assign_spec(
    frames: Seq<FrameView>,
    frame: usize,
    name: Seq<char>,
    value: ValueView,
) -> Seq<FrameView> {
    if frame < frames.len() {
        frames.update(
            frame as int,
            FrameView { vars: frames[frame as int].vars.insert(name, value), ..frames[frame as int] },
        )
    } else {
        frames
    }
}

/// The frames after a function was defined in one of them.
pub open spec fn capture_spec(frames: Seq<FrameView>, frame: usize) -> Seq<FrameView> {
    if frame < frames.len() {
        frames.update(frame as int, FrameView { captured: true, ..frames[frame as int] })
    } else {
        frames
    }
}

/// The frames after the destruction of a frame: without their last one if
/// that is the frame, if it is not the global frame and if no function was
/// defined in it; unchanged otherwise.
pub open spec fn release_spec(frames: Seq<FrameView>, frame: usize) -> Seq<FrameView> {
    if frame > 0 && frame == frames.len() - 1 && !frames[frame as int].captured {
        frames.drop_last()
    } else {
        frames
    }
}

/// Once an expression of a sequence has failed, the failure stays whatever
/// follows it.
proof fn lemma_eval_all_fails(
    frames: Seq<FrameView>,
    frame: int,
    items: Seq<ExpressionView>,
    i: nat,
    n: nat,
)
    requires
        i < n <= items.len(),
        eval_all_spec(frames, frame, items, i) is Ok,
        eval_spec(frames, frame, items[i as int]) is Err,
    ensures
        eval_all_spec(frames, frame, items, n) == Err::<Seq<ValueView>, ErrorKindView>(
            eval_spec(frames, frame, items[i as int])->Err_0,
        ),
    decreases n,
{
    if n > i + 1 {
        lemma_eval_all_fails(frames, frame, items, i, (n - 1) as nat);
    }
}

} // verus!
