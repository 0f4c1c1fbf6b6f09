//! The execution engine: a field, an instruction pointer, an operand stack,
//! string mode and the halt flag, advanced one instruction at a time.

use vstd::prelude::*;

use crate::command::{command_of, BefungeCommand, QUOTE};
use crate::field::{FieldView, FungeField};
use crate::ops::{below_top, top_or_zero, FungeError, FungeStack};
use crate::pointer::{Delta, FungePointer};

verus! {

/// What a step asks of the world around the engine.
#[derive(Clone, Copy, Debug, PartialEq, Eq, Structural)]
pub enum StepEffect {
    /// Nothing beyond the engine's own state.
    Nothing,
    /// Write the value as a character.
    WriteCharacter(i32),
    /// Write the value as a number.
    WriteNumber(i32),
    /// The instruction under the pointer waits for the code of a character,
    /// to be handed over with `provide_input`.
    ReadCharacter,
    /// The instruction under the pointer waits for an integer, to be handed
    /// over with `provide_input`.
    ReadNumber,
    /// The instruction under the pointer waits for a direction chosen
    /// uniformly at random, to be handed over with `provide_direction`.
    ChooseDirection,
}

/// The outcome asks for a value before the instruction can finish.
pub open spec fn is_request(r: Result<StepEffect, FungeError>) -> bool {
    match r {
        Ok(StepEffect::ReadCharacter) => true,
        Ok(StepEffect::ReadNumber) => true,
        Ok(StepEffect::ChooseDirection) => true,
        _ => false,
    }
}

/// Truncating quotient of `a` by a nonzero `b`; the one overflowing case,
/// `i32::MIN / -1`, wraps to `i32::MIN`.
pub open spec fn quotient(a: i32, b: i32) -> i32 {
    match a.checked_div(b) {
        Some(q) => q,
        None => i32::MIN,
    }
}

/// Remainder of the truncating division of `a` by a nonzero `b`, with the
/// sign of `a`; `i32::MIN % -1` is `0`.
pub open spec fn remainder(a: i32, b: i32) -> i32 {
    match a.checked_rem(b) {
        Some(r) => r,
        None => 0,
    }
}

/// The mathematical state of the engine.
pub struct ExecutionView {
    pub pc: FungePointer,
    pub string_mode: bool,
    pub active: bool,
    pub field: FieldView,
    pub stack: Seq<i32>,
}

impl ExecutionView {
    /// The field is well formed and the pointer lies on it.
    pub open spec fn wf(self) -> bool {
        &&& self.field.wf()
        &&& self.pc.within(self.field.width as usize, self.field.height as usize)
    }

    /// A fresh engine on `field`: pointer at the top-left corner travelling
    /// right, empty stack, running, not in string mode.
    pub open spec fn initial(field: FieldView) -> ExecutionView {
        ExecutionView {
            pc: FungePointer { x: 0, y: 0, delta: Delta::Right },
            string_mode: false,
            active: true,
            field,
            stack: Seq::empty(),
        }
    }

    pub open spec fn with_stack(self, stack: Seq<i32>) -> ExecutionView {
        ExecutionView { stack, ..self }
    }

    pub open spec fn heading(self, delta: Delta) -> ExecutionView {
        ExecutionView { pc: FungePointer { delta, ..self.pc }, ..self }
    }

    /// The pointer one cell further in its direction, wrapping at the edges.
    pub open spec fn advanced(self) -> ExecutionView {
        ExecutionView {
            pc: self.pc.moved(self.field.width as usize, self.field.height as usize),
            ..self
        }
    }

    /// The cell under the pointer.
    pub open spec fn current(self) -> Option<i32> {
        self.field.get(self.pc.x as int, self.pc.y as int)
    }

    /// The error for the instruction `opcode` under the pointer.
    pub open spec fn fault(self, opcode: i32) -> FungeError {
        FungeError { opcode, x: self.pc.x, y: self.pc.y }
    }

    /// A binary instruction: pop `a`, pop `b`, push `f(a, b)`.
    pub open spec fn binary(self, f: spec_fn(i32, i32) -> i32) -> ExecutionView {
        let a = top_or_zero(self.stack);
        let b = top_or_zero(below_top(self.stack));
        self.with_stack(below_top(below_top(self.stack)).push(f(a, b)))
    }

    /// A division-like instruction: pop `a`, pop `b`; a zero `b` halts with an
    /// error, any other pushes `f(a, b)`.
    pub open spec fn dividing(self, opcode: i32, f: spec_fn(i32, i32) -> i32) -> (
        ExecutionView,
        Result<StepEffect, FungeError>,
    ) {
        let b = top_or_zero(below_top(self.stack));
        if b == 0 {
            (
                ExecutionView {
                    active: false,
                    ..self.with_stack(below_top(below_top(self.stack)))
                },
                Err(self.fault(opcode)),
            )
        } else {
            (self.binary(f), Ok(StepEffect::Nothing))
        }
    }

    /// The effect of `cmd`, before the pointer moves on.
    pub open spec fn execute(self, cmd: BefungeCommand) -> (
        ExecutionView,
        Result<StepEffect, FungeError>,
    ) {
        let s = self.stack;
        let a = top_or_zero(s);
        let s1 = below_top(s);
        let b = top_or_zero(s1);
        let s2 = below_top(s1);
        let done = Ok::<StepEffect, FungeError>(StepEffect::Nothing);
        match cmd {
            BefungeCommand::NoOp => (self, done),
            BefungeCommand::Negate => (
                self.with_stack(
                    s1.push(
                        if a == 0 {
                            1i32
                        } else {
                            0i32
                        },
                    ),
                ),
                done,
            ),
            BefungeCommand::ToggleStringMode => (ExecutionView { string_mode: true, ..self }, done),
            BefungeCommand::Bridge => (self.advanced(), done),
            BefungeCommand::Discard => (self.with_stack(s1), done),
            BefungeCommand::Modulo => self.dividing('%' as i32, |x: i32, y: i32| remainder(x, y)),
            BefungeCommand::ReadInt => (self, Ok(StepEffect::ReadNumber)),
            BefungeCommand::Multiply => (self.binary(|x: i32, y: i32| x.wrapping_mul(y)), done),
            BefungeCommand::Add => (self.binary(|x: i32, y: i32| x.wrapping_add(y)), done),
            BefungeCommand::WriteChar => (self.with_stack(s1), Ok(StepEffect::WriteCharacter(a))),
            BefungeCommand::Subtract => (self.binary(|x: i32, y: i32| x.wrapping_sub(y)), done),
            BefungeCommand::WriteInt => (self.with_stack(s1), Ok(StepEffect::WriteNumber(a))),
            BefungeCommand::Divide => self.dividing('/' as i32, |x: i32, y: i32| quotient(x, y)),
            BefungeCommand::Duplicate => (self.with_stack(s1.push(a).push(a)), done),
            BefungeCommand::Left => (self.heading(Delta::Left), done),
            BefungeCommand::Right => (self.heading(Delta::Right), done),
            BefungeCommand::Random => (self, Ok(StepEffect::ChooseDirection)),
            BefungeCommand::Stop => (ExecutionView { active: false, ..self }, done),
            BefungeCommand::Swap => (self.with_stack(s2.push(a).push(b)), done),
            BefungeCommand::Up => (self.heading(Delta::Up), done),
            BefungeCommand::IfLeftRight => (
                self.with_stack(s1).heading(
                    if a > 0 {
                        Delta::Left
                    } else {
                        Delta::Right
                    },
                ),
                done,
            ),
            BefungeCommand::Compare => (
                self.with_stack(
                    s2.push(
                        if a > b {
                            1i32
                        } else {
                            0i32
                        },
                    ),
                ),
                done,
            ),
            BefungeCommand::ReadCell => (
                self.with_stack(
                    match self.field.get(b as int, a as int) {
                        Some(v) => s2.push(v),
                        None => s2,
                    },
                ),
                done,
            ),
            BefungeCommand::WriteCell => (
                ExecutionView {
                    stack: below_top(s2),
                    field: self.field.set(b as int, a as int, top_or_zero(s2)),
                    ..self
                },
                done,
            ),
            BefungeCommand::Down => (self.heading(Delta::Down), done),
            BefungeCommand::IfUpDown => (
                self.with_stack(s1).heading(
                    if a > 0 {
                        Delta::Up
                    } else {
                        Delta::Down
                    },
                ),
                done,
            ),
            BefungeCommand::ReadChar => (self, Ok(StepEffect::ReadCharacter)),
            BefungeCommand::Digit(d) => (self.with_stack(s.push(d)), done),
            BefungeCommand::Push(v) => (self.with_stack(s.push(v)), done),
        }
    }

    /// One step: a halted engine stays as it is; in string mode the cell under
    /// the pointer is pushed, or ends string mode if it is `"`; otherwise its
    /// command runs. Then, unless the engine halted or the instruction waits
    /// for a value, the pointer moves one cell on.
    pub open spec fn step(self) -> (ExecutionView, Result<StepEffect, FungeError>) {
        let done = Ok::<StepEffect, FungeError>(StepEffect::Nothing);
        if !self.active {
            (self, done)
        } else {
            match self.current() {
                None => (self.advanced(), done),
                Some(c) => if self.string_mode {
                    if c == QUOTE {
                        (ExecutionView { string_mode: false, ..self }.advanced(), done)
                    } else {
                        (self.with_stack(self.stack.push(c)).advanced(), done)
                    }
                } else {
                    let (next, r) = self.execute(command_of(c));
                    if next.active && !is_request(r) {
                        (next.advanced(), r)
                    } else {
                        (next, r)
                    }
                },
            }
        }
    }

    /// The instruction under the pointer waits for a value of the input.
    pub open spec fn awaits_input(self) -> bool {
        &&& self.active
        &&& !self.string_mode
        &&& self.current() matches Some(c)
        &&& (command_of(c) == BefungeCommand::ReadInt || command_of(c)
            == BefungeCommand::ReadChar)
    }

    /// The instruction under the pointer waits for a random direction.
    pub open spec fn awaits_direction(self) -> bool {
        &&& self.active
        &&& !self.string_mode
        &&& self.current() matches Some(c)
        &&& command_of(c) == BefungeCommand::Random
    }

    /// Finishing a waiting read with `value`: push it and move on.
    pub open spec fn resumed_with_input(self, value: i32) -> ExecutionView {
        if self.awaits_input() {
            self.with_stack(self.stack.push(value)).advanced()
        } else {
            self
        }
    }

    /// Finishing a waiting random turn with `delta`: turn and move on.
    pub open spec fn resumed_with_direction(self, delta: Delta) -> ExecutionView {
        if self.awaits_direction() {
            self.heading(delta).advanced()
        } else {
            self
        }
    }
}

/// Dividing or taking a remainder by zero consumes both operands, pushes
/// nothing, halts the engine, and reports the instruction and its position.
pub proof fn lemma_division_by_zero_halts(m: ExecutionView)
    requires
        m.active,
        !m.string_mode,
        m.current() == Some(47i32) || m.current() == Some(37i32),
        top_or_zero(below_top(m.stack)) == 0,
    ensures
        m.step().1 == Err::<StepEffect, FungeError>(m.fault(m.current()->0)),
        !m.step().0.active,
        m.step().0.stack == below_top(below_top(m.stack)),
        m.step().0.pc == m.pc,
        m.step().0.field == m.field,
{
}

/// Once halted, the engine stays as it is, step after step.
pub proof fn lemma_halt_is_terminal(m: ExecutionView)
    requires
        !m.active,
    ensures
        m.step() == (m, Ok::<StepEffect, FungeError>(StepEffect::Nothing)),
{
}

/// A step keeps the engine well formed: in particular the pointer stays on the field.
pub proof fn lemma_step_keeps_pointer_on_field(m: ExecutionView)
    requires
        m.wf(),
    ensures
        m.step().0.wf(),
        m.step().0.field.width == m.field.width,
        m.step().0.field.height == m.field.height,
{
    let w = m.field.width as usize;
    let h = m.field.height as usize;
    m.pc.lemma_moved_within(w, h);
    m.pc.moved(w, h).lemma_moved_within(w, h);
    if m.active && !m.string_mode && m.current() is Some {
        let c = m.current()->0;
        let s1 = below_top(m.stack);
        let s2 = below_top(s1);
        m.field.lemma_get_set(top_or_zero(s1) as int, top_or_zero(m.stack) as int, top_or_zero(s2), 0, 0);
        let (next, r) = m.execute(command_of(c));
        next.pc.lemma_moved_within(w, h);
    }
}

/// The engine.
pub struct BefungeExecution {
    pc: FungePointer,
    string_mode: bool,
    field: FungeField,
    stack: Vec<i32>,
    active: bool,
}

impl View for BefungeExecution {
    type V = ExecutionView;

    closed spec fn view(&self) -> ExecutionView {
        ExecutionView {
            pc: self.pc,
            string_mode: self.string_mode,
            active: self.active,
            field: self.field@,
            stack: self.stack@,
        }
    }
}

impl BefungeExecution {
    pub open spec fn wf(&self) -> bool {
        self@.wf()
    }

    /// A running engine on `field`, pointer at the top-left corner travelling
    /// right, with an empty stack.
    pub fn new(field: FungeField) -> (r: Self)
        requires
            field.wf(),
        ensures
            r.wf(),
            r@ == ExecutionView::initial(field@),
    {
        BefungeExecution {
            pc: FungePointer::new(),
            string_mode: false,
            field,
            stack: Vec::new(),
            active: true,
        }
    }

    /// The pointer's column, row and direction.
    pub fn pc(&self) -> (r: (usize, usize, Delta))
        ensures
            r == (self@.pc.x, self@.pc.y, self@.pc.delta),
    {
        (self.pc.x, self.pc.y, self.pc.delta)
    }

    /// A copy of the stack, bottom first.
    pub fn stack(&self) -> (r: Vec<i32>)
        ensures
            r@ == self@.stack,
    {
        let r = self.stack.clone();
        assert(r@ =~= self.stack@);
        r
    }

    /// The field cell at `(x, y)`, or `None` outside the field.
    pub fn get(&self, x: usize, y: usize) -> (r: Option<i32>)
        requires
            self.wf(),
        ensures
            r == self@.field.get(x as int, y as int),
    {
        self.field.get(x, y)
    }

    /// The field as it stands.
    pub fn field(&self) -> (r: &FungeField)
        ensures
            r@ == self@.field,
    {
        &self.field
    }

    /// The engine has not halted.
    pub fn is_active(&self) -> (r: bool)
        ensures
            r == self@.active,
    {
        self.active
    }

    /// Moves the pointer one cell in its direction, wrapping at the edges.
    pub fn move_pc(&mut self)
        requires
            old(self).wf(),
        ensures
            final(self).wf(),
            final(self)@ == old(self)@.advanced(),
    {
        let width = self.field.width();
        let height = self.field.height();
        self.pc.advance(width, height);
    }

    fn pop(&mut self) -> (r: i32)
        ensures
            r == top_or_zero(old(self)@.stack),
            final(self)@ == old(self)@.with_stack(below_top(old(self)@.stack)),
    {
        <Vec<i32> as FungeStack<i32>>::pop(&mut self.stack)
    }

    fn push(&mut self, value: i32)
        ensures
            final(self)@ == old(self)@.with_stack(old(self)@.stack.push(value)),
    {
        <Vec<i32> as FungeStack<i32>>::push(&mut self.stack, value);
    }

    fn fault(&self, opcode: i32) -> (r: FungeError)
        ensures
            r == self@.fault(opcode),
    {
        FungeError { opcode, x: self.pc.x, y: self.pc.y }
    }

    /// Runs `cmd`, leaving the pointer where it is unless `cmd` is a bridge.
    fn execute(&mut self, cmd: BefungeCommand) -> (r: Result<StepEffect, FungeError>)
        requires
            old(self).wf(),
        ensures
            final(self).wf(),
            (final(self)@, r) == old(self)@.execute(cmd),
    {
        match cmd {
            BefungeCommand::NoOp => Ok(StepEffect::Nothing),
            BefungeCommand::Negate => {
                let a = self.pop();
                self.push(
                    if a == 0 {
                        1
                    } else {
                        0
                    },
                );
                Ok(StepEffect::Nothing)
            },
            BefungeCommand::ToggleStringMode => {
                self.string_mode = true;
                Ok(StepEffect::Nothing)
            },
            BefungeCommand::Bridge => {
                self.move_pc();
                Ok(StepEffect::Nothing)
            },
            BefungeCommand::Discard => {
                let _ = self.pop();
                Ok(StepEffect::Nothing)
            },
            BefungeCommand::Modulo => {
                let a = self.pop();
                let b = self.pop();
                if b == 0 {
                    self.active = false;
                    Err(self.fault('%' as i32))
                } else {
                    let r = match a.checked_rem(b) {
                        Some(r) => r,
                        None => 0,
                    };
                    self.push(r);
                    Ok(StepEffect::Nothing)
                }
            },
            BefungeCommand::ReadInt => Ok(StepEffect::ReadNumber),
            BefungeCommand::Multiply => {
                let a = self.pop();
                let b = self.pop();
                self.push(a.wrapping_mul(b));
                Ok(StepEffect::Nothing)
            },
            BefungeCommand::Add => {
                let a = self.pop();
                let b = self.pop();
                self.push(a.wrapping_add(b));
                Ok(StepEffect::Nothing)
            },
            BefungeCommand::WriteChar => {
                let a = self.pop();
                Ok(StepEffect::WriteCharacter(a))
            },
            BefungeCommand::Subtract => {
                let a = self.pop();
                let b = self.pop();
                self.push(a.wrapping_sub(b));
                Ok(StepEffect::Nothing)
            },
            BefungeCommand::WriteInt => {
                let a = self.pop();
                Ok(StepEffect::WriteNumber(a))
            },
            BefungeCommand::Divide => {
                let a = self.pop();
                let b = self.pop();
                if b == 0 {
                    self.active = false;
                    Err(self.fault('/' as i32))
                } else {
                    let q = match a.checked_div(b) {
                        Some(q) => q,
                        None => i32::MIN,
                    };
                    self.push(q);
                    Ok(StepEffect::Nothing)
                }
            },
            BefungeCommand::Duplicate => {
                let a = self.pop();
                self.push(a);
                self.push(a);
                Ok(StepEffect::Nothing)
            },
            BefungeCommand::Left => {
                self.pc.delta = Delta::Left;
                Ok(StepEffect::Nothing)
            },
            BefungeCommand::Right => {
                self.pc.delta = Delta::Right;
                Ok(StepEffect::Nothing)
            },
            BefungeCommand::Random => Ok(StepEffect::ChooseDirection),
            BefungeCommand::Stop => {
                self.active = false;
                Ok(StepEffect::Nothing)
            },
            BefungeCommand::Swap => {
                let a = self.pop();
                let b = self.pop();
                self.push(a);
                self.push(b);
                Ok(StepEffect::Nothing)
            },
            BefungeCommand::Up => {
                self.pc.delta = Delta::Up;
                Ok(StepEffect::Nothing)
            },
            BefungeCommand::IfLeftRight => {
                let a = self.pop();
                self.pc.delta = if a > 0 {
                    Delta::Left
                } else {
                    Delta::Right
                };
                Ok(StepEffect::Nothing)
            },
            BefungeCommand::Compare => {
                let a = self.pop();
                let b = self.pop();
                self.push(
                    if a > b {
                        1
                    } else {
                        0
                    },
                );
                Ok(StepEffect::Nothing)
            },
            BefungeCommand::ReadCell => {
                let row = self.pop();
                let col = self.pop();
                if row >= 0 && col >= 0 {
                    if let Some(v) = self.field.get(col as usize, row as usize) {
                        self.push(v);
                    }
                }
                Ok(StepEffect::Nothing)
            },
            BefungeCommand::WriteCell => {
                let row = self.pop();
                let col = self.pop();
                let value = self.pop();
                if row >= 0 && col >= 0 {
                    self.field.set(col as usize, row as usize, value);
                }
                Ok(StepEffect::Nothing)
            },
            BefungeCommand::Down => {
                self.pc.delta = Delta::Down;
                Ok(StepEffect::Nothing)
            },
            BefungeCommand::IfUpDown => {
                let a = self.pop();
                self.pc.delta = if a > 0 {
                    Delta::Up
                } else {
                    Delta::Down
                };
                Ok(StepEffect::Nothing)
            },
            BefungeCommand::ReadChar => Ok(StepEffect::ReadCharacter),
            BefungeCommand::Digit(d) => {
                self.push(d);
                Ok(StepEffect::Nothing)
            },
            BefungeCommand::Push(v) => {
                self.push(v);
                Ok(StepEffect::Nothing)
            },
        }
    }

    /// Executes one instruction, as `ExecutionView::step` states. A division
    /// or remainder by zero halts the engine and comes back as an error; an
    /// instruction that needs a value from outside leaves the engine as it is
    /// and says which value it waits for.
    pub fn step(&mut self) -> (r: Result<StepEffect, FungeError>)
        requires
            old(self).wf(),
        ensures
            final(self).wf(),
            (final(self)@, r) == old(self)@.step(),
    {
        if !self.active {
            return Ok(StepEffect::Nothing);
        }
        match self.field.get(self.pc.x, self.pc.y) {
            None => {
                self.move_pc();
                Ok(StepEffect::Nothing)
            },
            Some(c) => {
                if self.string_mode {
                    if c == QUOTE {
                        self.string_mode = false;
                    } else {
                        self.push(c);
                    }
                    self.move_pc();
                    Ok(StepEffect::Nothing)
                } else {
                    let r = self.execute(BefungeCommand::decode(c));
                    let waits = match r {
                        Ok(StepEffect::ReadCharacter) => true,
                        Ok(StepEffect::ReadNumber) => true,
                        Ok(StepEffect::ChooseDirection) => true,
                        _ => false,
                    };
                    if self.active && !waits {
                        self.move_pc();
                    }
                    r
                }
            },
        }
    }

    /// The instruction under the pointer waits for a value of the input.
    pub fn awaits_input(&self) -> (r: bool)
        requires
            self.wf(),
        ensures
            r == self@.awaits_input(),
    {
        if !self.active || self.string_mode {
            return false;
        }
        match self.field.get(self.pc.x, self.pc.y) {
            Some(c) => {
                let cmd = BefungeCommand::decode(c);
                cmd == BefungeCommand::ReadInt || cmd == BefungeCommand::ReadChar
            },
            None => false,
        }
    }

    /// The instruction under the pointer waits for a random direction.
    pub fn awaits_direction(&self) -> (r: bool)
        requires
            self.wf(),
        ensures
            r == self@.awaits_direction(),
    {
        if !self.active || self.string_mode {
            return false;
        }
        match self.field.get(self.pc.x, self.pc.y) {
            Some(c) => BefungeCommand::decode(c) == BefungeCommand::Random,
            None => false,
        }
    }

    /// Finishes a read (`&` or `~`) that `step` left waiting: pushes `value`
    /// and moves on. Does nothing when no read waits.
    pub fn provide_input(&mut self, value: i32)
        requires
            old(self).wf(),
        ensures
            final(self).wf(),
            final(self)@ == old(self)@.resumed_with_input(value),
    {
        if self.awaits_input() {
            self.push(value);
            self.move_pc();
        }
    }

    /// Finishes a random turn (`?`) that `step` left waiting: turns to `delta`
    /// and moves on. Does nothing when no random turn waits.
    pub fn provide_direction(&mut self, delta: Delta)
        requires
            old(self).wf(),
        ensures
            final(self).wf(),
            final(self)@ == old(self)@.resumed_with_direction(delta),
    {
        if self.awaits_direction() {
            self.pc.delta = delta;
            self.move_pc();
        }
    }
}

} // verus!
