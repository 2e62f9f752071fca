//! The interpreter: it binds a model, an operator resolver, an arena and an
//! error reporter, keeps the allocation plan, hands out tensor views, and
//! decides each step of an invocation.
//!
//! The engine that runs the kernels is not part of this crate. An invocation
//! therefore takes two steps: the caller requests it and learns whether the
//! engine may run; after the engine has run on `engine_memory`, the caller
//! hands in the engine's status and learns the result.

use vstd::prelude::*;
use vstd::slice::slice_subrange;
use crate::error::Error;
use crate::error::Status;
use crate::micro_error_reporter::MicroErrorReporter;
use crate::micro_op_resolver::first_missing;
use crate::micro_op_resolver::lemma_nothing_missing;
use crate::micro_op_resolver::MicroOpResolver;
use crate::model::Model;
use crate::plan::AllocationPlan;
use crate::plan::TensorSlot;
use crate::tensor::Tensor;
use crate::tensor::TensorInfo;
use crate::tensor::TensorMut;

verus! {

/// Where an interpreter stands. Construction ends in `Ready`; `Faulted` is
/// final.
#[derive(Clone, Copy, Debug, PartialEq, Eq, Structural)]
pub enum State {
    /// The allocation plan stands and no invocation is under way.
    Ready,
    /// The engine has been told to run and has not returned yet.
    Invoking,
    /// An invocation has failed. Only a new interpreter can run the graph.
    Faulted,
}

/// What happens to an interpreter during an invocation.
#[derive(Clone, Copy, Debug, PartialEq, Eq, Structural)]
pub enum InvokeEvent {
    /// The caller asks for the graph to be run.
    Requested,
    /// The engine has run the graph's kernels and returns its status.
    EngineReturned(Status),
}

/// What the interpreter wants done next.
#[derive(Clone, Copy, Debug, PartialEq, Eq, Structural)]
pub enum InvokeAction {
    /// Run the engine on `engine_memory`, then hand in its status.
    RunEngine,
    /// The invocation is over, with this status.
    Return(Status),
}

/// The outcome of one step: the next state, the action, and the diagnostic to
/// deliver, if any.
#[derive(Clone, Copy, Debug, PartialEq, Eq, Structural)]
pub struct Step {
    pub state: State,
    pub action: InvokeAction,
    pub report: Option<Error>,
}

/// The transition relation of an invocation. `missing` is the first operator
/// of the graph that the resolver does not hold.
pub open spec fn step(state: State, missing: Option<u32>, event: InvokeEvent) -> Step {
    match (state, event) {
        (State::Faulted, _) => Step {
            state: State::Faulted,
            action: InvokeAction::Return(Status::Failure),
            report: None,
        },
        (State::Ready, InvokeEvent::Requested) => match missing {
            None => Step { state: State::Invoking, action: InvokeAction::RunEngine, report: None },
            Some(op_code) => Step {
                state: State::Faulted,
                action: InvokeAction::Return(Status::Failure),
                report: Some(Error::UnsupportedOperator { op_code }),
            },
        },
        (State::Invoking, InvokeEvent::EngineReturned(Status::Success)) => Step {
            state: State::Ready,
            action: InvokeAction::Return(Status::Success),
            report: None,
        },
        // The engine failed, or the event came out of turn: a status with no
        // invocation under way, or a request during one.
        _ => Step {
            state: State::Faulted,
            action: InvokeAction::Return(Status::Failure),
            report: Some(Error::InvokeFailure),
        },
    }
}

/// Decides one step of an invocation.
pub fn decide(state: State, missing: Option<u32>, event: InvokeEvent) -> (next: Step)
    ensures
        next == step(state, missing, event),
{
    match (state, event) {
        (State::Faulted, _) => Step {
            state: State::Faulted,
            action: InvokeAction::Return(Status::Failure),
            report: None,
        },
        (State::Ready, InvokeEvent::Requested) => match missing {
            None => Step { state: State::Invoking, action: InvokeAction::RunEngine, report: None },
            Some(op_code) => Step {
                state: State::Faulted,
                action: InvokeAction::Return(Status::Failure),
                report: Some(Error::UnsupportedOperator { op_code }),
            },
        },
        (State::Invoking, InvokeEvent::EngineReturned(Status::Success)) => Step {
            state: State::Ready,
            action: InvokeAction::Return(Status::Success),
            report: None,
        },
        _ => Step {
            state: State::Faulted,
            action: InvokeAction::Return(Status::Failure),
            report: Some(Error::InvokeFailure),
        },
    }
}

/// The part of `memory` that `slot` occupies.
pub open spec fn region(memory: Seq<u8>, slot: TensorSlot) -> Seq<u8> {
    memory.subrange(slot.offset as int, slot.offset + slot.bytes)
}

/// `memory` with the part that `slot` occupies replaced by `bytes`.
pub open spec fn with_region(memory: Seq<u8>, slot: TensorSlot, bytes: Seq<u8>) -> Seq<u8> {
    memory.subrange(0, slot.offset as int) + bytes + memory.subrange(
        slot.offset + slot.bytes,
        memory.len() as int,
    )
}

/// An interpreter as contracts see it.
pub struct InterpreterView {
    /// The bytes of the model.
    pub model: Seq<u8>,
    /// The operators that the resolver holds.
    pub operators: Seq<u32>,
    /// The contents of the arena.
    pub memory: Seq<u8>,
    pub plan: AllocationPlan,
    pub state: State,
    /// The latest diagnostic that the error reporter holds.
    pub report: Option<Error>,
}

impl InterpreterView {
    /// The slot of the `n`-th input tensor.
    pub open spec fn input_slot(self, n: int) -> TensorSlot {
        self.plan.tensors@[self.plan.inputs@[n] as int]
    }

    /// The slot of the `n`-th output tensor.
    pub open spec fn output_slot(self, n: int) -> TensorSlot {
        self.plan.tensors@[self.plan.outputs@[n] as int]
    }

    /// The first operator of the graph that the resolver does not hold.
    pub open spec fn missing_operator(self) -> Option<u32> {
        first_missing(self.plan.operators@, self.operators)
    }

    /// What `event` leads to in this interpreter.
    pub open spec fn next(self, event: InvokeEvent) -> Step {
        step(self.state, self.missing_operator(), event)
    }

    /// The interpreter after `event`: the state has moved and the diagnostic,
    /// if there is one, has reached the error reporter. Model, operators,
    /// plan and arena are as before.
    pub open spec fn after(self, event: InvokeEvent) -> InterpreterView {
        InterpreterView {
            state: self.next(event).state,
            report: match self.next(event).report {
                Some(error) => Some(error),
                None => self.report,
            },
            ..self
        }
    }
}

/// What the engine is handed for one run of the graph: plain data only.
pub struct EngineAccess<'r> {
    /// The bytes of the model.
    pub model: &'r [u8],
    /// The operators for which a kernel is registered.
    pub operators: &'r [u32],
    /// Where each tensor lies in `memory`.
    pub plan: &'r AllocationPlan,
    /// The arena.
    pub memory: &'r mut [u8],
}

/// An interpreter for one model. It borrows the model, the arena and the
/// error reporter for as long as it lives, and owns the operator resolver.
pub struct MicroInterpreter<'a> {
    model: &'a Model<'a>,
    resolver: MicroOpResolver,
    arena: &'a mut [u8],
    reporter: &'a mut MicroErrorReporter,
    plan: AllocationPlan,
    state: State,
}

impl<'a> View for MicroInterpreter<'a> {
    type V = InterpreterView;

    closed spec fn view(&self) -> InterpreterView {
        InterpreterView {
            model: self.model.bytes(),
            operators: self.resolver@,
            memory: self.arena@,
            plan: self.plan,
            state: self.state,
            report: self.reporter.last(),
        }
    }
}

impl<'a> MicroInterpreter<'a> {
    /// The allocation plan can be carried out in the arena.
    pub open spec fn wf(self) -> bool {
        self@.plan.valid_for(self@.memory.len())
    }

    /// Binds the four resources and takes over the allocation plan that the
    /// planning pass has made for them. The interpreter works in the first
    /// `tensor_arena_size` bytes of the arena.
    pub fn new(
        model: &'a Model<'a>,
        resolver: MicroOpResolver,
        tensor_arena: &'a mut [u8],
        tensor_arena_size: usize,
        micro_error_reporter: &'a mut MicroErrorReporter,
        plan: AllocationPlan,
    ) -> (interpreter: Self)
        requires
            tensor_arena_size <= old(tensor_arena)@.len(),
            plan.valid_for(tensor_arena_size as nat),
        ensures
            interpreter.wf(),
            interpreter@ == (InterpreterView {
                model: model.bytes(),
                operators: resolver@,
                memory: old(tensor_arena)@.take(tensor_arena_size as int),
                plan: plan,
                state: State::Ready,
                report: old(micro_error_reporter).last(),
            }),
    {
        let (arena, _beyond) = tensor_arena.split_at_mut(tensor_arena_size);
        MicroInterpreter {
            model,
            resolver,
            arena,
            reporter: micro_error_reporter,
            plan,
            state: State::Ready,
        }
    }

    /// A writable view of the `n`-th input tensor. What the caller leaves in
    /// the view's buffer is what the arena holds in the tensor's place; the
    /// rest of the interpreter stays as it was. The interpreter stays
    /// well-formed provided the buffer keeps its length, as every slice does.
    pub fn input(&mut self, n: usize) -> (tensor: TensorMut<'_>)
        requires
            old(self).wf(),
            n < old(self)@.plan.inputs@.len(),
        ensures
            tensor.wf(),
            tensor.info.dims@ == old(self)@.input_slot(n as int).dims@,
            tensor.info.dtype == old(self)@.input_slot(n as int).dtype,
            tensor.data@ == region(old(self)@.memory, old(self)@.input_slot(n as int)),
            final(self)@ == (InterpreterView {
                memory: with_region(
                    old(self)@.memory,
                    old(self)@.input_slot(n as int),
                    final(tensor.data)@,
                ),
                ..old(self)@
            }),
            final(tensor.data)@.len() == tensor.data@.len() ==> final(self).wf(),
    {
        let slot = &self.plan.tensors[self.plan.inputs[n]];
        assert(slot.wf() && slot.end() <= self.arena@.len());
        let ghost memory = self.arena@;
        let (before, rest) = self.arena.split_at_mut(slot.offset);
        let (data, after) = rest.split_at_mut(slot.bytes);
        proof {
            assert(before@ =~= memory.subrange(0, slot.offset as int));
            assert(after@ =~= memory.subrange(slot.offset + slot.bytes, memory.len() as int));
            assert(final(before)@ + (final(data)@ + final(after)@) =~= final(before)@
                + final(data)@ + final(after)@);
        }
        TensorMut { info: TensorInfo { dims: slot.dims.as_slice(), dtype: slot.dtype }, data }
    }

    /// A read-only view of the `n`-th output tensor.
    pub fn output(&self, n: usize) -> (tensor: Tensor<'_>)
        requires
            self.wf(),
            n < self@.plan.outputs@.len(),
        ensures
            tensor.wf(),
            tensor.info.dims@ == self@.output_slot(n as int).dims@,
            tensor.info.dtype == self@.output_slot(n as int).dtype,
            tensor.data@ == region(self@.memory, self@.output_slot(n as int)),
    {
        let slot = &self.plan.tensors[self.plan.outputs[n]];
        assert(slot.wf() && slot.end() <= self.arena@.len());
        let data = slice_subrange(&*self.arena, slot.offset, slot.offset + slot.bytes);
        Tensor { info: TensorInfo { dims: slot.dims.as_slice(), dtype: slot.dtype }, data }
    }

    /// Takes one step of an invocation: answers `event` with the action that
    /// `step` gives for it, and moves on as `after` says.
    pub fn invoke(&mut self, event: InvokeEvent) -> (action: InvokeAction)
        requires
            old(self).wf(),
        ensures
            final(self).wf(),
            action == old(self)@.next(event).action,
            final(self)@ == old(self)@.after(event),
    {
        let missing: Option<u32> = match (self.state, event) {
            (State::Ready, InvokeEvent::Requested) => self.resolver.first_unsupported(
                self.plan.operators.as_slice(),
            ),
            _ => None,
        };
        let next: Step = decide(self.state, missing, event);
        self.state = next.state;
        if let Some(error) = next.report {
            self.reporter.report(error);
        }
        next.action
    }

    /// What the engine works on while an invocation is under way. What the
    /// engine leaves in the arena is what the arena holds from then on; the
    /// rest of the interpreter stays as it was. The interpreter stays
    /// well-formed provided the arena keeps its length, as every slice does.
    pub fn engine_access(&mut self) -> (access: EngineAccess<'_>)
        requires
            old(self).wf(),
            old(self)@.state == State::Invoking,
        ensures
            access.model@ == old(self)@.model,
            access.operators@ == old(self)@.operators,
            *access.plan == old(self)@.plan,
            access.memory@ == old(self)@.memory,
            final(self)@ == (InterpreterView { memory: final(access.memory)@, ..old(self)@ }),
            final(access.memory)@.len() == access.memory@.len() ==> final(self).wf(),
    {
        EngineAccess {
            model: self.model.buffer(),
            operators: self.resolver.operators(),
            plan: &self.plan,
            memory: &mut *self.arena,
        }
    }

    /// Refuses an index that names no input tensor, and no other. Nothing of
    /// the interpreter is touched.
    pub fn check_input(&self, n: usize) -> (verdict: Result<(), Error>)
        ensures
            verdict == (if n < self@.plan.inputs@.len() {
                Ok::<(), Error>(())
            } else {
                Err::<(), Error>(Error::OutOfRangeTensorIndex)
            }),
    {
        if n < self.plan.inputs.len() {
            Ok(())
        } else {
            Err(Error::OutOfRangeTensorIndex)
        }
    }

    /// Refuses an index that names no output tensor, and no other. Nothing
    /// of the interpreter is touched.
    pub fn check_output(&self, n: usize) -> (verdict: Result<(), Error>)
        ensures
            verdict == (if n < self@.plan.outputs@.len() {
                Ok::<(), Error>(())
            } else {
                Err::<(), Error>(Error::OutOfRangeTensorIndex)
            }),
    {
        if n < self.plan.outputs.len() {
            Ok(())
        } else {
            Err(Error::OutOfRangeTensorIndex)
        }
    }

    /// Where the interpreter stands.
    pub fn state(&self) -> (state: State)
        ensures
            state == self@.state,
    {
        self.state
    }

    /// How many input tensors the graph has.
    pub fn input_count(&self) -> (count: usize)
        ensures
            count == self@.plan.inputs@.len(),
    {
        self.plan.inputs.len()
    }

    /// How many output tensors the graph has.
    pub fn output_count(&self) -> (count: usize)
        ensures
            count == self@.plan.outputs@.len(),
    {
        self.plan.outputs.len()
    }

    /// The size of the arena in bytes.
    pub fn arena_size(&self) -> (size: usize)
        ensures
            size == self@.memory.len(),
    {
        self.arena.len()
    }

    /// The model that the interpreter runs.
    pub fn model(&self) -> (model: &'a Model<'a>)
        ensures
            model.bytes() == self@.model,
    {
        self.model
    }

    /// The operator resolver that the interpreter has taken over.
    pub fn resolver(&self) -> (resolver: &MicroOpResolver)
        ensures
            resolver@ == self@.operators,
    {
        &self.resolver
    }

    /// The allocation plan.
    pub fn plan(&self) -> (plan: &AllocationPlan)
        ensures
            *plan == self@.plan,
    {
        &self.plan
    }

    /// The error reporter, with the latest diagnostic delivered to it.
    pub fn error_reporter(&self) -> (reporter: &MicroErrorReporter)
        ensures
            reporter.last() == self@.report,
    {
        &*self.reporter
    }
}

/// Where the resolver lacks an operator of the graph, a request to run the
/// graph ends at once, without the engine: the status is a failure, the
/// interpreter is faulted, and the diagnostic names an operator of the graph
/// that the resolver does not hold.
pub proof fn lemma_missing_operator_is_refused(interpreter: InterpreterView)
    requires
        interpreter.state == State::Ready,
        exists|i: int|
            0 <= i < interpreter.plan.operators@.len() && !interpreter.operators.contains(
                #[trigger] interpreter.plan.operators@[i],
            ),
    ensures
        interpreter.next(InvokeEvent::Requested).action == InvokeAction::Return(Status::Failure),
        interpreter.after(InvokeEvent::Requested).state == State::Faulted,
        interpreter.missing_operator() is Some,
        interpreter.after(InvokeEvent::Requested).report == Some(
            Error::UnsupportedOperator { op_code: interpreter.missing_operator()->0 },
        ),
        interpreter.plan.operators@.contains(interpreter.missing_operator()->0),
        !interpreter.operators.contains(interpreter.missing_operator()->0),
{
    lemma_nothing_missing(interpreter.plan.operators@, interpreter.operators);
}

/// Where the resolver holds every operator of the graph, a request to run
/// the graph is passed on to the engine, and the status that the engine
/// returns is the status of the invocation. After a success the interpreter
/// is what it was before the request: it keeps nothing of an invocation but
/// what the engine has left in the arena.
pub proof fn lemma_engine_status_is_returned(interpreter: InterpreterView, status: Status)
    requires
        interpreter.state == State::Ready,
        forall|i: int|
            0 <= i < interpreter.plan.operators@.len() ==> interpreter.operators.contains(
                #[trigger] interpreter.plan.operators@[i],
            ),
    ensures
        interpreter.next(InvokeEvent::Requested).action == InvokeAction::RunEngine,
        interpreter.after(InvokeEvent::Requested).state == State::Invoking,
        interpreter.after(InvokeEvent::Requested).next(InvokeEvent::EngineReturned(status)).action
            == InvokeAction::Return(status),
        interpreter.after(InvokeEvent::Requested).after(
            InvokeEvent::EngineReturned(Status::Success),
        ) == interpreter,
        interpreter.after(InvokeEvent::Requested).after(
            InvokeEvent::EngineReturned(Status::Failure),
        ).state == State::Faulted,
{
    lemma_nothing_missing(interpreter.plan.operators@, interpreter.operators);
}

/// A faulted interpreter stays as it is and answers every event with a
/// failure.
pub proof fn lemma_faulted_is_final(interpreter: InterpreterView, event: InvokeEvent)
    requires
        interpreter.state == State::Faulted,
    ensures
        interpreter.next(event).action == InvokeAction::Return(Status::Failure),
        interpreter.after(event) == interpreter,
{
}

/// No step reports success unless the engine has just returned it to an
/// interpreter that was waiting for it.
pub proof fn lemma_success_comes_from_the_engine(interpreter: InterpreterView, event: InvokeEvent)
    ensures
        interpreter.next(event).action == InvokeAction::Return(Status::Success)
            <==> interpreter.state == State::Invoking && event == InvokeEvent::EngineReturned(
            Status::Success,
        ),
{
}

/// No event moves a tensor: shapes, datatypes and places in the arena are
/// fixed once the plan stands, and so are the model and the operators.
pub proof fn lemma_plan_is_fixed(interpreter: InterpreterView, event: InvokeEvent)
    ensures
        interpreter.after(event).plan == interpreter.plan,
        interpreter.after(event).memory == interpreter.memory,
        interpreter.after(event).model == interpreter.model,
        interpreter.after(event).operators == interpreter.operators,
{
}

} // verus!
