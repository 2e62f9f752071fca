//! The allocation plan: where the planning pass has put every tensor of the
//! graph inside the arena, and which operators the graph runs.

use vstd::prelude::*;
use crate::error::Error;
use crate::tensor::byte_size;
use crate::tensor::checked_byte_size;
use crate::tensor::ElementType;

verus! {

/// One tensor of the graph: its shape, its datatype and its place in the
/// arena.
#[derive(Clone, Debug)]
pub struct TensorSlot {
    /// The dimension sequence, outermost first.
    pub dims: Vec<usize>,
    pub dtype: ElementType,
    /// Where the tensor's buffer starts, in bytes from the start of the arena.
    pub offset: usize,
    /// The length of the tensor's buffer in bytes.
    pub bytes: usize,
}

impl TensorSlot {
    /// The buffer is exactly as long as shape and datatype imply, and its end
    /// is an address.
    pub open spec fn wf(self) -> bool {
        &&& self.bytes == byte_size(self.dims@, self.dtype)
        &&& self.offset + self.bytes <= usize::MAX
    }

    /// The first byte after the tensor's buffer.
    pub open spec fn end(self) -> nat {
        (self.offset + self.bytes) as nat
    }

    /// Tests `wf`.
    pub fn check(&self) -> (ok: bool)
        ensures
            ok == self.wf(),
    {
        match checked_byte_size(self.dims.as_slice(), self.dtype) {
            Some(bytes) => bytes == self.bytes && self.offset.checked_add(self.bytes).is_some(),
            None => false,
        }
    }
}

/// Every slot is well-formed.
pub open spec fn slots_wf(slots: Seq<TensorSlot>) -> bool {
    forall|i: int| 0 <= i < slots.len() ==> (#[trigger] slots[i]).wf()
}

/// Every index names one of `count` tensors.
pub open spec fn indices_within(indices: Seq<usize>, count: nat) -> bool {
    forall|i: int| 0 <= i < indices.len() ==> (#[trigger] indices[i]) < count
}

/// Every slot ends at or before `size`.
pub open spec fn slots_fit(slots: Seq<TensorSlot>, size: nat) -> bool {
    forall|i: int| 0 <= i < slots.len() ==> (#[trigger] slots[i]).end() <= size
}

/// The working memory that the slots need: the furthest end among them.
pub open spec fn required_bytes(slots: Seq<TensorSlot>) -> nat
    decreases slots.len(),
{
    if slots.len() == 0 {
        0
    } else {
        let rest = required_bytes(slots.drop_last());
        let end = slots.last().end();
        if end > rest {
            end
        } else {
            rest
        }
    }
}

/// The required working memory is the least size that every slot fits.
pub proof fn lemma_required_bytes_is_least(slots: Seq<TensorSlot>, size: nat)
    ensures
        slots_fit(slots, size) <==> required_bytes(slots) <= size,
    decreases slots.len(),
{
    if slots.len() > 0 {
        let front = slots.drop_last();
        lemma_required_bytes_is_least(front, size);
        if slots_fit(slots, size) {
            assert forall|i: int| 0 <= i < front.len() implies (#[trigger] front[i]).end()
                <= size by {
                assert(front[i] == slots[i]);
            }
            assert(slots[slots.len() - 1].end() <= size);
        }
        if required_bytes(slots) <= size {
            assert forall|i: int| 0 <= i < slots.len() implies (#[trigger] slots[i]).end()
                <= size by {
                if i < front.len() {
                    assert(front[i] == slots[i]);
                }
            }
        }
    }
}

/// What the planning pass yields for one model and one arena.
#[derive(Clone, Debug)]
pub struct AllocationPlan {
    /// Every tensor of the graph.
    pub tensors: Vec<TensorSlot>,
    /// The graph's inputs, as indices into `tensors`.
    pub inputs: Vec<usize>,
    /// The graph's outputs, as indices into `tensors`.
    pub outputs: Vec<usize>,
    /// The operator code of every node of the graph, in execution order.
    pub operators: Vec<u32>,
}

impl AllocationPlan {
    /// The plan does not contradict itself: every slot is well-formed, and
    /// every input and output names a tensor.
    pub open spec fn structurally_valid(self) -> bool {
        &&& slots_wf(self.tensors@)
        &&& indices_within(self.inputs@, self.tensors@.len())
        &&& indices_within(self.outputs@, self.tensors@.len())
    }

    /// The working memory that the plan needs.
    pub open spec fn required_bytes(self) -> nat {
        required_bytes(self.tensors@)
    }

    /// An arena of `arena_size` bytes holds every tensor.
    pub open spec fn fits(self, arena_size: nat) -> bool {
        slots_fit(self.tensors@, arena_size)
    }

    /// The plan can be carried out in an arena of `arena_size` bytes.
    pub open spec fn valid_for(self, arena_size: nat) -> bool {
        self.structurally_valid() && self.fits(arena_size)
    }

    /// Tests `structurally_valid`.
    pub fn check_structure(&self) -> (ok: bool)
        ensures
            ok == self.structurally_valid(),
    {
        let mut i: usize = 0;
        while i < self.tensors.len()
            invariant
                i <= self.tensors@.len(),
                slots_wf(self.tensors@.take(i as int)),
            decreases self.tensors@.len() - i,
        {
            if !self.tensors[i].check() {
                return false;
            }
            proof {
                let done = self.tensors@.take(i as int);
                let next = self.tensors@.take(i + 1);
                assert forall|k: int| 0 <= k < next.len() implies (#[trigger] next[k]).wf() by {
                    if k < i {
                        assert(next[k] == done[k]);
                    }
                }
            }
            i += 1;
        }
        proof {
            assert(self.tensors@.take(i as int) =~= self.tensors@);
        }
        indices_in_range(self.inputs.as_slice(), self.tensors.len()) && indices_in_range(
            self.outputs.as_slice(),
            self.tensors.len(),
        )
    }

    /// The working memory that the plan needs, in bytes.
    pub fn arena_bytes_required(&self) -> (bytes: usize)
        requires
            self.structurally_valid(),
        ensures
            bytes == self.required_bytes(),
    {
        let mut furthest: usize = 0;
        let mut i: usize = 0;
        proof {
            assert(self.tensors@.take(0) =~= Seq::<TensorSlot>::empty());
        }
        while i < self.tensors.len()
            invariant
                i <= self.tensors@.len(),
                slots_wf(self.tensors@),
                furthest == required_bytes(self.tensors@.take(i as int)),
            decreases self.tensors@.len() - i,
        {
            proof {
                let next = self.tensors@.take(i + 1);
                assert(next.drop_last() =~= self.tensors@.take(i as int));
                assert(next.last() == self.tensors@[i as int]);
                assert(self.tensors@[i as int].wf());
            }
            let end: usize = self.tensors[i].offset + self.tensors[i].bytes;
            if end > furthest {
                furthest = end;
            }
            i += 1;
        }
        proof {
            assert(self.tensors@.take(i as int) =~= self.tensors@);
        }
        furthest
    }

    /// Decides whether the plan can be carried out in an arena of
    /// `arena_size` bytes, and says why not.
    pub fn validate(&self, arena_size: usize) -> (verdict: Result<(), Error>)
        ensures
            verdict == (if !self.structurally_valid() {
                Err::<(), Error>(Error::InvalidGraph)
            } else if !self.fits(arena_size as nat) {
                Err::<(), Error>(Error::InsufficientArena)
            } else {
                Ok::<(), Error>(())
            }),
    {
        if !self.check_structure() {
            return Err(Error::InvalidGraph);
        }
        let required: usize = self.arena_bytes_required();
        proof {
            lemma_required_bytes_is_least(self.tensors@, arena_size as nat);
        }
        if required > arena_size {
            Err(Error::InsufficientArena)
        } else {
            Ok(())
        }
    }
}

/// Tests `indices_within`.
fn indices_in_range(indices: &[usize], count: usize) -> (ok: bool)
    ensures
        ok == indices_within(indices@, count as nat),
{
    let mut i: usize = 0;
    while i < indices.len()
        invariant
            i <= indices@.len(),
            forall|k: int| 0 <= k < i ==> (#[trigger] indices@[k]) < count,
        decreases indices@.len() - i,
    {
        if indices[i] >= count {
            return false;
        }
        i += 1;
    }
    true
}

/// A structurally valid plan can be carried out in an arena of exactly the
/// size it requires, and in none that is a byte smaller.
pub proof fn lemma_exact_arena_suffices(plan: AllocationPlan)
    requires
        plan.structurally_valid(),
    ensures
        plan.valid_for(plan.required_bytes()),
        plan.required_bytes() > 0 ==> !plan.valid_for((plan.required_bytes() - 1) as nat),
{
    lemma_required_bytes_is_least(plan.tensors@, plan.required_bytes());
    if plan.required_bytes() > 0 {
        lemma_required_bytes_is_least(plan.tensors@, (plan.required_bytes() - 1) as nat);
    }
}

} // verus!
