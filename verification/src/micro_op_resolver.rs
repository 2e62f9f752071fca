//! The operator resolver: the table of operators for which the caller has
//! registered a kernel.

use vstd::prelude::*;
use vstd::slice::slice_subrange;
use crate::error::Status;

verus! {

/// How many operators a resolver can hold.
pub const OPERATOR_CAPACITY: usize = 128;

/// The first of the `needed` operators that `table` does not hold.
pub open spec fn first_missing(needed: Seq<u32>, table: Seq<u32>) -> Option<u32>
    decreases needed.len(),
{
    if needed.len() == 0 {
        None
    } else if !table.contains(needed[0]) {
        Some(needed[0])
    } else {
        first_missing(needed.skip(1), table)
    }
}

/// Nothing is missing exactly when the table holds every needed operator.
pub proof fn lemma_nothing_missing(needed: Seq<u32>, table: Seq<u32>)
    ensures
        first_missing(needed, table) is None <==> forall|i: int|
            0 <= i < needed.len() ==> table.contains(#[trigger] needed[i]),
        first_missing(needed, table) is Some ==> needed.contains(
            first_missing(needed, table)->0,
        ) && !table.contains(first_missing(needed, table)->0),
    decreases needed.len(),
{
    if needed.len() > 0 {
        let rest = needed.skip(1);
        lemma_nothing_missing(rest, table);
        if table.contains(needed[0]) {
            if first_missing(rest, table) is None {
                assert forall|i: int| 0 <= i < needed.len() implies table.contains(
                    #[trigger] needed[i],
                ) by {
                    if i > 0 {
                        assert(needed[i] == rest[i - 1]);
                    }
                }
            } else {
                let found = first_missing(rest, table)->0;
                let at = choose|i: int| 0 <= i < rest.len() && rest[i] == found;
                assert(needed[at + 1] == found);
            }
            if forall|i: int| 0 <= i < needed.len() ==> table.contains(#[trigger] needed[i]) {
                assert forall|i: int| 0 <= i < rest.len() implies table.contains(
                    #[trigger] rest[i],
                ) by {
                    assert(rest[i] == needed[i + 1]);
                }
            }
        }
    }
}

/// A table of operator codes with a fixed capacity and no heap behind it.
/// Its view is the sequence of registered codes, in the order of their
/// registration.
pub struct MicroOpResolver {
    codes: [u32; OPERATOR_CAPACITY],
    len: usize,
}

impl View for MicroOpResolver {
    type V = Seq<u32>;

    closed spec fn view(&self) -> Seq<u32> {
        self.codes@.take(self.len as int)
    }
}

impl MicroOpResolver {
    #[verifier::type_invariant]
    spec fn inv(self) -> bool {
        &&& self.len <= OPERATOR_CAPACITY
        &&& self.codes@.take(self.len as int).no_duplicates()
    }

    /// A resolver that holds no operator.
    pub fn new() -> (resolver: Self)
        ensures
            resolver@ == Seq::<u32>::empty(),
    {
        let resolver = MicroOpResolver { codes: [0u32; OPERATOR_CAPACITY], len: 0 };
        assert(resolver@ =~= Seq::<u32>::empty());
        resolver
    }

    /// How many operators are registered.
    pub fn len(&self) -> (n: usize)
        ensures
            n == self@.len(),
            n <= OPERATOR_CAPACITY,
            self@.no_duplicates(),
    {
        proof {
            use_type_invariant(self);
        }
        self.len
    }

    /// Whether `op_code` is registered.
    pub fn contains(&self, op_code: u32) -> (found: bool)
        ensures
            found == self@.contains(op_code),
    {
        proof {
            use_type_invariant(self);
        }
        let mut i: usize = 0;
        while i < self.len
            invariant
                i <= self.len <= OPERATOR_CAPACITY,
                forall|k: int| 0 <= k < i ==> self@[k] != op_code,
            decreases self.len - i,
        {
            if self.codes[i] == op_code {
                assert(self@[i as int] == op_code);
                return true;
            }
            i += 1;
        }
        false
    }

    /// Registers `op_code`. Fails, and leaves the table as it was, where the
    /// code is registered already or the table is full.
    pub fn add_builtin(&mut self, op_code: u32) -> (status: Status)
        ensures
            (old(self)@.contains(op_code) || old(self)@.len() == OPERATOR_CAPACITY) ==> status
                == Status::Failure && final(self)@ == old(self)@,
            !(old(self)@.contains(op_code) || old(self)@.len() == OPERATOR_CAPACITY) ==> status
                == Status::Success && final(self)@ == old(self)@.push(op_code),
    {
        proof {
            use_type_invariant(&*self);
        }
        if self.len == OPERATOR_CAPACITY || self.contains(op_code) {
            return Status::Failure;
        }
        let at: usize = self.len;
        proof {
            let before = self.codes@;
            let after = before.update(at as int, op_code);
            assert(after.take(at as int) =~= before.take(at as int));
            assert(after.take(at + 1) =~= before.take(at as int).push(op_code));
        }
        self.codes[at] = op_code;
        self.len = at + 1;
        Status::Success
    }

    /// The registered operators, in the order of their registration.
    pub fn operators(&self) -> (codes: &[u32])
        ensures
            codes@ == self@,
    {
        proof {
            use_type_invariant(self);
        }
        slice_subrange(self.codes.as_slice(), 0, self.len)
    }

    /// The first of the `needed` operators that is not registered, or `None`
    /// where all are.
    pub fn first_unsupported(&self, needed: &[u32]) -> (missing: Option<u32>)
        ensures
            missing == first_missing(needed@, self@),
    {
        let mut i: usize = 0;
        proof {
            assert(needed@.skip(0) =~= needed@);
        }
        while i < needed.len()
            invariant
                i <= needed@.len(),
                first_missing(needed@, self@) == first_missing(needed@.skip(i as int), self@),
            decreases needed@.len() - i,
        {
            let code: u32 = needed[i];
            proof {
                let rest = needed@.skip(i as int);
                assert(rest[0] == code);
                assert(rest.skip(1) =~= needed@.skip(i + 1));
            }
            if !self.contains(code) {
                return Some(code);
            }
            i += 1;
        }
        None
    }
}

} // verus!
