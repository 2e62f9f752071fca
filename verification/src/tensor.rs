//! Element datatypes, tensor shapes and tensor views.

use vstd::prelude::*;
use crate::error::Error;

verus! {

/// How the bits of an element are read.
#[derive(Clone, Copy, Debug, PartialEq, Eq, Structural)]
pub enum Category {
    Float,
    Signed,
    Unsigned,
    Boolean,
}

/// The datatype tag of a tensor's elements.
#[derive(Clone, Copy, Debug, PartialEq, Eq, Structural)]
pub enum ElementType {
    Float32,
    Float64,
    Int8,
    Int16,
    Int32,
    Int64,
    UInt8,
    UInt16,
    UInt32,
    UInt64,
    Bool,
}

impl ElementType {
    /// The width of one element in bytes.
    pub open spec fn spec_size(self) -> nat {
        match self {
            ElementType::Int8 | ElementType::UInt8 | ElementType::Bool => 1,
            ElementType::Int16 | ElementType::UInt16 => 2,
            ElementType::Float32 | ElementType::Int32 | ElementType::UInt32 => 4,
            ElementType::Float64 | ElementType::Int64 | ElementType::UInt64 => 8,
        }
    }

    pub open spec fn spec_category(self) -> Category {
        match self {
            ElementType::Float32 | ElementType::Float64 => Category::Float,
            ElementType::Int8 | ElementType::Int16 | ElementType::Int32 | ElementType::Int64 =>
                Category::Signed,
            ElementType::UInt8 | ElementType::UInt16 | ElementType::UInt32 | ElementType::UInt64 =>
                Category::Unsigned,
            ElementType::Bool => Category::Boolean,
        }
    }

    /// A requested datatype agrees with a declared one when both have the same
    /// category and the same width.
    pub open spec fn agrees_with(self, declared: ElementType) -> bool {
        self.spec_category() == declared.spec_category() && self.spec_size()
            == declared.spec_size()
    }

    /// The width of one element in bytes.
    pub fn size(self) -> (n: usize)
        ensures
            n == self.spec_size(),
    {
        match self {
            ElementType::Int8 | ElementType::UInt8 | ElementType::Bool => 1,
            ElementType::Int16 | ElementType::UInt16 => 2,
            ElementType::Float32 | ElementType::Int32 | ElementType::UInt32 => 4,
            ElementType::Float64 | ElementType::Int64 | ElementType::UInt64 => 8,
        }
    }

    pub fn category(self) -> (c: Category)
        ensures
            c == self.spec_category(),
    {
        match self {
            ElementType::Float32 | ElementType::Float64 => Category::Float,
            ElementType::Int8 | ElementType::Int16 | ElementType::Int32 | ElementType::Int64 =>
                Category::Signed,
            ElementType::UInt8 | ElementType::UInt16 | ElementType::UInt32 | ElementType::UInt64 =>
                Category::Unsigned,
            ElementType::Bool => Category::Boolean,
        }
    }

    /// Whether a request for this datatype may read a tensor declared as
    /// `declared`.
    pub fn matches(self, declared: ElementType) -> (ok: bool)
        ensures
            ok == self.agrees_with(declared),
    {
        self.category() == declared.category() && self.size() == declared.size()
    }
}

/// Category and width together identify a datatype: two tags agree exactly
/// when they are the same tag.
pub proof fn lemma_agreement_is_identity(requested: ElementType, declared: ElementType)
    ensures
        requested.agrees_with(declared) <==> requested == declared,
{
}

/// The number of elements of a tensor with the given dimensions: their
/// product, which is 1 for a scalar.
pub open spec fn element_count(dims: Seq<usize>) -> nat
    decreases dims.len(),
{
    if dims.len() == 0 {
        1
    } else {
        element_count(dims.drop_last()) * (dims.last() as nat)
    }
}

/// The number of bytes that a tensor of this shape and datatype occupies.
pub open spec fn byte_size(dims: Seq<usize>, dtype: ElementType) -> nat {
    element_count(dims) * dtype.spec_size()
}

/// A dimension of zero makes the tensor empty.
proof fn lemma_zero_dimension(dims: Seq<usize>, k: int)
    requires
        0 <= k < dims.len(),
        dims[k] == 0,
    ensures
        element_count(dims) == 0,
    decreases dims.len(),
{
    let rest = element_count(dims.drop_last());
    let last = dims.last() as nat;
    if k < dims.len() - 1 {
        lemma_zero_dimension(dims.drop_last(), k);
    }
    assert(rest == 0 || last == 0);
    assert(rest * last == 0) by (nonlinear_arith)
        requires
            rest == 0 || last == 0,
    ;
}

/// Without a zero dimension, no prefix of the shape has more elements than
/// the whole.
proof fn lemma_prefix_count(dims: Seq<usize>, i: int)
    requires
        0 <= i <= dims.len(),
        forall|k: int| 0 <= k < dims.len() ==> dims[k] >= 1,
    ensures
        1 <= element_count(dims.take(i)) <= element_count(dims),
    decreases dims.len(),
{
    if dims.len() == 0 {
        assert(dims.take(i) =~= dims);
    } else {
        let rest = element_count(dims.drop_last());
        let last = dims.last() as nat;
        if i == dims.len() {
            assert(dims.take(i) =~= dims);
            lemma_prefix_count(dims.drop_last(), i - 1);
        } else {
            assert(dims.take(i) =~= dims.drop_last().take(i));
            lemma_prefix_count(dims.drop_last(), i);
        }
        assert(rest <= rest * last) by (nonlinear_arith)
            requires
                last >= 1,
        ;
    }
}

/// The index of a zero dimension, if the shape has one.
fn find_zero_dimension(dims: &[usize]) -> (at: Option<usize>)
    ensures
        match at {
            Some(k) => k < dims@.len() && dims@[k as int] == 0,
            None => forall|k: int| 0 <= k < dims@.len() ==> dims@[k] >= 1,
        },
{
    let mut i: usize = 0;
    while i < dims.len()
        invariant
            i <= dims@.len(),
            forall|k: int| 0 <= k < i ==> dims@[k] >= 1,
        decreases dims@.len() - i,
    {
        if dims[i] == 0 {
            return Some(i);
        }
        i += 1;
    }
    None
}

/// The number of bytes that a tensor of this shape and datatype occupies, or
/// `None` where that number does not fit the machine's word.
pub fn checked_byte_size(dims: &[usize], dtype: ElementType) -> (bytes: Option<usize>)
    ensures
        bytes == (if byte_size(dims@, dtype) <= usize::MAX {
            Some(byte_size(dims@, dtype) as usize)
        } else {
            None::<usize>
        }),
{
    if let Some(k) = find_zero_dimension(dims) {
        proof {
            lemma_zero_dimension(dims@, k as int);
        }
        return Some(0);
    }
    let mut count: usize = 1;
    let mut i: usize = 0;
    proof {
        assert(dims@.take(0) =~= Seq::<usize>::empty());
    }
    while i < dims.len()
        invariant
            i <= dims@.len(),
            count == element_count(dims@.take(i as int)),
            forall|k: int| 0 <= k < dims@.len() ==> dims@[k] >= 1,
        decreases dims@.len() - i,
    {
        proof {
            let next = dims@.take(i + 1);
            assert(next.drop_last() =~= dims@.take(i as int));
            assert(next.last() == dims@[i as int]);
            lemma_prefix_count(dims@, i + 1);
        }
        match count.checked_mul(dims[i]) {
            Some(product) => {
                count = product;
            },
            None => {
                proof {
                    let all = element_count(dims@);
                    let width = dtype.spec_size();
                    assert(all <= all * width) by (nonlinear_arith)
                        requires
                            width >= 1,
                    ;
                }
                return None;
            },
        }
        i += 1;
    }
    proof {
        assert(dims@.take(i as int) =~= dims@);
    }
    count.checked_mul(dtype.size())
}

/// What a tensor declares of itself: its dimension sequence and the
/// datatype of its elements.
#[derive(Clone, Copy, Debug)]
pub struct TensorInfo<'t> {
    /// The dimension sequence, outermost first.
    pub dims: &'t [usize],
    pub dtype: ElementType,
}

impl<'t> TensorInfo<'t> {
    /// Refuses a request for a datatype that disagrees with the declared one
    /// in category or in width, and no other.
    pub fn check_type(&self, requested: ElementType) -> (verdict: Result<(), Error>)
        ensures
            verdict == (if requested.agrees_with(self.dtype) {
                Ok::<(), Error>(())
            } else {
                Err::<(), Error>(Error::TypeMismatch)
            }),
    {
        if requested.matches(self.dtype) {
            Ok(())
        } else {
            Err(Error::TypeMismatch)
        }
    }
}

/// A read-only view of one tensor: what it declares, and its buffer inside
/// the arena.
pub struct Tensor<'t> {
    pub info: TensorInfo<'t>,
    /// The raw element buffer.
    pub data: &'t [u8],
}

impl<'t> Tensor<'t> {
    /// The buffer is exactly as long as shape and datatype imply.
    pub open spec fn wf(self) -> bool {
        self.data@.len() == byte_size(self.info.dims@, self.info.dtype)
    }

    /// What the tensor declares of itself.
    pub fn tensor_info(&self) -> (info: TensorInfo<'t>)
        ensures
            info == self.info,
    {
        self.info
    }

    /// The element buffer, for a caller that reads it as the datatype the
    /// tensor declares.
    pub fn tensor_data(&self, requested: ElementType) -> (data: &'t [u8])
        requires
            requested.agrees_with(self.info.dtype),
        ensures
            data@ == self.data@,
    {
        self.data
    }
}

/// A view of one tensor through which its buffer can be written.
pub struct TensorMut<'t> {
    pub info: TensorInfo<'t>,
    /// The raw element buffer.
    pub data: &'t mut [u8],
}

impl<'t> TensorMut<'t> {
    /// The buffer is exactly as long as shape and datatype imply.
    pub open spec fn wf(self) -> bool {
        self.data@.len() == byte_size(self.info.dims@, self.info.dtype)
    }

    /// What the tensor declares of itself.
    pub fn tensor_info(&self) -> (info: TensorInfo<'t>)
        ensures
            info == self.info,
    {
        self.info
    }

    /// The element buffer, for a caller that reads it as the datatype the
    /// tensor declares.
    pub fn tensor_data(&self, requested: ElementType) -> (data: &[u8])
        requires
            requested.agrees_with(self.info.dtype),
        ensures
            data@ == old(self.data)@,
    {
        &*self.data
    }

    /// The element buffer, for a caller that writes it as the datatype the
    /// tensor declares. What the caller leaves in it is what the tensor holds
    /// from then on.
    pub fn tensor_data_mut(&mut self, requested: ElementType) -> (data: &mut [u8])
        requires
            requested.agrees_with(old(self).info.dtype),
        ensures
            data@ == old(self).data@,
            final(self).data@ == final(data)@,
            final(final(self).data)@ == final(old(self).data)@,
            final(self).info == old(self).info,
    {
        &mut *self.data
    }
}

} // verus!
