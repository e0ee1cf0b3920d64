//! Core tensor data: identities, status, descriptors and buffer handles,
//! together with small verified helpers on them.

use vstd::prelude::*;

verus! {

/// Opaque unique key for a tensor as it flows through the fusion graph.
#[derive(Clone, Copy, PartialEq, Eq, Structural, Debug)]
pub struct TensorId(pub u64);

/// Numeric-precision tag attached to a registered input; the planner carries
/// it through unchanged.
#[derive(Clone, Copy, PartialEq, Eq, Structural, Debug)]
pub struct Precision(pub u32);

/// Read/write status of a tensor as seen by one graph. The status within the
/// fused subgraph (relative) can differ from the status in the full timeline
/// (global); aliasing and in-place decisions must use the relative one.
#[derive(Clone, Copy, PartialEq, Eq, Structural, Debug)]
pub enum TensorStatus {
    ReadOnly,
    ReadWrite,
}

/// A tensor's identity, shape and status as seen by one graph
/// (either the relative fused subgraph or the global timeline).
#[derive(Clone, PartialEq, Eq, Debug)]
pub struct TensorDesc {
    pub id: TensorId,
    pub shape: Vec<usize>,
    pub status: TensorStatus,
}

/// Mathematical model of a [`TensorDesc`].
#[verifier::ext_equal]
pub ghost struct TensorDescV {
    pub id: TensorId,
    pub shape: Seq<usize>,
    pub status: TensorStatus,
}

impl View for TensorDesc {
    type V = TensorDescV;

    open spec fn view(&self) -> TensorDescV {
        TensorDescV { id: self.id, shape: self.shape@, status: self.status }
    }
}

/// A resolved device-buffer binding: the buffer's stride list and the
/// allocator's answer to the capability query "may this buffer be written in
/// place". The planner only consumes that answer; ownership tracking belongs
/// to the device-handle allocator.
#[derive(Clone, PartialEq, Eq, Debug)]
pub struct BufferHandle {
    pub strides: Vec<usize>,
    pub can_mut: bool,
}

/// Mathematical model of a [`BufferHandle`].
#[verifier::ext_equal]
pub ghost struct BufferHandleV {
    pub strides: Seq<usize>,
    pub can_mut: bool,
}

impl View for BufferHandle {
    type V = BufferHandleV;

    open spec fn view(&self) -> BufferHandleV {
        BufferHandleV { strides: self.strides@, can_mut: self.can_mut }
    }
}

/// Copies a dimension list (a shape or a stride list).
pub fn copy_dims(v: &Vec<usize>) -> (r: Vec<usize>)
    ensures
        r@ == v@,
{
    let mut r: Vec<usize> = Vec::new();
    let mut i: usize = 0;
    while i < v.len()
        invariant
            i <= v.len(),
            r@ == v@.subrange(0, i as int),
        decreases v.len() - i,
    {
        r.push(v[i]);
        i += 1;
        proof {
            assert(r@ =~= v@.subrange(0, i as int));
        }
    }
    proof {
        assert(r@ =~= v@);
    }
    r
}

/// Copies a tensor descriptor.
pub fn copy_desc(t: &TensorDesc) -> (r: TensorDesc)
    ensures
        r@ == t@,
{
    TensorDesc { id: t.id, shape: copy_dims(&t.shape), status: t.status }
}

/// Copies a buffer handle.
pub fn copy_handle(h: &BufferHandle) -> (r: BufferHandle)
    ensures
        r@ == h@,
{
    BufferHandle { strides: copy_dims(&h.strides), can_mut: h.can_mut }
}

/// Compares two dimension lists element by element.
pub fn dims_equal(a: &Vec<usize>, b: &Vec<usize>) -> (r: bool)
    ensures
        r <==> a@ == b@,
{
    if a.len() != b.len() {
        return false;
    }
    let mut i: usize = 0;
    while i < a.len()
        invariant
            i <= a.len(),
            a.len() == b.len(),
            forall|j: int| 0 <= j < i ==> a@[j] == b@[j],
        decreases a.len() - i,
    {
        if a[i] != b[i] {
            return false;
        }
        i += 1;
    }
    proof {
        assert(a@ =~= b@);
    }
    true
}

/// Tests whether an identity occurs in a list of identities.
pub fn contains_id(ids: &Vec<TensorId>, id: TensorId) -> (r: bool)
    ensures
        r <==> ids@.contains(id),
{
    let mut i: usize = 0;
    while i < ids.len()
        invariant
            i <= ids.len(),
            forall|j: int| 0 <= j < i ==> ids@[j] != id,
        decreases ids.len() - i,
    {
        if ids[i] == id {
            proof {
                assert(ids@[i as int] == id);
            }
            return true;
        }
        i += 1;
    }
    false
}

} // verus!
