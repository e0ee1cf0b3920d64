//! The tensor context: resolves a relative tensor identity to the tensor's
//! global metadata and its current runtime buffer handle. The context is
//! owned by the surrounding compilation; the planner only reads it.

use vstd::prelude::*;
use crate::tensor::BufferHandle;
use crate::tensor::BufferHandleV;
use crate::tensor::TensorDesc;
use crate::tensor::TensorDescV;
use crate::tensor::TensorId;
use crate::tensor::TensorStatus;
use crate::tensor::copy_desc;
use crate::tensor::copy_handle;

verus! {

/// One entry of the tensor context: what the global timeline currently knows
/// about a relative tensor identity, and the buffer backing it.
#[derive(Clone, PartialEq, Eq, Debug)]
pub struct ContextEntry {
    pub relative_id: TensorId,
    pub global: TensorDesc,
    pub handle: BufferHandle,
}

/// Mathematical model of a [`ContextEntry`].
#[verifier::ext_equal]
pub ghost struct ContextEntryV {
    pub relative_id: TensorId,
    pub global: TensorDescV,
    pub handle: BufferHandleV,
}

impl View for ContextEntry {
    type V = ContextEntryV;

    open spec fn view(&self) -> ContextEntryV {
        ContextEntryV { relative_id: self.relative_id, global: self.global@, handle: self.handle@ }
    }
}

/// The first entry registered for `id`, if any.
pub open spec fn lookup(entries: Seq<ContextEntryV>, id: TensorId) -> Option<ContextEntryV>
    decreases entries.len(),
{
    if entries.len() == 0 {
        None
    } else if entries[0].relative_id == id {
        Some(entries[0])
    } else {
        lookup(entries.skip(1), id)
    }
}

/// The tensor context, modeled at its interface: an association from
/// relative tensor identity to global descriptor and buffer handle.
#[derive(Clone, PartialEq, Eq, Debug)]
pub struct TensorContext {
    pub entries: Vec<ContextEntry>,
}

impl View for TensorContext {
    type V = Seq<ContextEntryV>;

    open spec fn view(&self) -> Seq<ContextEntryV> {
        self.entries@.map_values(|e: ContextEntry| e@)
    }
}

impl TensorContext {
    /// Resolves `id` to its global descriptor and buffer handle. `status` is
    /// the access mode the fused subgraph needs for the tensor; the stored
    /// handle already answers the in-place capability query, so the answer
    /// is read directly off the entry.
    #[allow(unused_variables)]
    pub fn resolve(&self, id: TensorId, status: TensorStatus) -> (r: Option<(TensorDesc, BufferHandle)>)
        ensures
            (r is Some) == (lookup(self@, id) is Some),
            r matches Some(p) ==> lookup(self@, id) matches Some(e) && p.0@ == e.global && p.1@
                == e.handle,
    {
        let n = self.entries.len();
        let mut i: usize = 0;
        proof {
            assert(self@.skip(0) =~= self@);
        }
        while i < n
            invariant
                i <= n,
                n == self.entries@.len(),
                self@.len() == self.entries@.len(),
                lookup(self@, id) == lookup(self@.skip(i as int), id),
            decreases n - i,
        {
            if self.entries[i].relative_id == id {
                let e = &self.entries[i];
                proof {
                    assert(self@.skip(i as int)[0] == self@[i as int]);
                    assert(self@[i as int] == self.entries@[i as int]@);
                }
                return Some((copy_desc(&e.global), copy_handle(&e.handle)));
            }
            proof {
                assert(self@.skip(i as int)[0] == self@[i as int]);
                assert(self@[i as int] == self.entries@[i as int]@);
                assert(self@.skip(i as int).skip(1) =~= self@.skip(i as int + 1));
            }
            i += 1;
        }
        proof {
            assert(self@.skip(n as int) =~= Seq::<ContextEntryV>::empty());
        }
        None
    }
}

} // verus!
