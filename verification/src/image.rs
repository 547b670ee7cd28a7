use vstd::prelude::*;
use crate::num::COORD_LIMIT;

verus! {

/// An opaque reference to an image registered with the engine's image
/// registry. Only the registry can say what it measures.
#[derive(Clone, Copy, Debug, PartialEq, Eq, Structural)]
pub struct ImageHandle {
    pub index: usize,
}

/// The engine's image-registry collaborator: maps handles to the intrinsic
/// pixel dimensions of the images a backend has uploaded. Layout only ever
/// asks for dimensions; pixel data never enters the engine.
#[derive(Debug)]
pub struct ImageRegistry {
    pub dims: Vec<(i64, i64)>,
}

impl View for ImageRegistry {
    type V = Seq<(i64, i64)>;

    open spec fn view(&self) -> Seq<(i64, i64)> {
        self.dims@
    }
}

/// Every registered dimension pair is a valid extent.
pub open spec fn registry_wf(reg: Seq<(i64, i64)>) -> bool {
    forall|i: int|
        0 <= i < reg.len() ==> (0 <= (#[trigger] reg[i]).0 <= COORD_LIMIT as int && 0 <= reg[i].1
            <= COORD_LIMIT as int)
}

impl ImageRegistry {
    pub fn new() -> (r: ImageRegistry)
        ensures
            r@ == Seq::<(i64, i64)>::empty(),
            registry_wf(r@),
    {
        ImageRegistry { dims: Vec::new() }
    }

    /// Registers an image of the given intrinsic pixel dimensions and hands
    /// back its handle.
    pub fn register(&mut self, width: i64, height: i64) -> (h: ImageHandle)
        requires
            0 <= width <= COORD_LIMIT,
            0 <= height <= COORD_LIMIT,
        ensures
            final(self)@ == old(self)@.push((width, height)),
            h.index == old(self)@.len(),
            registry_wf(old(self)@) ==> registry_wf(final(self)@),
    {
        let index = self.dims.len();
        self.dims.push((width, height));
        proof {
            assert(forall|i: int|
                0 <= i < old(self)@.len() ==> #[trigger] self@[i] == old(self)@[i]);
        }
        ImageHandle { index }
    }

    /// The intrinsic dimensions of a registered image; an unknown handle is a
    /// caller error and yields `None`.
    pub fn get_size(&self, h: ImageHandle) -> (r: Option<(i64, i64)>)
        ensures
            h.index < self@.len() ==> r == Some(self@[h.index as int]),
            h.index >= self@.len() ==> r is None,
    {
        if h.index < self.dims.len() {
            Some(self.dims[h.index])
        } else {
            None
        }
    }
}

} // verus!
