use vstd::prelude::*;
use crate::draw::{DrawBuffer, DrawCommand};
use crate::element::{draw_spec, elem_ok, measure, measure_spec, process, Element};
use crate::geometry::{UiRect, Vec2};
use crate::image::{registry_wf, ImageRegistry};

verus! {

/// First-match lookup in an association list; the newest entry for a key is
/// kept at the front and wins.
pub open spec fn lookup_spec(entries: Seq<(u64, u64)>, k: u64) -> Option<u64>
    decreases entries.len(),
{
    if entries.len() == 0 {
        None
    } else if entries[0].0 == k {
        Some(entries[0].1)
    } else {
        lookup_spec(entries.subrange(1, entries.len() as int), k)
    }
}

/// Ephemeral per-frame interaction state (hover, focus and the like), keyed
/// by a caller-assigned identity. It is the only engine-owned data that
/// outlives a single frame.
#[derive(Debug)]
pub struct StateMap {
    pub entries: Vec<(u64, u64)>,
}

impl StateMap {
    pub fn new() -> (r: StateMap)
        ensures
            r.entries@ == Seq::<(u64, u64)>::empty(),
            forall|k: u64| lookup_spec(r.entries@, k) is None,
    {
        StateMap { entries: Vec::new() }
    }

    /// The state stored under `k`, if any.
    pub fn get(&self, k: u64) -> (r: Option<u64>)
        ensures
            r == lookup_spec(self.entries@, k),
    {
        let n = self.entries.len();
        let mut i: usize = 0;
        proof {
            assert(self.entries@.subrange(0, n as int) =~= self.entries@);
        }
        while i < n
            invariant
                n == self.entries@.len(),
                0 <= i <= n,
                lookup_spec(self.entries@, k) == lookup_spec(
                    self.entries@.subrange(i as int, n as int),
                    k,
                ),
            decreases n - i,
        {
            let e = self.entries[i];
            if e.0 == k {
                proof {
                    assert(self.entries@.subrange(i as int, n as int)[0] == e);
                }
                return Some(e.1);
            }
            i += 1;
            proof {
                assert(self.entries@.subrange(i as int - 1, n as int).subrange(
                    1,
                    n as int - (i as int - 1),
                ) =~= self.entries@.subrange(i as int, n as int));
            }
        }
        None
    }

    /// Stores `v` under `k`, shadowing any earlier entry; every other key's
    /// state is untouched.
    pub fn set(&mut self, k: u64, v: u64) -> (r: ())
        ensures
            lookup_spec(final(self).entries@, k) == Some(v),
            forall|k2: u64|
                k2 != k ==> lookup_spec(final(self).entries@, k2) == lookup_spec(
                    old(self).entries@,
                    k2,
                ),
    {
        self.entries.insert(0, (k, v));
        proof {
            assert(self.entries@[0] == (k, v));
            assert(self.entries@.subrange(1, self.entries@.len() as int) =~= old(self).entries@);
        }
    }
}

/// Every queued root is well-formed over the registry and carries a valid
/// target size.
pub open spec fn roots_ok(roots: Seq<(Element, Vec2)>, reg: Seq<(i64, i64)>) -> bool {
    forall|i: int|
        0 <= i < roots.len() ==> (elem_ok((#[trigger] roots[i]).0, reg) && roots[i].1.wf_extent())
}

/// The commands the first `i` queued roots produce, in order: each root is
/// measured against its target size, then processed at the origin with the
/// size it measured.
pub open spec fn frame_spec_to(
    roots: Seq<(Element, Vec2)>,
    i: int,
    reg: Seq<(i64, i64)>,
) -> Seq<DrawCommand>
    decreases i,
{
    if i <= 0 {
        Seq::empty()
    } else {
        let el = roots[i - 1].0;
        let ms = roots[i - 1].1;
        let sz = measure_spec(el, ms.x as int, ms.y as int, reg);
        frame_spec_to(roots, i - 1, reg) + draw_spec(el, 0, 0, sz.0, sz.1, reg)
    }
}

/// The frame driver: owns the root list, the draw buffer and the cross-frame
/// state map. One frame spans one `begin` / `add`* / `end` cycle; `end`
/// leaves the finished command buffer ready for a renderer.
pub struct UiInstance {
    pub buffer: DrawBuffer,
    pub roots: Vec<(Element, Vec2)>,
    pub building: bool,
    pub state: StateMap,
}

impl UiInstance {
    pub fn new() -> (r: UiInstance)
        ensures
            !r.building,
            r.buffer@ == Seq::<DrawCommand>::empty(),
            r.roots@ == Seq::<(Element, Vec2)>::empty(),
            r.state.entries@ == Seq::<(u64, u64)>::empty(),
    {
        UiInstance {
            buffer: DrawBuffer::new(),
            roots: Vec::new(),
            building: false,
            state: StateMap::new(),
        }
    }

    /// Opens a frame: the previous frame's commands and roots are dropped;
    /// the state map survives.
    pub fn begin(&mut self) -> (r: ())
        ensures
            final(self).building,
            final(self).buffer@ == Seq::<DrawCommand>::empty(),
            final(self).roots@ == Seq::<(Element, Vec2)>::empty(),
            final(self).state == old(self).state,
    {
        self.buffer.clear();
        self.roots = Vec::new();
        self.building = true;
    }

    /// Queues one root element with its target top-level size. Only legal
    /// between `begin` and `end`; anything else is begin/end misuse by the
    /// embedding application.
    pub fn add(&mut self, element: Element, max_size: Vec2) -> (r: ())
        requires
            old(self).building,
        ensures
            final(self).building,
            final(self).roots@ == old(self).roots@.push((element, max_size)),
            final(self).buffer == old(self).buffer,
            final(self).state == old(self).state,
    {
        self.roots.push((element, max_size));
    }

    /// Closes the frame: measures then processes every root in declaration
    /// order, leaving their commands in the buffer, and returns to idle.
    pub fn end(&mut self, reg: &ImageRegistry) -> (r: ())
        requires
            old(self).building,
            registry_wf(reg@),
            roots_ok(old(self).roots@, reg@),
        ensures
            !final(self).building,
            final(self).buffer@ == frame_spec_to(
                old(self).roots@,
                old(self).roots@.len() as int,
                reg@,
            ),
            final(self).roots@ == Seq::<(Element, Vec2)>::empty(),
            final(self).state == old(self).state,
    {
        let mut buf = DrawBuffer::new();
        let n = self.roots.len();
        let mut i: usize = 0;
        while i < n
            invariant
                n == self.roots@.len(),
                0 <= i <= n,
                self.roots@ == old(self).roots@,
                self.state == old(self).state,
                registry_wf(reg@),
                roots_ok(self.roots@, reg@),
                buf@ == frame_spec_to(self.roots@, i as int, reg@),
            decreases n - i,
        {
            let pair = &self.roots[i];
            proof {
                assert(elem_ok(self.roots@[i as int].0, reg@) && self.roots@[i as int].1.wf_extent());
            }
            let sz = measure(&pair.0, pair.1, reg);
            process(
                &pair.0,
                UiRect { position: Vec2 { x: 0, y: 0 }, size: sz },
                reg,
                &mut buf,
            );
            i += 1;
        }
        self.buffer = buf;
        self.roots = Vec::new();
        self.building = false;
    }
}

} // verus!
