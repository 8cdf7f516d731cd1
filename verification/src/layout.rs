//! The binding layout: which resources a compute program expects, slot by slot.
//!
//! A layout is declared once, before any pipeline is queued for compilation,
//! and never changes afterwards. Every frame's bound resource set is shaped
//! after it.

use vstd::prelude::*;
use crate::engine::view_uniform_min_size;

verus! {

/// Byte size of the time uniform: one 32-bit float.
pub const TIME_UNIFORM_SIZE: u64 = 4;

/// Binding index of the uniform buffer in the layouts built here.
pub const UNIFORM_BINDING: u32 = 0;

/// Binding index of the render target in the layouts built here.
pub const TARGET_BINDING: u32 = 1;

/// Texel formats a storage texture slot can be declared with.
#[derive(Clone, Copy, Debug, PartialEq, Eq, Structural)]
pub enum PixelFormat {
    Rgba8Unorm,
    Rgba16Float,
    R32Float,
    Rgba32Float,
}

/// The shader stages that may read a slot.
#[derive(Clone, Copy, Debug, PartialEq, Eq, Structural)]
pub struct StageVisibility {
    pub vertex: bool,
    pub fragment: bool,
    pub compute: bool,
}

impl StageVisibility {
    /// Visibility for a slot that only compute programs read.
    pub fn compute_only() -> (visibility: StageVisibility)
        ensures
            visibility == (StageVisibility { vertex: false, fragment: false, compute: true }),
    {
        StageVisibility { vertex: false, fragment: false, compute: true }
    }
}

/// What kind of resource a slot takes.
#[derive(Clone, Copy, Debug, PartialEq, Eq, Structural)]
pub enum SlotKind {
    /// A uniform buffer of at least `min_size` bytes. With `dynamic_offset`
    /// the byte offset into the buffer is supplied when the set is bound.
    UniformBuffer { min_size: u64, dynamic_offset: bool },
    /// A two-dimensional storage texture, read and written by the program.
    StorageTexture { format: PixelFormat },
}

/// One slot of a binding layout.
#[derive(Clone, Copy, Debug, PartialEq, Eq, Structural)]
pub struct SlotDescriptor {
    pub binding: u32,
    pub visibility: StageVisibility,
    pub kind: SlotKind,
}

/// A slot is usable by a compute program: the compute stage sees it, and a
/// uniform buffer has a size.
pub open spec fn slot_valid(slot: SlotDescriptor) -> bool {
    &&& slot.visibility.compute
    &&& (slot.kind matches SlotKind::UniformBuffer { min_size, .. } ==> min_size > 0)
}

/// The slot takes its byte offset at bind time.
pub open spec fn slot_is_dynamic(slot: SlotDescriptor) -> bool {
    slot.kind matches SlotKind::UniformBuffer { dynamic_offset, .. } && dynamic_offset
}

/// No binding index is used by two slots.
pub open spec fn distinct_bindings(slots: Seq<SlotDescriptor>) -> bool {
    forall|a: int, b: int|
        0 <= a < b < slots.len() ==> (#[trigger] slots[a]).binding != (#[trigger] slots[b]).binding
}

/// At most one slot takes a dynamic offset. A frame resolves a single offset,
/// that of its active view, so a second dynamic slot could never be bound.
pub open spec fn at_most_one_dynamic(slots: Seq<SlotDescriptor>) -> bool {
    forall|a: int, b: int|
        0 <= a < b < slots.len() ==> !(slot_is_dynamic(#[trigger] slots[a]) && slot_is_dynamic(
            #[trigger] slots[b],
        ))
}

/// Some slot of the sequence takes a dynamic offset.
pub open spec fn has_dynamic_slot(slots: Seq<SlotDescriptor>) -> bool {
    exists|k: int| 0 <= k < slots.len() && slot_is_dynamic(#[trigger] slots[k])
}

/// The slots form a layout that a compute pipeline can be compiled against.
pub open spec fn layout_valid(slots: Seq<SlotDescriptor>) -> bool {
    &&& forall|k: int| 0 <= k < slots.len() ==> slot_valid(#[trigger] slots[k])
    &&& distinct_bindings(slots)
    &&& at_most_one_dynamic(slots)
}

impl SlotDescriptor {
    /// A compute-visible uniform buffer slot with a fixed offset.
    pub fn uniform(binding: u32, min_size: u64) -> (slot: SlotDescriptor)
        ensures
            slot == (SlotDescriptor {
                binding,
                visibility: StageVisibility { vertex: false, fragment: false, compute: true },
                kind: SlotKind::UniformBuffer { min_size, dynamic_offset: false },
            }),
    {
        SlotDescriptor {
            binding,
            visibility: StageVisibility::compute_only(),
            kind: SlotKind::UniformBuffer { min_size, dynamic_offset: false },
        }
    }

    /// A compute-visible uniform buffer slot whose offset is given per bind.
    pub fn dynamic_uniform(binding: u32, min_size: u64) -> (slot: SlotDescriptor)
        ensures
            slot == (SlotDescriptor {
                binding,
                visibility: StageVisibility { vertex: false, fragment: false, compute: true },
                kind: SlotKind::UniformBuffer { min_size, dynamic_offset: true },
            }),
    {
        SlotDescriptor {
            binding,
            visibility: StageVisibility::compute_only(),
            kind: SlotKind::UniformBuffer { min_size, dynamic_offset: true },
        }
    }

    /// A compute-visible read-write storage texture slot.
    pub fn storage_texture(binding: u32, format: PixelFormat) -> (slot: SlotDescriptor)
        ensures
            slot == (SlotDescriptor {
                binding,
                visibility: StageVisibility { vertex: false, fragment: false, compute: true },
                kind: SlotKind::StorageTexture { format },
            }),
    {
        SlotDescriptor {
            binding,
            visibility: StageVisibility::compute_only(),
            kind: SlotKind::StorageTexture { format },
        }
    }

    /// Whether a compute program can use the slot.
    pub fn is_valid(&self) -> (ok: bool)
        ensures
            ok == slot_valid(*self),
    {
        if !self.visibility.compute {
            return false;
        }
        match self.kind {
            SlotKind::UniformBuffer { min_size, .. } => min_size > 0,
            SlotKind::StorageTexture { .. } => true,
        }
    }

    /// Whether the slot takes its byte offset at bind time.
    pub fn is_dynamic(&self) -> (dynamic: bool)
        ensures
            dynamic == slot_is_dynamic(*self),
    {
        match self.kind {
            SlotKind::UniformBuffer { dynamic_offset, .. } => dynamic_offset,
            SlotKind::StorageTexture { .. } => false,
        }
    }
}

/// An ordered list of slots that passed validation. It cannot be changed
/// once built.
pub struct BindingLayout {
    slots: Vec<SlotDescriptor>,
}

impl View for BindingLayout {
    type V = Seq<SlotDescriptor>;

    closed spec fn view(&self) -> Seq<SlotDescriptor> {
        self.slots@
    }
}

impl BindingLayout {
    #[verifier::type_invariant]
    spec fn well_formed(self) -> bool {
        layout_valid(self.slots@)
    }

    /// Validates the slots and keeps them as a layout.
    ///
    /// The slots are refused when one of them is hidden from the compute
    /// stage, when a uniform buffer has no size, when two slots share a
    /// binding index, or when more than one slot takes a dynamic offset.
    pub fn new(slots: Vec<SlotDescriptor>) -> (layout: Option<BindingLayout>)
        ensures
            layout is Some <==> layout_valid(slots@),
            layout matches Some(l) ==> l@ == slots@,
    {
        let n = slots.len();
        let mut dynamic_seen = false;
        let mut i: usize = 0;
        while i < n
            invariant
                i <= n,
                n == slots.len(),
                forall|k: int| 0 <= k < i ==> slot_valid(#[trigger] slots@[k]),
                distinct_bindings(slots@.take(i as int)),
                at_most_one_dynamic(slots@.take(i as int)),
                dynamic_seen <==> has_dynamic_slot(slots@.take(i as int)),
            decreases n - i,
        {
            let slot = slots[i];
            if !slot.is_valid() {
                return None;
            }
            if slot.is_dynamic() {
                if dynamic_seen {
                    proof {
                        let k = choose|k: int|
                            0 <= k < i && slot_is_dynamic(#[trigger] slots@.take(i as int)[k]);
                        assert(slot_is_dynamic(slots@[k]) && slot_is_dynamic(slots@[i as int]));
                    }
                    return None;
                }
            }
            let mut j: usize = 0;
            while j < i
                invariant
                    j <= i,
                    i < n,
                    n == slots.len(),
                    slot == slots@[i as int],
                    forall|a: int| 0 <= a < j ==> (#[trigger] slots@[a]).binding != slot.binding,
                decreases i - j,
            {
                if slots[j].binding == slot.binding {
                    proof {
                        assert(slots@[j as int].binding == slots@[i as int].binding);
                    }
                    return None;
                }
                j += 1;
            }
            proof {
                let before = slots@.take(i as int);
                let after = slots@.take(i + 1);
                assert forall|a: int, b: int| 0 <= a < b < after.len() implies (
                #[trigger] after[a]).binding != (#[trigger] after[b]).binding by {
                    if b < i {
                        assert(before[a].binding != before[b].binding);
                    }
                }
                assert forall|a: int, b: int| 0 <= a < b < after.len() implies !(slot_is_dynamic(
                    #[trigger] after[a],
                ) && slot_is_dynamic(#[trigger] after[b])) by {
                    if b < i {
                        assert(!(slot_is_dynamic(before[a]) && slot_is_dynamic(before[b])));
                    } else if slot_is_dynamic(after[a]) {
                        assert(slot_is_dynamic(before[a]));
                    }
                }
                if has_dynamic_slot(after) {
                    let k = choose|k: int|
                        0 <= k < after.len() && slot_is_dynamic(#[trigger] after[k]);
                    if k < i {
                        assert(slot_is_dynamic(before[k]));
                    }
                }
                if has_dynamic_slot(before) {
                    let k = choose|k: int|
                        0 <= k < before.len() && slot_is_dynamic(#[trigger] before[k]);
                    assert(slot_is_dynamic(after[k]));
                }
                if slot_is_dynamic(slot) {
                    assert(slot_is_dynamic(after[i as int]));
                }
            }
            dynamic_seen = dynamic_seen || slot.is_dynamic();
            i += 1;
        }
        proof {
            assert(slots@.take(n as int) =~= slots@);
        }
        Some(BindingLayout { slots })
    }

    /// The layout of a program that reads the time from a uniform buffer and
    /// writes the render target.
    pub fn with_time_uniform() -> (layout: BindingLayout)
        ensures
            layout@ == seq![
                SlotDescriptor {
                    binding: UNIFORM_BINDING,
                    visibility: StageVisibility { vertex: false, fragment: false, compute: true },
                    kind: SlotKind::UniformBuffer {
                        min_size: TIME_UNIFORM_SIZE,
                        dynamic_offset: false,
                    },
                },
                SlotDescriptor {
                    binding: TARGET_BINDING,
                    visibility: StageVisibility { vertex: false, fragment: false, compute: true },
                    kind: SlotKind::StorageTexture { format: PixelFormat::Rgba8Unorm },
                },
            ],
            layout_valid(layout@),
    {
        let mut slots: Vec<SlotDescriptor> = Vec::new();
        slots.push(SlotDescriptor::uniform(UNIFORM_BINDING, TIME_UNIFORM_SIZE));
        slots.push(SlotDescriptor::storage_texture(TARGET_BINDING, PixelFormat::Rgba8Unorm));
        BindingLayout { slots }
    }

    /// The layout of a program that reads the engine's per-view uniform and
    /// writes the render target. All views of a frame share one uniform
    /// buffer, so the slot takes its offset when the set is bound; its size
    /// is the size that the engine gives for its view uniform.
    pub fn with_view_uniform() -> (layout: BindingLayout)
        ensures
            layout@.len() == 2,
            layout@[0].binding == UNIFORM_BINDING,
            layout@[0].visibility == (StageVisibility {
                vertex: false,
                fragment: false,
                compute: true,
            }),
            layout@[0].kind matches SlotKind::UniformBuffer { min_size, dynamic_offset }
                && min_size > 0 && dynamic_offset,
            layout@[1] == (SlotDescriptor {
                binding: TARGET_BINDING,
                visibility: StageVisibility { vertex: false, fragment: false, compute: true },
                kind: SlotKind::StorageTexture { format: PixelFormat::Rgba8Unorm },
            }),
            layout_valid(layout@),
    {
        let mut slots: Vec<SlotDescriptor> = Vec::new();
        slots.push(SlotDescriptor::dynamic_uniform(UNIFORM_BINDING, view_uniform_min_size()));
        slots.push(SlotDescriptor::storage_texture(TARGET_BINDING, PixelFormat::Rgba8Unorm));
        BindingLayout { slots }
    }

    /// Number of slots.
    pub fn len(&self) -> (n: usize)
        ensures
            n == self@.len(),
    {
        self.slots.len()
    }

    /// The slots, in declaration order.
    pub fn slots(&self) -> (slots: &Vec<SlotDescriptor>)
        ensures
            slots@ == self@,
            layout_valid(slots@),
    {
        proof {
            use_type_invariant(self);
        }
        &self.slots
    }

    /// The slot at a position, if the layout is that long.
    pub fn get(&self, index: usize) -> (slot: Option<SlotDescriptor>)
        ensures
            slot == (if index < self@.len() {
                Some(self@[index as int])
            } else {
                None
            }),
    {
        if index < self.slots.len() {
            Some(self.slots[index])
        } else {
            None
        }
    }

    /// Whether a slot of the layout needs a byte offset when the set is bound.
    pub fn has_dynamic_offset(&self) -> (dynamic: bool)
        ensures
            dynamic == has_dynamic_slot(self@),
    {
        let n = self.slots.len();
        let mut i: usize = 0;
        while i < n
            invariant
                i <= n,
                n == self.slots.len(),
                forall|k: int| 0 <= k < i ==> !slot_is_dynamic(#[trigger] self.slots@[k]),
            decreases n - i,
        {
            if self.slots[i].is_dynamic() {
                return true;
            }
            i += 1;
        }
        false
    }
}

} // verus!
