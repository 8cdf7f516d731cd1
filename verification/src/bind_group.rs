//! The bind group assembler.
//!
//! Every frame the concrete resources of that frame are matched against the
//! layout, slot by slot and by binding index. Either every slot finds a
//! resolved resource that fits it, and the frame gets a bound resource set, or
//! the frame gets none and its dispatch is skipped. Nothing is kept from one
//! frame to the next.

use vstd::prelude::*;
use crate::layout::{
    has_dynamic_slot, layout_valid, slot_is_dynamic, BindingLayout, PixelFormat, SlotDescriptor,
    SlotKind,
};

verus! {

/// A GPU-side resource as one frame sees it.
#[derive(Clone, Copy, Debug, PartialEq, Eq, Structural)]
pub enum ResourceView {
    /// A binding of `size` bytes of a buffer.
    Buffer { size: u64 },
    /// A view of a two-dimensional texture.
    Texture { format: PixelFormat, width: u32, height: u32 },
}

/// What a frame offers for one binding index. `view` is `None` while the
/// resource cannot be resolved: not uploaded yet, or not there this frame.
#[derive(Clone, Copy, Debug, PartialEq, Eq, Structural)]
pub struct ConcreteResource {
    pub binding: u32,
    pub view: Option<ResourceView>,
}

/// One entry of a bound resource set.
#[derive(Clone, Copy, Debug, PartialEq, Eq, Structural)]
pub struct BoundEntry {
    pub binding: u32,
    pub view: ResourceView,
    /// The entry takes its byte offset when the set is bound.
    pub dynamic_offset: bool,
}

/// The resource can stand in the slot: a buffer that is large enough in a
/// uniform slot, a texture of the declared format in a storage texture slot.
pub open spec fn fits(slot: SlotDescriptor, view: ResourceView) -> bool {
    match (slot.kind, view) {
        (SlotKind::UniformBuffer { min_size, .. }, ResourceView::Buffer { size }) => size
            >= min_size,
        (SlotKind::StorageTexture { format }, ResourceView::Texture { format: found, .. }) => found
            == format,
        _ => false,
    }
}

/// Position `at` holds the first resource listed under `binding`.
pub open spec fn listed_at(resources: Seq<ConcreteResource>, binding: u32, at: int) -> bool {
    &&& 0 <= at < resources.len()
    &&& resources[at].binding == binding
    &&& forall|k: int| 0 <= k < at ==> (#[trigger] resources[k]).binding != binding
}

/// The resolved resource that the frame offers under `binding`: the view of
/// the first resource listed under it, if there is one and it is resolved.
pub open spec fn supplied(resources: Seq<ConcreteResource>, binding: u32) -> Option<ResourceView> {
    if exists|at: int| listed_at(resources, binding, at) {
        resources[choose|at: int| listed_at(resources, binding, at)].view
    } else {
        None
    }
}

/// The frame offers a resolved resource for the slot, and it fits.
pub open spec fn slot_bound(slot: SlotDescriptor, resources: Seq<ConcreteResource>) -> bool {
    supplied(resources, slot.binding) matches Some(view) && fits(slot, view)
}

/// The entry that binds the slot to what the frame offers for it.
pub open spec fn entry_for(slot: SlotDescriptor, resources: Seq<ConcreteResource>) -> BoundEntry {
    BoundEntry {
        binding: slot.binding,
        view: supplied(resources, slot.binding).unwrap(),
        dynamic_offset: slot_is_dynamic(slot),
    }
}

/// The frame offers exactly what the layout asks for: as many resources as
/// there are slots, and for every slot a resolved one that fits.
pub open spec fn bindable(layout: Seq<SlotDescriptor>, resources: Seq<ConcreteResource>) -> bool {
    &&& resources.len() == layout.len()
    &&& forall|i: int| 0 <= i < layout.len() ==> slot_bound(#[trigger] layout[i], resources)
}

/// What assembly yields: one entry per slot, in layout order, or nothing.
pub open spec fn assembled(layout: Seq<SlotDescriptor>, resources: Seq<ConcreteResource>) -> Option<
    Seq<BoundEntry>,
> {
    if bindable(layout, resources) {
        Some(Seq::new(layout.len(), |i: int| entry_for(layout[i], resources)))
    } else {
        None
    }
}

/// The entries follow the layout: one per slot, under the slot's binding
/// index, holding a resource that fits the slot.
pub open spec fn shaped_like(entries: Seq<BoundEntry>, layout: Seq<SlotDescriptor>) -> bool {
    &&& entries.len() == layout.len()
    &&& forall|i: int|
        0 <= i < layout.len() ==> {
            &&& (#[trigger] entries[i]).binding == layout[i].binding
            &&& fits(layout[i], entries[i].view)
            &&& entries[i].dynamic_offset == slot_is_dynamic(layout[i])
        }
}

/// Some entry takes its byte offset when the set is bound.
pub open spec fn takes_dynamic_offset(entries: Seq<BoundEntry>) -> bool {
    exists|i: int| 0 <= i < entries.len() && (#[trigger] entries[i]).dynamic_offset
}

/// The bound resource set of one frame. It is built by [`assemble`] and
/// cannot be changed afterwards.
pub struct BoundResourceSet {
    entries: Vec<BoundEntry>,
}

impl View for BoundResourceSet {
    type V = Seq<BoundEntry>;

    closed spec fn view(&self) -> Seq<BoundEntry> {
        self.entries@
    }
}

impl BoundResourceSet {
    /// Number of entries.
    pub fn len(&self) -> (n: usize)
        ensures
            n == self@.len(),
    {
        self.entries.len()
    }

    /// The entries, in layout order.
    pub fn entries(&self) -> (entries: &Vec<BoundEntry>)
        ensures
            entries@ == self@,
    {
        &self.entries
    }

    /// Whether binding the set takes a dynamic byte offset.
    pub fn needs_dynamic_offset(&self) -> (needed: bool)
        ensures
            needed == takes_dynamic_offset(self@),
    {
        let n = self.entries.len();
        let mut i: usize = 0;
        while i < n
            invariant
                i <= n,
                n == self.entries.len(),
                forall|k: int| 0 <= k < i ==> !(#[trigger] self.entries@[k]).dynamic_offset,
            decreases n - i,
        {
            if self.entries[i].dynamic_offset {
                return true;
            }
            i += 1;
        }
        false
    }
}

/// The views of an optional set.
pub open spec fn entries_of(set: Option<BoundResourceSet>) -> Option<Seq<BoundEntry>> {
    match set {
        Some(s) => Some(s@),
        None => None,
    }
}

/// Finds what the frame offers under a binding index.
pub fn find_supplied(resources: &Vec<ConcreteResource>, binding: u32) -> (view: Option<
    ResourceView,
>)
    ensures
        view == supplied(resources@, binding),
{
    let n = resources.len();
    let mut j: usize = 0;
    while j < n
        invariant
            j <= n,
            n == resources.len(),
            forall|k: int| 0 <= k < j ==> (#[trigger] resources@[k]).binding != binding,
        decreases n - j,
    {
        if resources[j].binding == binding {
            proof {
                assert(listed_at(resources@, binding, j as int));
                let chosen = choose|at: int| listed_at(resources@, binding, at);
                assert(listed_at(resources@, binding, chosen));
                assert(chosen == j) by {
                    if chosen < j {
                        assert(resources@[chosen].binding != binding);
                    }
                    if j < chosen {
                        assert(resources@[j as int].binding != binding);
                    }
                }
            }
            return resources[j].view;
        }
        j += 1;
    }
    proof {
        assert forall|at: int| !listed_at(resources@, binding, at) by {
            if 0 <= at < resources@.len() {
                assert(resources@[at].binding != binding);
            }
        }
    }
    None
}

/// Tells whether a resource can stand in a slot.
pub fn resource_fits(slot: &SlotDescriptor, view: &ResourceView) -> (ok: bool)
    ensures
        ok == fits(*slot, *view),
{
    match (slot.kind, *view) {
        (SlotKind::UniformBuffer { min_size, .. }, ResourceView::Buffer { size }) => size
            >= min_size,
        (SlotKind::StorageTexture { format }, ResourceView::Texture { format: found, .. }) => found
            == format,
        _ => false,
    }
}

/// Builds the bound resource set of a frame from the resources that the
/// frame offers.
///
/// The result is a set exactly when the frame offers as many resources as the
/// layout has slots and every slot finds, under its binding index, a resolved
/// resource that fits. The set then has one entry per slot, in layout order.
/// In every other case the result is `None` and the frame is to be skipped.
pub fn assemble(layout: &BindingLayout, resources: &Vec<ConcreteResource>) -> (set: Option<
    BoundResourceSet,
>)
    ensures
        entries_of(set) == assembled(layout@, resources@),
        set matches Some(s) ==> shaped_like(s@, layout@),
{
    let slots = layout.slots();
    let n = slots.len();
    if resources.len() != n {
        return None;
    }
    let mut entries: Vec<BoundEntry> = Vec::new();
    let mut i: usize = 0;
    while i < n
        invariant
            i <= n,
            n == slots.len(),
            slots@ == layout@,
            resources.len() == n,
            entries@.len() == i,
            forall|k: int| 0 <= k < i ==> slot_bound(#[trigger] slots@[k], resources@),
            forall|k: int|
                0 <= k < i ==> #[trigger] entries@[k] == entry_for(slots@[k], resources@),
        decreases n - i,
    {
        let slot = slots[i];
        match find_supplied(resources, slot.binding) {
            Some(view) => {
                if !resource_fits(&slot, &view) {
                    assert(!slot_bound(slots@[i as int], resources@));
                    return None;
                }
                entries.push(
                    BoundEntry { binding: slot.binding, view, dynamic_offset: slot.is_dynamic() },
                );
            },
            None => {
                assert(!slot_bound(slots@[i as int], resources@));
                return None;
            },
        }
        i += 1;
    }
    proof {
        assert(bindable(layout@, resources@));
        assert(entries@ =~= Seq::new(layout@.len(), |i: int| entry_for(layout@[i], resources@)));
    }
    Some(BoundResourceSet { entries })
}

/// What a frame offers for a slot when every uniform slot is served from
/// one buffer binding and every storage texture slot from the render target.
pub open spec fn offered_view(
    slot: SlotDescriptor,
    uniform: Option<ResourceView>,
    target: Option<ResourceView>,
) -> Option<ResourceView> {
    match slot.kind {
        SlotKind::UniformBuffer { .. } => uniform,
        SlotKind::StorageTexture { .. } => target,
    }
}

/// What a frame offers for a layout, slot by slot, from the uniform binding
/// and the render target as the frame could resolve them.
pub open spec fn offered(
    layout: Seq<SlotDescriptor>,
    uniform: Option<ResourceView>,
    target: Option<ResourceView>,
) -> Seq<ConcreteResource> {
    Seq::new(
        layout.len(),
        |i: int|
            ConcreteResource {
                binding: layout[i].binding,
                view: offered_view(layout[i], uniform, target),
            },
    )
}

/// Lists what a frame offers for each slot of the layout: the uniform
/// binding for the uniform slots and the render target for the storage
/// texture slots, each as far as the frame could resolve it.
pub fn offer(
    layout: &BindingLayout,
    uniform: Option<ResourceView>,
    target: Option<ResourceView>,
) -> (resources: Vec<ConcreteResource>)
    ensures
        resources@ == offered(layout@, uniform, target),
{
    let slots = layout.slots();
    let n = slots.len();
    let mut resources: Vec<ConcreteResource> = Vec::new();
    let mut i: usize = 0;
    while i < n
        invariant
            i <= n,
            n == slots.len(),
            slots@ == layout@,
            resources@.len() == i,
            forall|k: int|
                0 <= k < i ==> #[trigger] resources@[k] == (ConcreteResource {
                    binding: slots@[k].binding,
                    view: offered_view(slots@[k], uniform, target),
                }),
        decreases n - i,
    {
        let slot = slots[i];
        let view = match slot.kind {
            SlotKind::UniformBuffer { .. } => uniform,
            SlotKind::StorageTexture { .. } => target,
        };
        resources.push(ConcreteResource { binding: slot.binding, view });
        i += 1;
    }
    proof {
        assert(resources@ =~= offered(layout@, uniform, target));
    }
    resources
}

/// Under the binding index of each slot of a valid layout, what the frame
/// offers is what it could resolve for that slot.
pub proof fn lemma_offer_supplies_each_slot(
    layout: Seq<SlotDescriptor>,
    uniform: Option<ResourceView>,
    target: Option<ResourceView>,
    slot: int,
)
    requires
        layout_valid(layout),
        0 <= slot < layout.len(),
    ensures
        supplied(offered(layout, uniform, target), layout[slot].binding) == offered_view(
            layout[slot],
            uniform,
            target,
        ),
{
    let resources = offered(layout, uniform, target);
    let binding = layout[slot].binding;
    assert forall|k: int| 0 <= k < slot implies (#[trigger] resources[k]).binding != binding by {
        assert(layout[k].binding != layout[slot].binding);
    }
    assert(listed_at(resources, binding, slot));
    let chosen = choose|at: int| listed_at(resources, binding, at);
    assert(listed_at(resources, binding, chosen));
    if chosen < slot {
        assert(resources[chosen].binding != binding);
    }
    if slot < chosen {
        assert(resources[slot].binding != binding);
    }
}

/// A frame that offers the uniform binding and the render target gets a
/// bound set exactly when it could resolve, for every slot of the layout,
/// the one of the two that the slot takes, and that one fits the slot.
pub proof fn lemma_offer_is_bound_iff_resolved(
    layout: Seq<SlotDescriptor>,
    uniform: Option<ResourceView>,
    target: Option<ResourceView>,
)
    requires
        layout_valid(layout),
    ensures
        assembled(layout, offered(layout, uniform, target)) is Some <==> forall|i: int|
            0 <= i < layout.len() ==> (offered_view(#[trigger] layout[i], uniform, target)
                matches Some(view) && fits(layout[i], view)),
{
    let resources = offered(layout, uniform, target);
    assert forall|i: int| 0 <= i < layout.len() implies (slot_bound(
        #[trigger] layout[i],
        resources,
    ) <==> (offered_view(layout[i], uniform, target) matches Some(view) && fits(
        layout[i],
        view,
    ))) by {
        lemma_offer_supplies_each_slot(layout, uniform, target, i);
    }
}

/// A layout with a storage texture slot gets no bound set in a frame that
/// could not resolve the render target.
pub proof fn lemma_unresolved_target_yields_none(
    layout: Seq<SlotDescriptor>,
    uniform: Option<ResourceView>,
    slot: int,
)
    requires
        layout_valid(layout),
        0 <= slot < layout.len(),
        layout[slot].kind is StorageTexture,
    ensures
        assembled(layout, offered(layout, uniform, None)) is None,
{
    lemma_offer_supplies_each_slot(layout, uniform, None, slot);
    lemma_unresolved_slot_yields_none(layout, offered(layout, uniform, None), slot);
}

/// Assembly has no memory: whatever it yields for a layout and a frame's
/// resources, it yields again for the same layout and resources.
pub proof fn lemma_assemble_is_repeatable(
    layout: BindingLayout,
    resources: Seq<ConcreteResource>,
    first: Option<BoundResourceSet>,
    second: Option<BoundResourceSet>,
)
    requires
        entries_of(first) == assembled(layout@, resources),
        entries_of(second) == assembled(layout@, resources),
    ensures
        entries_of(first) == entries_of(second),
        first is Some <==> second is Some,
{
}

/// Assembly goes by binding index, not by position: two frames that offer
/// equally many resources and, under every binding index of the layout, the
/// same resolved resource, get the same set.
pub proof fn lemma_assembly_goes_by_binding_index(
    layout: Seq<SlotDescriptor>,
    first: Seq<ConcreteResource>,
    second: Seq<ConcreteResource>,
)
    requires
        first.len() == second.len(),
        forall|i: int|
            0 <= i < layout.len() ==> supplied(first, (#[trigger] layout[i]).binding) == supplied(
                second,
                layout[i].binding,
            ),
    ensures
        assembled(layout, first) == assembled(layout, second),
{
    if bindable(layout, first) {
        assert forall|i: int| 0 <= i < layout.len() implies slot_bound(
            #[trigger] layout[i],
            second,
        ) by {
            assert(slot_bound(layout[i], first));
        }
        assert(Seq::new(layout.len(), |i: int| entry_for(layout[i], first)) =~= Seq::new(
            layout.len(),
            |i: int| entry_for(layout[i], second),
        ));
    } else if bindable(layout, second) {
        assert forall|i: int| 0 <= i < layout.len() implies slot_bound(
            #[trigger] layout[i],
            first,
        ) by {
            assert(slot_bound(layout[i], second));
        }
    }
}

/// A slot whose resource is missing or unresolved leaves the frame without a
/// bound resource set.
pub proof fn lemma_unresolved_slot_yields_none(
    layout: Seq<SlotDescriptor>,
    resources: Seq<ConcreteResource>,
    slot: int,
)
    requires
        0 <= slot < layout.len(),
        supplied(resources, layout[slot].binding) is None,
    ensures
        assembled(layout, resources) is None,
{
    assert(!slot_bound(layout[slot], resources));
}

/// A resource listed without a view, under a binding index that nothing
/// listed before it uses, is what the frame offers for that index: nothing.
pub proof fn lemma_unresolved_listing_supplies_nothing(
    resources: Seq<ConcreteResource>,
    at: int,
)
    requires
        listed_at(resources, resources[at].binding, at),
        resources[at].view is None,
    ensures
        supplied(resources, resources[at].binding) is None,
{
    let binding = resources[at].binding;
    let chosen = choose|j: int| listed_at(resources, binding, j);
    assert(listed_at(resources, binding, chosen));
    if chosen < at {
        assert(resources[chosen].binding != binding);
    }
    if at < chosen {
        assert(resources[at].binding != binding);
    }
}

/// No two entries of a set that follows a valid layout bind the same index.
pub proof fn lemma_entries_bind_distinct_indices(
    layout: Seq<SlotDescriptor>,
    entries: Seq<BoundEntry>,
)
    requires
        layout_valid(layout),
        shaped_like(entries, layout),
    ensures
        forall|a: int, b: int|
            0 <= a < b < entries.len() ==> (#[trigger] entries[a]).binding != (
            #[trigger] entries[b]).binding,
{
    assert forall|a: int, b: int| 0 <= a < b < entries.len() implies (
    #[trigger] entries[a]).binding != (#[trigger] entries[b]).binding by {
        assert(layout[a].binding != layout[b].binding);
    }
}

/// A set that was assembled against a valid layout takes a dynamic offset
/// exactly when the layout has a slot that does.
pub proof fn lemma_dynamic_follows_layout(layout: Seq<SlotDescriptor>, entries: Seq<BoundEntry>)
    requires
        layout_valid(layout),
        shaped_like(entries, layout),
    ensures
        takes_dynamic_offset(entries) == has_dynamic_slot(layout),
{
    if takes_dynamic_offset(entries) {
        let i = choose|i: int| 0 <= i < entries.len() && (#[trigger] entries[i]).dynamic_offset;
        assert(slot_is_dynamic(layout[i]));
    }
    if has_dynamic_slot(layout) {
        let k = choose|k: int| 0 <= k < layout.len() && slot_is_dynamic(#[trigger] layout[k]);
        assert(entries[k].dynamic_offset);
    }
}

} // verus!
