//! The scheduler node.
//!
//! The graph executor calls the node twice per frame. The update step polls
//! the pipeline cache and moves the readiness phase; it records nothing on
//! the GPU. The run step decides what the frame's compute pass holds: at most
//! one dispatch, of the init program in the frame that enters `Init`, of the
//! update program in every frame of `Update`, and nothing whenever something
//! the dispatch depends on is missing: the compiled pipeline, the bound
//! resource set, or the view whose offset the set is bound with.

use vstd::prelude::*;
use bevy::render::render_resource::PipelineCache;
use crate::bind_group::{
    assembled, lemma_unresolved_slot_yields_none, lemma_unresolved_target_yields_none, offered,
    supplied, takes_dynamic_offset, BoundEntry, BoundResourceSet, ConcreteResource, ResourceView,
};
use crate::grid::{
    dispatch_grid, grid_for, DispatchGrid, COMPUTE_IMG_SIZE, WORKGROUP_SIZE,
};
use crate::layout::{layout_valid, SlotDescriptor};
use crate::pipeline::MyComputeShaderPipeline;
use crate::readiness::{
    lemma_phase_never_regresses, lemma_ready_reaches_update, phase_after, CompileStatus,
    MyComputeShaderState, Program,
};

verus! {

/// Name of the input slot through which the graph hands the node the active
/// view of the frame.
pub const IN_VIEW: &'static str = "view";

/// Index of the bind group that the bound resource set is bound to.
pub const BIND_GROUP_INDEX: u32 = 0;

/// What a graph slot carries.
#[derive(Clone, Copy, Debug, PartialEq, Eq, Structural)]
pub enum SlotType {
    /// A reference to an entity of the render state.
    Entity,
}

/// An input slot that a node declares to the graph.
#[derive(Clone, Copy, Debug)]
pub struct InputSlot {
    pub name: &'static str,
    pub slot_type: SlotType,
}

/// One dispatch, as the run step asks the compute pass to record it: bind the
/// frame's resource set, select the program's pipeline, dispatch the grid.
#[derive(Clone, Copy, Debug, PartialEq, Eq, Structural)]
pub struct DispatchCommand {
    pub program: Program,
    pub bind_group_index: u32,
    /// The byte offset to bind the set with, if the set takes one.
    pub dynamic_offset: Option<u32>,
    pub grid: DispatchGrid,
}

/// The node as contracts see it.
pub struct NodeModel {
    pub state: MyComputeShaderState,
    /// The phase became `Init` in the latest update step and the one-time
    /// init dispatch has its frame now.
    pub init_due: bool,
    pub target_width: u32,
    pub target_height: u32,
    pub workgroup_size: u32,
}

impl NodeModel {
    /// What every node upholds.
    pub open spec fn wf(self) -> bool {
        &&& self.workgroup_size > 0
        &&& (self.init_due ==> self.state == MyComputeShaderState::Init)
    }

    /// A node before its first frame.
    pub open spec fn initial(
        target_width: u32,
        target_height: u32,
        workgroup_size: u32,
    ) -> NodeModel {
        NodeModel {
            state: MyComputeShaderState::Loading,
            init_due: false,
            target_width,
            target_height,
            workgroup_size,
        }
    }

    /// The node after an update step in which the two programs report `init`
    /// and `update`. The init dispatch falls due in the step that leaves
    /// `Loading`, and in no other.
    pub open spec fn after_update(self, init: CompileStatus, update: CompileStatus) -> NodeModel {
        NodeModel {
            state: self.state.step(init, update),
            init_due: self.state == MyComputeShaderState::Loading && init == CompileStatus::Ready,
            ..self
        }
    }

    /// The program that the run step would dispatch, if any.
    pub open spec fn due(self) -> Option<Program> {
        match self.state {
            MyComputeShaderState::Loading => None,
            MyComputeShaderState::Init => if self.init_due {
                Some(Program::Init)
            } else {
                None
            },
            MyComputeShaderState::Update => Some(Program::Update),
        }
    }

    /// The grid that covers the node's render target.
    pub open spec fn grid(self) -> DispatchGrid {
        grid_for(self.target_width, self.target_height, self.workgroup_size)
    }

    /// What the run step records, given the frame's bound resource set, the
    /// dynamic offset of the frame's active view, and the compile status of
    /// the program that is due. It is a dispatch only if a program is due,
    /// its pipeline is ready, the frame has a bound set and, where the set
    /// takes a dynamic offset, the frame has a view to take it from.
    pub open spec fn dispatch(
        self,
        bound: Option<Seq<BoundEntry>>,
        view_offset: Option<u32>,
        status: CompileStatus,
    ) -> Option<DispatchCommand> {
        if self.due() is Some && bound is Some && (takes_dynamic_offset(bound.unwrap())
            ==> view_offset is Some) && status == CompileStatus::Ready {
            Some(
                DispatchCommand {
                    program: self.due().unwrap(),
                    bind_group_index: BIND_GROUP_INDEX,
                    dynamic_offset: if takes_dynamic_offset(bound.unwrap()) {
                        view_offset
                    } else {
                        None
                    },
                    grid: self.grid(),
                },
            )
        } else {
            None
        }
    }
}

/// What one frame brings: the compile status of both programs, the bound
/// resource set if one could be assembled, and the dynamic offset of the
/// active view if the graph handed the node one.
pub struct Frame {
    pub init: CompileStatus,
    pub update: CompileStatus,
    pub bound: Option<Seq<BoundEntry>>,
    pub view_offset: Option<u32>,
}

impl Frame {
    /// What the frame reports for a program.
    pub open spec fn status(self, program: Program) -> CompileStatus {
        match program {
            Program::Init => self.init,
            Program::Update => self.update,
        }
    }
}

/// What the node records in a frame: the update step first, then the run
/// step on the node that the update step left.
pub open spec fn frame_command(before: NodeModel, frame: Frame) -> Option<DispatchCommand> {
    let node = before.after_update(frame.init, frame.update);
    match node.due() {
        Some(program) => node.dispatch(frame.bound, frame.view_offset, frame.status(program)),
        None => None,
    }
}

/// The node after a run of frames.
pub open spec fn node_after(start: NodeModel, frames: Seq<Frame>) -> NodeModel
    decreases frames.len(),
{
    if frames.len() == 0 {
        start
    } else {
        node_after(start, frames.drop_last()).after_update(frames.last().init, frames.last().update)
    }
}

/// What the node records in the last frame of a run.
pub open spec fn last_command(start: NodeModel, frames: Seq<Frame>) -> Option<DispatchCommand>
    recommends
        frames.len() > 0,
{
    frame_command(node_after(start, frames.drop_last()), frames.last())
}

/// How many dispatches of `program` a run of frames records.
pub open spec fn dispatch_count(start: NodeModel, frames: Seq<Frame>, program: Program) -> nat
    decreases frames.len(),
{
    if frames.len() == 0 {
        0
    } else {
        dispatch_count(start, frames.drop_last(), program) + if last_command(start, frames)
            matches Some(command) && command.program == program {
            1nat
        } else {
            0nat
        }
    }
}

/// The compile statuses of a run of frames, frame by frame.
pub open spec fn polls_of(frames: Seq<Frame>) -> Seq<(CompileStatus, CompileStatus)> {
    Seq::new(frames.len(), |k: int| (frames[k].init, frames[k].update))
}

/// The scheduler node: the readiness phase and the size of the dispatch.
pub struct MyComputeShaderNode {
    state: MyComputeShaderState,
    init_due: bool,
    target_width: u32,
    target_height: u32,
    workgroup_size: u32,
}

impl View for MyComputeShaderNode {
    type V = NodeModel;

    closed spec fn view(&self) -> NodeModel {
        NodeModel {
            state: self.state,
            init_due: self.init_due,
            target_width: self.target_width,
            target_height: self.target_height,
            workgroup_size: self.workgroup_size,
        }
    }
}

/// The entries of the frame's bound set, if the frame has one.
pub open spec fn bound_entries(bound: Option<&BoundResourceSet>) -> Option<Seq<BoundEntry>> {
    match bound {
        Some(set) => Some(set@),
        None => None,
    }
}

impl MyComputeShaderNode {
    #[verifier::type_invariant]
    spec fn well_formed(self) -> bool {
        self@.wf()
    }

    /// A node for the demo target, in the `Loading` phase.
    pub fn new() -> (node: MyComputeShaderNode)
        ensures
            node@ == NodeModel::initial(COMPUTE_IMG_SIZE.0, COMPUTE_IMG_SIZE.1, WORKGROUP_SIZE),
            node@.wf(),
    {
        MyComputeShaderNode {
            state: MyComputeShaderState::Loading,
            init_due: false,
            target_width: COMPUTE_IMG_SIZE.0,
            target_height: COMPUTE_IMG_SIZE.1,
            workgroup_size: WORKGROUP_SIZE,
        }
    }

    /// A node for a target of the given size, dispatched in square groups of
    /// `workgroup_size` threads. There is no such node for groups of no
    /// threads.
    pub fn with_target(target_width: u32, target_height: u32, workgroup_size: u32) -> (node: Option<
        MyComputeShaderNode,
    >)
        ensures
            node is Some <==> workgroup_size > 0,
            node matches Some(n) ==> n@ == NodeModel::initial(
                target_width,
                target_height,
                workgroup_size,
            ) && n@.wf(),
    {
        if workgroup_size == 0 {
            None
        } else {
            Some(
                MyComputeShaderNode {
                    state: MyComputeShaderState::Loading,
                    init_due: false,
                    target_width,
                    target_height,
                    workgroup_size,
                },
            )
        }
    }

    /// The input slots that the node declares to the graph: the active view.
    pub fn input(&self) -> (slots: Vec<InputSlot>)
        ensures
            slots@.len() == 1,
            slots@[0].name@ == IN_VIEW@,
            slots@[0].slot_type == SlotType::Entity,
    {
        let mut slots: Vec<InputSlot> = Vec::new();
        slots.push(InputSlot { name: IN_VIEW, slot_type: SlotType::Entity });
        slots
    }

    /// The readiness phase.
    pub fn state(&self) -> (state: MyComputeShaderState)
        ensures
            state == self@.state,
            self@.wf(),
    {
        proof {
            use_type_invariant(self);
        }
        self.state
    }

    /// The grid of every dispatch of this node.
    pub fn grid(&self) -> (grid: DispatchGrid)
        ensures
            grid == self@.grid(),
    {
        proof {
            use_type_invariant(self);
        }
        dispatch_grid(self.target_width, self.target_height, self.workgroup_size)
    }

    /// The update step on polled values: takes what the two programs report
    /// in this frame and moves the phase. Records nothing.
    pub fn advance_state(&mut self, init: CompileStatus, update: CompileStatus)
        ensures
            final(self)@ == old(self)@.after_update(init, update),
            final(self)@.wf(),
    {
        proof {
            use_type_invariant(&*self);
        }
        let entered_init = match (self.state, init) {
            (MyComputeShaderState::Loading, CompileStatus::Ready) => true,
            _ => false,
        };
        *self = MyComputeShaderNode {
            state: self.state.advance(init, update),
            init_due: entered_init,
            target_width: self.target_width,
            target_height: self.target_height,
            workgroup_size: self.workgroup_size,
        };
    }

    /// The update step: polls the cache for the program that the phase is
    /// waiting for and moves the phase. Never blocks and records nothing.
    pub fn update(&mut self, pipeline: &MyComputeShaderPipeline, cache: &PipelineCache)
        ensures
            final(self)@ == old(self)@.after_update(
                pipeline@.status(*cache, Program::Init),
                pipeline@.status(*cache, Program::Update),
            ),
            final(self)@.wf(),
    {
        match self.state.awaits() {
            Some(Program::Init) => {
                let init = pipeline.poll(cache, Program::Init);
                self.advance_state(init, CompileStatus::Pending);
            },
            Some(Program::Update) => {
                let update = pipeline.poll(cache, Program::Update);
                self.advance_state(CompileStatus::Pending, update);
            },
            None => {
                self.advance_state(CompileStatus::Pending, CompileStatus::Pending);
            },
        }
    }

    /// The program that the run step would dispatch in this frame, if any.
    pub fn due(&self) -> (program: Option<Program>)
        ensures
            program == self@.due(),
    {
        match self.state {
            MyComputeShaderState::Loading => None,
            MyComputeShaderState::Init => if self.init_due {
                Some(Program::Init)
            } else {
                None
            },
            MyComputeShaderState::Update => Some(Program::Update),
        }
    }

    /// The run step on polled values: decides what the frame's compute pass
    /// records, given the frame's bound resource set, the dynamic offset of
    /// its active view, and the compile status of the program that is due.
    pub fn dispatch(
        &self,
        bound: Option<&BoundResourceSet>,
        view_offset: Option<u32>,
        status: CompileStatus,
    ) -> (command: Option<DispatchCommand>)
        ensures
            command == self@.dispatch(bound_entries(bound), view_offset, status),
    {
        let program = match self.due() {
            Some(program) => program,
            None => { return None; },
        };
        let set = match bound {
            Some(set) => set,
            None => { return None; },
        };
        match status {
            CompileStatus::Ready => {},
            _ => { return None; },
        }
        let dynamic_offset = if set.needs_dynamic_offset() {
            match view_offset {
                Some(offset) => Some(offset),
                None => { return None; },
            }
        } else {
            None
        };
        Some(
            DispatchCommand {
                program,
                bind_group_index: BIND_GROUP_INDEX,
                dynamic_offset,
                grid: self.grid(),
            },
        )
    }

    /// One whole frame on polled values: the update step, then the run step
    /// on what the update step left.
    pub fn frame(
        &mut self,
        init: CompileStatus,
        update: CompileStatus,
        bound: Option<&BoundResourceSet>,
        view_offset: Option<u32>,
    ) -> (command: Option<DispatchCommand>)
        ensures
            final(self)@ == old(self)@.after_update(init, update),
            final(self)@.wf(),
            command == frame_command(
                old(self)@,
                (Frame { init, update, bound: bound_entries(bound), view_offset }),
            ),
    {
        self.advance_state(init, update);
        match self.due() {
            Some(Program::Init) => self.dispatch(bound, view_offset, init),
            Some(Program::Update) => self.dispatch(bound, view_offset, update),
            None => None,
        }
    }

    /// The run step: decides what the frame's compute pass records. The
    /// pipeline of the program that is due is looked up in the cache; while it
    /// is not ready the frame is skipped.
    pub fn run(
        &self,
        pipeline: &MyComputeShaderPipeline,
        cache: &PipelineCache,
        bound: Option<&BoundResourceSet>,
        view_offset: Option<u32>,
    ) -> (command: Option<DispatchCommand>)
        ensures
            command == match self@.due() {
                Some(program) => self@.dispatch(
                    bound_entries(bound),
                    view_offset,
                    pipeline@.status(*cache, program),
                ),
                None => None,
            },
    {
        match self.due() {
            Some(program) => {
                let status = pipeline.poll(cache, program);
                self.dispatch(bound, view_offset, status)
            },
            None => None,
        }
    }
}

impl Default for MyComputeShaderNode {
    /// A node for the demo target, in the `Loading` phase.
    fn default() -> (node: MyComputeShaderNode)
        ensures
            node@ == NodeModel::initial(COMPUTE_IMG_SIZE.0, COMPUTE_IMG_SIZE.1, WORKGROUP_SIZE),
    {
        MyComputeShaderNode::new()
    }
}

/// The phase of the node is the phase of the readiness state machine: after
/// any run of frames it is where the machine is after the same polls.
pub proof fn lemma_node_follows_phase(start: NodeModel, frames: Seq<Frame>)
    ensures
        node_after(start, frames).state == phase_after(start.state, polls_of(frames)),
        node_after(start, frames).target_width == start.target_width,
        node_after(start, frames).target_height == start.target_height,
        node_after(start, frames).workgroup_size == start.workgroup_size,
        start.wf() ==> node_after(start, frames).wf(),
    decreases frames.len(),
{
    if frames.len() > 0 {
        lemma_node_follows_phase(start, frames.drop_last());
        assert(polls_of(frames).drop_last() =~= polls_of(frames.drop_last()));
    }
}

/// Two frames in which both programs report `Ready` bring any node to
/// `Update`, wherever it stood before them, and keep it there.
pub proof fn lemma_node_reaches_update(start: NodeModel, frames: Seq<Frame>, since: int)
    requires
        0 <= since,
        since + 2 <= frames.len(),
        forall|k: int|
            since <= k < frames.len() ==> (#[trigger] frames[k]).init == CompileStatus::Ready
                && frames[k].update == CompileStatus::Ready,
    ensures
        node_after(start, frames).state == MyComputeShaderState::Update,
{
    lemma_node_follows_phase(start, frames);
    assert forall|k: int| since <= k < polls_of(frames).len() implies #[trigger] polls_of(
        frames,
    )[k] == (CompileStatus::Ready, CompileStatus::Ready) by {
        assert(frames[k].init == CompileStatus::Ready);
    }
    lemma_ready_reaches_update(start.state, polls_of(frames), since);
}

/// Before the phase is `Update` a frame is silent, but for the one frame in
/// which the phase has just become `Init`: there the init program may be
/// dispatched, once. The update program is dispatched in no such frame.
pub proof fn lemma_silent_before_update(before: NodeModel, frame: Frame)
    requires
        before.wf(),
    ensures
        ({
            let node = before.after_update(frame.init, frame.update);
            &&& node.state == MyComputeShaderState::Loading ==> frame_command(before, frame) is None
            &&& node.state == MyComputeShaderState::Init && before.state
                != MyComputeShaderState::Loading ==> frame_command(before, frame) is None
            &&& frame_command(before, frame) matches Some(command) ==> (command.program
                == Program::Update <==> node.state == MyComputeShaderState::Update)
        }),
{
}

/// While the update program has not reported `Ready` in any frame of a run
/// that starts in `Loading`, the run records no dispatch of it.
pub proof fn lemma_no_update_dispatch_before_ready(start: NodeModel, frames: Seq<Frame>)
    requires
        start.wf(),
        start.state != MyComputeShaderState::Update,
        forall|k: int|
            0 <= k < frames.len() ==> (#[trigger] frames[k]).update != CompileStatus::Ready,
    ensures
        node_after(start, frames).state != MyComputeShaderState::Update,
        dispatch_count(start, frames, Program::Update) == 0,
    decreases frames.len(),
{
    if frames.len() > 0 {
        let shorter = frames.drop_last();
        assert forall|k: int| 0 <= k < shorter.len() implies (#[trigger] shorter[k]).update
            != CompileStatus::Ready by {
            assert(shorter[k] == frames[k]);
        }
        lemma_no_update_dispatch_before_ready(start, shorter);
        assert(frames.last() == frames[frames.len() - 1]);
    }
}

/// The init program is dispatched at most once in any run of frames, and
/// never in a run that starts past `Loading`.
pub proof fn lemma_init_dispatched_at_most_once(start: NodeModel, frames: Seq<Frame>)
    requires
        start.wf(),
    ensures
        dispatch_count(start, frames, Program::Init) <= 1,
        start.state != MyComputeShaderState::Loading ==> dispatch_count(
            start,
            frames,
            Program::Init,
        ) == 0,
        node_after(start, frames).state == MyComputeShaderState::Loading ==> dispatch_count(
            start,
            frames,
            Program::Init,
        ) == 0,
    decreases frames.len(),
{
    if frames.len() > 0 {
        let shorter = frames.drop_last();
        lemma_init_dispatched_at_most_once(start, shorter);
        lemma_node_follows_phase(start, shorter);
        assert(phase_after(start.state, polls_of(shorter)).rank() >= start.state.rank()) by {
            lemma_phase_never_regresses(start.state, polls_of(shorter), 0, shorter.len() as int);
            assert(polls_of(shorter).take(shorter.len() as int) =~= polls_of(shorter));
        }
    }
}

/// A frame without a bound resource set records nothing, in any phase.
pub proof fn lemma_no_bound_set_no_dispatch(before: NodeModel, frame: Frame)
    requires
        frame.bound is None,
    ensures
        frame_command(before, frame) is None,
{
}

/// A frame in which some slot of the layout finds no resolved resource, the
/// render target's slot for one, gets no bound set and records nothing.
pub proof fn lemma_unresolved_slot_skips_frame(
    before: NodeModel,
    layout: Seq<SlotDescriptor>,
    resources: Seq<ConcreteResource>,
    slot: int,
    frame: Frame,
)
    requires
        0 <= slot < layout.len(),
        supplied(resources, layout[slot].binding) is None,
        frame.bound == assembled(layout, resources),
    ensures
        assembled(layout, resources) is None,
        frame_command(before, frame) is None,
{
    lemma_unresolved_slot_yields_none(layout, resources, slot);
}

/// A frame that could not resolve the render target gets no bound set for a
/// layout with a storage texture slot, and records nothing.
pub proof fn lemma_unresolved_target_skips_frame(
    before: NodeModel,
    layout: Seq<SlotDescriptor>,
    uniform: Option<ResourceView>,
    slot: int,
    frame: Frame,
)
    requires
        layout_valid(layout),
        0 <= slot < layout.len(),
        layout[slot].kind is StorageTexture,
        frame.bound == assembled(layout, offered(layout, uniform, None)),
    ensures
        assembled(layout, offered(layout, uniform, None)) is None,
        frame_command(before, frame) is None,
{
    lemma_unresolved_target_yields_none(layout, uniform, slot);
}

/// A frame whose bound set takes a dynamic offset records nothing when the
/// frame has no active view to take the offset from, in any phase.
pub proof fn lemma_no_view_no_dispatch(before: NodeModel, frame: Frame)
    requires
        frame.view_offset is None,
        frame.bound matches Some(entries) && takes_dynamic_offset(entries),
    ensures
        frame_command(before, frame) is None,
{
}

/// Skipped frames leave no trace: where the node stands after a run of
/// frames depends on what the programs reported, not on which frames had a
/// bound set or a view. So a frame that follows skipped frames records what
/// it would have recorded had none been skipped.
pub proof fn lemma_skipped_frames_leave_no_trace(
    start: NodeModel,
    frames: Seq<Frame>,
    others: Seq<Frame>,
)
    requires
        polls_of(frames) == polls_of(others),
    ensures
        node_after(start, frames) == node_after(start, others),
    decreases frames.len(),
{
    assert(frames.len() == polls_of(frames).len());
    assert(others.len() == polls_of(others).len());
    if frames.len() > 0 {
        assert(polls_of(frames.drop_last()) =~= polls_of(frames).drop_last());
        assert(polls_of(others.drop_last()) =~= polls_of(others).drop_last());
        lemma_skipped_frames_leave_no_trace(start, frames.drop_last(), others.drop_last());
        assert(polls_of(frames)[frames.len() - 1] == polls_of(others)[frames.len() - 1]);
    }
}

/// In the `Update` phase a frame that has a bound set, a view and a ready
/// pipeline records one dispatch of the update program, over the grid that
/// covers the target.
pub proof fn lemma_update_frame_dispatches(before: NodeModel, frame: Frame)
    requires
        before.state == MyComputeShaderState::Update,
        frame.bound is Some,
        frame.view_offset is Some,
        frame.update == CompileStatus::Ready,
    ensures
        frame_command(before, frame) matches Some(command) && command.program == Program::Update
            && command.grid == grid_for(
            before.target_width,
            before.target_height,
            before.workgroup_size,
        ) && command.grid.z == 1,
{
}

} // verus!
