//! The plugin: how the scheduler node is wired into the render graph.

use vstd::prelude::*;
use crate::node::{InputSlot, SlotType, IN_VIEW};

verus! {

/// Name under which the scheduler node is registered in the render graph.
pub const MY_COMPUTE_NODE_NAME: &'static str = "my_compute_node";

/// Name of the graph's own input slot that carries the active view.
pub const GRAPH_VIEW_SLOT: &'static str = "view_entity";

/// The stage after the compute node.
#[derive(Clone, Copy, Debug, PartialEq, Eq, Structural)]
pub enum Downstream {
    /// The camera driver: it runs the draws that sample the render target
    /// and present the frame.
    CameraDriver,
}

/// What has to be added to the render graph for the scheduler node.
#[derive(Clone, Copy, Debug)]
pub struct GraphWiring {
    /// The name the node is added under.
    pub node: &'static str,
    /// The node has to have run before this stage starts.
    pub runs_before: Downstream,
    /// The input slot that the graph itself takes.
    pub graph_input: InputSlot,
    /// The slot of the node that the graph input is connected to.
    pub node_input: &'static str,
}

/// Adds the compute orchestrator to an application.
#[derive(Clone, Copy, Debug, Default)]
pub struct MyComputeShaderPlugin;

impl MyComputeShaderPlugin {
    /// The graph wiring of the scheduler node: it is ordered before the
    /// camera driver, so that what a frame's dispatch writes is what the same
    /// frame's draw samples, and the view that the graph is run with is
    /// passed on to the node's one input slot.
    pub fn wiring(&self) -> (wiring: GraphWiring)
        ensures
            wiring.node@ == MY_COMPUTE_NODE_NAME@,
            wiring.runs_before == Downstream::CameraDriver,
            wiring.graph_input.name@ == GRAPH_VIEW_SLOT@,
            wiring.graph_input.slot_type == SlotType::Entity,
            wiring.node_input@ == IN_VIEW@,
    {
        GraphWiring {
            node: MY_COMPUTE_NODE_NAME,
            runs_before: Downstream::CameraDriver,
            graph_input: InputSlot { name: GRAPH_VIEW_SLOT, slot_type: SlotType::Entity },
            node_input: IN_VIEW,
        }
    }
}

} // verus!
