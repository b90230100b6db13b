//! The commands that a draw bundle replays.
//!
//! Every visual element draws in the same way: it binds its pipeline, its
//! vertex buffer and its instance buffer, then the uniforms that all elements
//! share, and draws all of its vertices once for each instance.

use vstd::prelude::*;

verus! {

/// The slot of the buffer that holds one element per vertex.
pub const VERTEX_SLOT: u32 = 0;

/// The slot of the buffer that holds one element per instance.
pub const INSTANCE_SLOT: u32 = 1;

/// The index at which the shared uniforms are bound.
pub const UNIFORM_GROUP: u32 = 0;

/// A buffer of a visual element.
#[derive(Clone, Copy, Debug, PartialEq, Eq, Structural)]
pub enum BufferRole {
    /// The mesh: one element per vertex.
    Vertices,
    /// The placements: one element per instance.
    Instances,
}

/// One command of a bundle.
#[derive(Clone, Copy, Debug, PartialEq, Eq, Structural)]
pub enum BundleCommand {
    /// Bind the element's pipeline.
    SetPipeline,
    /// Bind the whole of `buffer` to vertex buffer slot `slot`.
    SetVertexBuffer { slot: u32, buffer: BufferRole },
    /// Bind the shared uniforms as bind group `index`.
    SetUniforms { index: u32 },
    /// Draw the vertices `0..vertices`, once for each of the instances
    /// `0..instances`.
    Draw { vertices: u32, instances: u32 },
}

/// The commands of the bundle of an element with `vertices` vertices and
/// `instances` instances.
pub open spec fn bundle_commands(vertices: u32, instances: u32) -> Seq<BundleCommand> {
    seq![
        BundleCommand::SetPipeline,
        BundleCommand::SetVertexBuffer { slot: VERTEX_SLOT, buffer: BufferRole::Vertices },
        BundleCommand::SetVertexBuffer { slot: INSTANCE_SLOT, buffer: BufferRole::Instances },
        BundleCommand::SetUniforms { index: UNIFORM_GROUP },
        BundleCommand::Draw { vertices, instances },
    ]
}

/// What is recorded into a bundle, with the pipeline that it binds.
#[derive(Debug, PartialEq, Eq)]
pub struct BundleRecipe<P> {
    /// The name of the bundle.
    pub label: &'static str,
    /// The pipeline that the bundle binds.
    pub pipeline: P,
    /// The number of samples per pixel of the targets that the bundle draws
    /// into.
    pub sample_count: u32,
    /// The commands, in the order in which they are recorded.
    pub commands: Vec<BundleCommand>,
}

/// Records the commands of the bundle of an element with `vertices` vertices
/// and `instances` instances.
pub fn record_commands(vertices: u32, instances: u32) -> (commands: Vec<BundleCommand>)
    ensures
        commands@ == bundle_commands(vertices, instances),
{
    let mut commands: Vec<BundleCommand> = Vec::new();
    commands.push(BundleCommand::SetPipeline);
    commands.push(
        BundleCommand::SetVertexBuffer { slot: VERTEX_SLOT, buffer: BufferRole::Vertices },
    );
    commands.push(
        BundleCommand::SetVertexBuffer { slot: INSTANCE_SLOT, buffer: BufferRole::Instances },
    );
    commands.push(BundleCommand::SetUniforms { index: UNIFORM_GROUP });
    commands.push(BundleCommand::Draw { vertices, instances });
    commands
}

/// Describes the bundle of an element around the pipeline that was built for
/// it. Without a pipeline there is no bundle.
pub fn create_bundle<P>(
    label: &'static str,
    pipeline: Option<P>,
    vertices: u32,
    instances: u32,
) -> (recipe: Option<BundleRecipe<P>>)
    ensures
        pipeline is None <==> recipe is None,
        recipe matches Some(described) ==> {
            &&& described.label == label
            &&& Some(described.pipeline) == pipeline
            &&& described.sample_count == crate::pipeline::MSAA_SAMPLES
            &&& described.commands@ == bundle_commands(vertices, instances)
        },
{
    match pipeline {
        Some(pipeline) => Some(
            BundleRecipe {
                label,
                pipeline,
                sample_count: crate::pipeline::MSAA_SAMPLES,
                commands: record_commands(vertices, instances),
            },
        ),
        None => None,
    }
}

} // verus!
