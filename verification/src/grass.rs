//! The grass: a blade of three vertices, drawn many times.

use crate::bundle::{bundle_commands, BundleRecipe};
use crate::change_set::ChangeSet;
use crate::handler::{shaders_changed, swap_in, PipelineHandler};
use crate::layout::{
    is_packed, packed_size, InputStepMode, VertexAttribute, VertexBufferLayout, VertexFormat,
};
use crate::path::{path_of, PathView};
use crate::pipeline::{
    create_default_pipeline, default_state, first_step, BuildAction, BuildJob, PipelineBuild,
    MSAA_SAMPLES,
};
use vstd::prelude::*;
use vstd::slice::slice_to_vec;

verus! {

/// The file that holds the vertex shader of the grass.
pub const VERTEX_SHADER: &'static str = "assets/shaders/grass.vert";

/// The file that holds the fragment shader of the grass.
pub const FRAGMENT_SHADER: &'static str = "assets/shaders/blinn_phong.frag";

/// The number of vertices of a blade.
pub const VERTEX_COUNT: u32 = 3;

/// The number of blades.
pub const INSTANCE_COUNT: u32 = 20000;

/// The seed of the generator that places the blades.
pub const INSTANCE_SEED: u64 = 0;

/// The name of the grass bundle.
pub const LABEL: &'static str = "grass";

/// A vertex of a blade: position, normal and texture coordinates.
pub struct Vertex;

/// The placement of a blade: a matrix of four columns.
pub struct Instance;

/// The attributes of a vertex: position and normal of three components each,
/// then texture coordinates of two.
pub open spec fn vertex_attributes() -> Seq<VertexAttribute> {
    seq![
        VertexAttribute { offset: 0, shader_location: 0, format: VertexFormat::Float3 },
        VertexAttribute { offset: 12, shader_location: 1, format: VertexFormat::Float3 },
        VertexAttribute { offset: 24, shader_location: 2, format: VertexFormat::Float2 },
    ]
}

/// The attributes of an instance: the four columns of its matrix.
pub open spec fn instance_attributes() -> Seq<VertexAttribute> {
    seq![
        VertexAttribute { offset: 0, shader_location: 5, format: VertexFormat::Float4 },
        VertexAttribute { offset: 16, shader_location: 6, format: VertexFormat::Float4 },
        VertexAttribute { offset: 32, shader_location: 7, format: VertexFormat::Float4 },
        VertexAttribute { offset: 48, shader_location: 8, format: VertexFormat::Float4 },
    ]
}

impl Vertex {
    /// The number of bytes of a vertex.
    pub const STRIDE: u64 = 32;

    /// The attributes of a vertex, packed from shader location 0 on.
    pub fn attributes() -> (attributes: [VertexAttribute; 3])
        ensures
            attributes@ == vertex_attributes(),
            is_packed(attributes@, 0),
            packed_size(attributes@, 3) == Vertex::STRIDE,
    {
        let attributes = [
            VertexAttribute { offset: 0, shader_location: 0, format: VertexFormat::Float3 },
            VertexAttribute { offset: 12, shader_location: 1, format: VertexFormat::Float3 },
            VertexAttribute { offset: 24, shader_location: 2, format: VertexFormat::Float2 },
        ];
        proof {
            reveal_with_fuel(packed_size, 4);
        }
        attributes
    }
}

impl Instance {
    /// The number of bytes of an instance.
    pub const STRIDE: u64 = 64;

    /// The attributes of an instance, packed from shader location 5 on.
    pub fn attributes() -> (attributes: [VertexAttribute; 4])
        ensures
            attributes@ == instance_attributes(),
            is_packed(attributes@, 5),
            packed_size(attributes@, 4) == Instance::STRIDE,
    {
        let attributes = [
            VertexAttribute { offset: 0, shader_location: 5, format: VertexFormat::Float4 },
            VertexAttribute { offset: 16, shader_location: 6, format: VertexFormat::Float4 },
            VertexAttribute { offset: 32, shader_location: 7, format: VertexFormat::Float4 },
            VertexAttribute { offset: 48, shader_location: 8, format: VertexFormat::Float4 },
        ];
        proof {
            reveal_with_fuel(packed_size, 5);
        }
        attributes
    }
}

/// Whether `job` asks for the pipeline of the grass: opaque, built from the
/// two shaders of the grass, reading vertices from slot 0 and instances from
/// slot 1.
pub open spec fn is_grass_job(job: BuildJob) -> bool {
    &&& job.state == default_state()
    &&& job.vertex_path@ == VERTEX_SHADER@
    &&& job.fragment_path@ == FRAGMENT_SHADER@
    &&& job.buffers@.len() == 2
    &&& job.buffers@[0].array_stride == Vertex::STRIDE
    &&& job.buffers@[0].step_mode == InputStepMode::Vertex
    &&& job.buffers@[0].attributes@ == vertex_attributes()
    &&& job.buffers@[0].wf(0)
    &&& job.buffers@[1].array_stride == Instance::STRIDE
    &&& job.buffers@[1].step_mode == InputStepMode::Instance
    &&& job.buffers@[1].attributes@ == instance_attributes()
    &&& job.buffers@[1].wf(5)
}

/// The layouts of the vertex buffers of the grass: vertices in slot 0,
/// instances in slot 1.
pub fn vertex_buffers_layout() -> (layouts: Vec<VertexBufferLayout>)
    ensures
        layouts@.len() == 2,
        layouts@[0].array_stride == Vertex::STRIDE,
        layouts@[0].step_mode == InputStepMode::Vertex,
        layouts@[0].attributes@ == vertex_attributes(),
        layouts@[0].wf(0),
        layouts@[1].array_stride == Instance::STRIDE,
        layouts@[1].step_mode == InputStepMode::Instance,
        layouts@[1].attributes@ == instance_attributes(),
        layouts@[1].wf(5),
{
    let vertex = Vertex::attributes();
    let instance = Instance::attributes();
    let mut layouts: Vec<VertexBufferLayout> = Vec::new();
    layouts.push(
        VertexBufferLayout {
            array_stride: Vertex::STRIDE,
            step_mode: InputStepMode::Vertex,
            attributes: slice_to_vec(vertex.as_slice()),
        },
    );
    layouts.push(
        VertexBufferLayout {
            array_stride: Instance::STRIDE,
            step_mode: InputStepMode::Instance,
            attributes: slice_to_vec(instance.as_slice()),
        },
    );
    layouts
}

/// Starts the build of the pipeline of the grass.
pub fn pipeline_build() -> (step: (PipelineBuild, BuildAction))
    ensures
        step.0 matches PipelineBuild::VertexSource(job) && is_grass_job(job) && step == first_step(
            job,
        ),
{
    create_default_pipeline(
        vertex_buffers_layout(),
        VERTEX_SHADER.to_owned(),
        FRAGMENT_SHADER.to_owned(),
    )
}

/// Describes the bundle of the grass around the pipeline that was built for
/// it: all vertices of the mesh, drawn once for each instance. Without a
/// pipeline there is no bundle.
pub fn create_bundle<P>(pipeline: Option<P>) -> (recipe: Option<BundleRecipe<P>>)
    ensures
        pipeline is None <==> recipe is None,
        recipe matches Some(described) ==> {
            &&& described.label == LABEL
            &&& Some(described.pipeline) == pipeline
            &&& described.sample_count == MSAA_SAMPLES
            &&& described.commands@ == bundle_commands(VERTEX_COUNT, INSTANCE_COUNT)
        },
{
    crate::bundle::create_bundle(LABEL, pipeline, VERTEX_COUNT, INSTANCE_COUNT)
}

/// The grass as a reloadable element: it owns the bundle that it is drawn
/// with, if a build has succeeded so far.
pub struct GrassPipeline<B> {
    render_bundle: Option<B>,
}

impl<B> GrassPipeline<B> {
    /// The grass with the outcome of its first build.
    pub fn create(bundle: Option<B>) -> (element: Self)
        ensures
            element.current() == bundle,
    {
        GrassPipeline { render_bundle: bundle }
    }
}

impl<B> PipelineHandler for GrassPipeline<B> {
    type Bundle = B;

    closed spec fn current(&self) -> Option<B> {
        self.render_bundle
    }

    open spec fn vertex_shader(&self) -> PathView {
        path_of(VERTEX_SHADER@)
    }

    open spec fn fragment_shader(&self) -> PathView {
        path_of(FRAGMENT_SHADER@)
    }

    fn files_changed(&self, changed: &ChangeSet) -> (rebuild: bool) {
        shaders_changed(changed, VERTEX_SHADER, FRAGMENT_SHADER)
    }

    fn bundle_built(&mut self, built: Option<B>) -> (swapped: bool) {
        swap_in(&mut self.render_bundle, built)
    }

    fn render_bundle(&self) -> (bundle: Option<&B>) {
        self.render_bundle.as_ref()
    }
}

} // verus!
