//! The pipeline factory: from two shader files to the description of a
//! render pipeline.
//!
//! Reading a file, compiling a shader and creating the pipeline on the device
//! are done by the caller. The factory decides what is to be done next and
//! what follows from each outcome: a [`PipelineBuild`] is advanced with the
//! outcome of the step it asked for and answers with the next step. A build
//! ends either with the complete [`RenderPipelineDescriptor`] or with the
//! [`BuildError`] that stopped it.

use crate::layout::VertexBufferLayout;
use vstd::prelude::*;

verus! {

/// The number of samples per pixel that pipelines, bundles and render targets
/// of this renderer use.
pub const MSAA_SAMPLES: u32 = 4;

/// The entry point that every shader of this renderer is compiled for.
pub const ENTRY_POINT: &'static str = "main";

/// A programmable stage of the render pipeline.
#[derive(Clone, Copy, Debug, PartialEq, Eq, Structural)]
pub enum ShaderStage {
    /// The stage that transforms vertices.
    Vertex,
    /// The stage that shades fragments.
    Fragment,
}

/// A shader in the intermediate representation that the device consumes,
/// with the entry point that it is invoked with.
#[derive(Clone, Debug, PartialEq, Eq)]
pub struct CompiledShader {
    /// The words of the binary module.
    pub words: Vec<u32>,
    /// The name of the entry point.
    pub entry_point: String,
    /// The number of warnings that the compiler gave.
    pub warnings: u32,
}

/// What the compiler reported of a shader that it rejected.
#[derive(Clone, Debug, PartialEq, Eq)]
pub struct CompileDiagnostics {
    /// The compiler's messages.
    pub message: String,
    /// The number of warnings among them.
    pub warnings: u32,
}

/// Why a pipeline could not be built.
#[derive(Clone, Debug, PartialEq, Eq)]
pub enum BuildError {
    /// The source file of the stage is missing or could not be read.
    SourceUnreadable(ShaderStage),
    /// The compiler rejected the source of the stage.
    CompileFailed(ShaderStage, CompileDiagnostics),
    /// The build was given an outcome that it had not asked for.
    OutOfTurn,
}

/// A factor of the blend equation.
#[derive(Clone, Copy, Debug, PartialEq, Eq, Structural)]
pub enum BlendFactor {
    Zero,
    One,
    SrcColor,
    OneMinusSrcColor,
    SrcAlpha,
    OneMinusSrcAlpha,
    DstColor,
    OneMinusDstColor,
    DstAlpha,
    OneMinusDstAlpha,
    SrcAlphaSaturated,
}

/// The operation that combines the weighted source and destination.
#[derive(Clone, Copy, Debug, PartialEq, Eq, Structural)]
pub enum BlendOperation {
    Add,
    Subtract,
    ReverseSubtract,
    Min,
    Max,
}

/// The blend equation of one channel group (colour or alpha).
#[derive(Clone, Copy, Debug, PartialEq, Eq, Structural)]
pub struct BlendState {
    /// The weight of the incoming value.
    pub src_factor: BlendFactor,
    /// The weight of the value already in the target.
    pub dst_factor: BlendFactor,
    /// How the two weighted values are combined.
    pub operation: BlendOperation,
}

/// How vertices are assembled into primitives.
#[derive(Clone, Copy, Debug, PartialEq, Eq, Structural)]
pub enum PrimitiveTopology {
    PointList,
    LineList,
    LineStrip,
    TriangleList,
    TriangleStrip,
}

/// The winding order of a front-facing triangle.
#[derive(Clone, Copy, Debug, PartialEq, Eq, Structural)]
pub enum FrontFace {
    /// Counter-clockwise.
    Ccw,
    /// Clockwise.
    Cw,
}

/// Which faces are discarded before rasterization.
#[derive(Clone, Copy, Debug, PartialEq, Eq, Structural)]
pub enum CullMode {
    /// No face is discarded.
    Disabled,
    /// Front faces are discarded.
    Front,
    /// Back faces are discarded.
    Back,
}

/// How polygons are rasterized.
#[derive(Clone, Copy, Debug, PartialEq, Eq, Structural)]
pub enum PolygonMode {
    Fill,
    Line,
    Point,
}

/// The comparison of the depth test.
#[derive(Clone, Copy, Debug, PartialEq, Eq, Structural)]
pub enum CompareFunction {
    Never,
    Less,
    Equal,
    LessEqual,
    Greater,
    NotEqual,
    GreaterEqual,
    Always,
}

/// The fixed-function state of a render pipeline.
#[derive(Clone, Copy, Debug, PartialEq, Eq, Structural)]
pub struct PipelineState {
    /// The blend equation of the colour channels.
    pub color_blend: BlendState,
    /// The blend equation of the alpha channel.
    pub alpha_blend: BlendState,
    /// How vertices are assembled.
    pub topology: PrimitiveTopology,
    /// Which winding is front-facing.
    pub front_face: FrontFace,
    /// Which faces are culled.
    pub cull_mode: CullMode,
    /// How polygons are filled.
    pub polygon_mode: PolygonMode,
    /// Whether fragments that pass the depth test write their depth.
    pub depth_write_enabled: bool,
    /// The comparison of the depth test.
    pub depth_compare: CompareFunction,
    /// Whether depth values are clamped instead of clipped.
    pub clamp_depth: bool,
    /// The number of samples per pixel.
    pub sample_count: u32,
}

/// The blend equation that replaces the target's value with the incoming one.
pub open spec fn blend_replace() -> BlendState {
    BlendState {
        src_factor: BlendFactor::One,
        dst_factor: BlendFactor::Zero,
        operation: BlendOperation::Add,
    }
}

/// The state of an opaque pipeline: the incoming colour replaces the target's,
/// triangles are filled and never culled, counter-clockwise is front, and the
/// depth test passes nearer fragments and records their depth.
pub open spec fn default_state() -> PipelineState {
    PipelineState {
        color_blend: blend_replace(),
        alpha_blend: blend_replace(),
        topology: PrimitiveTopology::TriangleList,
        front_face: FrontFace::Ccw,
        cull_mode: CullMode::Disabled,
        polygon_mode: PolygonMode::Fill,
        depth_write_enabled: true,
        depth_compare: CompareFunction::Less,
        clamp_depth: false,
        sample_count: MSAA_SAMPLES,
    }
}

/// The state of a transparent pipeline: as [`default_state`], but the colour
/// is blended by the incoming alpha and the alpha channel keeps the larger of
/// the two values.
pub open spec fn transparent_state() -> PipelineState {
    PipelineState {
        color_blend: BlendState {
            src_factor: BlendFactor::SrcAlpha,
            dst_factor: BlendFactor::OneMinusSrcAlpha,
            operation: BlendOperation::Add,
        },
        alpha_blend: BlendState {
            src_factor: BlendFactor::One,
            dst_factor: BlendFactor::One,
            operation: BlendOperation::Max,
        },
        ..default_state()
    }
}

impl BlendState {
    /// The blend equation that replaces the target's value with the incoming
    /// one.
    pub fn replace() -> (blend: BlendState)
        ensures
            blend == blend_replace(),
    {
        BlendState {
            src_factor: BlendFactor::One,
            dst_factor: BlendFactor::Zero,
            operation: BlendOperation::Add,
        }
    }
}

impl PipelineState {
    /// The state of an opaque pipeline.
    pub fn opaque() -> (state: PipelineState)
        ensures
            state == default_state(),
    {
        PipelineState {
            color_blend: BlendState::replace(),
            alpha_blend: BlendState::replace(),
            topology: PrimitiveTopology::TriangleList,
            front_face: FrontFace::Ccw,
            cull_mode: CullMode::Disabled,
            polygon_mode: PolygonMode::Fill,
            depth_write_enabled: true,
            depth_compare: CompareFunction::Less,
            clamp_depth: false,
            sample_count: MSAA_SAMPLES,
        }
    }

    /// The state of a transparent pipeline.
    pub fn transparent() -> (state: PipelineState)
        ensures
            state == transparent_state(),
    {
        let mut state = PipelineState::opaque();
        state.color_blend = BlendState {
            src_factor: BlendFactor::SrcAlpha,
            dst_factor: BlendFactor::OneMinusSrcAlpha,
            operation: BlendOperation::Add,
        };
        state.alpha_blend = BlendState {
            src_factor: BlendFactor::One,
            dst_factor: BlendFactor::One,
            operation: BlendOperation::Max,
        };
        state
    }
}

/// Everything that the device needs to create a render pipeline, but for the
/// handles that only the device's owner holds.
#[derive(Clone, Debug, PartialEq, Eq)]
pub struct RenderPipelineDescriptor {
    /// The compiled vertex shader.
    pub vertex: CompiledShader,
    /// The compiled fragment shader.
    pub fragment: CompiledShader,
    /// The layouts of the vertex buffers, by slot.
    pub buffers: Vec<VertexBufferLayout>,
    /// The fixed-function state.
    pub state: PipelineState,
}

/// What a build was asked to produce.
#[derive(Clone, Debug, PartialEq, Eq)]
pub struct BuildJob {
    /// The fixed-function state of the pipeline.
    pub state: PipelineState,
    /// The layouts of the vertex buffers, by slot.
    pub buffers: Vec<VertexBufferLayout>,
    /// The file that holds the vertex shader.
    pub vertex_path: String,
    /// The file that holds the fragment shader.
    pub fragment_path: String,
}

/// A pipeline build in progress: what it waits for.
#[derive(Debug, PartialEq, Eq)]
pub enum PipelineBuild {
    /// Waits for the text of the vertex shader.
    VertexSource(BuildJob),
    /// Waits for the compiled vertex shader.
    VertexModule(BuildJob),
    /// Holds the compiled vertex shader and waits for the text of the
    /// fragment shader.
    FragmentSource(BuildJob, CompiledShader),
    /// Holds the compiled vertex shader and waits for the compiled fragment
    /// shader.
    FragmentModule(BuildJob, CompiledShader),
    /// The build has ended, with a descriptor or with an error.
    Finished,
}

/// The outcome of a step that a build asked for.
#[derive(Debug, PartialEq, Eq)]
pub enum BuildEvent {
    /// A source file was read (`Some`) or could not be read (`None`).
    SourceRead(Option<String>),
    /// The compiler accepted or rejected a source.
    Compiled(Result<CompiledShader, CompileDiagnostics>),
}

/// What a build asks its caller to do next.
#[derive(Debug, PartialEq, Eq)]
pub enum BuildAction {
    /// Read the source file of `stage` and answer with
    /// [`BuildEvent::SourceRead`].
    Read { stage: ShaderStage, path: String },
    /// Compile `source` for `stage` and [`ENTRY_POINT`], naming it
    /// `file_name` in diagnostics, and answer with [`BuildEvent::Compiled`].
    Compile { stage: ShaderStage, source: String, file_name: String },
    /// Create the pipeline from the descriptor: the build succeeded.
    Link(RenderPipelineDescriptor),
    /// Keep the previous pipeline: the build failed.
    Abort(BuildError),
    /// Nothing is left to do.
    Nothing,
}

/// How a build starts: it waits for the text of the vertex shader and asks
/// for that file to be read.
pub open spec fn first_step(job: BuildJob) -> (PipelineBuild, BuildAction) {
    (
        PipelineBuild::VertexSource(job),
        BuildAction::Read { stage: ShaderStage::Vertex, path: job.vertex_path },
    )
}

/// The step that follows `event` in state `build`: the next state and what
/// the caller is asked to do.
///
/// The vertex shader is read and compiled first, then the fragment shader;
/// with both compiled the build ends with the descriptor. An unreadable file
/// or a rejected source ends the build with that error, and so does an event
/// that does not answer what the build waits for. A finished build stays
/// finished.
pub open spec fn next_step(build: PipelineBuild, event: BuildEvent) -> (
    PipelineBuild,
    BuildAction,
) {
    match (build, event) {
        (PipelineBuild::VertexSource(job), BuildEvent::SourceRead(Some(source))) => (
            PipelineBuild::VertexModule(job),
            BuildAction::Compile { stage: ShaderStage::Vertex, source, file_name: job.vertex_path },
        ),
        (PipelineBuild::VertexSource(_), BuildEvent::SourceRead(None)) => (
            PipelineBuild::Finished,
            BuildAction::Abort(BuildError::SourceUnreadable(ShaderStage::Vertex)),
        ),
        (PipelineBuild::VertexModule(job), BuildEvent::Compiled(Ok(vertex))) => (
            PipelineBuild::FragmentSource(job, vertex),
            BuildAction::Read { stage: ShaderStage::Fragment, path: job.fragment_path },
        ),
        (PipelineBuild::VertexModule(_), BuildEvent::Compiled(Err(diagnostics))) => (
            PipelineBuild::Finished,
            BuildAction::Abort(BuildError::CompileFailed(ShaderStage::Vertex, diagnostics)),
        ),
        (PipelineBuild::FragmentSource(job, vertex), BuildEvent::SourceRead(Some(source))) => (
            PipelineBuild::FragmentModule(job, vertex),
            BuildAction::Compile {
                stage: ShaderStage::Fragment,
                source,
                file_name: job.fragment_path,
            },
        ),
        (PipelineBuild::FragmentSource(_, _), BuildEvent::SourceRead(None)) => (
            PipelineBuild::Finished,
            BuildAction::Abort(BuildError::SourceUnreadable(ShaderStage::Fragment)),
        ),
        (PipelineBuild::FragmentModule(job, vertex), BuildEvent::Compiled(Ok(fragment))) => (
            PipelineBuild::Finished,
            BuildAction::Link(
                RenderPipelineDescriptor {
                    vertex,
                    fragment,
                    buffers: job.buffers,
                    state: job.state,
                },
            ),
        ),
        (PipelineBuild::FragmentModule(_, _), BuildEvent::Compiled(Err(diagnostics))) => (
            PipelineBuild::Finished,
            BuildAction::Abort(BuildError::CompileFailed(ShaderStage::Fragment, diagnostics)),
        ),
        (PipelineBuild::Finished, _) => (PipelineBuild::Finished, BuildAction::Nothing),
        _ => (PipelineBuild::Finished, BuildAction::Abort(BuildError::OutOfTurn)),
    }
}

impl PipelineBuild {
    /// Starts the build of `job`.
    pub fn start(job: BuildJob) -> (step: (PipelineBuild, BuildAction))
        ensures
            step == first_step(job),
    {
        let path = job.vertex_path.clone();
        (PipelineBuild::VertexSource(job), BuildAction::Read { stage: ShaderStage::Vertex, path })
    }

    /// Takes the outcome of the step that the build asked for, and answers
    /// with the next state and the next step.
    pub fn advance(self, event: BuildEvent) -> (step: (PipelineBuild, BuildAction))
        ensures
            step == next_step(self, event),
    {
        match (self, event) {
            (PipelineBuild::VertexSource(job), BuildEvent::SourceRead(Some(source))) => {
                let file_name = job.vertex_path.clone();
                (
                    PipelineBuild::VertexModule(job),
                    BuildAction::Compile { stage: ShaderStage::Vertex, source, file_name },
                )
            },
            (PipelineBuild::VertexSource(_), BuildEvent::SourceRead(None)) => (
                PipelineBuild::Finished,
                BuildAction::Abort(BuildError::SourceUnreadable(ShaderStage::Vertex)),
            ),
            (PipelineBuild::VertexModule(job), BuildEvent::Compiled(Ok(vertex))) => {
                let path = job.fragment_path.clone();
                (
                    PipelineBuild::FragmentSource(job, vertex),
                    BuildAction::Read { stage: ShaderStage::Fragment, path },
                )
            },
            (PipelineBuild::VertexModule(_), BuildEvent::Compiled(Err(diagnostics))) => (
                PipelineBuild::Finished,
                BuildAction::Abort(BuildError::CompileFailed(ShaderStage::Vertex, diagnostics)),
            ),
            (PipelineBuild::FragmentSource(job, vertex), BuildEvent::SourceRead(Some(source))) => {
                let file_name = job.fragment_path.clone();
                (
                    PipelineBuild::FragmentModule(job, vertex),
                    BuildAction::Compile { stage: ShaderStage::Fragment, source, file_name },
                )
            },
            (PipelineBuild::FragmentSource(_, _), BuildEvent::SourceRead(None)) => (
                PipelineBuild::Finished,
                BuildAction::Abort(BuildError::SourceUnreadable(ShaderStage::Fragment)),
            ),
            (PipelineBuild::FragmentModule(job, vertex), BuildEvent::Compiled(Ok(fragment))) => (
                PipelineBuild::Finished,
                BuildAction::Link(
                    RenderPipelineDescriptor {
                        vertex,
                        fragment,
                        buffers: job.buffers,
                        state: job.state,
                    },
                ),
            ),
            (PipelineBuild::FragmentModule(_, _), BuildEvent::Compiled(Err(diagnostics))) => (
                PipelineBuild::Finished,
                BuildAction::Abort(BuildError::CompileFailed(ShaderStage::Fragment, diagnostics)),
            ),
            (PipelineBuild::Finished, _) => (PipelineBuild::Finished, BuildAction::Nothing),
            _ => (PipelineBuild::Finished, BuildAction::Abort(BuildError::OutOfTurn)),
        }
    }
}

/// Starts the build of an opaque pipeline that reads its vertices as
/// `vertex_buffers_layout` describes, from the shaders in the two files.
pub fn create_default_pipeline(
    vertex_buffers_layout: Vec<VertexBufferLayout>,
    vs_path: String,
    fs_path: String,
) -> (step: (PipelineBuild, BuildAction))
    ensures
        step == first_step(
            BuildJob {
                state: default_state(),
                buffers: vertex_buffers_layout,
                vertex_path: vs_path,
                fragment_path: fs_path,
            },
        ),
{
    PipelineBuild::start(
        BuildJob {
            state: PipelineState::opaque(),
            buffers: vertex_buffers_layout,
            vertex_path: vs_path,
            fragment_path: fs_path,
        },
    )
}

/// Starts the build of a transparent pipeline that reads its vertices as
/// `vertex_buffers_layout` describes, from the shaders in the two files.
pub fn create_transparent_pipeline(
    vertex_buffers_layout: Vec<VertexBufferLayout>,
    vs_path: String,
    fs_path: String,
) -> (step: (PipelineBuild, BuildAction))
    ensures
        step == first_step(
            BuildJob {
                state: transparent_state(),
                buffers: vertex_buffers_layout,
                vertex_path: vs_path,
                fragment_path: fs_path,
            },
        ),
{
    PipelineBuild::start(
        BuildJob {
            state: PipelineState::transparent(),
            buffers: vertex_buffers_layout,
            vertex_path: vs_path,
            fragment_path: fs_path,
        },
    )
}

/// Whether `event` reports a failure: a file that could not be read or a
/// source that the compiler rejected.
pub open spec fn is_failure(event: BuildEvent) -> bool {
    event == BuildEvent::SourceRead(None) || (event matches BuildEvent::Compiled(outcome)
        && outcome is Err)
}

/// With both files read and both sources accepted, the build that `job`
/// starts ends with the descriptor that links the two compiled shaders with
/// the state and the buffer layouts of `job`.
pub proof fn lemma_build_links(
    job: BuildJob,
    vertex_source: String,
    vertex: CompiledShader,
    fragment_source: String,
    fragment: CompiledShader,
)
    ensures
        ({
            let started = first_step(job);
            let read_vertex = next_step(started.0, BuildEvent::SourceRead(Some(vertex_source)));
            let compiled_vertex = next_step(read_vertex.0, BuildEvent::Compiled(Ok(vertex)));
            let read_fragment = next_step(
                compiled_vertex.0,
                BuildEvent::SourceRead(Some(fragment_source)),
            );
            let compiled_fragment = next_step(read_fragment.0, BuildEvent::Compiled(Ok(fragment)));
            &&& started.1 == BuildAction::Read { stage: ShaderStage::Vertex, path: job.vertex_path }
            &&& read_vertex.1 == BuildAction::Compile {
                stage: ShaderStage::Vertex,
                source: vertex_source,
                file_name: job.vertex_path,
            }
            &&& compiled_vertex.1 == BuildAction::Read {
                stage: ShaderStage::Fragment,
                path: job.fragment_path,
            }
            &&& read_fragment.1 == BuildAction::Compile {
                stage: ShaderStage::Fragment,
                source: fragment_source,
                file_name: job.fragment_path,
            }
            &&& compiled_fragment == (
                PipelineBuild::Finished,
                BuildAction::Link(
                    RenderPipelineDescriptor {
                        vertex,
                        fragment,
                        buffers: job.buffers,
                        state: job.state,
                    },
                ),
            )
        }),
{
}

/// A failure never links: whatever a build waits for, an unreadable file or
/// a rejected source ends it without a descriptor.
pub proof fn lemma_failure_never_links(build: PipelineBuild, event: BuildEvent)
    requires
        is_failure(event),
    ensures
        next_step(build, event).0 == PipelineBuild::Finished,
        !(next_step(build, event).1 is Link),
{
}

/// A build links only as the answer to the compiled fragment shader, after
/// the vertex shader was compiled: no other step yields a descriptor.
pub proof fn lemma_links_only_when_both_compiled(build: PipelineBuild, event: BuildEvent)
    requires
        next_step(build, event).1 is Link,
    ensures
        build is FragmentModule,
        event matches BuildEvent::Compiled(outcome) && outcome is Ok,
{
}

/// A finished build stays finished and asks for nothing.
pub proof fn lemma_finished_stays_finished(event: BuildEvent)
    ensures
        next_step(PipelineBuild::Finished, event) == (
            PipelineBuild::Finished,
            BuildAction::Nothing,
        ),
{
}

} // verus!
