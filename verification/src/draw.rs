//! The draw pass: ordered batches become an explicit command list.
//!
//! The pass clears the target, draws every opaque batch (depth write on,
//! no blending), then every transparent batch in its sorted order (depth
//! write off, alpha blending on), and finishes the frame. Frame uniforms
//! (camera matrix and positions, clear color) are rebuilt from scratch
//! every frame, so a camera resize between frames cannot corrupt a
//! frame already prepared. A GPU backend executes the commands; a batch
//! whose pipeline is missing from the cache is skipped, never fatal,
//! while a failed commit is the backend's to report upward.

use vstd::prelude::*;
use crate::asset::{DefaultShader, MeshStore};
use crate::batch::{
    batches_view, close_spec, prep_prefix, prepare_phase, CorePipelineBatch, PrepareError,
};
use crate::color::{ClearColor, Color};
use crate::extract::{extracted_wf, ExtractedCorePipelineEntity};
use crate::math::{Mat4Fp, Vec3Fp};
use crate::phase::{Phase, RenderPhase};
use crate::pipeline::{lookup_spec, PipelineStatus, RenderPipelineCache};
use crate::texture::TextureBuffer;

verus! {

/// The camera state extracted for this frame.
#[derive(Clone, Copy, Debug, PartialEq, Eq, Structural)]
pub struct ExtractedView {
    /// The view-projection matrix.
    pub pv_matrix: Mat4Fp,
    /// The camera's world position.
    pub position: Vec3Fp,
}

/// The Blinn-Phong light the core pipeline shades with.
#[derive(Clone, Copy, Debug, PartialEq, Eq, Structural)]
pub struct BPLight {
    pub position: Vec3Fp,
}

impl BPLight {
    /// A light at the given fixed-point world position.
    pub fn new(x: i64, y: i64, z: i64) -> (light: BPLight)
        ensures
            light == (BPLight { position: Vec3Fp { x, y, z } }),
    {
        BPLight { position: Vec3Fp { x, y, z } }
    }
}

impl Default for BPLight {
    /// A light ten units above the origin.
    fn default() -> (light: BPLight)
        ensures
            light == (BPLight {
                position: Vec3Fp { x: 0, y: 655360, z: 0 },
            }),
    {
        BPLight { position: Vec3Fp { x: 0, y: 655360, z: 0 } }
    }
}

/// Everything bound once per frame: recomputed from camera, light and
/// clear color at the start of each frame, read-only during drawing.
#[derive(Clone, Copy, Debug, PartialEq, Eq, Structural)]
pub struct FrameUniforms {
    pub pv_matrix: Mat4Fp,
    pub camera_position: Vec3Fp,
    pub light_position: Vec3Fp,
    pub clear_color: Color,
}

/// The frame uniforms a frame's inputs determine.
pub open spec fn frame_uniforms_spec(
    view: ExtractedView,
    light: BPLight,
    clear: ClearColor,
) -> FrameUniforms {
    FrameUniforms {
        pv_matrix: view.pv_matrix,
        camera_position: view.position,
        light_position: light.position,
        clear_color: clear.0,
    }
}

/// The fixed-function state set around one draw call.
#[derive(Clone, Copy, Debug, PartialEq, Eq, Structural)]
pub struct DrawParameters {
    /// Depth test: pass fragments strictly nearer than the stored depth.
    pub depth_test_if_less: bool,
    /// Whether the draw writes the depth buffer.
    pub depth_write: bool,
    /// Cull clockwise-wound back faces.
    pub cull_clockwise_backfaces: bool,
    /// Standard alpha blending.
    pub alpha_blend: bool,
}

/// The fixed-function state of each phase: both phases depth-test and
/// cull; only the opaque phase writes depth, only the transparent phase
/// blends.
pub open spec fn phase_draw_parameters_spec(phase: Phase) -> DrawParameters {
    match phase {
        Phase::Opaque => DrawParameters {
            depth_test_if_less: true,
            depth_write: true,
            cull_clockwise_backfaces: true,
            alpha_blend: false,
        },
        Phase::Transparent => DrawParameters {
            depth_test_if_less: true,
            depth_write: false,
            cull_clockwise_backfaces: true,
            alpha_blend: true,
        },
    }
}

/// The fixed-function state of a phase; exact with respect to
/// `phase_draw_parameters_spec`.
pub fn phase_draw_parameters(phase: Phase) -> (p: DrawParameters)
    ensures
        p == phase_draw_parameters_spec(phase),
{
    match phase {
        Phase::Opaque => DrawParameters {
            depth_test_if_less: true,
            depth_write: true,
            cull_clockwise_backfaces: true,
            alpha_blend: false,
        },
        Phase::Transparent => DrawParameters {
            depth_test_if_less: true,
            depth_write: false,
            cull_clockwise_backfaces: true,
            alpha_blend: true,
        },
    }
}

/// One step of the frame: what the GPU backend is told to do, in order.
#[derive(Clone, Copy, Debug, PartialEq, Eq, Structural)]
pub enum DrawCommand {
    /// Clear the color target to this color and the depth target to the
    /// farthest depth.
    Clear { color: Color },
    /// Draw one batch of a phase with that phase's fixed-function state;
    /// the index counts into that phase's batch list.
    Draw { phase: Phase, batch_index: usize, parameters: DrawParameters },
    /// Commit and present the frame.
    Finish,
}

/// The command list of a frame: clear, the opaque batches in order, the
/// transparent batches in order, finish.
pub open spec fn draw_commands_spec(clear: Color, n_opaque: int, n_transparent: int) -> Seq<
    DrawCommand,
> {
    seq![DrawCommand::Clear { color: clear }] + Seq::new(
        n_opaque as nat,
        |i: int|
            DrawCommand::Draw {
                phase: Phase::Opaque,
                batch_index: i as usize,
                parameters: phase_draw_parameters_spec(Phase::Opaque),
            },
    ) + Seq::new(
        n_transparent as nat,
        |i: int|
            DrawCommand::Draw {
                phase: Phase::Transparent,
                batch_index: i as usize,
                parameters: phase_draw_parameters_spec(Phase::Transparent),
            },
    ) + seq![DrawCommand::Finish]
}

/// Builds the frame's command list; exact with respect to
/// `draw_commands_spec`.
#[verifier::loop_isolation(false)]
fn build_draw_commands(clear: Color, n_opaque: usize, n_transparent: usize) -> (cmds: Vec<
    DrawCommand,
>)
    ensures
        cmds@ == draw_commands_spec(clear, n_opaque as int, n_transparent as int),
{
    let mut cmds: Vec<DrawCommand> = Vec::new();
    cmds.push(DrawCommand::Clear { color: clear });
    let opaque_parameters = phase_draw_parameters(Phase::Opaque);
    for i in 0..n_opaque
        invariant
            cmds@.len() == 1 + i,
            cmds@[0] == (DrawCommand::Clear { color: clear }),
            forall|j: int|
                0 <= j < i ==> #[trigger] cmds@[1 + j] == (DrawCommand::Draw {
                    phase: Phase::Opaque,
                    batch_index: j as usize,
                    parameters: phase_draw_parameters_spec(Phase::Opaque),
                }),
    {
        cmds.push(DrawCommand::Draw {
            phase: Phase::Opaque,
            batch_index: i,
            parameters: opaque_parameters,
        });
    }
    let transparent_parameters = phase_draw_parameters(Phase::Transparent);
    for i in 0..n_transparent
        invariant
            cmds@.len() == 1 + n_opaque + i,
            cmds@[0] == (DrawCommand::Clear { color: clear }),
            forall|j: int|
                0 <= j < n_opaque ==> #[trigger] cmds@[1 + j] == (DrawCommand::Draw {
                    phase: Phase::Opaque,
                    batch_index: j as usize,
                    parameters: phase_draw_parameters_spec(Phase::Opaque),
                }),
            forall|j: int|
                0 <= j < i ==> #[trigger] cmds@[1 + n_opaque + j] == (DrawCommand::Draw {
                    phase: Phase::Transparent,
                    batch_index: j as usize,
                    parameters: phase_draw_parameters_spec(Phase::Transparent),
                }),
    {
        cmds.push(DrawCommand::Draw {
            phase: Phase::Transparent,
            batch_index: i,
            parameters: transparent_parameters,
        });
    }
    cmds.push(DrawCommand::Finish);
    proof {
        let total = draw_commands_spec(clear, n_opaque as int, n_transparent as int);
        assert forall|k: int| 0 <= k < cmds@.len() implies cmds@[k] == total[k] by {
            if k == 0 {
            } else if k < 1 + n_opaque {
                assert(cmds@[1 + (k - 1)] == (DrawCommand::Draw {
                    phase: Phase::Opaque,
                    batch_index: (k - 1) as usize,
                    parameters: phase_draw_parameters_spec(Phase::Opaque),
                }));
            } else if k < 1 + n_opaque + n_transparent {
                assert(cmds@[1 + n_opaque + (k - 1 - n_opaque)] == (DrawCommand::Draw {
                    phase: Phase::Transparent,
                    batch_index: (k - 1 - n_opaque) as usize,
                    parameters: phase_draw_parameters_spec(Phase::Transparent),
                }));
            }
        }
        assert(cmds@ =~= total);
    }
    cmds
}

/// The draw function for simple meshes: turns one prepared batch into
/// its draw command, or skips it when its pipeline is not in the cache.
pub struct DrawSimpleMesh;

impl DrawSimpleMesh {
    /// A draw function; it carries no state of its own.
    pub fn new() -> (d: DrawSimpleMesh) {
        DrawSimpleMesh
    }

    /// The command drawing `batch`, or `None` exactly when the cache
    /// holds no compiled pipeline for the batch's key: such a batch is
    /// skipped, never fatal to the frame.
    pub fn draw(
        &self,
        cache: &RenderPipelineCache,
        phase: Phase,
        batch: &CorePipelineBatch,
        batch_index: usize,
    ) -> (cmd: Option<DrawCommand>)
        ensures
            cmd is Some <==> lookup_spec(cache.entries_view(), batch.key) matches Some(
                PipelineStatus::Ready(_),
            ),
            cmd is Some ==> cmd->Some_0 == (DrawCommand::Draw {
                phase,
                batch_index,
                parameters: phase_draw_parameters_spec(phase),
            }),
    {
        match cache.lookup(batch.key) {
            Some(PipelineStatus::Ready(_pipeline)) => Some(DrawCommand::Draw {
                phase,
                batch_index,
                parameters: phase_draw_parameters(phase),
            }),
            _ => None,
        }
    }
}

/// A whole frame, ready for a GPU backend: the uniforms to bind, both
/// phases' batches, the per-item batching errors, and the command list.
pub struct FrameSubmission {
    pub uniforms: FrameUniforms,
    pub opaque_batches: Vec<CorePipelineBatch>,
    pub transparent_batches: Vec<CorePipelineBatch>,
    pub errors: Vec<PrepareError>,
    pub commands: Vec<DrawCommand>,
}

/// Runs the per-frame main pass: batches both phase queues against the
/// stores and caches, rebuilds the frame uniforms from this frame's
/// camera, light and clear color, and lays out the command list: clear,
/// opaque batches in queue order, transparent batches in sorted order,
/// finish.
///
/// The batches are exactly what `prep_prefix` folds each queue to, the
/// opaque phase batched first, the transparent phase continuing from the
/// texture table the opaque phase left; the uniforms depend only on this
/// frame's camera, light and clear color, and the batches not on them at
/// all, so rebuilding uniforms (say, after a viewport resize) never
/// changes what any frame's batches hold.
pub fn main_pass(
    clear_color: &ClearColor,
    light: &BPLight,
    view: &ExtractedView,
    default_shader: &DefaultShader,
    meshes: &MeshStore,
    cache: &RenderPipelineCache,
    textures: &mut TextureBuffer,
    extracted: &Vec<ExtractedCorePipelineEntity>,
    opaques: &RenderPhase,
    transparents: &RenderPhase,
) -> (fs: FrameSubmission)
    requires
        forall|i: int|
            0 <= i < opaques.items@.len() ==> (#[trigger] opaques.items@[i]).entity_index
                < extracted@.len(),
        forall|i: int|
            0 <= i < transparents.items@.len() ==> (#[trigger] transparents.items@[i]).entity_index
                < extracted@.len(),
        forall|i: int| 0 <= i < extracted@.len() ==> extracted_wf(#[trigger] extracted@[i]),
        meshes.wf(),
        old(textures).wf(),
    ensures
        final(textures).wf(),
        final(textures).cap() == old(textures).cap(),
        fs.uniforms == frame_uniforms_spec(*view, *light, *clear_color),
        ({
            let st1 = prep_prefix(
                opaques.items@,
                extracted@,
                *meshes,
                *default_shader,
                *cache,
                Phase::Opaque,
                old(textures).cap(),
                old(textures).table(),
                opaques.items@.len() as int,
            );
            let st2 = prep_prefix(
                transparents.items@,
                extracted@,
                *meshes,
                *default_shader,
                *cache,
                Phase::Transparent,
                old(textures).cap(),
                st1.table,
                transparents.items@.len() as int,
            );
            &&& batches_view(fs.opaque_batches@) == close_spec(st1)
            &&& batches_view(fs.transparent_batches@) == close_spec(st2)
            &&& fs.errors@ == st1.errors + st2.errors
            &&& final(textures).table() == st2.table
            &&& fs.commands@ == draw_commands_spec(
                clear_color.0,
                fs.opaque_batches@.len() as int,
                fs.transparent_batches@.len() as int,
            )
        }),
{
    let uniforms = FrameUniforms {
        pv_matrix: view.pv_matrix,
        camera_position: view.position,
        light_position: light.position,
        clear_color: clear_color.0,
    };
    let (opaque_batches, mut errors) = prepare_phase(
        Phase::Opaque,
        &opaques.items,
        extracted,
        meshes,
        default_shader,
        cache,
        textures,
    );
    let (transparent_batches, mut transparent_errors) = prepare_phase(
        Phase::Transparent,
        &transparents.items,
        extracted,
        meshes,
        default_shader,
        cache,
        textures,
    );
    errors.append(&mut transparent_errors);
    let commands = build_draw_commands(
        clear_color.0,
        opaque_batches.len(),
        transparent_batches.len(),
    );
    FrameSubmission { uniforms, opaque_batches, transparent_batches, errors, commands }
}

} // verus!
