//! Per-frame render-pass planning.
//!
//! A frame is planned as a command sequence: begin the encoder, bind
//! pipeline and depth state, upload the lights, one block of draw commands
//! per renderable whose model is registered (unregistered ids are skipped,
//! the frame goes on), and end. The platform layer encodes the commands on
//! the device; with no drawable surface it skips the whole frame and
//! plans nothing.

use vstd::prelude::*;
use crate::light::{DirectionalLight, PointLight};
use crate::mat::{normal_matrix, spec_normal_matrix};
use crate::model::{Mesh as GpuMesh, Model, Submesh as GpuSubmesh};
use crate::pipeline::{PipelinePlan, PipelineStateType, PixelFormat};
use crate::scene::Scene;
use crate::shader_bindings::{
    Params, Uniforms, BASE_COLOR_TEXTURE_INDEX, EMISSIVE_TEXTURE_INDEX,
    METALLIC_ROUGHNESS_TEXTURE_INDEX, NORMAL_MAP_TEXTURE_INDEX, OCCLUSION_TEXTURE_INDEX,
};
use crate::transform::{model_matrix, spec_model_matrix, TransformComponent};

verus! {

/// A depth-stencil configuration: compare-less, write-enabled.
#[derive(Debug, Clone, Copy, PartialEq, Eq, Structural)]
pub struct DepthStencilSpec {
    pub compare_less: bool,
    pub write_enabled: bool,
}

/// The depth-stencil state every pass uses: closer fragments win and
/// write their depth.
pub fn build_depth_stencil_state() -> (r: DepthStencilSpec)
    ensures
        r == (DepthStencilSpec { compare_less: true, write_enabled: true }),
{
    DepthStencilSpec { compare_less: true, write_enabled: true }
}

/// One step of a frame plan, encoded by the platform layer in order.
#[derive(Debug)]
pub enum RenderCmd {
    BeginEncoder,
    SetDepthStencilState(DepthStencilSpec),
    SetPipeline(PipelineStateType),
    SetCullModeBack,
    SetWindingCounterClockwise,
    UploadDirectionalLight(DirectionalLight),
    UploadPointLight(PointLight),
    PushDebugGroup(String),
    SetUniforms(Uniforms),
    SetParams(Params),
    SetVertexBuffer(u64),
    SetFragmentTexture { slot: u64, texture: u64 },
    DrawIndexed { index_count: u64, index_buffer: u64, index_buffer_offset: u64 },
    PopDebugGroup,
    EndEncoder,
}

/// The texture bindings of one submesh: one command per present slot, in
/// slot order; absent slots are left unbound.
pub open spec fn spec_submesh_texture_cmds(sm: GpuSubmesh) -> Seq<RenderCmd> {
    let s0 = Seq::<RenderCmd>::empty();
    let s1 = match sm.material.base_color_texture {
        Option::Some(h) => s0.push(
            RenderCmd::SetFragmentTexture { slot: BASE_COLOR_TEXTURE_INDEX, texture: h },
        ),
        Option::None => s0,
    };
    let s2 = match sm.material.normal_texture {
        Option::Some(h) => s1.push(
            RenderCmd::SetFragmentTexture { slot: NORMAL_MAP_TEXTURE_INDEX, texture: h },
        ),
        Option::None => s1,
    };
    let s3 = match sm.material.metallic_roughness_texture {
        Option::Some(h) => s2.push(
            RenderCmd::SetFragmentTexture { slot: METALLIC_ROUGHNESS_TEXTURE_INDEX, texture: h },
        ),
        Option::None => s2,
    };
    let s4 = match sm.material.ambient_occlusion_texture {
        Option::Some(h) => s3.push(
            RenderCmd::SetFragmentTexture { slot: OCCLUSION_TEXTURE_INDEX, texture: h },
        ),
        Option::None => s3,
    };
    match sm.material.emissive_texture {
        Option::Some(h) => s4.push(
            RenderCmd::SetFragmentTexture { slot: EMISSIVE_TEXTURE_INDEX, texture: h },
        ),
        Option::None => s4,
    }
}

/// One submesh's draw block: bind its vertex buffer, bind its present
/// textures, issue one indexed draw.
pub open spec fn spec_submesh_cmds(sm: GpuSubmesh) -> Seq<RenderCmd> {
    seq![RenderCmd::SetVertexBuffer(sm.vertex_buffer)] + spec_submesh_texture_cmds(sm) + seq![
        RenderCmd::DrawIndexed {
            index_count: sm.index_count,
            index_buffer: sm.index_buffer,
            index_buffer_offset: sm.index_buffer_offset,
        },
    ]
}

/// The draw blocks of the first `k` submeshes, in submesh order.
pub open spec fn spec_mesh_cmds_prefix(subs: Seq<GpuSubmesh>, k: int) -> Seq<RenderCmd>
    decreases k,
{
    if k <= 0 {
        Seq::empty()
    } else {
        spec_mesh_cmds_prefix(subs, k - 1) + spec_submesh_cmds(subs[k - 1])
    }
}

/// The draw blocks of the first `k` meshes, in mesh order.
pub open spec fn spec_meshes_cmds_prefix(meshes: Seq<GpuMesh>, k: int) -> Seq<RenderCmd>
    decreases k,
{
    if k <= 0 {
        Seq::empty()
    } else {
        spec_meshes_cmds_prefix(meshes, k - 1) + spec_mesh_cmds_prefix(
            meshes[k - 1].submeshes@,
            meshes[k - 1].submeshes@.len() as int,
        )
    }
}

/// The per-draw uniform block of a transform: the model matrix and its
/// normal matrix replace the previous draw's, the frame matrices stay.
pub open spec fn spec_uniforms_for(u: Uniforms, t: TransformComponent) -> Uniforms {
    let mm = spec_model_matrix(t);
    Uniforms { model_matrix: mm, normal_matrix: spec_normal_matrix(mm), ..u }
}

/// A model's whole command block: the per-draw uniforms and parameters,
/// then all submeshes of all meshes in order, inside a debug group. All
/// submeshes of one model draw together.
pub open spec fn spec_model_cmds(
    m: Model,
    u: Uniforms,
    p: Params,
    t: TransformComponent,
) -> Seq<RenderCmd> {
    seq![
        RenderCmd::PushDebugGroup(m.name),
        RenderCmd::SetUniforms(spec_uniforms_for(u, t)),
        RenderCmd::SetParams(p),
    ] + spec_meshes_cmds_prefix(m.meshes@, m.meshes@.len() as int) + seq![RenderCmd::PopDebugGroup]
}

impl Model {
    /// Append this model's draw commands for one transform, updating the
    /// per-draw uniform block.
    #[verifier::rlimit(100)]
    pub fn render(
        &self,
        transform: &TransformComponent,
        uniforms: &mut Uniforms,
        params: &Params,
        out: &mut Vec<RenderCmd>,
    )
        ensures
            *final(uniforms) == spec_uniforms_for(*old(uniforms), *transform),
            final(out)@ == old(out)@ + spec_model_cmds(*self, *old(uniforms), *params, *transform),
    {
        let mm = model_matrix(transform);
        uniforms.model_matrix = mm;
        uniforms.normal_matrix = normal_matrix(&mm);
        out.push(RenderCmd::PushDebugGroup(self.name.clone()));
        out.push(RenderCmd::SetUniforms(*uniforms));
        out.push(RenderCmd::SetParams(*params));
        let ghost base = out@;
        let nm: usize = self.meshes.len();
        for i in 0..nm
            invariant
                nm == self.meshes@.len(),
                out@ == base + spec_meshes_cmds_prefix(self.meshes@, i as int),
        {
            let ns: usize = self.meshes[i].submeshes.len();
            let ghost mesh_base = out@;
            for j in 0..ns
                invariant
                    nm == self.meshes@.len(),
                    i < nm,
                    ns == self.meshes@[i as int].submeshes@.len(),
                    out@ == mesh_base + spec_mesh_cmds_prefix(
                        self.meshes@[i as int].submeshes@,
                        j as int,
                    ),
            {
                let sm: GpuSubmesh = self.meshes[i].submeshes[j];
                let ghost sub_base = out@;
                out.push(RenderCmd::SetVertexBuffer(sm.vertex_buffer));
                match sm.material.base_color_texture {
                    Some(h) => out.push(
                        RenderCmd::SetFragmentTexture { slot: BASE_COLOR_TEXTURE_INDEX, texture: h },
                    ),
                    None => {},
                }
                match sm.material.normal_texture {
                    Some(h) => out.push(
                        RenderCmd::SetFragmentTexture { slot: NORMAL_MAP_TEXTURE_INDEX, texture: h },
                    ),
                    None => {},
                }
                match sm.material.metallic_roughness_texture {
                    Some(h) => out.push(
                        RenderCmd::SetFragmentTexture {
                            slot: METALLIC_ROUGHNESS_TEXTURE_INDEX,
                            texture: h,
                        },
                    ),
                    None => {},
                }
                match sm.material.ambient_occlusion_texture {
                    Some(h) => out.push(
                        RenderCmd::SetFragmentTexture { slot: OCCLUSION_TEXTURE_INDEX, texture: h },
                    ),
                    None => {},
                }
                match sm.material.emissive_texture {
                    Some(h) => out.push(
                        RenderCmd::SetFragmentTexture { slot: EMISSIVE_TEXTURE_INDEX, texture: h },
                    ),
                    None => {},
                }
                out.push(RenderCmd::DrawIndexed {
                    index_count: sm.index_count,
                    index_buffer: sm.index_buffer,
                    index_buffer_offset: sm.index_buffer_offset,
                });
                proof {
                    assert(out@ =~= sub_base + spec_submesh_cmds(sm));
                    assert(out@ =~= mesh_base + spec_mesh_cmds_prefix(
                        self.meshes@[i as int].submeshes@,
                        j as int + 1,
                    ));
                }
            }
            proof {
                assert(out@ =~= base + spec_meshes_cmds_prefix(self.meshes@, i as int + 1));
            }
        }
        out.push(RenderCmd::PopDebugGroup);
        proof {
            assert(out@ =~= old(out)@ + spec_model_cmds(
                *self,
                *old(uniforms),
                *params,
                *transform,
            ));
        }
    }
}

/// The first registered model carrying this id, if any.
pub open spec fn spec_find_model(models: Seq<Model>, id: u128) -> Option<Model>
    decreases models.len(),
{
    if models.len() == 0 {
        None
    } else if models[0].id == id {
        Some(models[0])
    } else {
        spec_find_model(models.skip(1), id)
    }
}

fn find_model(models: &Vec<Model>, id: u128) -> (r: Option<&Model>)
    ensures
        match r {
            Some(m) => spec_find_model(models@, id) == Some(*m),
            None => spec_find_model(models@, id) is None,
        },
{
    let n: usize = models.len();
    proof {
        assert(models@.skip(0) =~= models@);
    }
    for i in 0..n
        invariant
            n == models@.len(),
            spec_find_model(models@, id) == spec_find_model(models@.skip(i as int), id),
    {
        proof {
            assert(models@.skip(i as int)[0] == models@[i as int]);
        }
        if models[i].id == id {
            return Some(&models[i]);
        }
        proof {
            assert(models@.skip(i as int).skip(1) =~= models@.skip(i as int + 1));
        }
    }
    None
}

/// The commands and final uniform block after drawing the first `k`
/// renderables: a renderable whose id is not registered contributes
/// nothing and the frame goes on.
pub open spec fn spec_draws_prefix(
    models: Seq<Model>,
    u: Uniforms,
    p: Params,
    rs: Seq<(u128, TransformComponent)>,
    k: int,
) -> (Seq<RenderCmd>, Uniforms)
    decreases k,
{
    if k <= 0 {
        (Seq::empty(), u)
    } else {
        let prev = spec_draws_prefix(models, u, p, rs, k - 1);
        match spec_find_model(models, rs[k - 1].0) {
            Option::None => prev,
            Option::Some(m) => (
                prev.0 + spec_model_cmds(m, prev.1, p, rs[k - 1].1),
                spec_uniforms_for(prev.1, rs[k - 1].1),
            ),
        }
    }
}

/// The fixed head of every frame: encoder, depth state, pipeline, cull
/// mode and winding, then the directional light and every point light.
pub open spec fn spec_frame_header(fp: ForwardRenderPass, s: Scene) -> Seq<RenderCmd> {
    seq![
        RenderCmd::BeginEncoder,
        RenderCmd::SetDepthStencilState(fp.depth_stencil_state),
        RenderCmd::SetPipeline(PipelineStateType::Forward),
        RenderCmd::SetCullModeBack,
        RenderCmd::SetWindingCounterClockwise,
        RenderCmd::UploadDirectionalLight(s.directional_light),
    ] + spec_point_light_cmds(s.point_lights@)
}

pub open spec fn spec_point_light_cmds(pl: Seq<PointLight>) -> Seq<RenderCmd> {
    Seq::new(pl.len(), |i: int| RenderCmd::UploadPointLight(pl[i]))
}

/// A whole frame: header, the renderables' draw blocks, end.
pub open spec fn spec_frame_cmds(
    fp: ForwardRenderPass,
    s: Scene,
    rs: Seq<(u128, TransformComponent)>,
) -> Seq<RenderCmd> {
    spec_frame_header(fp, s) + spec_draws_prefix(
        s.models@,
        s.uniforms,
        s.params,
        rs,
        rs.len() as int,
    ).0 + seq![RenderCmd::EndEncoder]
}

/// The forward pass: the one implemented pass kind.
#[derive(Debug)]
pub struct ForwardRenderPass {
    pub pipeline_state: PipelinePlan,
    pub depth_stencil_state: DepthStencilSpec,
}

impl ForwardRenderPass {
    pub fn new(pixel_format: PixelFormat) -> (r: ForwardRenderPass)
        ensures
            r.pipeline_state.color_pixel_format == pixel_format,
            r.pipeline_state.vertex_layout.attributes@
                == crate::pipeline::spec_default_attributes(),
            r.pipeline_state.vertex_layout.stride == crate::pipeline::VERTEX_STRIDE,
            r.depth_stencil_state == (DepthStencilSpec { compare_less: true, write_enabled: true }),
    {
        let kind: PipelineStateType = PipelineStateType::Forward;
        ForwardRenderPass {
            pipeline_state: kind.create_pipeline_state(pixel_format),
            depth_stencil_state: build_depth_stencil_state(),
        }
    }

    /// Plan one frame over the live renderables. The command sequence is
    /// exactly the frame's header, one draw block per renderable whose id
    /// resolves in the registry (in the order given, all submeshes of one
    /// model together), and the encoder end; the scene keeps everything
    /// but the per-draw uniform matrices.
    pub fn draw(&self, renderables: &Vec<(u128, TransformComponent)>, scene: &mut Scene) -> (r:
        Vec<RenderCmd>)
        ensures
            r@ == spec_frame_cmds(*self, *old(scene), renderables@),
            *final(scene) == (Scene {
                uniforms: spec_draws_prefix(
                    old(scene).models@,
                    old(scene).uniforms,
                    old(scene).params,
                    renderables@,
                    renderables@.len() as int,
                ).1,
                ..*old(scene)
            }),
    {
        let mut out: Vec<RenderCmd> = Vec::new();
        out.push(RenderCmd::BeginEncoder);
        out.push(RenderCmd::SetDepthStencilState(self.depth_stencil_state));
        out.push(RenderCmd::SetPipeline(PipelineStateType::Forward));
        out.push(RenderCmd::SetCullModeBack);
        out.push(RenderCmd::SetWindingCounterClockwise);
        out.push(RenderCmd::UploadDirectionalLight(scene.directional_light));
        push_point_lights(&mut out, &scene.point_lights);
        proof {
            assert(out@ =~= spec_frame_header(*self, *old(scene)));
        }
        plan_draws(scene, renderables, &mut out);
        out.push(RenderCmd::EndEncoder);
        proof {
            assert(out@ =~= spec_frame_cmds(*self, *old(scene), renderables@));
        }
        out
    }
}

/// Append one light-upload command per point light, in order.
fn push_point_lights(out: &mut Vec<RenderCmd>, lights: &Vec<PointLight>)
    ensures
        final(out)@ == old(out)@ + spec_point_light_cmds(lights@),
{
    let n: usize = lights.len();
    for i in 0..n
        invariant
            n == lights@.len(),
            out@ == old(out)@ + spec_point_light_cmds(lights@.take(i as int)),
    {
        out.push(RenderCmd::UploadPointLight(lights[i]));
        proof {
            assert(out@ =~= old(out)@ + spec_point_light_cmds(lights@.take(i as int + 1)));
        }
    }
    proof {
        assert(lights@.take(n as int) =~= lights@);
    }
}

/// Append the draw blocks of every renderable whose id resolves in the
/// registry, in the order given; the scene keeps everything but the
/// per-draw uniform matrices.
fn plan_draws(
    scene: &mut Scene,
    renderables: &Vec<(u128, TransformComponent)>,
    out: &mut Vec<RenderCmd>,
)
    ensures
        final(out)@ == old(out)@ + spec_draws_prefix(
            old(scene).models@,
            old(scene).uniforms,
            old(scene).params,
            renderables@,
            renderables@.len() as int,
        ).0,
        *final(scene) == (Scene {
            uniforms: spec_draws_prefix(
                old(scene).models@,
                old(scene).uniforms,
                old(scene).params,
                renderables@,
                renderables@.len() as int,
            ).1,
            ..*old(scene)
        }),
{
    let nr: usize = renderables.len();
    for k in 0..nr
        invariant
            nr == renderables@.len(),
            out@ == old(out)@ + spec_draws_prefix(
                old(scene).models@,
                old(scene).uniforms,
                old(scene).params,
                renderables@,
                k as int,
            ).0,
            *scene == (Scene {
                uniforms: spec_draws_prefix(
                    old(scene).models@,
                    old(scene).uniforms,
                    old(scene).params,
                    renderables@,
                    k as int,
                ).1,
                ..*old(scene)
            }),
    {
        let (id, transform): (u128, TransformComponent) = renderables[k];
        match find_model(&scene.models, id) {
            None => {},
            Some(m) => {
                m.render(&transform, &mut scene.uniforms, &scene.params, out);
            },
        }
    }
}

/// With zero renderables a frame still runs begin, state binding, light
/// upload and end, in that order, and nothing else.
pub proof fn lemma_empty_frame(fp: ForwardRenderPass, s: Scene)
    ensures
        spec_frame_cmds(fp, s, Seq::empty()) == seq![
            RenderCmd::BeginEncoder,
            RenderCmd::SetDepthStencilState(fp.depth_stencil_state),
            RenderCmd::SetPipeline(PipelineStateType::Forward),
            RenderCmd::SetCullModeBack,
            RenderCmd::SetWindingCounterClockwise,
            RenderCmd::UploadDirectionalLight(s.directional_light),
        ] + spec_point_light_cmds(s.point_lights@) + seq![RenderCmd::EndEncoder],
        spec_draws_prefix(s.models@, s.uniforms, s.params, Seq::empty(), 0).1 == s.uniforms,
{
    assert(spec_frame_cmds(fp, s, Seq::empty()) =~= spec_frame_header(fp, s) + seq![
        RenderCmd::EndEncoder,
    ]);
    assert(spec_frame_cmds(fp, s, Seq::empty()) =~= seq![
        RenderCmd::BeginEncoder,
        RenderCmd::SetDepthStencilState(fp.depth_stencil_state),
        RenderCmd::SetPipeline(PipelineStateType::Forward),
        RenderCmd::SetCullModeBack,
        RenderCmd::SetWindingCounterClockwise,
        RenderCmd::UploadDirectionalLight(s.directional_light),
    ] + spec_point_light_cmds(s.point_lights@) + seq![RenderCmd::EndEncoder]);
}

} // verus!
