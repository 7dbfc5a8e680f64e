//! The scene: the model registry, the camera and its controller, the
//! lights, and the per-frame uniform values.
//!
//! `register` and `add_shape` hand back, besides the fresh model id, the
//! upload plan for the new model: the buffer and texture creation commands
//! the platform layer must commit to the device queue before the next
//! frame's draw submission — that ordering is what sequences mipmap
//! generation before any draw that samples the texture.

use vstd::prelude::*;
use vstd::string::StringSliceAdditionalSpecFns;
use crate::camera::{
    spec_deg_to_rad, spec_reset_controller, spec_scroll_amount, spec_handle_key,
    spec_updated_camera, spec_view_matrix, CameraController, FirstPersonCamera, Key, KeyState,
    MouseScrollDelta, FX_PITCH_LIMIT,
};
use crate::error::Error;
use crate::fixed::{fx_div, spec_fx_div, FX_ONE};
use crate::gltf::{
    has_supported_extension, spec_extension_supported, spec_import_error, spec_import_matches,
    GltfDocument, GltfImporter, TextureStore,
};
use crate::light::{DirectionalLight, PointLight};
use crate::material::{clone_texture, Texture};
use crate::mat::spec_perspective_rh;
use crate::mesh::{copy_u32s, copy_vertices, MeshData};
use crate::model::{
    IndexType, Material as GpuMaterial, Mesh as GpuMesh, Model, Submesh as GpuSubmesh,
};
use crate::shader_bindings::{Params, Uniforms};
use crate::vec3::Vec3Fx;
use crate::vertex::{zero_vertex, VertexPosNorTexTanBi};

verus! {

/// One step of an upload plan: create an immutable GPU resource under a
/// fresh handle, sized exactly to the data it carries.
#[derive(Debug)]
pub enum UploadCmd {
    CreateVertexBuffer { resource: u64, vertices: Vec<VertexPosNorTexTanBi> },
    CreateIndexBuffer { resource: u64, indices: Vec<u32> },
    CreateTexture { resource: u64, texture: Texture, generate_mipmaps: bool },
}

pub open spec fn spec_cmd_is_vb(c: UploadCmd, res: u64, vs: Seq<VertexPosNorTexTanBi>) -> bool {
    match c {
        UploadCmd::CreateVertexBuffer { resource, vertices } => resource == res && vertices@ == vs,
        _ => false,
    }
}

pub open spec fn spec_cmd_is_ib(c: UploadCmd, res: u64, ix: Seq<u32>) -> bool {
    match c {
        UploadCmd::CreateIndexBuffer { resource, indices } => resource == res && indices@ == ix,
        _ => false,
    }
}

pub open spec fn spec_cmd_is_tex(c: UploadCmd, res: u64, t: Texture) -> bool {
    match c {
        UploadCmd::CreateTexture { resource, texture, generate_mipmaps } => resource == res
            && texture.data@ == t.data@ && texture.width == t.width && texture.height == t.height
            && generate_mipmaps,
        _ => false,
    }
}

pub open spec fn spec_plan_has_vb(
    plan: Seq<UploadCmd>,
    res: u64,
    vs: Seq<VertexPosNorTexTanBi>,
) -> bool {
    exists|k: int| 0 <= k < plan.len() && spec_cmd_is_vb(#[trigger] plan[k], res, vs)
}

pub open spec fn spec_plan_has_ib(plan: Seq<UploadCmd>, res: u64, ix: Seq<u32>) -> bool {
    exists|k: int| 0 <= k < plan.len() && spec_cmd_is_ib(#[trigger] plan[k], res, ix)
}

pub open spec fn spec_plan_has_tex(plan: Seq<UploadCmd>, res: u64, t: Texture) -> bool {
    exists|k: int| 0 <= k < plan.len() && spec_cmd_is_tex(#[trigger] plan[k], res, t)
}

/// An uploaded material slot: absent exactly when the source slot is
/// absent, else backed by a texture-creation command (with mipmaps) that
/// carries the source pixels.
pub open spec fn spec_slot_uploaded(
    gpu: Option<u64>,
    src: Option<Texture>,
    plan: Seq<UploadCmd>,
) -> bool {
    match (gpu, src) {
        (Option::None, Option::None) => true,
        (Option::Some(h), Option::Some(t)) => spec_plan_has_tex(plan, h, t),
        _ => false,
    }
}

/// An uploaded submesh: its buffers are created by plan commands holding
/// exactly the source vertices and indices, its index count is the source
/// index count, and its five material slots follow the source material.
pub open spec fn spec_submesh_uploaded(
    gsm: GpuSubmesh,
    src: crate::mesh::SubMeshData,
    plan: Seq<UploadCmd>,
) -> bool {
    &&& gsm.index_count == src.indices@.len()
    &&& gsm.index_type == IndexType::UInt32
    &&& gsm.index_buffer_offset == 0
    &&& spec_plan_has_vb(plan, gsm.vertex_buffer, src.vertices@)
    &&& spec_plan_has_ib(plan, gsm.index_buffer, src.indices@)
    &&& spec_slot_uploaded(gsm.material.base_color_texture, src.material.base_color_texture, plan)
    &&& spec_slot_uploaded(gsm.material.normal_texture, src.material.normal_texture, plan)
    &&& spec_slot_uploaded(
        gsm.material.metallic_roughness_texture,
        src.material.metallic_roughness_texture,
        plan,
    )
    &&& spec_slot_uploaded(
        gsm.material.ambient_occlusion_texture,
        src.material.ambient_occlusion_texture,
        plan,
    )
    &&& spec_slot_uploaded(gsm.material.emissive_texture, src.material.emissive_texture, plan)
}

/// An uploaded model mirrors the imported data mesh for mesh and submesh
/// for submesh.
pub open spec fn spec_model_uploaded(m: Model, src: Seq<MeshData>, plan: Seq<UploadCmd>) -> bool {
    &&& m.meshes@.len() == src.len()
    &&& forall|i: int|
        0 <= i < src.len() ==> (#[trigger] m.meshes@[i]).submeshes@.len()
            == src[i].submesh_data@.len()
    &&& forall|i: int, j: int|
        0 <= i < src.len() && 0 <= j < src[i].submesh_data@.len() ==> spec_submesh_uploaded(
            #[trigger] m.meshes@[i].submeshes@[j],
            src[i].submesh_data@[j],
            plan,
        )
}

proof fn lemma_has_vb_mono(p1: Seq<UploadCmd>, p2: Seq<UploadCmd>, res: u64, vs: Seq<VertexPosNorTexTanBi>)
    requires
        spec_plan_has_vb(p1, res, vs),
        p1.len() <= p2.len(),
        forall|k: int| 0 <= k < p1.len() ==> p2[k] == p1[k],
    ensures
        spec_plan_has_vb(p2, res, vs),
{
    let k = choose|k: int| 0 <= k < p1.len() && spec_cmd_is_vb(#[trigger] p1[k], res, vs);
    assert(spec_cmd_is_vb(p2[k], res, vs));
}

proof fn lemma_has_ib_mono(p1: Seq<UploadCmd>, p2: Seq<UploadCmd>, res: u64, ix: Seq<u32>)
    requires
        spec_plan_has_ib(p1, res, ix),
        p1.len() <= p2.len(),
        forall|k: int| 0 <= k < p1.len() ==> p2[k] == p1[k],
    ensures
        spec_plan_has_ib(p2, res, ix),
{
    let k = choose|k: int| 0 <= k < p1.len() && spec_cmd_is_ib(#[trigger] p1[k], res, ix);
    assert(spec_cmd_is_ib(p2[k], res, ix));
}

proof fn lemma_has_tex_mono(p1: Seq<UploadCmd>, p2: Seq<UploadCmd>, res: u64, t: Texture)
    requires
        spec_plan_has_tex(p1, res, t),
        p1.len() <= p2.len(),
        forall|k: int| 0 <= k < p1.len() ==> p2[k] == p1[k],
    ensures
        spec_plan_has_tex(p2, res, t),
{
    let k = choose|k: int| 0 <= k < p1.len() && spec_cmd_is_tex(#[trigger] p1[k], res, t);
    assert(spec_cmd_is_tex(p2[k], res, t));
}

/// Everything claimed of a submesh against a plan prefix stays true when
/// the plan grows.
proof fn lemma_submesh_uploaded_mono(
    gsm: GpuSubmesh,
    src: crate::mesh::SubMeshData,
    p1: Seq<UploadCmd>,
    p2: Seq<UploadCmd>,
)
    requires
        spec_submesh_uploaded(gsm, src, p1),
        p1.len() <= p2.len(),
        forall|k: int| 0 <= k < p1.len() ==> p2[k] == p1[k],
    ensures
        spec_submesh_uploaded(gsm, src, p2),
{
    lemma_has_vb_mono(p1, p2, gsm.vertex_buffer, src.vertices@);
    lemma_has_ib_mono(p1, p2, gsm.index_buffer, src.indices@);
    match (gsm.material.base_color_texture, src.material.base_color_texture) {
        (Option::Some(h), Option::Some(t)) => lemma_has_tex_mono(p1, p2, h, t),
        _ => (),
    }
    match (gsm.material.normal_texture, src.material.normal_texture) {
        (Option::Some(h), Option::Some(t)) => lemma_has_tex_mono(p1, p2, h, t),
        _ => (),
    }
    match (gsm.material.metallic_roughness_texture, src.material.metallic_roughness_texture) {
        (Option::Some(h), Option::Some(t)) => lemma_has_tex_mono(p1, p2, h, t),
        _ => (),
    }
    match (gsm.material.ambient_occlusion_texture, src.material.ambient_occlusion_texture) {
        (Option::Some(h), Option::Some(t)) => lemma_has_tex_mono(p1, p2, h, t),
        _ => (),
    }
    match (gsm.material.emissive_texture, src.material.emissive_texture) {
        (Option::Some(h), Option::Some(t)) => lemma_has_tex_mono(p1, p2, h, t),
        _ => (),
    }
}

/// Some registered model carries this id.
pub open spec fn spec_has_id(models: Seq<Model>, id: u128) -> bool {
    exists|i: int| 0 <= i < models.len() && (#[trigger] models[i]).id == id
}

/// Registered ids are pairwise distinct.
pub open spec fn spec_ids_distinct(models: Seq<Model>) -> bool {
    forall|i: int, j: int|
        0 <= i < j < models.len() ==> (#[trigger] models[i]).id != (#[trigger] models[j]).id
}

/// If `n` distinct ids cover all of `0, 1, ..., n - 1`, they are exactly
/// those, so `n` itself is free.
proof fn lemma_small_id_free(models: Seq<Model>)
    requires
        spec_ids_distinct(models),
        models.len() <= 0xFFFFFFFFFFFFFFFF,
        forall|j: u128| (j as int) < models.len() ==> #[trigger] spec_has_id(models, j),
    ensures
        !spec_has_id(models, models.len() as u128),
{
    broadcast use vstd::seq_lib::seq_to_set_is_finite;

    if !spec_has_id(models, models.len() as u128) {
        return;
    }
    let n = models.len() as int;
    let int_ids = Seq::new(models.len(), |i: int| models[i].id as int);
    assert forall|i: int, j: int|
        0 <= i < int_ids.len() && 0 <= j < int_ids.len() && i != j implies int_ids[i]
        != int_ids[j] by {
        if i < j {
            assert(models[i].id != models[j].id);
        } else {
            assert(models[j].id != models[i].id);
        }
    }
    assert(int_ids.no_duplicates());
    int_ids.unique_seq_to_set();
    assert forall|x: int|
        vstd::set_lib::set_int_range(0, n + 1).contains(x) implies int_ids.to_set().contains(
        x,
    ) by {
        assert(spec_has_id(models, x as u128));
        let i = choose|i: int| 0 <= i < models.len() && (#[trigger] models[i]).id == (x as u128);
        assert(int_ids[i] == x);
        assert(int_ids.contains(x));
    }
    vstd::set_lib::lemma_int_range(0, n + 1);
    vstd::set_lib::lemma_len_subset(vstd::set_lib::set_int_range(0, n + 1), int_ids.to_set());
    assert(false);
}

/// Relies on uuid::Uuid::new_v4 (read out with as_u128): a freshly
/// generated random identifier. Nothing is assumed of the value; the
/// registry checks it against the registered ids itself.
#[verifier::external_body]
fn generate_uuid() -> u128 {
    uuid::Uuid::new_v4().as_u128()
}

/// The scene owns the model registry, the editor camera and its
/// controller, the lights, and the per-frame uniform values.
#[derive(Debug)]
pub struct Scene {
    pub models: Vec<Model>,
    pub editor_camera: FirstPersonCamera,
    pub editor_camera_controller: CameraController,
    pub uniforms: Uniforms,
    pub params: Params,
    pub directional_light: DirectionalLight,
    pub point_lights: Vec<PointLight>,
    /// The next GPU resource handle an upload plan will use.
    pub next_resource: u64,
}

/// The scene a fresh instance starts from: camera three units back
/// looking down the negative z axis, one white directional light, one red
/// point light, uniforms already computed from the camera.
pub open spec fn spec_is_initial_scene(s: Scene, width: int, height: int) -> bool {
    &&& s.models@.len() == 0
    &&& s.editor_camera.position == (Vec3Fx { x: 0i64, y: 0i64, z: 196608i64 })
    &&& s.editor_camera.yaw_radians as int == spec_deg_to_rad(-5898240)
    &&& s.editor_camera.pitch_radians as int == spec_deg_to_rad(0)
    &&& s.editor_camera.fov_radians as int == spec_deg_to_rad(2949120)
    &&& s.editor_camera.aspect_ratio as int == spec_fx_div(width, height)
    &&& s.editor_camera.z_far == 65536000i64
    &&& s.editor_camera.z_near == 6554i64
    &&& s.editor_camera_controller == (CameraController {
        amount_left: 0i64,
        amount_right: 0i64,
        amount_forward: 0i64,
        amount_backward: 0i64,
        amount_up: 0i64,
        amount_down: 0i64,
        rotate_horizontal: 0i64,
        rotate_vertical: 0i64,
        scroll: 0i64,
        speed: 262144i64,
        sensitivity: 983040i64,
    })
    &&& s.directional_light == (DirectionalLight {
        position: (Vec3Fx { x: 0i64, y: 1966080i64, z: 1966080i64 }),
        color: (Vec3Fx { x: FX_ONE, y: FX_ONE, z: FX_ONE }),
    })
    &&& s.point_lights@ == seq![
        PointLight {
            position: (Vec3Fx { x: 0i64, y: 0i64, z: 196608i64 }),
            color: (Vec3Fx { x: FX_ONE, y: 0i64, z: 0i64 }),
            attenuation: (Vec3Fx { x: 32768i64, y: 131072i64, z: FX_ONE }),
        },
    ]
    &&& s.uniforms.view_matrix == spec_view_matrix(s.editor_camera)
    &&& s.uniforms.projection_matrix == spec_perspective_rh(
        s.editor_camera.fov_radians as int,
        s.editor_camera.aspect_ratio as int,
        s.editor_camera.z_near as int,
        s.editor_camera.z_far as int,
    )
    &&& s.uniforms.model_matrix == crate::mat::spec_mat4_zero()
    &&& s.uniforms.normal_matrix == crate::mat::spec_mat3_zero()
    &&& s.params.point_light_count == 1u32
    &&& s.params.camera_position == s.editor_camera.position
    &&& s.next_resource == 1u64
}

impl Scene {
    /// Registry invariant: registered model ids are pairwise distinct.
    pub open spec fn wf(self) -> bool {
        spec_ids_distinct(self.models@)
    }

    pub fn new(width: i64, height: i64) -> (r: Scene)
        requires
            height != 0,
        ensures
            r.wf(),
            spec_is_initial_scene(r, width as int, height as int),
    {
        let editor_camera: FirstPersonCamera = FirstPersonCamera::new(
            Vec3Fx { x: 0, y: 0, z: 3 * FX_ONE },
            -90 * FX_ONE,
            0,
            45 * FX_ONE,
            fx_div(width, height),
            1000 * FX_ONE,
            6554,
        );
        let editor_camera_controller: CameraController = CameraController::new(
            4 * FX_ONE,
            15 * FX_ONE,
        );
        let sun_light: DirectionalLight = DirectionalLight {
            position: Vec3Fx { x: 0, y: 30 * FX_ONE, z: 30 * FX_ONE },
            color: Vec3Fx { x: FX_ONE, y: FX_ONE, z: FX_ONE },
        };
        let mut point_lights: Vec<PointLight> = Vec::new();
        let red_light: PointLight = PointLight {
            position: Vec3Fx { x: 0, y: 0, z: 3 * FX_ONE },
            color: Vec3Fx { x: FX_ONE, y: 0, z: 0 },
            attenuation: Vec3Fx { x: FX_ONE / 2, y: 2 * FX_ONE, z: FX_ONE },
        };
        point_lights.push(red_light);
        let mut uniforms: Uniforms = Uniforms::new();
        uniforms.update(&editor_camera);
        let mut params: Params = Params::new();
        params.point_light_count = 1;
        params.update(&editor_camera);
        proof {
            assert(point_lights@ =~= seq![red_light]);
        }
        Scene {
            models: Vec::new(),
            editor_camera,
            editor_camera_controller,
            uniforms,
            params,
            directional_light: sun_light,
            point_lights,
            next_resource: 1,
        }
    }

    /// A camera aspect-ratio change; nothing else moves.
    pub fn resize(&mut self, width: i64, height: i64)
        requires
            height != 0,
        ensures
            *final(self) == (Scene {
                editor_camera: (FirstPersonCamera {
                    aspect_ratio: spec_fx_div(width as int, height as int) as i64,
                    ..old(self).editor_camera
                }),
                ..*old(self)
            }),
    {
        self.editor_camera.set_aspect_ration(fx_div(width, height));
    }

    /// One frame tick: apply the controller to the camera (clamping the
    /// pitch and resetting the one-shot accumulators), then recompute the
    /// per-frame uniform values from the updated camera.
    pub fn update(&mut self, delta_time: i64)
        ensures
            final(self).editor_camera == spec_updated_camera(
                old(self).editor_camera_controller,
                old(self).editor_camera,
                delta_time as int,
            ),
            final(self).editor_camera_controller == spec_reset_controller(
                old(self).editor_camera_controller,
            ),
            -FX_PITCH_LIMIT <= final(self).editor_camera.pitch_radians <= FX_PITCH_LIMIT,
            final(self).uniforms == (Uniforms {
                view_matrix: spec_view_matrix(final(self).editor_camera),
                projection_matrix: spec_perspective_rh(
                    final(self).editor_camera.fov_radians as int,
                    final(self).editor_camera.aspect_ratio as int,
                    final(self).editor_camera.z_near as int,
                    final(self).editor_camera.z_far as int,
                ),
                ..old(self).uniforms
            }),
            final(self).params == (Params {
                camera_position: final(self).editor_camera.position,
                ..old(self).params
            }),
            final(self).models@ == old(self).models@,
            final(self).directional_light == old(self).directional_light,
            final(self).point_lights@ == old(self).point_lights@,
            final(self).next_resource == old(self).next_resource,
    {
        self.editor_camera_controller.update(&mut self.editor_camera, delta_time);
        self.uniforms.update(&self.editor_camera);
        self.params.update(&self.editor_camera);
    }

    /// Forwarded to the controller; the camera is untouched.
    pub fn handle_keyboard_event(&mut self, key: Key, state: KeyState)
        ensures
            *final(self) == (Scene {
                editor_camera_controller: spec_handle_key(
                    old(self).editor_camera_controller,
                    key,
                    if state is Pressed { FX_ONE } else { 0i64 },
                ),
                ..*old(self)
            }),
    {
        self.editor_camera_controller.handle_keyboard_event(key, state);
    }

    /// Forwarded to the controller; the camera is untouched.
    pub fn handle_mouse_event(&mut self, mouse_dx: i64, mouse_dy: i64)
        ensures
            *final(self) == (Scene {
                editor_camera_controller: (CameraController {
                    rotate_horizontal: mouse_dx,
                    rotate_vertical: mouse_dy,
                    ..old(self).editor_camera_controller
                }),
                ..*old(self)
            }),
    {
        self.editor_camera_controller.handle_mouse_event(mouse_dx, mouse_dy);
    }

    /// Forwarded to the controller; the camera is untouched.
    pub fn handle_scroll_event(&mut self, delta: &MouseScrollDelta)
        ensures
            *final(self) == (Scene {
                editor_camera_controller: (CameraController {
                    scroll: spec_scroll_amount(*delta) as i64,
                    ..old(self).editor_camera_controller
                }),
                ..*old(self)
            }),
    {
        self.editor_camera_controller.handle_scroll_event(delta);
    }

    fn contains_id(&self, id: u128) -> (r: bool)
        ensures
            r == spec_has_id(self.models@, id),
    {
        let n: usize = self.models.len();
        for i in 0..n
            invariant
                n == self.models@.len(),
                forall|j: int| 0 <= j < i ==> (#[trigger] self.models@[j]).id != id,
        {
            if self.models[i].id == id {
                return true;
            }
        }
        false
    }

    /// An id no registered model carries: a random identifier, with a
    /// deterministic search fallback should it collide.
    fn fresh_id(&self) -> (id: u128)
        requires
            self.wf(),
        ensures
            !spec_has_id(self.models@, id),
    {
        let cand: u128 = generate_uuid();
        if !self.contains_id(cand) {
            return cand;
        }
        let n: usize = self.models.len();
        for k in 0..n
            invariant
                n == self.models@.len(),
                self.wf(),
                forall|j: u128| (j as int) < (k as int) ==> #[trigger] spec_has_id(
                    self.models@,
                    j,
                ),
        {
            if !self.contains_id(k as u128) {
                return k as u128;
            }
        }
        // The n registered ids cover 0 .. n - 1 and are distinct, so they
        // are exactly those, and n itself is free.
        proof {
            lemma_small_id_free(self.models@);
        }
        n as u128
    }

    fn alloc_resource(&mut self) -> (r: u64)
        ensures
            r == old(self).next_resource,
            *final(self) == (Scene { next_resource: final(self).next_resource, ..*old(self) }),
    {
        let r: u64 = self.next_resource;
        if self.next_resource < u64::MAX {
            self.next_resource = self.next_resource + 1;
        }
        r
    }
}

/// Upload one optional texture slot: a present texture gets a fresh
/// resource handle and a creation command with mipmap generation.
fn upload_slot(next: &mut u64, plan: &mut Vec<UploadCmd>, slot: &Option<Texture>) -> (r: Option<
    u64,
>)
    ensures
        final(plan)@.len() >= old(plan)@.len(),
        forall|k: int| 0 <= k < old(plan)@.len() ==> final(plan)@[k] == old(plan)@[k],
        spec_slot_uploaded(r, *slot, final(plan)@),
{
    match slot {
        None => None,
        Some(t) => {
            let h: u64 = *next;
            if *next < u64::MAX {
                *next = *next + 1;
            }
            plan.push(UploadCmd::CreateTexture {
                resource: h,
                texture: clone_texture(t),
                generate_mipmaps: true,
            });
            proof {
                assert(spec_cmd_is_tex(plan@[plan@.len() - 1], h, *t));
            }
            Some(h)
        },
    }
}

/// Upload one submesh: vertex buffer, index buffer, and the present
/// material textures.
fn upload_submesh(next: &mut u64, plan: &mut Vec<UploadCmd>, src: &crate::mesh::SubMeshData) -> (r:
    GpuSubmesh)
    ensures
        final(plan)@.len() >= old(plan)@.len(),
        forall|k: int| 0 <= k < old(plan)@.len() ==> final(plan)@[k] == old(plan)@[k],
        spec_submesh_uploaded(r, *src, final(plan)@),
{
    let vb: u64 = *next;
    if *next < u64::MAX {
        *next = *next + 1;
    }
    plan.push(UploadCmd::CreateVertexBuffer { resource: vb, vertices: copy_vertices(&src.vertices) });
    let ghost plan_vb = plan@;
    proof {
        assert(spec_cmd_is_vb(plan@[plan@.len() - 1], vb, src.vertices@));
    }
    let ib: u64 = *next;
    if *next < u64::MAX {
        *next = *next + 1;
    }
    plan.push(UploadCmd::CreateIndexBuffer { resource: ib, indices: copy_u32s(&src.indices) });
    proof {
        assert(spec_cmd_is_ib(plan@[plan@.len() - 1], ib, src.indices@));
        lemma_has_vb_mono(plan_vb, plan@, vb, src.vertices@);
    }
    let ghost plan_ib = plan@;
    let base_color_texture: Option<u64> = upload_slot(next, plan, &src.material.base_color_texture);
    let ghost p1 = plan@;
    let normal_texture: Option<u64> = upload_slot(next, plan, &src.material.normal_texture);
    let ghost p2 = plan@;
    let metallic_roughness_texture: Option<u64> = upload_slot(
        next,
        plan,
        &src.material.metallic_roughness_texture,
    );
    let ghost p3 = plan@;
    let ambient_occlusion_texture: Option<u64> = upload_slot(
        next,
        plan,
        &src.material.ambient_occlusion_texture,
    );
    let ghost p4 = plan@;
    let emissive_texture: Option<u64> = upload_slot(next, plan, &src.material.emissive_texture);
    let r = GpuSubmesh {
        vertex_buffer: vb,
        index_count: src.indices.len() as u64,
        index_type: IndexType::UInt32,
        index_buffer: ib,
        index_buffer_offset: 0,
        material: GpuMaterial {
            base_color_texture,
            normal_texture,
            metallic_roughness_texture,
            ambient_occlusion_texture,
            emissive_texture,
        },
    };
    proof {
        lemma_has_vb_mono(plan_ib, plan@, vb, src.vertices@);
        lemma_has_ib_mono(plan_ib, plan@, ib, src.indices@);
        match (base_color_texture, &src.material.base_color_texture) {
            (Option::Some(h), Option::Some(t)) => lemma_has_tex_mono(p1, plan@, h, *t),
            _ => (),
        }
        match (normal_texture, &src.material.normal_texture) {
            (Option::Some(h), Option::Some(t)) => lemma_has_tex_mono(p2, plan@, h, *t),
            _ => (),
        }
        match (metallic_roughness_texture, &src.material.metallic_roughness_texture) {
            (Option::Some(h), Option::Some(t)) => lemma_has_tex_mono(p3, plan@, h, *t),
            _ => (),
        }
        match (ambient_occlusion_texture, &src.material.ambient_occlusion_texture) {
            (Option::Some(h), Option::Some(t)) => lemma_has_tex_mono(p4, plan@, h, *t),
            _ => (),
        }
    }
    r
}

impl Scene {
    /// Register imported mesh data: upload every submesh and store the
    /// model under a fresh id. The returned id differs from every id this
    /// scene returned before; the returned plan must be committed to the
    /// device queue before the next frame's draw submission.
    pub fn register(&mut self, mesh_data: &Vec<MeshData>) -> (r: (u128, Vec<UploadCmd>))
        requires
            old(self).wf(),
        ensures
            final(self).wf(),
            !spec_has_id(old(self).models@, r.0),
            final(self).models@.len() == old(self).models@.len() + 1,
            forall|i: int|
                0 <= i < old(self).models@.len() ==> #[trigger] final(self).models@[i] == old(
                    self,
                ).models@[i],
            final(self).models@.last().id == r.0,
            spec_model_uploaded(final(self).models@.last(), mesh_data@, r.1@),
            final(self).editor_camera == old(self).editor_camera,
            final(self).editor_camera_controller == old(self).editor_camera_controller,
            final(self).uniforms == old(self).uniforms,
            final(self).params == old(self).params,
            final(self).directional_light == old(self).directional_light,
            final(self).point_lights@ == old(self).point_lights@,
    {
        let id: u128 = self.fresh_id();
        let mut plan: Vec<UploadCmd> = Vec::new();
        let mut meshes: Vec<GpuMesh> = Vec::new();
        let nm: usize = mesh_data.len();
        let mut next: u64 = self.next_resource;
        for i in 0..nm
            invariant
                nm == mesh_data@.len(),
                meshes@.len() == i,
                forall|k: int|
                    0 <= k < i ==> (#[trigger] meshes@[k]).submeshes@.len()
                        == mesh_data@[k].submesh_data@.len(),
                forall|k: int, j: int|
                    0 <= k < i && 0 <= j < mesh_data@[k].submesh_data@.len()
                        ==> spec_submesh_uploaded(
                        #[trigger] meshes@[k].submeshes@[j],
                        mesh_data@[k].submesh_data@[j],
                        plan@,
                    ),
        {
            let ghost plan_outer = plan@;
            let mut subs: Vec<GpuSubmesh> = Vec::new();
            let ns: usize = mesh_data[i].submesh_data.len();
            for j in 0..ns
                invariant
                    nm == mesh_data@.len(),
                    i < nm,
                    ns == mesh_data@[i as int].submesh_data@.len(),
                    subs@.len() == j,
                    plan@.len() >= plan_outer.len(),
                    forall|k: int| 0 <= k < plan_outer.len() ==> plan@[k] == plan_outer[k],
                    forall|k: int|
                        0 <= k < j ==> spec_submesh_uploaded(
                            #[trigger] subs@[k],
                            mesh_data@[i as int].submesh_data@[k],
                            plan@,
                        ),
                    meshes@.len() == i,
                    forall|k: int|
                        0 <= k < i ==> (#[trigger] meshes@[k]).submeshes@.len()
                            == mesh_data@[k].submesh_data@.len(),
                    forall|k: int, j2: int|
                        0 <= k < i && 0 <= j2 < mesh_data@[k].submesh_data@.len()
                            ==> spec_submesh_uploaded(
                            #[trigger] meshes@[k].submeshes@[j2],
                            mesh_data@[k].submesh_data@[j2],
                            plan_outer,
                        ),
            {
                let ghost plan_before = plan@;
                let sm: GpuSubmesh = upload_submesh(&mut next, &mut plan, &mesh_data[i].submesh_data[j]);
                subs.push(sm);
                proof {
                    assert forall|k: int|
                        0 <= k < subs@.len() - 1 implies spec_submesh_uploaded(
                        #[trigger] subs@[k],
                        mesh_data@[i as int].submesh_data@[k],
                        plan@,
                    ) by {
                        lemma_submesh_uploaded_mono(
                            subs@[k],
                            mesh_data@[i as int].submesh_data@[k],
                            plan_before,
                            plan@,
                        );
                    }
                }
            }
            meshes.push(GpuMesh { submeshes: subs });
            proof {
                assert forall|k: int, j2: int|
                    0 <= k < meshes@.len() - 1 && 0 <= j2 < mesh_data@[k].submesh_data@.len()
                        implies spec_submesh_uploaded(
                    #[trigger] meshes@[k].submeshes@[j2],
                    mesh_data@[k].submesh_data@[j2],
                    plan@,
                ) by {
                    lemma_submesh_uploaded_mono(
                        meshes@[k].submeshes@[j2],
                        mesh_data@[k].submesh_data@[j2],
                        plan_outer,
                        plan@,
                    );
                }
            }
        }
        self.next_resource = next;
        let model: Model = Model { id, name: String::new(), meshes };
        self.models.push(model);
        (id, plan)
    }

    /// Register a procedurally generated single-submesh shape with no
    /// material textures, from flat position and normal component arrays
    /// (three components per vertex) and an index list.
    pub fn add_shape(&mut self, vertices: &[i64], normals: &[i64], indices: &[u32]) -> (r: (
        u128,
        Vec<UploadCmd>,
    ))
        requires
            old(self).wf(),
            vertices@.len() % 3 == 0,
            normals@.len() == vertices@.len(),
        ensures
            final(self).wf(),
            !spec_has_id(old(self).models@, r.0),
            final(self).models@.len() == old(self).models@.len() + 1,
            forall|i: int|
                0 <= i < old(self).models@.len() ==> #[trigger] final(self).models@[i] == old(
                    self,
                ).models@[i],
            final(self).models@.last().id == r.0,
            final(self).models@.last().meshes@.len() == 1,
            final(self).models@.last().meshes@[0].submeshes@.len() == 1,
            ({
                let gsm = final(self).models@.last().meshes@[0].submeshes@[0];
                &&& gsm.index_count == indices@.len()
                &&& gsm.material.base_color_texture is None
                &&& gsm.material.normal_texture is None
                &&& gsm.material.metallic_roughness_texture is None
                &&& gsm.material.ambient_occlusion_texture is None
                &&& gsm.material.emissive_texture is None
                &&& spec_plan_has_vb(r.1@, gsm.vertex_buffer, spec_shape_vertices(vertices@, normals@))
                &&& spec_plan_has_ib(r.1@, gsm.index_buffer, indices@)
            }),
            final(self).editor_camera == old(self).editor_camera,
            final(self).editor_camera_controller == old(self).editor_camera_controller,
            final(self).uniforms == old(self).uniforms,
            final(self).params == old(self).params,
            final(self).directional_light == old(self).directional_light,
            final(self).point_lights@ == old(self).point_lights@,
    {
        let id: u128 = self.fresh_id();
        let mut vertex_data: Vec<VertexPosNorTexTanBi> = Vec::new();
        let n: usize = vertices.len();
        let total: usize = n / 3;
        proof {
            vstd::arithmetic::div_mod::lemma_fundamental_div_mod(n as int, 3);
        }
        for vi in 0..total
            invariant
                n == vertices@.len(),
                normals@.len() == n,
                total as int * 3 == n as int,
                vertex_data@ =~= spec_shape_vertices(vertices@, normals@).take(vi as int),
        {
            let base: usize = 3 * vi;
            let v = VertexPosNorTexTanBi {
                position: Vec3Fx {
                    x: vertices[base],
                    y: vertices[base + 1],
                    z: vertices[base + 2],
                },
                normal: Vec3Fx { x: normals[base], y: normals[base + 1], z: normals[base + 2] },
                ..zero_vertex()
            };
            vertex_data.push(v);
            proof {
                assert(spec_shape_vertices(vertices@, normals@)[vi as int] == v);
                assert(vertex_data@ =~= spec_shape_vertices(vertices@, normals@).take(
                    vi as int + 1,
                ));
            }
        }
        proof {
            assert(vertex_data@ =~= spec_shape_vertices(vertices@, normals@));
        }
        let mut plan: Vec<UploadCmd> = Vec::new();
        let vb: u64 = self.alloc_resource();
        plan.push(UploadCmd::CreateVertexBuffer { resource: vb, vertices: vertex_data });
        let ghost plan_vb = plan@;
        proof {
            assert(spec_cmd_is_vb(plan@[0], vb, spec_shape_vertices(vertices@, normals@)));
        }
        let ib: u64 = self.alloc_resource();
        let index_count: u64 = indices.len() as u64;
        let mut idx: Vec<u32> = Vec::new();
        let mut k: usize = 0;
        let ni: usize = indices.len();
        while k < ni
            invariant
                ni == indices@.len(),
                k <= ni,
                idx@ =~= indices@.take(k as int),
            decreases ni - k,
        {
            idx.push(indices[k]);
            k = k + 1;
        }
        proof {
            assert(idx@ =~= indices@);
        }
        plan.push(UploadCmd::CreateIndexBuffer { resource: ib, indices: idx });
        proof {
            assert(spec_cmd_is_ib(plan@[1], ib, indices@));
            lemma_has_vb_mono(plan_vb, plan@, vb, spec_shape_vertices(vertices@, normals@));
        }
        let submesh: GpuSubmesh = GpuSubmesh {
            vertex_buffer: vb,
            index_count,
            index_type: IndexType::UInt32,
            index_buffer: ib,
            index_buffer_offset: 0,
            material: GpuMaterial {
                base_color_texture: None,
                normal_texture: None,
                metallic_roughness_texture: None,
                ambient_occlusion_texture: None,
                emissive_texture: None,
            },
        };
        let mut submeshes: Vec<GpuSubmesh> = Vec::new();
        submeshes.push(submesh);
        let mut meshes: Vec<GpuMesh> = Vec::new();
        meshes.push(GpuMesh { submeshes });
        let model: Model = Model { id, name: String::new(), meshes };
        self.models.push(model);
        (id, plan)
    }

    /// Import an asset file's parsed document and register the result. A
    /// path without a supported extension is an `UnsupportedFormat`
    /// error; import errors abort before anything is registered.
    pub fn add_mesh(
        &mut self,
        file_path: &str,
        asset_dir: &str,
        doc: &GltfDocument,
        files: &TextureStore,
    ) -> (r: Result<(u128, Vec<UploadCmd>), Error>)
        requires
            old(self).wf(),
        ensures
            final(self).wf(),
            match r {
                Ok(p) => {
                    &&& spec_extension_supported(file_path.spec_bytes())
                    &&& !spec_has_id(old(self).models@, p.0)
                    &&& final(self).models@.len() == old(self).models@.len() + 1
                    &&& final(self).models@.last().id == p.0
                    &&& forall|i: int|
                        0 <= i < old(self).models@.len() ==> #[trigger] final(self).models@[i]
                            == old(self).models@[i]
                    &&& exists|md: Seq<MeshData>|
                        #[trigger] spec_import_matches(md, doc.nodes@, asset_dir@, files.files@)
                            && spec_model_uploaded(final(self).models@.last(), md, p.1@)
                },
                Err(e) => {
                    &&& final(self).models@ == old(self).models@
                    &&& if !spec_extension_supported(file_path.spec_bytes()) {
                        e == Error::UnsupportedFormat
                    } else {
                        spec_import_error(
                            doc.nodes@,
                            asset_dir@,
                            files.files@,
                            doc.nodes@.len() as int,
                        ) == Some(e)
                    }
                },
            },
    {
        if !has_supported_extension(file_path) {
            return Err(Error::UnsupportedFormat);
        }
        match GltfImporter::import(doc, asset_dir, files) {
            Err(e) => Err(e),
            Ok(mesh_data) => {
                let (id, plan) = self.register(&mesh_data);
                proof {
                    assert(spec_import_matches(mesh_data@, doc.nodes@, asset_dir@, files.files@));
                    assert(spec_model_uploaded(self.models@.last(), mesh_data@, plan@));
                }
                Ok((id, plan))
            },
        }
    }
}

/// The vertices `add_shape` assembles: position and normal from the flat
/// component arrays, everything else zero.
pub open spec fn spec_shape_vertices(
    vertices: Seq<i64>,
    normals: Seq<i64>,
) -> Seq<VertexPosNorTexTanBi> {
    Seq::new(
        (vertices.len() / 3) as nat,
        |i: int|
            VertexPosNorTexTanBi {
                position: Vec3Fx {
                    x: vertices[3 * i],
                    y: vertices[3 * i + 1],
                    z: vertices[3 * i + 2],
                },
                normal: Vec3Fx { x: normals[3 * i], y: normals[3 * i + 1], z: normals[3 * i + 2] },
                tex_coord: (crate::vertex::TexCoord { u: 0i64, v: 0i64 }),
                tangent: (Vec3Fx { x: 0i64, y: 0i64, z: 0i64 }),
                bitangent: (Vec3Fx { x: 0i64, y: 0i64, z: 0i64 }),
            },
    )
}

/// Holds the scenes and designates the current one.
#[derive(Debug)]
pub struct SceneManager {
    pub current_scene_index: usize,
    pub scenes: Vec<Scene>,
}

impl SceneManager {
    /// The designated scene exists.
    pub open spec fn wf(self) -> bool {
        (self.current_scene_index as int) < self.scenes@.len()
    }

    pub fn new(width: i64, height: i64) -> (r: SceneManager)
        requires
            height != 0,
        ensures
            r.wf(),
            r.current_scene_index == 0,
            r.scenes@.len() == 1,
            r.scenes@[0].wf(),
            spec_is_initial_scene(r.scenes@[0], width as int, height as int),
    {
        let mut scenes: Vec<Scene> = Vec::new();
        scenes.push(Scene::new(width, height));
        SceneManager { current_scene_index: 0, scenes }
    }

    pub fn get_current_scene(&self) -> (r: &Scene)
        requires
            self.wf(),
        ensures
            *r == self.scenes@[self.current_scene_index as int],
    {
        &self.scenes[self.current_scene_index]
    }

    pub fn get_current_scene_mut(&mut self) -> (r: &mut Scene)
        requires
            old(self).wf(),
        ensures
            *r == old(self).scenes@[old(self).current_scene_index as int],
            final(self).current_scene_index == old(self).current_scene_index,
            final(self).scenes@ == old(self).scenes@.update(
                old(self).current_scene_index as int,
                *final(r),
            ),
    {
        &mut self.scenes[self.current_scene_index]
    }
}

} // verus!
