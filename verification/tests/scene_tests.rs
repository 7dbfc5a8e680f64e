//! The scene: registry id uniqueness, upload plans, per-frame update.

use daedalus::camera::{Key, KeyState};
use daedalus::fixed::{fx_div, FX_ONE};
use daedalus::gltf::{GltfDocument, GltfImporter, GltfMesh, GltfNode, TextureStore};
use daedalus::error::Error;
use daedalus::scene::{Scene, SceneManager, UploadCmd};
use daedalus::shape::Cube;
use daedalus::timer::Timer;
use daedalus::vec3::Vec3Fx;
use daedalus::vertex::TexCoord;
use std::collections::HashSet;

fn scene() -> Scene {
    Scene::new(1600 * FX_ONE, 900 * FX_ONE)
}

#[test]
fn new_scene_defaults() {
    let s = scene();
    assert_eq!(s.models.len(), 0);
    assert_eq!(s.point_lights.len(), 1);
    assert_eq!(s.params.point_light_count, 1);
    assert_eq!(s.params.camera_position, s.editor_camera.position);
    assert_eq!(s.editor_camera.aspect_ratio, fx_div(1600 * FX_ONE, 900 * FX_ONE));
    assert_eq!(s.editor_camera.position.z, 3 * FX_ONE);
    assert_eq!(s.directional_light.position.y, 30 * FX_ONE);
}

/// Ids from register / add_shape never repeat within one scene.
#[test]
fn thousand_registrations_yield_distinct_ids() {
    let mut s = scene();
    let cube = Cube::new();
    let mut seen: HashSet<u128> = HashSet::new();
    for _ in 0..1000 {
        let (id, _plan) = s.add_shape(&cube.vertices, &cube.normals, &cube.indices);
        assert!(seen.insert(id), "id handed out twice");
    }
    assert_eq!(s.models.len(), 1000);
}

#[test]
fn register_builds_model_and_plan() {
    let mut s = scene();
    let doc = GltfDocument {
        nodes: vec![GltfNode {
            mesh: Some(GltfMesh { material: None, primitives: vec![quad()] }),
        }],
    };
    let mesh_data = GltfImporter::import(&doc, "assets", &TextureStore { files: vec![] }).unwrap();
    let (id, plan) = s.register(&mesh_data);
    assert_eq!(s.models.len(), 1);
    assert_eq!(s.models[0].id, id);
    assert_eq!(s.models[0].meshes.len(), 1);
    assert_eq!(s.models[0].meshes[0].submeshes.len(), 1);
    let sm = s.models[0].meshes[0].submeshes[0];
    assert_eq!(sm.index_count, 6);
    assert!(sm.material.base_color_texture.is_none());
    // one vertex buffer and one index buffer, sized exactly to the data
    assert_eq!(plan.len(), 2);
    match &plan[0] {
        UploadCmd::CreateVertexBuffer { resource, vertices } => {
            assert_eq!(*resource, sm.vertex_buffer);
            assert_eq!(vertices.len(), 4);
        },
        _ => panic!("expected a vertex buffer command first"),
    }
    match &plan[1] {
        UploadCmd::CreateIndexBuffer { resource, indices } => {
            assert_eq!(*resource, sm.index_buffer);
            assert_eq!(indices, &vec![0u32, 1, 2, 0, 2, 3]);
        },
        _ => panic!("expected an index buffer command second"),
    }
}

fn quad() -> daedalus::gltf::GltfPrimitive {
    let p = |x: i64, y: i64| Vec3Fx { x: x * FX_ONE, y: y * FX_ONE, z: 0 };
    daedalus::gltf::GltfPrimitive {
        positions: Some(vec![p(0, 0), p(1, 0), p(1, 1), p(0, 1)]),
        normals: None,
        tex_coords: Some(vec![
            TexCoord { u: 0, v: 0 },
            TexCoord { u: FX_ONE, v: 0 },
            TexCoord { u: FX_ONE, v: FX_ONE },
            TexCoord { u: 0, v: FX_ONE },
        ]),
        tangents: None,
        indices: Some(vec![0, 1, 2, 0, 2, 3]),
    }
}

#[test]
fn add_shape_plan_holds_cube_data() {
    let mut s = scene();
    let cube = Cube::new();
    let (_id, plan) = s.add_shape(&cube.vertices, &cube.normals, &cube.indices);
    assert_eq!(plan.len(), 2);
    match &plan[0] {
        UploadCmd::CreateVertexBuffer { vertices, .. } => {
            assert_eq!(vertices.len(), 24);
            assert_eq!(vertices[0].position.x, cube.vertices[0]);
            assert_eq!(vertices[0].normal.x, cube.normals[0]);
        },
        _ => panic!("expected a vertex buffer command first"),
    }
    let sm = s.models[0].meshes[0].submeshes[0];
    assert_eq!(sm.index_count, 36);
}

#[test]
fn add_mesh_rejects_unsupported_extension() {
    let mut s = scene();
    let doc = GltfDocument { nodes: vec![] };
    let r = s.add_mesh("model.obj", ".", &doc, &TextureStore { files: vec![] });
    assert_eq!(r.err(), Some(Error::UnsupportedFormat));
    assert_eq!(s.models.len(), 0);
}

#[test]
fn add_mesh_imports_and_registers() {
    let mut s = scene();
    let doc = GltfDocument {
        nodes: vec![GltfNode {
            mesh: Some(GltfMesh { material: None, primitives: vec![quad()] }),
        }],
    };
    let (id, plan) = s
        .add_mesh("assets/meshes/m.gltf", "assets/meshes", &doc, &TextureStore { files: vec![] })
        .unwrap();
    assert_eq!(s.models.len(), 1);
    assert_eq!(s.models[0].id, id);
    assert_eq!(plan.len(), 2);
}

#[test]
fn resize_changes_only_the_aspect_ratio() {
    let mut s = scene();
    let cam_before = s.editor_camera;
    let uniforms_before = s.uniforms;
    s.resize(800 * FX_ONE, 400 * FX_ONE);
    assert_eq!(s.editor_camera.aspect_ratio, 2 * FX_ONE);
    assert_eq!(s.editor_camera.position, cam_before.position);
    assert_eq!(s.editor_camera.yaw_radians, cam_before.yaw_radians);
    // resize does not recompute the uniforms; update does
    assert_eq!(s.uniforms, uniforms_before);
}

#[test]
fn update_recomputes_uniforms_and_resets_input() {
    let mut s = scene();
    s.handle_mouse_event(10 * FX_ONE, 10 * FX_ONE);
    s.handle_keyboard_event(Key::W, KeyState::Pressed);
    s.update(FX_ONE / 60);
    assert_eq!(s.editor_camera_controller.rotate_horizontal, 0);
    assert_eq!(s.editor_camera_controller.rotate_vertical, 0);
    assert_eq!(s.editor_camera_controller.scroll, 0);
    assert_eq!(s.editor_camera_controller.amount_forward, FX_ONE);
    assert_eq!(s.params.camera_position, s.editor_camera.position);
    assert_eq!(s.uniforms.view_matrix, s.editor_camera.view_matrix());
    assert_eq!(s.uniforms.projection_matrix, s.editor_camera.projection_matrix());
}

#[test]
fn scene_manager_designates_a_scene() {
    let mut m = SceneManager::new(1600 * FX_ONE, 900 * FX_ONE);
    assert_eq!(m.scenes.len(), 1);
    assert_eq!(m.get_current_scene().models.len(), 0);
    let cube = Cube::new();
    let (id, _plan) = m
        .get_current_scene_mut()
        .add_shape(&cube.vertices, &cube.normals, &cube.indices);
    assert_eq!(m.get_current_scene().models.len(), 1);
    assert_eq!(m.get_current_scene().models[0].id, id);
}

#[test]
fn cube_arrays_are_consistent() {
    let cube = Cube::new();
    assert_eq!(cube.vertices.len(), 72);
    assert_eq!(cube.normals.len(), 72);
    assert_eq!(cube.indices.len(), 36);
    assert!(cube.indices.iter().all(|&i| (i as usize) < 24));
}

#[test]
fn timer_delta_is_never_negative() {
    let mut t = Timer::new();
    assert!(t.get_delta_time() >= 0);
    assert!(t.get_delta_time() >= 0);
}

#[test]
fn textured_register_plans_mipmapped_texture() {
    let mut s = scene();
    // a 1x1 texture, already decoded
    let mesh_data = vec![daedalus::mesh::MeshData {
        submesh_data: vec![daedalus::mesh::SubMeshData {
            vertices: Vec::new(),
            indices: Vec::new(),
            material: daedalus::material::Material {
                base_color_texture: Some(daedalus::material::Texture {
                    data: vec![1, 2, 3, 4],
                    width: 1,
                    height: 1,
                }),
                normal_texture: None,
                metallic_roughness_texture: None,
                ambient_occlusion_texture: None,
                emissive_texture: None,
            },
        }],
    }];
    let (_id, plan) = s.register(&mesh_data);
    assert_eq!(plan.len(), 3);
    let gpu = s.models[0].meshes[0].submeshes[0];
    let handle = gpu.material.base_color_texture.expect("slot must be uploaded");
    let found = plan.iter().any(|c| match c {
        UploadCmd::CreateTexture { resource, texture, generate_mipmaps } => {
            *resource == handle && *generate_mipmaps && texture.data == vec![1, 2, 3, 4]
                && texture.width == 1 && texture.height == 1
        },
        _ => false,
    });
    assert!(found, "the plan must create the texture with mipmap generation");
    assert!(gpu.material.normal_texture.is_none());
}

#[test]
fn register_keeps_submesh_order_across_primitives() {
    let mut s = scene();
    let doc = GltfDocument {
        nodes: vec![GltfNode {
            mesh: Some(GltfMesh { material: None, primitives: vec![quad(), quad()] }),
        }],
    };
    let mesh_data = GltfImporter::import(&doc, "assets", &TextureStore { files: vec![] }).unwrap();
    assert_eq!(mesh_data[0].submesh_data.len(), 2);
    let (_id, plan) = s.register(&mesh_data);
    assert_eq!(plan.len(), 4);
    assert_eq!(s.models[0].meshes[0].submeshes.len(), 2);
    let a = s.models[0].meshes[0].submeshes[0];
    let b = s.models[0].meshes[0].submeshes[1];
    assert_ne!(a.vertex_buffer, b.vertex_buffer);
    assert_ne!(a.index_buffer, b.index_buffer);
}
