//! Render-pass planning: frame structure, draws, pipeline layout.

use daedalus::fixed::FX_ONE;
use daedalus::mat::mat4_from_translation;
use daedalus::pipeline::{
    default_vertex_descriptor, PipelineStateType, PixelFormat, VertexFormat,
};
use daedalus::render_pass::{ForwardRenderPass, RenderCmd};
use daedalus::renderer::{get_high_performance_device, DeviceProfile};
use daedalus::scene::Scene;
use daedalus::shape::Cube;
use daedalus::transform::TransformComponent;
use daedalus::vec3::Vec3Fx;

fn scene() -> Scene {
    Scene::new(1600 * FX_ONE, 900 * FX_ONE)
}

fn pass() -> ForwardRenderPass {
    ForwardRenderPass::new(PixelFormat::BGRA8Unorm)
}

/// A frame with zero renderables still runs begin, state binding, light
/// upload and end, in that order, and draws nothing.
#[test]
fn empty_frame_completes_begin_lights_end() {
    let mut s = scene();
    let p = pass();
    let cmds = p.draw(&Vec::new(), &mut s);
    assert_eq!(cmds.len(), 8);
    assert!(matches!(cmds[0], RenderCmd::BeginEncoder));
    assert!(matches!(cmds[1], RenderCmd::SetDepthStencilState(_)));
    assert!(matches!(cmds[2], RenderCmd::SetPipeline(PipelineStateType::Forward)));
    assert!(matches!(cmds[3], RenderCmd::SetCullModeBack));
    assert!(matches!(cmds[4], RenderCmd::SetWindingCounterClockwise));
    assert!(matches!(cmds[5], RenderCmd::UploadDirectionalLight(_)));
    assert!(matches!(cmds[6], RenderCmd::UploadPointLight(_)));
    assert!(matches!(cmds[7], RenderCmd::EndEncoder));
}

#[test]
fn unknown_id_is_skipped_without_error() {
    let mut s = scene();
    let p = pass();
    let t = TransformComponent {
        position: Vec3Fx { x: 0, y: 0, z: 0 },
        rotation: Vec3Fx { x: 0, y: 0, z: 0 },
        scale: Vec3Fx { x: FX_ONE, y: FX_ONE, z: FX_ONE },
    };
    let cmds = p.draw(&vec![(42u128, t)], &mut s);
    assert_eq!(cmds.len(), 8); // identical to the empty frame
}

#[test]
fn one_renderable_draws_its_submeshes() {
    let mut s = scene();
    let cube = Cube::new();
    let (id, _plan) = s.add_shape(&cube.vertices, &cube.normals, &cube.indices);
    let p = pass();
    let t = TransformComponent {
        position: Vec3Fx { x: 2 * FX_ONE, y: 0, z: 0 },
        rotation: Vec3Fx { x: 0, y: 0, z: 0 },
        scale: Vec3Fx { x: FX_ONE, y: FX_ONE, z: FX_ONE },
    };
    let cmds = p.draw(&vec![(id, t)], &mut s);
    // header (7) + debug group + uniforms + params + vertex buffer +
    // draw + pop + end
    assert_eq!(cmds.len(), 14);
    assert!(matches!(cmds[7], RenderCmd::PushDebugGroup(_)));
    match &cmds[8] {
        RenderCmd::SetUniforms(u) => {
            // rotation zero, scale one: the model matrix is exactly the
            // translation matrix
            assert_eq!(
                u.model_matrix,
                mat4_from_translation(Vec3Fx { x: 2 * FX_ONE, y: 0, z: 0 }),
            );
        },
        _ => panic!("expected the per-draw uniforms"),
    }
    assert!(matches!(cmds[9], RenderCmd::SetParams(_)));
    assert!(matches!(cmds[10], RenderCmd::SetVertexBuffer(_)));
    match &cmds[11] {
        RenderCmd::DrawIndexed { index_count, .. } => assert_eq!(*index_count, 36),
        _ => panic!("expected one indexed draw"),
    }
    assert!(matches!(cmds[12], RenderCmd::PopDebugGroup));
    assert!(matches!(cmds[13], RenderCmd::EndEncoder));
    // the per-draw uniform block stays on the scene for the next frame
    assert_eq!(
        s.uniforms.model_matrix,
        mat4_from_translation(Vec3Fx { x: 2 * FX_ONE, y: 0, z: 0 }),
    );
}

#[test]
fn two_renderables_draw_in_order() {
    let mut s = scene();
    let cube = Cube::new();
    let (id1, _) = s.add_shape(&cube.vertices, &cube.normals, &cube.indices);
    let (id2, _) = s.add_shape(&cube.vertices, &cube.normals, &cube.indices);
    let p = pass();
    let t = TransformComponent {
        position: Vec3Fx { x: 0, y: 0, z: 0 },
        rotation: Vec3Fx { x: 0, y: 0, z: 0 },
        scale: Vec3Fx { x: FX_ONE, y: FX_ONE, z: FX_ONE },
    };
    let cmds = p.draw(&vec![(id1, t), (id2, t)], &mut s);
    let draws: Vec<usize> = cmds
        .iter()
        .enumerate()
        .filter(|(_, c)| matches!(c, RenderCmd::DrawIndexed { .. }))
        .map(|(i, _)| i)
        .collect();
    assert_eq!(draws.len(), 2);
    assert!(draws[0] < draws[1]);
}

#[test]
fn vertex_layout_is_the_binding_contract() {
    let layout = default_vertex_descriptor();
    assert_eq!(layout.stride, 56);
    assert_eq!(layout.attributes.len(), 5);
    let offsets: Vec<u64> = layout.attributes.iter().map(|a| a.offset).collect();
    assert_eq!(offsets, vec![0, 12, 24, 32, 44]);
    assert!(matches!(layout.attributes[2].format, VertexFormat::Float2));
    assert!(matches!(layout.attributes[4].format, VertexFormat::Float3));
    assert!(layout.attributes.iter().all(|a| a.buffer_index == 0));
}

#[test]
fn forward_pipeline_plan_names_the_shader_pair() {
    let kind = PipelineStateType::Forward;
    let plan = kind.create_pipeline_state(PixelFormat::BGRA8Unorm);
    assert_eq!(plan.vertex_function, "vertexMain");
    assert_eq!(plan.fragment_function, "fragmentMain");
    assert!(matches!(plan.depth_pixel_format, PixelFormat::Depth32Float));
    assert_eq!(plan.vertex_layout.stride, 56);
}

#[test]
fn device_pick_takes_the_first_suitable() {
    let low = DeviceProfile { is_low_power: true, is_removable: false, is_headless: false };
    let egpu = DeviceProfile { is_low_power: false, is_removable: true, is_headless: false };
    let good = DeviceProfile { is_low_power: false, is_removable: false, is_headless: false };
    assert_eq!(get_high_performance_device(&vec![low, egpu, good, good]), Some(2));
    assert_eq!(get_high_performance_device(&vec![low, egpu]), None);
    assert_eq!(get_high_performance_device(&Vec::new()), None);
}
