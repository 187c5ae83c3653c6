use prospect::mesh::Mesh;
use prospect::mesh::MeshError;
use prospect::mesh::Meshable;
use prospect::prospect_camera::ProspectCamera;
use prospect::prospect_shader_manager::ProspectShaderManager;
use prospect::prospect_shape::ProspectShape;
use prospect::render_pass::RenderCommand;
use prospect::render_pass::RenderPass;
use prospect::vertex::vertpos;
use prospect::vertex::Vertex;

fn triangle_vertices() -> Vec<Vertex> {
    vec![
        vertpos(0.0f32.to_bits(), 1.0f32.to_bits(), 0.0f32.to_bits()),
        vertpos((-1.0f32).to_bits(), (-1.0f32).to_bits(), 0.0f32.to_bits()),
        vertpos(1.0f32.to_bits(), (-1.0f32).to_bits(), 0.0f32.to_bits()),
    ]
}

#[test]
fn missing_indices_are_generated_reversed() {
    let mut manager = ProspectShaderManager::new();
    let pipeline = manager
        .add_shader(String::from("Basic Shader"), 7)
        .expect("fresh name must register");

    let mut vertices = triangle_vertices();
    vertices.push(vertpos(0.0f32.to_bits(), 0.0f32.to_bits(), 1.0f32.to_bits()));
    let shape = ProspectShape { vertices, indices: None };
    let mesh = Mesh::from_shape(&shape, 100, 101, &pipeline).expect("non-empty shape");
    assert_eq!(mesh.index_data(), &vec![3, 2, 1, 0]);
    assert_eq!(mesh.get_index_count(), 4);
}

#[test]
fn explicit_indices_are_kept_unchanged() {
    let mut manager = ProspectShaderManager::new();
    let pipeline = manager
        .add_shader(String::from("Basic Shader"), 7)
        .expect("fresh name must register");

    let shape = ProspectShape { vertices: triangle_vertices(), indices: Some(vec![0, 2, 1]) };
    let mesh = Mesh::from_shape(&shape, 100, 101, &pipeline).expect("non-empty shape");
    assert_eq!(mesh.index_data(), &vec![0, 2, 1]);
    assert_eq!(mesh.get_index_count(), 3);
}

#[test]
fn empty_vertex_data_is_refused() {
    let mut manager = ProspectShaderManager::new();
    let pipeline = manager
        .add_shader(String::from("Basic Shader"), 7)
        .expect("fresh name must register");

    let shape = ProspectShape { vertices: vec![], indices: None };
    let from_shape = Mesh::from_shape(&shape, 100, 101, &pipeline);
    assert!(matches!(from_shape, Err(MeshError::EmptyVertexList)));
    let from_data = Mesh::new(vec![], vec![0, 1, 2], 100, 101, &pipeline);
    assert!(matches!(from_data, Err(MeshError::EmptyVertexList)));
}

#[test]
fn draw_records_pipeline_slots_camera_buffers_and_one_draw() {
    let mut manager = ProspectShaderManager::new();
    let pipeline = manager
        .add_shader(String::from("3D Shader"), 7)
        .expect("fresh name must register");
    let texture = manager.add_bind_group(String::from("Texture"), 31);
    let light = manager.add_bind_group(String::from("Light"), 32);
    let camera = ProspectCamera::new(50, 51, 52);

    let shape = ProspectShape { vertices: triangle_vertices(), indices: None };
    let mut mesh = Mesh::from_shape(&shape, 100, 101, &pipeline).expect("non-empty shape");
    mesh.set_bind_group(1, &texture);
    mesh.set_bind_group(2, &light);

    let mut pass = RenderPass::new();
    mesh.draw(&mut pass, &manager, &camera);
    assert_eq!(
        pass.commands(),
        &vec![
            RenderCommand::SetPipeline { pipeline: 7 },
            RenderCommand::SetBindGroup { slot: 1, group: 31, offsets: vec![] },
            RenderCommand::SetBindGroup { slot: 2, group: 32, offsets: vec![] },
            RenderCommand::SetBindGroup { slot: 0, group: 51, offsets: vec![] },
            RenderCommand::SetVertexBuffer { slot: 0, buffer: 100 },
            RenderCommand::SetIndexBuffer { buffer: 101 },
            RenderCommand::DrawIndexed {
                first_index: 0,
                index_end: 3,
                base_vertex: 0,
                first_instance: 0,
                instance_end: 1,
            },
        ]
    );
}

#[test]
fn reattaching_a_slot_replaces_its_bind_group() {
    let mut manager = ProspectShaderManager::new();
    let pipeline = manager
        .add_shader(String::from("3D Shader"), 7)
        .expect("fresh name must register");
    let first = manager.add_bind_group(String::from("First Texture"), 31);
    let second = manager.add_bind_group(String::from("Second Texture"), 33);
    let camera = ProspectCamera::new(50, 51, 52);

    let shape = ProspectShape { vertices: triangle_vertices(), indices: None };
    let mut mesh = Mesh::from_shape(&shape, 100, 101, &pipeline).expect("non-empty shape");
    mesh.set_bind_group(1, &first);
    mesh.set_bind_group(1, &second);

    let mut pass = RenderPass::new();
    mesh.draw(&mut pass, &manager, &camera);
    let commands = pass.commands();
    assert_eq!(
        commands[1],
        RenderCommand::SetBindGroup { slot: 1, group: 33, offsets: vec![] }
    );
    // Exactly one command binds slot one.
    let at_slot_one = commands
        .iter()
        .filter(|c| matches!(c, RenderCommand::SetBindGroup { slot: 1, .. }))
        .count();
    assert_eq!(at_slot_one, 1);
}

#[test]
fn dangling_mesh_handles_draw_without_those_bindings() {
    let mut donor = ProspectShaderManager::new();
    let stray_pipeline = donor
        .add_shader(String::from("Elsewhere"), 9)
        .expect("fresh name must register");
    let stray_group = donor.add_bind_group(String::from("Elsewhere Too"), 10);

    let manager = ProspectShaderManager::new();
    let camera = ProspectCamera::new(50, 51, 52);
    let shape = ProspectShape { vertices: triangle_vertices(), indices: None };
    let mut mesh = Mesh::from_shape(&shape, 100, 101, &stray_pipeline).expect("non-empty shape");
    mesh.set_bind_group(1, &stray_group);

    let mut pass = RenderPass::new();
    mesh.draw(&mut pass, &manager, &camera);
    // The pipeline and the slot are skipped; the rest of the draw records.
    assert_eq!(
        pass.commands(),
        &vec![
            RenderCommand::SetBindGroup { slot: 0, group: 51, offsets: vec![] },
            RenderCommand::SetVertexBuffer { slot: 0, buffer: 100 },
            RenderCommand::SetIndexBuffer { buffer: 101 },
            RenderCommand::DrawIndexed {
                first_index: 0,
                index_end: 3,
                base_vertex: 0,
                first_instance: 0,
                instance_end: 1,
            },
        ]
    );
}
