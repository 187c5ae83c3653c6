use prospect::mesh::Mesh;
use prospect::mesh::Meshable;
use prospect::prospect_camera::ProspectCamera;
use prospect::prospect_shader_manager::ProspectShaderManager;
use prospect::prospect_shape::ProspectShape;
use prospect::render_pass::RenderCommand;
use prospect::render_pass::RenderPass;
use prospect::vertex::vertpos;

#[test]
fn one_triangle_draws_with_exactly_one_indexed_draw_call() {
    // One registry, one pipeline with no extra bind-group layouts.
    let mut manager = ProspectShaderManager::new();
    let pipeline = manager
        .add_shader(String::from("Basic Shader"), 7)
        .expect("fresh name must register");

    // A three-vertex triangle with no indices given.
    let v0 = vertpos(0.0f32.to_bits(), 0.5f32.to_bits(), 0.0f32.to_bits());
    let v1 = vertpos((-0.5f32).to_bits(), (-0.5f32).to_bits(), 0.0f32.to_bits());
    let v2 = vertpos(0.5f32.to_bits(), (-0.5f32).to_bits(), 0.0f32.to_bits());
    let shape = ProspectShape { vertices: vec![v0, v1, v2], indices: None };

    let camera = ProspectCamera::new(50, 51, 52);
    let mesh = Mesh::from_shape(&shape, 100, 101, &pipeline).expect("non-empty shape");

    let mut pass = RenderPass::new();
    mesh.draw(&mut pass, &manager, &camera);

    // Exactly one indexed draw call, covering index count three with one
    // instance.
    let draws: Vec<&RenderCommand> = pass
        .commands()
        .iter()
        .filter(|c| matches!(c, RenderCommand::DrawIndexed { .. }))
        .collect();
    assert_eq!(draws.len(), 1);
    assert_eq!(
        draws[0],
        &RenderCommand::DrawIndexed {
            first_index: 0,
            index_end: 3,
            base_vertex: 0,
            first_instance: 0,
            instance_end: 1,
        }
    );

    // The vertex buffer holds the three input vertices in original order;
    // the index buffer reverses draw order, not vertex storage order.
    assert_eq!(mesh.vertex_data(), &vec![v0, v1, v2]);
    assert_eq!(mesh.index_data(), &vec![2, 1, 0]);
}
