use prospect::material::Material;
use prospect::prospect_app::should_exit;
use prospect::render_pass::RenderCommand;
use prospect::render_pass::RenderPass;
use prospect::prospect_app::ProcessResponse;
use prospect::prospect_transform::Transform;
use prospect::prospect_transform::TransformUniform;
use prospect::surface::pick_preferred;
use prospect::text::u64_to_decimal;
use prospect::vertex::vert;
use prospect::vertex::vertpos;
use prospect::vertex::vertposuv;
use prospect::vertex::Vector2;
use prospect::vertex::Vector3;

#[test]
fn counters_render_in_decimal() {
    assert_eq!(u64_to_decimal(0), "0");
    assert_eq!(u64_to_decimal(7), "7");
    assert_eq!(u64_to_decimal(10), "10");
    assert_eq!(u64_to_decimal(905), "905");
    assert_eq!(u64_to_decimal(18_446_744_073_709_551_615), "18446744073709551615");
}

#[test]
fn vertex_constructors_fill_exactly_the_given_attributes() {
    let x = 1.5f32.to_bits();
    let y = 2.5f32.to_bits();
    let z = (-3.0f32).to_bits();
    let u = 0.25f32.to_bits();
    let v = 0.75f32.to_bits();
    let n = 1.0f32.to_bits();
    let zero = 0.0f32.to_bits();

    let p = vertpos(x, y, z);
    assert_eq!(p.position, Vector3 { x, y, z });
    assert_eq!(p.uv, Vector2 { x: zero, y: zero });
    assert_eq!(p.normal, Vector3 { x: zero, y: zero, z: zero });

    let puv = vertposuv(x, y, z, u, v);
    assert_eq!(puv.uv, Vector2 { x: u, y: v });
    assert_eq!(puv.normal, Vector3 { x: zero, y: zero, z: zero });

    let full = vert(x, y, z, u, v, n, zero, n);
    assert_eq!(full.position, Vector3 { x, y, z });
    assert_eq!(full.uv, Vector2 { x: u, y: v });
    assert_eq!(full.normal, Vector3 { x: n, y: zero, z: n });
}

#[test]
fn a_fresh_transform_is_the_identity() {
    let t = Transform::new();
    assert_eq!(t.position, Vector3 { x: 0, y: 0, z: 0 });
    assert_eq!(t.rotation, Vector3 { x: 0, y: 0, z: 0 });
    assert_eq!(t.scale, 1.0f32.to_bits());
    assert_eq!(TransformUniform::default().model_matrix, [0u32; 16]);
}

#[test]
fn the_first_preferred_entry_wins_else_the_first_offered() {
    assert_eq!(pick_preferred(&vec![false, true, true]), 1);
    assert_eq!(pick_preferred(&vec![true, false]), 0);
    assert_eq!(pick_preferred(&vec![false, false, false]), 0);
    assert_eq!(pick_preferred(&vec![false]), 0);
}

#[test]
fn a_material_binds_its_texture_group_or_nothing() {
    let mut pass = RenderPass::new();
    Material::BlankMaterial.apply_to_render_pass(&mut pass);
    assert_eq!(pass.len(), 0);
    assert_eq!(Material::default(), Material::BlankMaterial);

    Material::TexturedMaterial(9).apply_to_render_pass(&mut pass);
    assert_eq!(
        pass.commands(),
        &vec![RenderCommand::SetBindGroup { slot: 0, group: 9, offsets: vec![] }]
    );
}

#[test]
fn the_event_loop_exits_on_close_or_escape() {
    assert!(should_exit(ProcessResponse::CloseApp, false));
    assert!(should_exit(ProcessResponse::CloseApp, true));
    assert!(!should_exit(ProcessResponse::ProspectProcess, false));
    assert!(should_exit(ProcessResponse::ProspectProcess, true));
    assert!(!should_exit(ProcessResponse::DontProcess, false));
    assert!(!should_exit(ProcessResponse::DontProcess, true));
}
