use prospect::prospect_camera::CamUniform;
use prospect::prospect_camera::ProjectionType;
use prospect::prospect_camera::ProspectCamera;
use prospect::prospect_camera::FLOAT_HUNDRED_BITS;
use prospect::prospect_camera::FLOAT_NINETY_BITS;
use prospect::prospect_camera::FLOAT_TENTH_BITS;
use prospect::render_pass::RenderCommand;
use prospect::render_pass::RenderPass;
use prospect::vertex::Vector3;
use prospect::FLOAT_ONE_BITS;
use prospect::FLOAT_ZERO_BITS;

fn bits3(x: f32, y: f32, z: f32) -> Vector3 {
    Vector3 { x: x.to_bits(), y: y.to_bits(), z: z.to_bits() }
}

#[test]
fn bit_pattern_constants_match_their_values() {
    assert_eq!(FLOAT_ZERO_BITS, 0.0f32.to_bits());
    assert_eq!(FLOAT_ONE_BITS, 1.0f32.to_bits());
    assert_eq!(FLOAT_NINETY_BITS, 90.0f32.to_bits());
    assert_eq!(FLOAT_TENTH_BITS, 0.1f32.to_bits());
    assert_eq!(FLOAT_HUNDRED_BITS, 100.0f32.to_bits());
}

#[test]
fn a_fresh_camera_defaults_to_a_ninety_degree_perspective() {
    let camera = ProspectCamera::new(50, 51, 52);
    assert_eq!(camera.eye, bits3(0.0, 0.0, 0.0));
    assert_eq!(camera.rotation, bits3(0.0, 0.0, 0.0));
    assert_eq!(camera.znear, 0.1f32.to_bits());
    assert_eq!(camera.zfar, 100.0f32.to_bits());
    assert_eq!(
        camera.projection_type,
        ProjectionType::Perspective(90.0f32.to_bits())
    );

    // Identity uniform, staged and uploaded alike.
    let uploaded = camera.gpu_uniform();
    let one = 1.0f32.to_bits();
    assert_eq!(
        uploaded.mat,
        [one, 0, 0, 0, 0, one, 0, 0, 0, 0, one, 0, 0, 0, 0, one]
    );
    assert_eq!(uploaded.pos, [0, 0, 0, 0]);
    assert_eq!(camera.uniform(), uploaded);
}

#[test]
fn the_uploaded_uniform_stays_stale_until_process_frame() {
    let mut camera = ProspectCamera::new(50, 51, 52);

    // Upload a first frame with the eye still at the origin.
    let matrix_a: [u32; 16] = core::array::from_fn(|i| (i as f32).to_bits());
    camera.process_frame(bits3(0.0, 0.0, 0.0), matrix_a);
    let after_first = camera.gpu_uniform();
    assert_eq!(after_first.mat, matrix_a);
    assert_eq!(after_first.pos, [0, 0, 0, 0]);

    // Mutating the eye does not touch the GPU-visible uniform.
    camera.set_eye(bits3(3.0, 4.0, 5.0));
    camera.rotation = bits3(0.25, 0.0, 0.0);
    assert_eq!(camera.gpu_uniform(), after_first);
    assert_eq!(camera.uniform(), after_first);

    // The next frame uploads the fresh matrix and the moved eye.
    let matrix_b: [u32; 16] = core::array::from_fn(|i| (2.0 * i as f32).to_bits());
    camera.process_frame(camera.rotation, matrix_b);
    let after_second = camera.gpu_uniform();
    assert_eq!(after_second.mat, matrix_b);
    assert_eq!(
        after_second.pos,
        [3.0f32.to_bits(), 4.0f32.to_bits(), 5.0f32.to_bits(), 0]
    );
    assert_eq!(camera.uniform(), after_second);
}

#[test]
fn process_frame_stores_the_wrapped_rotation() {
    let mut camera = ProspectCamera::new(50, 51, 52);
    camera.rotation = bits3(7.0, 0.0, 0.0);
    // The embedding application wraps angles into one turn before handing
    // them back.
    let wrapped = bits3(7.0 - 2.0 * core::f32::consts::PI, 0.0, 0.0);
    camera.process_frame(wrapped, CamUniform::new().mat);
    assert_eq!(camera.rotation, wrapped);
}

#[test]
fn bind_records_the_camera_group_at_the_given_slot() {
    let camera = ProspectCamera::new(50, 51, 52);
    let mut pass = RenderPass::new();
    camera.bind(&mut pass, 0);
    assert_eq!(
        pass.commands(),
        &vec![RenderCommand::SetBindGroup { slot: 0, group: 51, offsets: vec![] }]
    );
    assert_eq!(camera.get_layout(), 52);
}
