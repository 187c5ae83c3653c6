use prospect::prospect_shader_manager::ProspectShaderManager;
use prospect::render_pass::RenderCommand;
use prospect::render_pass::RenderPass;
use prospect::render_pipeline_index::RenderPipelineIndex;

#[test]
fn handle_stays_resolvable_across_registrations() {
    let mut manager = ProspectShaderManager::new();
    let basic = manager
        .add_shader(String::from("Basic Shader"), 7)
        .expect("fresh name must register");
    assert!(manager.resolves_pipeline(&basic));

    // Pile on more registrations of both kinds.
    let _texture = manager.add_bind_group(String::from("Texture"), 11);
    let _auto_a = manager.auto_add_bind_group(12);
    let _auto_b = manager.auto_add_bind_group(13);
    let _other = manager
        .add_shader(String::from("3D Shader"), 8)
        .expect("fresh name must register");

    // The first handle still resolves, to the pipeline it was minted for.
    assert!(manager.resolves_pipeline(&basic));
    let mut pass = RenderPass::new();
    manager.apply_render_pipeline(&basic, &mut pass);
    assert_eq!(
        pass.commands(),
        &vec![RenderCommand::SetPipeline { pipeline: 7 }]
    );
}

#[test]
fn duplicate_pipeline_name_is_rejected() {
    let mut manager = ProspectShaderManager::new();
    let first = manager
        .add_shader(String::from("Basic Shader"), 7)
        .expect("fresh name must register");
    let second = manager.add_shader(String::from("Basic Shader"), 9);
    assert!(second.is_none());

    // The original registration is untouched.
    let mut pass = RenderPass::new();
    manager.apply_render_pipeline(&first, &mut pass);
    assert_eq!(
        pass.commands(),
        &vec![RenderCommand::SetPipeline { pipeline: 7 }]
    );
}

#[test]
fn pipeline_only_index_rejects_duplicates_too() {
    let mut index = RenderPipelineIndex::new();
    let first = index.add_shader(String::from("Basic Shader"), 7);
    assert!(first.is_some());
    let second = index.add_shader(String::from("Basic Shader"), 9);
    assert!(second.is_none());

    let mut pass = RenderPass::new();
    index.apply_render_pipeline(&first.unwrap(), &mut pass);
    assert_eq!(
        pass.commands(),
        &vec![RenderCommand::SetPipeline { pipeline: 7 }]
    );
}

#[test]
fn bind_group_reregistration_swaps_the_resource() {
    let mut manager = ProspectShaderManager::new();
    let handle = manager.add_bind_group(String::from("Crate Texture"), 1);
    // Hot reload: a rebuilt bind group goes back in under the same name.
    let handle_again = manager.add_bind_group(String::from("Crate Texture"), 2);
    assert_eq!(handle, handle_again);

    let mut pass = RenderPass::new();
    manager.apply_bind_group(&mut pass, &handle, 1, &[]);
    assert_eq!(
        pass.commands(),
        &vec![RenderCommand::SetBindGroup { slot: 1, group: 2, offsets: vec![] }]
    );
}

#[test]
fn auto_names_are_minted_from_the_counter() {
    let mut manager = ProspectShaderManager::new();
    let a = manager.auto_add_bind_group(21);
    let b = manager.auto_add_bind_group(22);
    assert_ne!(a, b);

    let mut pass = RenderPass::new();
    manager.apply_bind_group(&mut pass, &a, 0, &[]);
    manager.apply_bind_group(&mut pass, &b, 1, &[]);
    assert_eq!(
        pass.commands(),
        &vec![
            RenderCommand::SetBindGroup { slot: 0, group: 21, offsets: vec![] },
            RenderCommand::SetBindGroup { slot: 1, group: 22, offsets: vec![] },
        ]
    );
}

#[test]
fn an_explicit_name_shaped_like_a_counter_is_overwritten_by_the_auto_path() {
    // Bind-group registration overwrites by name, so an explicit name that
    // looks like a counter value collides with the first auto-minted name.
    let mut manager = ProspectShaderManager::new();
    let explicit = manager.add_bind_group(String::from("0"), 5);
    let auto = manager.auto_add_bind_group(6);
    assert_eq!(explicit, auto);

    let mut pass = RenderPass::new();
    manager.apply_bind_group(&mut pass, &explicit, 0, &[]);
    assert_eq!(
        pass.commands(),
        &vec![RenderCommand::SetBindGroup { slot: 0, group: 6, offsets: vec![] }]
    );
}

#[test]
fn dangling_handles_are_skipped_silently() {
    // Handles minted by one registry dangle in another.
    let mut donor = ProspectShaderManager::new();
    let pipeline = donor
        .add_shader(String::from("Basic Shader"), 7)
        .expect("fresh name must register");
    let group = donor.add_bind_group(String::from("Texture"), 11);

    let empty = ProspectShaderManager::new();
    let mut pass = RenderPass::new();
    empty.apply_render_pipeline(&pipeline, &mut pass);
    empty.apply_bind_group(&mut pass, &group, 2, &[3]);
    assert_eq!(pass.len(), 0);

    // The stream is otherwise unaffected: later commands still record.
    donor.apply_render_pipeline(&pipeline, &mut pass);
    assert_eq!(
        pass.commands(),
        &vec![RenderCommand::SetPipeline { pipeline: 7 }]
    );
}

#[test]
fn dynamic_offsets_are_recorded() {
    let mut manager = ProspectShaderManager::new();
    let handle = manager.add_bind_group(String::from("Shared Buffer"), 4);
    let mut pass = RenderPass::new();
    manager.apply_bind_group(&mut pass, &handle, 2, &[256, 512]);
    assert_eq!(
        pass.commands(),
        &vec![RenderCommand::SetBindGroup { slot: 2, group: 4, offsets: vec![256, 512] }]
    );
}
