use render_vulkan::shaders::{shader_list, ShaderDecl, Task};

fn decl() -> ShaderDecl {
    ShaderDecl { path: "triangle.slang", entry_point: "vert_main", output: "triangle.vert.spv" }
}

#[test]
fn the_two_triangle_entry_points() {
    let list = shader_list();
    assert_eq!(list.len(), 2);
    assert_eq!(list[0].path, "triangle.slang");
    assert_eq!(list[0].entry_point, "vert_main");
    assert_eq!(list[0].output, "triangle.vert.spv");
    assert_eq!(list[1].path, "triangle.slang");
    assert_eq!(list[1].entry_point, "frag_main");
    assert_eq!(list[1].output, "triangle.frag.spv");
}

#[test]
fn paths_join_the_directories() {
    let d = decl();
    assert_eq!(d.input_path(), "crates/render-common/shaders/triangle.slang");
    assert_eq!(d.output_path(), "crates/render-vulkan/shaders/triangle.vert.spv");
}

#[test]
fn missing_output_makes_the_task_due() {
    let t = decl().task(10, None, 5).unwrap();
    assert_eq!(t.command, "slangc");
    assert_eq!(
        t.args,
        vec![
            "crates/render-common/shaders/triangle.slang",
            "-entry",
            "vert_main",
            "-capability",
            "spirv_1_4+SPV_EXT_physical_storage_buffer+spvSparseResidency",
            "-o",
            "crates/render-vulkan/shaders/triangle.vert.spv",
        ]
    );
}

#[test]
fn newer_input_or_tool_makes_the_task_due() {
    assert!(decl().task(11, Some(10), 5).is_some());
    assert!(decl().task(5, Some(10), 11).is_some());
    assert!(decl().task(-3, Some(-4), -10).is_some());
}

#[test]
fn up_to_date_output_needs_no_task() {
    assert!(decl().task(10, Some(10), 10).is_none());
    assert!(decl().task(3, Some(10), 9).is_none());
}

#[test]
fn task_new_keeps_command_and_args() {
    let t = Task::new(String::from("cc"), vec![String::from("-x")], 2, Some(1), 0).unwrap();
    assert_eq!(t.command, "cc");
    assert_eq!(t.args, vec![String::from("-x")]);
    assert!(Task::new(String::from("cc"), vec![], 1, Some(1), 1).is_none());
}
