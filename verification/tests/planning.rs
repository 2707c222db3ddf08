use compute_shader::image::{image_plan, sprite_plan, Dimension, ImagePlan, Rgba, SpritePlan};
use compute_shader::image::{COPY_DST, RENDER_WORLD, STORAGE_BINDING, TEXTURE_BINDING};
use compute_shader::layout::{workgroups, Workgroups, DISPLAY_FACTOR, SIZE, WINDOW, WORKGROUP_SIZE};
use compute_shader::node::{ComputeShaderNode, Pass, IMAGE_BIND_GROUP};
use compute_shader::pipeline::{pipeline_plan, StorageAccess, TexelFormat};
use compute_shader::pipeline::{ENTRY_POINT, LAYOUT_LABEL, SHADER_PATH};

#[test]
fn image_is_a_quarter_of_the_window() {
    assert_eq!(WINDOW, (1280, 720));
    assert_eq!(DISPLAY_FACTOR, 4);
    assert_eq!(SIZE, (320, 180));
}

#[test]
fn grid_of_the_image() {
    assert_eq!(WORKGROUP_SIZE, 8);
    assert_eq!(workgroups(SIZE, WORKGROUP_SIZE), Workgroups { x: 40, y: 22, z: 1 });
}

#[test]
fn grid_drops_partial_groups() {
    assert_eq!(workgroups((7, 8), 8), Workgroups { x: 0, y: 1, z: 1 });
    assert_eq!(workgroups((15, 17), 8), Workgroups { x: 1, y: 2, z: 1 });
}

#[test]
fn grid_of_an_empty_image() {
    assert_eq!(workgroups((0, 0), 8), Workgroups { x: 0, y: 0, z: 1 });
}

#[test]
fn grid_with_groups_of_one() {
    assert_eq!(
        workgroups((u32::MAX, 3), 1),
        Workgroups { x: u32::MAX, y: 3, z: 1 }
    );
}

#[test]
fn grid_stays_inside_the_image() {
    for size in [0u32, 1, 7, 8, 9, 179, 180, 320, 4096] {
        for group in [1u32, 2, 8, 16, 64] {
            let grid = workgroups((size, size), group);
            assert!(grid.x * group <= size);
            assert!(size < (grid.x + 1) * group);
            assert_eq!(grid.x, grid.y);
            assert_eq!(grid.z, 1);
        }
    }
}

#[test]
fn last_rows_of_the_image_are_left_out() {
    let grid = workgroups(SIZE, WORKGROUP_SIZE);
    assert_eq!(grid.x * WORKGROUP_SIZE, 320);
    assert_eq!(grid.y * WORKGROUP_SIZE, 176);
}

#[test]
fn node_skips_while_the_pipeline_compiles() {
    let node = ComputeShaderNode::default();
    assert_eq!(node.run(false), Pass::Skip);
}

#[test]
fn node_dispatches_once_the_pipeline_is_ready() {
    let node = ComputeShaderNode::default();
    assert_eq!(IMAGE_BIND_GROUP, 0);
    assert_eq!(
        node.run(true),
        Pass::Dispatch { bind_group: 0, grid: Workgroups { x: 40, y: 22, z: 1 } }
    );
}

#[test]
fn node_decides_the_same_on_every_frame() {
    let node = ComputeShaderNode;
    assert_eq!(node.run(false), node.run(false));
    assert_eq!(node.run(true), node.run(true));
    assert_ne!(node.run(true), node.run(false));
}

#[test]
fn default_node_is_the_node() {
    assert_eq!(ComputeShaderNode::default(), ComputeShaderNode);
}

#[test]
fn pipeline_enters_the_shader_at_init() {
    let plan = pipeline_plan();
    assert_eq!(plan.shader_path, "shader.wgsl");
    assert_eq!(plan.entry_point, "init");
    assert_eq!(plan.layout_label, "Image");
    assert_eq!(SHADER_PATH, "shader.wgsl");
    assert_eq!(ENTRY_POINT, "init");
    assert_eq!(LAYOUT_LABEL, "Image");
    assert_eq!(plan.push_constant_ranges, 0);
    assert_eq!(plan.shader_defs, 0);
    assert!(!plan.zero_initialize_workgroup_memory);
}

#[test]
fn pipeline_binds_the_image_for_reading_and_writing() {
    let plan = pipeline_plan();
    assert_eq!(plan.binding.binding, 0);
    assert_eq!(plan.binding.format, TexelFormat::Rgba8Unorm);
    assert_eq!(plan.binding.access, StorageAccess::ReadWrite);
    assert_eq!(plan.binding.format, image_plan().format);
}

#[test]
fn rgba8_texel_takes_four_bytes() {
    assert_eq!(TexelFormat::Rgba8Unorm.pixel_size(), 4);
}

#[test]
fn image_plan_is_opaque_red_in_one_layer() {
    let plan = image_plan();
    assert_eq!((plan.width, plan.height), (320, 180));
    assert_eq!(plan.depth_or_array_layers, 1);
    assert_eq!(plan.dimension, Dimension::D2);
    assert_eq!(plan.format, TexelFormat::Rgba8Unorm);
    assert_eq!(plan.fill, Rgba { r: 255, g: 0, b: 0, a: 255 });
    assert_eq!(plan.asset_usage, RENDER_WORLD);
}

#[test]
fn image_plan_usage_bits() {
    let plan = image_plan();
    assert_eq!(plan.usage, 14);
    assert_eq!(plan.usage, COPY_DST | STORAGE_BINDING | TEXTURE_BINDING);
    assert_eq!(plan.usage & 1, 0);
    assert_eq!(plan.usage & 16, 0);
}

#[test]
fn sprite_covers_the_window() {
    let sprite = sprite_plan();
    assert_eq!(sprite, SpritePlan { width: 320, height: 180, scale: 4 });
    assert_eq!(sprite.width * sprite.scale, 1280);
    assert_eq!(sprite.height * sprite.scale, 720);
}

#[test]
fn planned_image_is_buildable() {
    assert!(image_plan().is_buildable());
}

#[test]
fn image_without_texels_is_not_buildable() {
    let plan = image_plan();
    assert!(!ImagePlan { width: 0, ..plan }.is_buildable());
    assert!(!ImagePlan { height: 0, ..plan }.is_buildable());
    assert!(!ImagePlan { depth_or_array_layers: 0, ..plan }.is_buildable());
}

#[test]
fn image_with_too_many_texels_is_not_buildable() {
    let plan = image_plan();
    assert!(!ImagePlan { width: 65536, height: 65536, ..plan }.is_buildable());
    assert!(!ImagePlan { width: 65536, height: 256, depth_or_array_layers: 256, ..plan }.is_buildable());
    assert!(!ImagePlan { width: u32::MAX, height: u32::MAX, depth_or_array_layers: u32::MAX, ..plan }
        .is_buildable());
}

#[test]
fn largest_texel_count_is_buildable_where_it_fits_one_allocation() {
    let plan = ImagePlan { width: 65535, height: 65537, ..image_plan() };
    assert_eq!(plan.is_buildable(), usize::BITS >= 64);
}
