use utopian::device::{
    extensions_supported, find_graphics_queue_family, find_memory_type_index,
    MEMORY_PROPERTY_DEVICE_LOCAL, MEMORY_PROPERTY_HOST_COHERENT, MEMORY_PROPERTY_HOST_VISIBLE,
    QUEUE_GRAPHICS,
};
use utopian::fps_timer::FpsTimer;
use utopian::gltf_loader::{append_primitive_indices, texture_map_index, MaterialType, DEFAULT_TEXTURE_MAP};
use utopian::image::{
    component_mapping, is_depth_image_fmt, layout_transition, AccessMask, ComponentMapping,
    ImageDesc, ImageLayout, ImageViewType, PipelineStage, FORMAT_D24_UNORM_S8_UINT,
    FORMAT_D32_SFLOAT, FORMAT_R8G8B8A8_UNORM, IMAGE_ASPECT_COLOR, IMAGE_ASPECT_DEPTH,
};
use utopian::input::{Input, KeyEvent};
use utopian::model_loader::{add_triangle, ModelLoader};
use utopian::pipeline::{get_vertex_input_attribute_descriptions, get_vertex_input_binding_descriptions, VERTEX_STRIDE};
use utopian::renderer::{MaterialMaps, Renderer};
use utopian::vulkan_base::{
    choose_present_mode, desired_image_count, PRESENT_MODE_FIFO, PRESENT_MODE_IMMEDIATE,
    PRESENT_MODE_MAILBOX,
};

#[test]
fn triangles_and_cubes() {
    let mut indices = vec![9];
    add_triangle(&mut indices, 1, 2, 3);
    assert_eq!(indices, vec![9, 1, 2, 3]);
    assert_eq!(ModelLoader::triangle_indices(), vec![0, 1, 2]);
    let cube = ModelLoader::cube_indices();
    assert_eq!(cube.len(), 36);
    assert_eq!(&cube[0..6], &[2, 0, 1, 0, 2, 3]);
    assert!(cube.iter().all(|&i| i < 24));
}

#[test]
fn vertex_layout() {
    let bindings = get_vertex_input_binding_descriptions();
    assert_eq!(bindings.len(), 1);
    assert_eq!(bindings[0].stride, VERTEX_STRIDE);
    let attributes = get_vertex_input_attribute_descriptions();
    let offsets: Vec<u32> = attributes.iter().map(|a| a.offset).collect();
    assert_eq!(offsets, vec![0, 16, 32, 48, 64]);
}

#[test]
fn image_views_and_layouts() {
    assert_eq!(ImageDesc::new_2d(4, 4, FORMAT_R8G8B8A8_UNORM).view_type(), Some(ImageViewType::Type2d));
    let cube = ImageDesc::new_cubemap(16, 16, FORMAT_R8G8B8A8_UNORM);
    assert!(cube.is_cube_compatible());
    assert_eq!(cube.view_type(), Some(ImageViewType::Cube));
    assert_eq!(cube.layer_view_types(), vec![ImageViewType::Type2d; 6]);
    let array = ImageDesc::new_2d_array(8, 8, 3, FORMAT_D32_SFLOAT).aspect(IMAGE_ASPECT_DEPTH);
    assert_eq!(array.layer_view_types(), vec![ImageViewType::Type2dArray; 3]);
    assert!(ImageDesc::new_2d(4, 4, FORMAT_R8G8B8A8_UNORM).layer_view_types().is_empty());
    assert!(is_depth_image_fmt(FORMAT_D32_SFLOAT));
    assert!(is_depth_image_fmt(FORMAT_D24_UNORM_S8_UINT));
    assert!(!is_depth_image_fmt(FORMAT_R8G8B8A8_UNORM));
    assert_eq!(component_mapping(IMAGE_ASPECT_COLOR), Some(ComponentMapping::Rgba));
    assert_eq!(component_mapping(IMAGE_ASPECT_DEPTH), Some(ComponentMapping::Default));
    assert_eq!(component_mapping(IMAGE_ASPECT_COLOR | IMAGE_ASPECT_DEPTH), None);

    let t = layout_transition(&cube, ImageLayout::Undefined, ImageLayout::TransferDstOptimal)
        .expect("a known transition");
    assert_eq!((t.src_access, t.src_stage), (AccessMask::HostWrite, PipelineStage::Host));
    assert_eq!((t.dst_access, t.dst_stage), (AccessMask::TransferWrite, PipelineStage::Transfer));
    assert_eq!(t.layer_count, 6);
    assert_eq!(t.aspect_mask, IMAGE_ASPECT_COLOR);
    assert!(layout_transition(&cube, ImageLayout::PresentSrcKhr, ImageLayout::General).is_none());
    assert!(layout_transition(&cube, ImageLayout::General, ImageLayout::Other(77)).is_none());
}

#[test]
fn keys_pressed_since_the_last_update() {
    let mut input = Input::default();
    input.update(&vec![KeyEvent::Pressed(87), KeyEvent::Pressed(65)]);
    assert!(input.key_down(87));
    assert!(input.key_pressed(87));
    input.update(&vec![KeyEvent::Released(65)]);
    assert!(input.key_down(87));
    assert!(!input.key_pressed(87));
    assert!(!input.key_down(65));
    input.update(&vec![KeyEvent::Pressed(65), KeyEvent::Released(65), KeyEvent::Pressed(32)]);
    assert!(!input.key_down(65));
    assert!(input.key_pressed(32));
}

#[test]
fn frame_rate_over_a_period() {
    let mut timer = FpsTimer::new();
    assert_eq!(timer.fps, 0);
    assert!(!timer.count_frame(16));
    assert!(!timer.count_frame(500));
    assert_eq!(timer.elapsed_frames, 2);
    assert!(timer.count_frame(1001));
    assert_eq!(timer.fps, 3);
    assert_eq!(timer.elapsed_frames, 0);
    // right after creation less than a second has passed
    let mut fresh = FpsTimer::new();
    let start = fresh.fps_period_start_time;
    assert_eq!(fresh.calculate(), 0);
    assert_eq!(fresh.elapsed_frames, 1);
    assert_eq!(fresh.calculate(), 0);
    assert_eq!(fresh.elapsed_frames, 2);
    // within the first second the period goes on from the same start
    assert_eq!(fresh.fps_period_start_time, start);
}

#[test]
fn bindless_slots_are_handed_out_in_order() {
    let mut renderer = Renderer::new();
    renderer.initialize();
    assert_eq!(renderer.default_diffuse_map_index, 0);
    assert_eq!(renderer.default_metallic_roughness_map_index, 3);
    let placement = renderer.add_model_mesh(MaterialMaps {
        diffuse_map: 5,
        normal_map: DEFAULT_TEXTURE_MAP,
        metallic_roughness_map: 2,
        occlusion_map: DEFAULT_TEXTURE_MAP,
    });
    assert_eq!(placement.maps.diffuse_map, 4);
    assert_eq!(placement.maps.normal_map, 1);
    assert_eq!(placement.maps.metallic_roughness_map, 5);
    assert_eq!(placement.maps.occlusion_map, 2);
    assert_eq!(placement.texture_writes, vec![(5, 4), (2, 5)]);
    assert_eq!((placement.vertex_buffer, placement.index_buffer), (0, 0));
    assert_eq!((placement.material, placement.mesh), (0, 0));
    let second = renderer.add_model_mesh(MaterialMaps {
        diffuse_map: DEFAULT_TEXTURE_MAP,
        normal_map: DEFAULT_TEXTURE_MAP,
        metallic_roughness_map: DEFAULT_TEXTURE_MAP,
        occlusion_map: DEFAULT_TEXTURE_MAP,
    });
    assert!(second.texture_writes.is_empty());
    assert_eq!((second.vertex_buffer, second.material, second.mesh), (1, 1, 1));
    assert_eq!(renderer.add_light(), 0);
    assert_eq!(renderer.add_light(), 1);
    assert_eq!(renderer.get_num_lights(), 2);
}

#[test]
fn the_meshes_of_a_model_are_placed_one_after_the_other() {
    let mut renderer = Renderer::new();
    renderer.initialize();
    let maps = vec![
        MaterialMaps { diffuse_map: 5, normal_map: DEFAULT_TEXTURE_MAP, metallic_roughness_map: 2, occlusion_map: DEFAULT_TEXTURE_MAP },
        MaterialMaps {
            diffuse_map: DEFAULT_TEXTURE_MAP,
            normal_map: DEFAULT_TEXTURE_MAP,
            metallic_roughness_map: DEFAULT_TEXTURE_MAP,
            occlusion_map: DEFAULT_TEXTURE_MAP,
        },
        MaterialMaps { diffuse_map: 0, normal_map: 1, metallic_roughness_map: DEFAULT_TEXTURE_MAP, occlusion_map: 3 },
    ];
    assert!(renderer.model_fits(&maps));
    let placements = renderer.add_model_meshes(&maps);
    assert_eq!(placements.len(), 3);
    assert_eq!(placements[0].texture_writes, vec![(5, 4), (2, 5)]);
    assert!(placements[1].texture_writes.is_empty());
    assert_eq!(placements[1].maps.diffuse_map, 0);
    assert_eq!(placements[2].texture_writes, vec![(0, 6), (1, 7), (3, 8)]);
    assert_eq!(placements[2].maps.metallic_roughness_map, 3);
    assert_eq!(placements[2].maps.occlusion_map, 8);
    let meshes: Vec<u32> = placements.iter().map(|p| p.mesh).collect();
    assert_eq!(meshes, vec![0, 1, 2]);
    assert_eq!(placements[2].vertex_buffer, 2);
    assert_eq!(renderer.next_bindless_image_index, 9);
    assert_eq!(renderer.gpu_meshes.len(), 3);
    assert_eq!(renderer.gpu_meshes[2].material, 2);
    renderer.next_bindless_image_index = u32::MAX - 8;
    assert!(!renderer.model_fits(&maps));
    renderer.next_bindless_image_index = 9;
    // the mesh table holds 1024 meshes, three of them taken
    let plain = MaterialMaps {
        diffuse_map: DEFAULT_TEXTURE_MAP,
        normal_map: DEFAULT_TEXTURE_MAP,
        metallic_roughness_map: DEFAULT_TEXTURE_MAP,
        occlusion_map: DEFAULT_TEXTURE_MAP,
    };
    assert!(renderer.model_fits(&vec![plain; 1021]));
    assert!(!renderer.model_fits(&vec![plain; 1022]));
}

#[test]
fn gltf_primitives() {
    let mut indices = vec![0, 1, 2];
    let range = append_primitive_indices(&mut indices, 3, &vec![0, 2, 1]);
    assert_eq!(indices, vec![0, 1, 2, 3, 5, 4]);
    assert_eq!((range.first_vertex, range.first_index, range.index_count), (3, 3, 3));
    assert_eq!(texture_map_index(Some(4)), 4);
    assert_eq!(texture_map_index(None), DEFAULT_TEXTURE_MAP);
    assert_eq!(MaterialType::Dielectric.code(), 2);
}

#[test]
fn device_selection() {
    let flags = vec![
        MEMORY_PROPERTY_DEVICE_LOCAL,
        MEMORY_PROPERTY_HOST_VISIBLE,
        MEMORY_PROPERTY_HOST_VISIBLE | MEMORY_PROPERTY_HOST_COHERENT,
    ];
    let host = MEMORY_PROPERTY_HOST_VISIBLE | MEMORY_PROPERTY_HOST_COHERENT;
    assert_eq!(find_memory_type_index(&flags, 3, 0b111, host), Some(2));
    assert_eq!(find_memory_type_index(&flags, 3, 0b111, MEMORY_PROPERTY_HOST_VISIBLE), Some(1));
    assert_eq!(find_memory_type_index(&flags, 3, 0b011, host), None);
    assert_eq!(find_memory_type_index(&flags, 2, 0b111, host), None);
    assert_eq!(find_graphics_queue_family(&vec![0x4, 0x2 | QUEUE_GRAPHICS, QUEUE_GRAPHICS]), Some(1));
    assert_eq!(find_graphics_queue_family(&vec![0x4]), None);
    let supported = vec!["VK_KHR_swapchain".to_string(), "VK_KHR_ray_query".to_string()];
    assert!(extensions_supported(&supported, &vec!["VK_KHR_swapchain".to_string()]));
    assert!(!extensions_supported(&supported, &vec!["VK_KHR_acceleration_structure".to_string()]));
}

#[test]
fn swapchain_choices() {
    assert_eq!(choose_present_mode(&vec![PRESENT_MODE_FIFO, PRESENT_MODE_MAILBOX]), PRESENT_MODE_MAILBOX);
    assert_eq!(choose_present_mode(&vec![PRESENT_MODE_FIFO, PRESENT_MODE_IMMEDIATE]), PRESENT_MODE_IMMEDIATE);
    assert_eq!(choose_present_mode(&vec![]), PRESENT_MODE_FIFO);
    assert_eq!(desired_image_count(2), 3);
}
