use shaderpixel::env_generator::{default_env, generate_env, indices_to_face, Wall};
use shaderpixel::fs::{check_if_image, Carousel};
use shaderpixel::input::KeyStates;
use shaderpixel::vulkan::context::{
    device_type_priority, find_memory_type, find_queue_families, find_supported_format,
    get_max_usable_sample_count, pick_physical_device, DeviceInfo, FormatFeatures, MemoryTypeInfo,
    QueueFamilyInfo, Tiling,
};
use shaderpixel::vulkan::texture::{
    barrier_aspect_mask, barrier_masks, has_stencil_component, mip_blit_chain, mip_level_count,
    validate_cubemap_dims, ImageLayout, ASPECT_COLOR, ASPECT_DEPTH, ASPECT_STENCIL,
};

#[test]
fn default_env_counts() {
    let obj = default_env();
    assert_eq!(obj.vertices.len(), 21 * 21 + 8 * 4 + 8);
    assert_eq!(obj.faces.len(), 20 * 20 + 5 * 4 + 5);
    assert!(obj.tex_coords.is_empty());
    for f in obj.faces.iter() {
        for idx in [f.a, f.b, f.c, f.d] {
            assert!(idx >= 1 && idx as usize <= obj.vertices.len());
        }
    }
    // the first grid vertex sits at the grid origin, in hundredths
    assert_eq!(obj.vertices[0].x, -1000);
    assert_eq!(obj.vertices[0].y, 0);
    assert_eq!(obj.vertices[0].z, -1000);
}

#[test]
fn generate_env_empty_extras() {
    let obj = generate_env((0, 0), (2, 3), &vec![], &vec![]);
    assert_eq!(obj.vertices.len(), 3 * 4);
    assert_eq!(obj.faces.len(), 6);
    let obj = generate_env((0, 0), (1, 1), &vec![(5, 5)], &vec![Wall {
        start: (0, 0),
        end: (100, 0),
        height: 300,
    }]);
    assert_eq!(obj.vertices.len(), 4 + 8 + 8);
    assert_eq!(obj.faces.len(), 1 + 5 + 5);
}

#[test]
fn face_indices_are_one_based() {
    let f = indices_to_face(0, 1, 2, 3);
    assert_eq!((f.a, f.b, f.c, f.d), (1, 2, 3, 4));
}

#[test]
fn image_name_filter() {
    assert!(check_if_image("photo.jpg"));
    assert!(check_if_image("photo.png"));
    assert!(!check_if_image("photo.gif"));
    assert!(!check_if_image(".jpg"));
    assert!(!check_if_image("jpg"));
    assert!(!check_if_image(""));
}

#[test]
fn carousel_wraps_both_ways() {
    let mut c = Carousel::new("assets/images".to_string());
    assert_eq!(c.curr, 0);
    assert_eq!(c.select_next(0, 3), Some(0));
    assert_eq!(c.select_next(1, 3), Some(1));
    assert_eq!(c.select_next(1, 3), Some(2));
    assert_eq!(c.select_next(1, 3), Some(0));
    assert_eq!(c.select_next(-1, 3), Some(2));
    assert_eq!(c.select_next(-4, 3), Some(1));
    assert_eq!(c.select_next(5, 0), None);
    c.set_dir("assets/other".to_string());
    assert_eq!(c.curr, 1);
}

#[test]
fn movement_translation() {
    let mut keys = KeyStates::new();
    assert_eq!(keys.translation(), (0, 0, 0));
    keys.forward = true;
    keys.left = true;
    assert_eq!(keys.translation(), (1, 0, 1));
    keys.right = true;
    keys.backward = true;
    assert_eq!(keys.translation(), (0, 0, 0));
    keys.up = true;
    assert_eq!(keys.translation(), (0, -1, 0));
}

#[test]
fn mip_levels_and_blit_chain() {
    assert_eq!(mip_level_count(1, 1), 1);
    assert_eq!(mip_level_count(512, 256), 9);
    assert_eq!(mip_level_count(513, 1024), 10);
    let chain = mip_blit_chain(8, 4, 4);
    assert_eq!(chain.len(), 3);
    assert_eq!((chain[0].src_width, chain[0].src_height), (8, 4));
    assert_eq!((chain[0].dst_width, chain[0].dst_height), (4, 2));
    assert_eq!((chain[1].dst_width, chain[1].dst_height), (2, 1));
    assert_eq!((chain[2].dst_width, chain[2].dst_height), (1, 1));
    assert_eq!(chain[2].level, 3);
}

#[test]
fn layout_transitions() {
    let m = barrier_masks(ImageLayout::Undefined, ImageLayout::TransferDst).unwrap();
    assert_eq!(m.src_access, 0);
    assert_eq!(m.dst_access, 0x1000);
    let m = barrier_masks(ImageLayout::TransferDst, ImageLayout::ShaderReadOnly).unwrap();
    assert_eq!((m.src_stage, m.dst_stage), (0x1000, 0x80));
    assert!(barrier_masks(ImageLayout::ShaderReadOnly, ImageLayout::TransferDst).is_none());

    assert!(has_stencil_component(129));
    assert!(has_stencil_component(130));
    assert!(!has_stencil_component(126));
    assert_eq!(
        barrier_aspect_mask(ImageLayout::DepthStencilAttachment, 129),
        ASPECT_DEPTH | ASPECT_STENCIL
    );
    assert_eq!(barrier_aspect_mask(ImageLayout::DepthStencilAttachment, 126), ASPECT_DEPTH);
    assert_eq!(barrier_aspect_mask(ImageLayout::TransferDst, 126), ASPECT_COLOR);
}

#[test]
fn cubemap_faces_must_match() {
    let dims = vec![(64, 64); 6];
    assert_eq!(validate_cubemap_dims(&dims), Some((64, 64)));
    let mut bad = dims.clone();
    bad[3] = (64, 32);
    assert_eq!(validate_cubemap_dims(&bad), None);
}

#[test]
fn device_selection() {
    let good = DeviceInfo {
        extensions_supported: true,
        has_surface_formats: true,
        has_present_modes: true,
        sampler_anisotropy: true,
        geometry_shader: true,
        priority: 1,
        families_found: true,
    };
    let discrete = DeviceInfo { priority: 0, ..good };
    let unsuitable = DeviceInfo { geometry_shader: false, priority: 0, ..good };
    assert_eq!(pick_physical_device(&vec![unsuitable, good, discrete]), Some(2));
    assert_eq!(pick_physical_device(&vec![good, discrete, discrete]), Some(1));
    assert_eq!(pick_physical_device(&vec![unsuitable]), None);
    assert_eq!(device_type_priority(2), 0);
    assert_eq!(device_type_priority(1), 1);
    assert_eq!(device_type_priority(4), 2);
}

#[test]
fn queue_family_search() {
    let families = vec![
        QueueFamilyInfo { queue_count: 0, supports_graphics: true, supports_present: true },
        QueueFamilyInfo { queue_count: 1, supports_graphics: false, supports_present: true },
        QueueFamilyInfo { queue_count: 2, supports_graphics: true, supports_present: false },
    ];
    let indices = find_queue_families(&families).unwrap();
    assert_eq!(indices.graphics_index, 2);
    assert_eq!(indices.present_index, 1);
    let none = find_queue_families(&vec![QueueFamilyInfo {
        queue_count: 1,
        supports_graphics: true,
        supports_present: false,
    }]);
    assert!(none.is_none());
}

#[test]
fn memory_and_format_queries() {
    let types = vec![
        MemoryTypeInfo { property_flags: 0x1 },
        MemoryTypeInfo { property_flags: 0x6 },
    ];
    // type 0 is masked out by the requirements, type 1 fits
    assert_eq!(find_memory_type(0b10, &types, 0x2), Some(1));
    assert_eq!(find_memory_type(0b01, &types, 0x2), None);

    let candidates = vec![
        FormatFeatures { format: 126, linear_tiling_features: 0, optimal_tiling_features: 0 },
        FormatFeatures { format: 130, linear_tiling_features: 0, optimal_tiling_features: 0x200 },
    ];
    assert_eq!(find_supported_format(&candidates, Tiling::Optimal, 0x200), Some(130));
    assert_eq!(find_supported_format(&candidates, Tiling::Linear, 0x200), None);

    assert_eq!(get_max_usable_sample_count(0b1111111, 0b111), 4);
    assert_eq!(get_max_usable_sample_count(0b1, 0b1), 1);
}
