use ash::vk::MemoryPropertyFlags;
use strahl::camera::Resolution;
use strahl::gpu_alloc::{
    device_flags, mapped_flags, staging_flags, MemoryTypes, MEMORY_PROPERTY_DEVICE_LOCAL,
    MEMORY_PROPERTY_HOST_CACHED, MEMORY_PROPERTY_HOST_COHERENT, MEMORY_PROPERTY_HOST_VISIBLE,
};

fn types() -> MemoryTypes {
    let mut property_flags = [0u32; 32];
    property_flags[0] = MEMORY_PROPERTY_DEVICE_LOCAL;
    property_flags[1] = MEMORY_PROPERTY_HOST_VISIBLE | 0x4;
    property_flags[2] = MEMORY_PROPERTY_HOST_VISIBLE | MEMORY_PROPERTY_HOST_CACHED | 0x4;
    property_flags[3] = MEMORY_PROPERTY_DEVICE_LOCAL | MEMORY_PROPERTY_HOST_VISIBLE;
    MemoryTypes { property_flags }
}

#[test]
fn flag_values() {
    assert_eq!(staging_flags(), 0xa);
    assert_eq!(device_flags(), 0x1);
    assert_eq!(mapped_flags(), 0xc);
}

#[test]
fn first_suitable_memory_type_is_chosen() {
    let t = types();
    assert_eq!(t.find_mem_type(device_flags(), 0b1111), Some(0));
    assert_eq!(t.find_mem_type(device_flags(), 0b1110), Some(3));
    assert_eq!(t.find_mem_type(staging_flags(), 0b1111), Some(2));
    assert_eq!(t.find_mem_type(MEMORY_PROPERTY_HOST_VISIBLE, 0b1111), Some(1));
}

#[test]
fn no_suitable_memory_type() {
    let t = types();
    assert_eq!(t.find_mem_type(staging_flags(), 0b1011), None);
    assert_eq!(t.find_mem_type(device_flags(), 0), None);
    // memory types beyond those the device lists have no properties
    assert_eq!(t.find_mem_type(device_flags(), 1 << 31), None);
    assert_eq!(t.find_mem_type(0, 1 << 31), Some(31));
}

#[test]
fn pixel_indices_round_trip() {
    let res = Resolution::new(4, 3).unwrap();
    assert_eq!(res.ray_count(), 12);
    assert_eq!(res.pixel_index(0, 0), 0);
    assert_eq!(res.pixel_index(3, 0), 3);
    assert_eq!(res.pixel_index(1, 2), 9);
    for px in 0..12 {
        let (x, y) = res.pixel_of(px);
        assert_eq!(res.pixel_index(x, y), px);
    }
}

#[test]
fn degenerate_resolutions_are_refused() {
    assert!(Resolution::new(0, 5).is_none());
    assert!(Resolution::new(5, 0).is_none());
    assert!(Resolution::new(usize::MAX, 2).is_none());
    assert!(Resolution::new(1, usize::MAX).is_some());
}

#[test]
fn flags_agree_with_vulkan() {
    assert_eq!(MEMORY_PROPERTY_DEVICE_LOCAL, MemoryPropertyFlags::DEVICE_LOCAL.as_raw());
    assert_eq!(MEMORY_PROPERTY_HOST_VISIBLE, MemoryPropertyFlags::HOST_VISIBLE.as_raw());
    assert_eq!(MEMORY_PROPERTY_HOST_CACHED, MemoryPropertyFlags::HOST_CACHED.as_raw());
    assert_eq!(
        staging_flags(),
        (MemoryPropertyFlags::HOST_VISIBLE | MemoryPropertyFlags::HOST_CACHED).as_raw()
    );
    assert_eq!(device_flags(), MemoryPropertyFlags::DEVICE_LOCAL.as_raw());
    assert_eq!(MEMORY_PROPERTY_HOST_COHERENT, MemoryPropertyFlags::HOST_COHERENT.as_raw());
    assert_eq!(
        mapped_flags(),
        (MemoryPropertyFlags::HOST_COHERENT | MemoryPropertyFlags::HOST_CACHED).as_raw()
    );
}
