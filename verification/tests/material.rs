use strahl::material::{material_bindings, BindingEntry, BUFFER_BINDING};
use strahl::per_texture::PerTexture;
use strahl::texture::ComponentKind;

#[test]
fn images_get_textures_and_colors_get_mask_bits() {
    let red = ComponentKind::Rgba { r: 0x3f80_0000, g: 0, b: 0, a: 0x3f80_0000 };
    let m = PerTexture {
        roughness: Some(red),
        specular: Some(ComponentKind::Image),
        glossy: Some(red),
        diffuse: Some(ComponentKind::Image),
        emission: Some(ComponentKind::Rgba { r: 1, g: 2, b: 3, a: 4 }),
        normal: Some(ComponentKind::Image),
    };
    let b = material_bindings(&m);
    assert_eq!(b.color_mask, 0b010101);
    assert_eq!(
        b.entries,
        vec![
            BindingEntry::Sampler { binding: 0 },
            BindingEntry::Texture { binding: 2, component: 1 },
            BindingEntry::Texture { binding: 4, component: 3 },
            BindingEntry::Texture { binding: 6, component: 5 },
            BindingEntry::ColorBuffer { binding: BUFFER_BINDING },
        ]
    );
    assert_eq!(b.colors.len(), 6);
    assert_eq!(b.colors[0], [0x3f80_0000, 0, 0, 0x3f80_0000]);
    assert_eq!(b.colors[1], [0, 0, 0, 0]);
    assert_eq!(b.colors[4], [1, 2, 3, 4]);
}

#[test]
fn all_colors_and_all_images() {
    let c = ComponentKind::Rgba { r: 5, g: 6, b: 7, a: 8 };
    let colors = PerTexture {
        roughness: Some(c),
        specular: Some(c),
        glossy: Some(c),
        diffuse: Some(c),
        emission: Some(c),
        normal: Some(c),
    };
    let b = material_bindings(&colors);
    assert_eq!(b.color_mask, 63);
    assert_eq!(b.entries.len(), 2);
    let images = colors.map_all(|_| ComponentKind::Image);
    let b = material_bindings(&images);
    assert_eq!(b.color_mask, 0);
    assert_eq!(b.entries.len(), 8);
    assert_eq!(b.entries[7], BindingEntry::ColorBuffer { binding: 7 });
    assert!(b.colors.iter().all(|c| *c == [0, 0, 0, 0]));
}
