use strahl::material_read::{load_component, load_material, LoadedComponent};
use strahl::per_texture::PerTexture;
use strahl::texture::{fallback_color, TextureFormat, TextureMetadata};

fn png_bytes() -> Vec<u8> {
    let img = image::RgbaImage::from_raw(2, 1, vec![1, 2, 3, 255, 9, 8, 7, 6]).unwrap();
    let mut out = std::io::Cursor::new(Vec::new());
    img.write_to(&mut out, image::ImageFormat::Png).unwrap();
    out.into_inner()
}

fn is_fallback(c: &LoadedComponent) -> bool {
    let f = fallback_color();
    matches!(c, LoadedComponent::Rgba { r, g, b, a } if [*r, *g, *b, *a] == f)
}

#[test]
fn png_entries_are_decoded() {
    match load_component(TextureFormat::Png, Some(png_bytes())) {
        LoadedComponent::Image(i) => {
            assert_eq!((i.width, i.height), (2, 1));
            assert_eq!(i.image.to_rgba8().into_raw(), vec![1, 2, 3, 255, 9, 8, 7, 6]);
            // the image is kept as it was decoded
            assert_eq!(i.image.color(), image::ColorType::Rgba8);
        }
        _ => panic!("expected an image"),
    }
}

#[test]
fn images_keep_their_decoded_pixel_type() {
    let img = image::GrayImage::from_raw(2, 2, vec![0, 50, 100, 150]).unwrap();
    let mut out = std::io::Cursor::new(Vec::new());
    img.write_to(&mut out, image::ImageFormat::Png).unwrap();
    match load_component(TextureFormat::Png, Some(out.into_inner())) {
        LoadedComponent::Image(i) => {
            assert_eq!((i.width, i.height), (2, 2));
            assert_eq!(i.image.color(), image::ColorType::L8);
        }
        _ => panic!("expected an image"),
    }
}

#[test]
fn unloadable_components_fall_back() {
    assert!(is_fallback(&load_component(TextureFormat::Png, None)));
    assert!(is_fallback(&load_component(TextureFormat::Png, Some(vec![1, 2, 3]))));
    assert!(is_fallback(&load_component(TextureFormat::Ktx2, Some(vec![0xab, 0x4b]))));
    assert!(is_fallback(&load_component(TextureFormat::Ktx2, None)));
    let f = fallback_color();
    assert_eq!(f[0], (4.0f32 / 255.0).to_bits());
}

#[test]
fn colors_are_taken_as_they_are() {
    let c = load_component(TextureFormat::Rgba { r: 1, g: 2, b: 3, a: 4 }, Some(png_bytes()));
    assert!(matches!(c, LoadedComponent::Rgba { r: 1, g: 2, b: 3, a: 4 }));
}

#[test]
fn material_components_load_slot_by_slot() {
    let mut metadata: PerTexture<TextureMetadata> = PerTexture::empty();
    metadata.diffuse = Some(TextureMetadata { format: TextureFormat::Png });
    metadata.normal = Some(TextureMetadata { format: TextureFormat::Png });
    metadata.specular = Some(TextureMetadata { format: TextureFormat::Rgba { r: 5, g: 6, b: 7, a: 8 } });
    let mut entries: PerTexture<Vec<u8>> = PerTexture::empty();
    entries.diffuse = Some(png_bytes());
    // an entry for a component the metadata does not name is not used
    entries.glossy = Some(png_bytes());
    let m = load_material(metadata, entries);
    assert!(matches!(m.diffuse, Some(LoadedComponent::Image(_))));
    assert!(is_fallback(m.normal.as_ref().unwrap()));
    assert!(matches!(m.specular, Some(LoadedComponent::Rgba { r: 5, g: 6, b: 7, a: 8 })));
    assert!(m.glossy.is_none());
    assert!(m.roughness.is_none());
    assert!(m.emission.is_none());
}
