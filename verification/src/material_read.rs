//! Loading the components of a material archive.
//!
//! The archive's metadata says how each component is stored.  A PNG entry
//! is decoded into an image, a uniform color is taken as it is, and a
//! KTX2 entry is decoded where KTX2 decoding is available.  A component that
//! cannot be loaded (its entry is missing, or its data does not decode) is
//! replaced by the fallback color.
use crate::per_texture::PerTexture;
use crate::texture::{fallback_color, Never, TextureFormat, TextureMetadata};
use vstd::prelude::*;

verus! {

#[verifier::external_type_specification]
#[verifier::external_body]
pub struct ExDynamicImage(image::DynamicImage);

/// A decoded image, as the image decoder gives it, with its size.
pub struct DecodedImage {
    pub image: image::DynamicImage,
    /// Width in pixels.
    pub width: u32,
    /// Height in pixels.
    pub height: u32,
}

/// The size (width, height) of the image the image decoder makes of the
/// bytes of an image file, or none where it cannot decode them.
pub uninterp spec fn decoded_size(bytes: Seq<u8>) -> Option<(u32, u32)>;

/// Calls `image::ImageReader::with_guessed_format` and `decode` on `bytes`,
/// and reads the decoded image's width and height.  Trusted: a failure to
/// guess the format or to decode gives none, and the result depends on
/// `bytes` alone (no format-detection hook is registered with the image
/// crate by this library or its application; one registered would be
/// consulted first).  Which bytes decode, and into which pixels, is not
/// stated.
#[verifier::external_body]
fn decode_image(bytes: &[u8]) -> (r: Option<DecodedImage>)
    ensures
        match r {
            Some(i) => decoded_size(bytes@) == Some((i.width, i.height)),
            None => decoded_size(bytes@) is None,
        },
{
    let reader = image::ImageReader::new(std::io::Cursor::new(bytes));
    let image = reader.with_guessed_format().ok()?.decode().ok()?;
    Some(DecodedImage { width: image.width(), height: image.height(), image })
}

/// A loaded material component.
pub enum LoadedComponent {
    /// A decoded image.
    Image(DecodedImage),
    /// A KTX2 texture.
    Ktx(Never),
    /// A uniform color; each channel is the bit pattern of a float.
    Rgba { r: u32, g: u32, b: u32, a: u32 },
}

impl LoadedComponent {
    /// The fallback color, used for a component that cannot be loaded.
    pub open spec fn fallback() -> Self {
        LoadedComponent::Rgba { r: 0x3c80_8081, g: 0x3e82_8283, b: 0x3f65_e5e6, a: 0x3f80_0000 }
    }
}

/// `r` is what a component stored as `format`, whose archive entry holds
/// `entry` (none where the archive has no such entry), loads as: the color
/// itself for a color; the decoded image for a PNG entry that decodes; the
/// fallback color for a PNG entry that is missing or does not decode, and
/// for a KTX2 entry, since KTX2 decoding is not available.
pub open spec fn loads_as(format: TextureFormat, entry: Option<Seq<u8>>, r: LoadedComponent) -> bool {
    match format {
        TextureFormat::Rgba { r: cr, g, b, a } => r == LoadedComponent::Rgba { r: cr, g, b, a },
        TextureFormat::Png => match entry {
            Some(bytes) => match decoded_size(bytes) {
                Some((w, h)) => r matches LoadedComponent::Image(i) && i.width == w && i.height == h,
                None => r == LoadedComponent::fallback(),
            },
            None => r == LoadedComponent::fallback(),
        },
        TextureFormat::Ktx2 => r == LoadedComponent::fallback(),
    }
}

/// The view of an optional archive entry.
pub open spec fn entry_view(entry: Option<Vec<u8>>) -> Option<Seq<u8>> {
    match entry {
        Some(v) => Some(v@),
        None => None,
    }
}

/// The fallback color as a component.
fn fallback_component() -> (r: LoadedComponent)
    ensures
        r == LoadedComponent::fallback(),
{
    let c = fallback_color();
    LoadedComponent::Rgba { r: c[0], g: c[1], b: c[2], a: c[3] }
}

/// Loads one component stored as `format` from the bytes of its archive
/// entry, `entry` (none where the archive has no such entry).
pub fn load_component(format: TextureFormat, entry: Option<Vec<u8>>) -> (r: LoadedComponent)
    ensures
        loads_as(format, entry_view(entry), r),
{
    match format {
        TextureFormat::Rgba { r, g, b, a } => LoadedComponent::Rgba { r, g, b, a },
        TextureFormat::Png => match entry {
            Some(bytes) => match decode_image(bytes.as_slice()) {
                Some(img) => LoadedComponent::Image(img),
                None => fallback_component(),
            },
            None => fallback_component(),
        },
        TextureFormat::Ktx2 => match entry {
            Some(bytes) => match Never::from_memory(bytes.as_slice()) {
                Ok(ktx) => LoadedComponent::Ktx(ktx),
                Err(_) => fallback_component(),
            },
            None => fallback_component(),
        },
    }
}

/// `r` is what a component slot loads as: nothing where the metadata names
/// no component, otherwise what the component loads as from its entry.
pub open spec fn slot_loads_as(
    meta: Option<TextureMetadata>,
    entry: Option<Vec<u8>>,
    r: Option<LoadedComponent>,
) -> bool {
    match meta {
        None => r is None,
        Some(m) => r matches Some(c) && loads_as(m.format, entry_view(entry), c),
    }
}

fn load_slot(meta: Option<TextureMetadata>, entry: Option<Vec<u8>>) -> (r: Option<LoadedComponent>)
    ensures
        slot_loads_as(meta, entry, r),
{
    match meta {
        None => None,
        Some(m) => Some(load_component(m.format, entry)),
    }
}

/// Loads the components of a material archive: for each component the
/// metadata names, what it loads as from its entry in `entries` (the bytes
/// of each component's entry that the archive holds).  A component the
/// metadata does not name stays absent.
pub fn load_material(metadata: PerTexture<TextureMetadata>, entries: PerTexture<Vec<u8>>) -> (r:
    PerTexture<LoadedComponent>)
    ensures
        slot_loads_as(metadata.roughness, entries.roughness, r.roughness),
        slot_loads_as(metadata.specular, entries.specular, r.specular),
        slot_loads_as(metadata.glossy, entries.glossy, r.glossy),
        slot_loads_as(metadata.diffuse, entries.diffuse, r.diffuse),
        slot_loads_as(metadata.emission, entries.emission, r.emission),
        slot_loads_as(metadata.normal, entries.normal, r.normal),
{
    PerTexture {
        roughness: load_slot(metadata.roughness, entries.roughness),
        specular: load_slot(metadata.specular, entries.specular),
        glossy: load_slot(metadata.glossy, entries.glossy),
        diffuse: load_slot(metadata.diffuse, entries.diffuse),
        emission: load_slot(metadata.emission, entries.emission),
        normal: load_slot(metadata.normal, entries.normal),
    }
}

} // verus!
