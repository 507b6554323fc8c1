//! How the components of a material are stored in a material archive.
//!
//! A material archive holds a `metadata.toml` that says, for each component,
//! whether it is a PNG or KTX2 texture stored under `surface/`, or a uniform
//! RGBA color.  Colors are IEEE-754 single-precision values, kept here as
//! their bit patterns.
use crate::per_texture::PerTexture;
use vstd::prelude::*;
use vstd::string::StringExecFns;

verus! {

/// Name of the metadata entry of a material archive.
pub const MATERIAL_METADATA: &'static str = "metadata.toml";

/// Bit pattern of the float `1.0`.
pub const ONE_BITS: u32 = 0x3f80_0000;

/// How one material component is stored.
#[derive(Clone, Copy, Debug, PartialEq, Eq, Structural)]
pub enum TextureFormat {
    /// A PNG image in the archive.
    Png,
    /// A KTX2 texture in the archive.
    Ktx2,
    /// A uniform color; each channel is the bit pattern of a float.
    Rgba { r: u32, g: u32, b: u32, a: u32 },
}

/// Metadata of one material component.
#[derive(Clone, Copy, Debug, PartialEq, Eq, Structural)]
pub struct TextureMetadata {
    pub format: TextureFormat,
}

/// Opaque black, the metadata of a component for which nothing was supplied.
pub open spec fn default_metadata() -> TextureMetadata {
    TextureMetadata { format: TextureFormat::Rgba { r: 0, g: 0, b: 0, a: ONE_BITS } }
}

impl Default for TextureMetadata {
    /// Opaque black.
    fn default() -> (r: Self)
        ensures
            r == default_metadata(),
    {
        TextureMetadata { format: TextureFormat::Rgba { r: 0, g: 0, b: 0, a: ONE_BITS } }
    }
}

/// The stem of a component's entry in the archive: `surface/<name>`.
pub fn entry_stem(name: &str) -> (r: String)
    ensures
        r@ == "surface/"@ + name@,
{
    let mut s = String::from_str("surface/");
    s.append(name);
    s
}

/// The archive entry that holds a component named `name` of format `format`:
/// `surface/<name>.png` for PNG, `surface/<name>.ktx2` for KTX2, and none
/// for a uniform color.
pub open spec fn spec_entry_path(format: TextureFormat, name: Seq<char>) -> Option<Seq<char>> {
    match format {
        TextureFormat::Png => Some("surface/"@ + name + ".png"@),
        TextureFormat::Ktx2 => Some("surface/"@ + name + ".ktx2"@),
        TextureFormat::Rgba { .. } => None,
    }
}

impl TextureFormat {
    /// The archive entry that holds a component of this format:
    /// `surface/<name>.png` for PNG, `surface/<name>.ktx2` for KTX2, and none
    /// for a uniform color.
    pub fn entry_path(&self, name: &str) -> (r: Option<String>)
        ensures
            match spec_entry_path(*self, name@) {
                Some(p) => r matches Some(s) && s@ == p,
                None => r is None,
            },
    {
        match self {
            TextureFormat::Png => {
                let mut s = entry_stem(name);
                s.append(".png");
                Some(s)
            },
            TextureFormat::Ktx2 => {
                let mut s = entry_stem(name);
                s.append(".ktx2");
                Some(s)
            },
            TextureFormat::Rgba { .. } => None,
        }
    }
}

/// What a material component is made from when an archive is written.
#[derive(Clone, Copy, Debug, PartialEq, Eq, Structural)]
pub enum ComponentKind {
    /// A decoded image, written as PNG.
    Image,
    /// A file that already holds a PNG image, copied as it is.
    File,
    /// A KTX2 texture.
    Ktx,
    /// A uniform color; each channel is the bit pattern of a float.
    Rgba { r: u32, g: u32, b: u32, a: u32 },
}

/// The metadata written for a component of kind `kind`: PNG for images and
/// PNG files, KTX2 for KTX2 textures, the color itself for a color.
pub open spec fn spec_metadata(kind: ComponentKind) -> TextureMetadata {
    TextureMetadata {
        format: match kind {
            ComponentKind::Image => TextureFormat::Png,
            ComponentKind::File => TextureFormat::Png,
            ComponentKind::Ktx => TextureFormat::Ktx2,
            ComponentKind::Rgba { r, g, b, a } => TextureFormat::Rgba { r, g, b, a },
        },
    }
}

impl ComponentKind {
    /// The metadata written for a component of this kind.
    pub fn metadata(&self) -> (r: TextureMetadata)
        ensures
            r == spec_metadata(*self),
    {
        match self {
            ComponentKind::Image => TextureMetadata { format: TextureFormat::Png },
            ComponentKind::Ktx => TextureMetadata { format: TextureFormat::Ktx2 },
            ComponentKind::File => TextureMetadata { format: TextureFormat::Png },
            ComponentKind::Rgba { r, g, b, a } => TextureMetadata {
                format: TextureFormat::Rgba { r: *r, g: *g, b: *b, a: *a },
            },
        }
    }

    /// The file extension of a component of this kind.
    pub open spec fn spec_ext(&self) -> Seq<char> {
        match self {
            ComponentKind::Image => ".png"@,
            ComponentKind::File => ".png"@,
            ComponentKind::Ktx => ".ktx2"@,
            ComponentKind::Rgba { .. } => ""@,
        }
    }

    /// Appends the file extension of this kind to `path`: `.png` for images
    /// and files, `.ktx2` for KTX2 textures, nothing for colors.
    pub fn append_ext(&self, path: String) -> (r: String)
        ensures
            r@ == path@ + self.spec_ext(),
    {
        let mut path = path;
        match self {
            ComponentKind::Image | ComponentKind::File => path.append(".png"),
            ComponentKind::Ktx => path.append(".ktx2"),
            ComponentKind::Rgba { .. } => path.append(""),
        }
        path
    }
}

/// Law: a reader of an archive finds each component where the writer put
/// it.  The writer stores a component named `name` of kind `kind` under
/// `surface/<name>` with the kind's extension and records the kind's
/// metadata; from that metadata the reader derives the same entry for a
/// texture, and no entry but the same color for a uniform color.
pub proof fn lemma_read_finds_written_entry(kind: ComponentKind, name: Seq<char>)
    ensures
        match kind {
            ComponentKind::Rgba { r, g, b, a } => {
                &&& spec_entry_path(spec_metadata(kind).format, name) is None
                &&& spec_metadata(kind).format == (TextureFormat::Rgba { r, g, b, a })
            },
            _ => spec_entry_path(spec_metadata(kind).format, name) == Some(
                "surface/"@ + name + kind.spec_ext(),
            ),
        },
{
}

/// The color put in place of a component that could not be loaded: the bit
/// patterns of the floats `4/255`, `65/255`, `229/255` and `1`.
pub fn fallback_color() -> (r: [u32; 4])
    ensures
        r@ == seq![0x3c80_8081u32, 0x3e82_8283u32, 0x3f65_e5e6u32, ONE_BITS],
{
    let r = [0x3c80_8081u32, 0x3e82_8283u32, 0x3f65_e5e6u32, ONE_BITS];
    assert(r@ =~= seq![0x3c80_8081u32, 0x3e82_8283u32, 0x3f65_e5e6u32, ONE_BITS]);
    r
}

/// The metadata of a component: what was written, and the default where
/// writing failed or nothing was supplied.
pub open spec fn completed_slot<E>(src: Option<Result<TextureMetadata, E>>) -> Option<
    TextureMetadata,
> {
    match src {
        Some(Ok(m)) => Some(m),
        _ => Some(default_metadata()),
    }
}

/// The metadata that an archive records: for each component, what writing it
/// gave, and the default metadata where it failed or nothing was supplied.
/// Every component ends up with metadata.
pub fn complete_metadata<E>(results: PerTexture<Result<TextureMetadata, E>>) -> (r: PerTexture<
    TextureMetadata,
>)
    ensures
        r.is_full(),
        r.roughness == completed_slot(results.roughness),
        r.specular == completed_slot(results.specular),
        r.glossy == completed_slot(results.glossy),
        r.diffuse == completed_slot(results.diffuse),
        r.emission == completed_slot(results.emission),
        r.normal == completed_slot(results.normal),
{
    let written = results.map_named(written_or_default::<E>);
    written.or_else(default_for_missing)
}

/// The metadata of a component that writing gave, or the default metadata
/// where writing failed.
fn written_or_default<E>(_name: &str, s: Result<TextureMetadata, E>) -> (m: TextureMetadata)
    ensures
        m == (match s {
            Ok(x) => x,
            Err(_) => default_metadata(),
        }),
{
    match s {
        Ok(x) => x,
        Err(_) => TextureMetadata::default(),
    }
}

/// The metadata recorded for a component that was not supplied.
fn default_for_missing(_name: &str) -> (o: Option<TextureMetadata>)
    ensures
        o == Some(default_metadata()),
{
    Some(TextureMetadata::default())
}

/// Format of an image file as its first bytes show it.
#[derive(Clone, Copy, Debug, PartialEq, Eq, Structural)]
pub enum DetectedFormat {
    /// A PNG image.
    Png,
    /// An image of another known format.
    Other,
    /// No known image format.
    Unknown,
}

/// The signature that starts every PNG file.
pub open spec fn png_signature() -> Seq<u8> {
    seq![0x89u8, 0x50u8, 0x4eu8, 0x47u8, 0x0du8, 0x0au8, 0x1au8, 0x0au8]
}

/// `bytes` starts with the PNG signature.
pub open spec fn has_png_signature(bytes: Seq<u8>) -> bool {
    bytes.len() >= 8 && bytes.subrange(0, 8) == png_signature()
}

/// `bytes` starts with `sig`.
pub open spec fn starts_with(bytes: Seq<u8>, sig: Seq<u8>) -> bool {
    bytes.len() >= sig.len() && bytes.subrange(0, sig.len() as int) == sig
}

/// `bytes` starts with the signature of an image format other than PNG that
/// the image decoder knows: JPEG, GIF, WebP (`RIFF`, any four bytes,
/// `WEBP`), TIFF, DDS, BMP, ICO, Radiance HDR, AVIF (two zero bytes, any
/// two bytes, `ftypavif`), OpenEXR, QOI, the seven PNM variants, or
/// farbfeld.
pub open spec fn has_other_signature(bytes: Seq<u8>) -> bool {
    ||| starts_with(bytes, seq![0xffu8, 0xd8u8, 0xffu8])
    ||| starts_with(bytes, seq![0x47u8, 0x49u8, 0x46u8, 0x38u8, 0x39u8, 0x61u8])
    ||| starts_with(bytes, seq![0x47u8, 0x49u8, 0x46u8, 0x38u8, 0x37u8, 0x61u8])
    ||| starts_with(bytes, seq![0x4du8, 0x4du8, 0x00u8, 0x2au8])
    ||| starts_with(bytes, seq![0x49u8, 0x49u8, 0x2au8, 0x00u8])
    ||| starts_with(bytes, seq![0x44u8, 0x44u8, 0x53u8, 0x20u8])
    ||| starts_with(bytes, seq![0x42u8, 0x4du8])
    ||| starts_with(bytes, seq![0x00u8, 0x00u8, 0x01u8, 0x00u8])
    ||| starts_with(
        bytes,
        seq![0x23u8, 0x3fu8, 0x52u8, 0x41u8, 0x44u8, 0x49u8, 0x41u8, 0x4eu8, 0x43u8, 0x45u8],
    )
    ||| starts_with(bytes, seq![0x76u8, 0x2fu8, 0x31u8, 0x01u8])
    ||| starts_with(bytes, seq![0x71u8, 0x6fu8, 0x69u8, 0x66u8])
    ||| starts_with(bytes, seq![0x50u8, 0x31u8])
    ||| starts_with(bytes, seq![0x50u8, 0x32u8])
    ||| starts_with(bytes, seq![0x50u8, 0x33u8])
    ||| starts_with(bytes, seq![0x50u8, 0x34u8])
    ||| starts_with(bytes, seq![0x50u8, 0x35u8])
    ||| starts_with(bytes, seq![0x50u8, 0x36u8])
    ||| starts_with(bytes, seq![0x50u8, 0x37u8])
    ||| starts_with(
        bytes,
        seq![0x66u8, 0x61u8, 0x72u8, 0x62u8, 0x66u8, 0x65u8, 0x6cu8, 0x64u8],
    )
    ||| (bytes.len() >= 12 && bytes.subrange(0, 4) == seq![0x52u8, 0x49u8, 0x46u8, 0x46u8] && bytes.subrange(8, 12)
        == seq![0x57u8, 0x45u8, 0x42u8, 0x50u8])
    ||| (bytes.len() >= 12 && bytes[0] == 0u8 && bytes[1] == 0u8 && bytes.subrange(4, 12)
        == seq![0x66u8, 0x74u8, 0x79u8, 0x70u8, 0x61u8, 0x76u8, 0x69u8, 0x66u8])
}

/// The format the image decoder guesses from the first bytes of a file: PNG
/// where they are the PNG signature, another known format where they are
/// one of its signatures, and unknown otherwise.
pub open spec fn spec_guess_format(bytes: Seq<u8>) -> DetectedFormat {
    if has_png_signature(bytes) {
        DetectedFormat::Png
    } else if has_other_signature(bytes) {
        DetectedFormat::Other
    } else {
        DetectedFormat::Unknown
    }
}

/// Calls `image::guess_format`, which compares the first bytes of `bytes`
/// with the signatures of the formats it knows, PNG first.  Trusted: it
/// gives PNG, another format or none exactly as `spec_guess_format` says.
#[verifier::external_body]
fn guess_format(bytes: &[u8]) -> (r: DetectedFormat)
    ensures
        r == spec_guess_format(bytes@),
{
    match image::guess_format(bytes) {
        Ok(image::ImageFormat::Png) => DetectedFormat::Png,
        Ok(_) => DetectedFormat::Other,
        Err(_) => DetectedFormat::Unknown,
    }
}

/// Why a texture could not be stored or read.
#[derive(Clone, Copy, Debug, PartialEq, Eq, Structural)]
pub enum ImportError {
    /// The image is not a PNG; transcoding it is not implemented.
    TranscodingRequired,
    /// The file is not an image of a known format.
    UnknownFormat,
    /// KTX2 textures cannot be decoded.
    KtxUnsupported,
}

/// What a texture file of a detected format is stored as: a PNG is copied as
/// it is; any other known format would need transcoding, which is refused;
/// an unknown format is refused.
pub open spec fn spec_store_as(format: DetectedFormat) -> Result<ComponentKind, ImportError> {
    match format {
        DetectedFormat::Png => Ok(ComponentKind::File),
        DetectedFormat::Other => Err(ImportError::TranscodingRequired),
        DetectedFormat::Unknown => Err(ImportError::UnknownFormat),
    }
}

/// Decides how a texture file whose first bytes are `head` is stored in an
/// archive.
pub fn parse_image(head: &[u8]) -> (r: Result<ComponentKind, ImportError>)
    ensures
        r == spec_store_as(spec_guess_format(head@)),
        r is Ok <==> has_png_signature(head@),
{
    store_as(guess_format(head))
}

/// How a texture file of the detected format is stored in an archive.
pub fn store_as(format: DetectedFormat) -> (r: Result<ComponentKind, ImportError>)
    ensures
        r == spec_store_as(format),
{
    match format {
        DetectedFormat::Png => Ok(ComponentKind::File),
        DetectedFormat::Other => Err(ImportError::TranscodingRequired),
        DetectedFormat::Unknown => Err(ImportError::UnknownFormat),
    }
}

/// A KTX2 texture.  KTX2 decoding is not available, so no value of this type
/// exists: its invariant cannot hold.
pub struct Never {
    unconstructible: (),
}

impl Never {
    /// No value satisfies this.
    #[verifier::type_invariant]
    spec fn inhabited(self) -> bool {
        false
    }

    /// Encodes the texture; there is no texture to encode, so this is never
    /// called.
    pub fn write_to_memory(self) -> (r: Result<Vec<u8>, ImportError>) {
        proof {
            use_type_invariant(&self);
        }
        Err(ImportError::KtxUnsupported)
    }

    /// Decodes a KTX2 texture from memory: always refused, since KTX2
    /// decoding is not available.
    pub fn from_memory(mem: &[u8]) -> (r: Result<Self, ImportError>)
        ensures
            r is Err && r->Err_0 == ImportError::KtxUnsupported,
    {
        Err(ImportError::KtxUnsupported)
    }
}

} // verus!
