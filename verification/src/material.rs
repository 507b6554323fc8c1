//! How an imported material is laid out for the rasterizer's shaders.
//!
//! The material's bind group holds a sampler at binding 0, a texture at
//! binding `i + 1` for each component `i` that is an image, and a uniform
//! buffer at binding 7 holding one RGBA color per component.  A bit mask
//! tells the shader which components are uniform colors.
use crate::per_texture::PerTexture;
use crate::texture::ComponentKind;
use vstd::prelude::*;

verus! {

/// Number of components of a material.
pub const MATERIAL_COMPONENTS: usize = 6;

/// Binding of the uniform buffer of component colors.
pub const BUFFER_BINDING: u32 = 7;

/// An entry of a material's bind group.
#[derive(Clone, Copy, Debug, PartialEq, Eq, Structural)]
pub enum BindingEntry {
    /// The sampler.
    Sampler { binding: u32 },
    /// The texture of an image component.
    Texture { binding: u32, component: usize },
    /// The uniform buffer of component colors.
    ColorBuffer { binding: u32 },
}

/// What the rasterizer creates for a material.
pub struct MaterialBindings {
    /// The bind group's entries, in order.
    pub entries: Vec<BindingEntry>,
    /// Bit `i` is set exactly when component `i` is a uniform color.
    pub color_mask: u32,
    /// The color of each component, as bit patterns of floats; all zero for
    /// image components.
    pub colors: Vec<[u32; 4]>,
}

/// The rasterizer can build a material whose components are all present and
/// each an image or a uniform color.
pub open spec fn renderable_component(c: Option<ComponentKind>) -> bool {
    c matches Some(k) && (k is Image || k is Rgba)
}

/// Texture entries for the image components among the first `n` slots.
pub open spec fn texture_entries(slots: Seq<Option<ComponentKind>>, n: int) -> Seq<BindingEntry>
    decreases n,
{
    if n <= 0 {
        seq![]
    } else {
        let prev = texture_entries(slots, n - 1);
        if slots[n - 1] matches Some(ComponentKind::Image) {
            prev.push(BindingEntry::Texture { binding: n as u32, component: (n - 1) as usize })
        } else {
            prev
        }
    }
}

/// The color mask of the first `n` slots: bit `i` for each color component `i`.
pub open spec fn color_mask_of(slots: Seq<Option<ComponentKind>>, n: int) -> int
    decreases n,
{
    if n <= 0 {
        0
    } else {
        color_mask_of(slots, n - 1) + if slots[n - 1] matches Some(ComponentKind::Rgba { .. }) {
            (1u32 << ((n - 1) as u32)) as int
        } else {
            0
        }
    }
}

/// The color stored for a component.
pub open spec fn component_color(c: Option<ComponentKind>) -> Seq<u32> {
    match c {
        Some(ComponentKind::Rgba { r, g, b, a }) => seq![r, g, b, a],
        _ => seq![0u32, 0u32, 0u32, 0u32],
    }
}

impl MaterialBindings {
    /// These bindings are those of a material with components `slots`.
    pub open spec fn describes(&self, slots: Seq<Option<ComponentKind>>) -> bool {
        &&& self.entries@ == seq![BindingEntry::Sampler { binding: 0 }] + texture_entries(slots, 6)
            + seq![BindingEntry::ColorBuffer { binding: BUFFER_BINDING }]
        &&& self.color_mask as int == color_mask_of(slots, 6)
        &&& self.colors@.len() == 6
        &&& forall|i: int| 0 <= i < 6 ==> (#[trigger] self.colors@[i])@ == component_color(slots[i])
    }
}

/// Component `i` of `slots` is a uniform color.
pub open spec fn is_color(slots: Seq<Option<ComponentKind>>, i: int) -> bool {
    slots[i] matches Some(ComponentKind::Rgba { .. })
}

proof fn lemma_mask_bit(m: u32, b0: bool, b1: bool, b2: bool, b3: bool, b4: bool, b5: bool)
    requires
        m == (if b0 { 1u32 } else { 0u32 }) + (if b1 { 2u32 } else { 0u32 }) + (if b2 {
            4u32
        } else {
            0u32
        }) + (if b3 { 8u32 } else { 0u32 }) + (if b4 { 16u32 } else { 0u32 }) + (if b5 {
            32u32
        } else {
            0u32
        }),
    ensures
        ((m >> 0u32) & 1u32 == 1u32) == b0,
        ((m >> 1u32) & 1u32 == 1u32) == b1,
        ((m >> 2u32) & 1u32 == 1u32) == b2,
        ((m >> 3u32) & 1u32 == 1u32) == b3,
        ((m >> 4u32) & 1u32 == 1u32) == b4,
        ((m >> 5u32) & 1u32 == 1u32) == b5,
        m < 64,
{
    assert(((m >> 0u32) & 1u32 == 1u32) == b0 && ((m >> 1u32) & 1u32 == 1u32) == b1 && ((m
        >> 2u32) & 1u32 == 1u32) == b2 && ((m >> 3u32) & 1u32 == 1u32) == b3 && ((m >> 4u32)
        & 1u32 == 1u32) == b4 && ((m >> 5u32) & 1u32 == 1u32) == b5 && m < 64) by (bit_vector)
        requires
            m == (if b0 { 1u32 } else { 0u32 }) + (if b1 { 2u32 } else { 0u32 }) + (if b2 {
                4u32
            } else {
                0u32
            }) + (if b3 { 8u32 } else { 0u32 }) + (if b4 { 16u32 } else { 0u32 }) + (if b5 {
                32u32
            } else {
                0u32
            }),
    ;
}

/// Law: bit `i` of the color mask is set exactly when component `i` is a
/// uniform color, and no bit above the sixth is set.
pub proof fn lemma_color_mask_bits(slots: Seq<Option<ComponentKind>>, mask: u32)
    requires
        mask as int == color_mask_of(slots, 6),
    ensures
        forall|i: u32| i < 6 ==> (((mask >> i) & 1u32 == 1u32) <==> is_color(slots, i as int)),
        mask < 64,
{
    reveal_with_fuel(color_mask_of, 7);
    assert(1u32 << 0u32 == 1u32 && 1u32 << 1u32 == 2u32 && 1u32 << 2u32 == 4u32 && 1u32 << 3u32
        == 8u32 && 1u32 << 4u32 == 16u32 && 1u32 << 5u32 == 32u32) by (bit_vector);
    lemma_mask_bit(
        mask,
        is_color(slots, 0),
        is_color(slots, 1),
        is_color(slots, 2),
        is_color(slots, 3),
        is_color(slots, 4),
        is_color(slots, 5),
    );
    assert forall|i: u32| i < 6 implies (((mask >> i) & 1u32 == 1u32) <==> is_color(
        slots,
        i as int,
    )) by {
        if i == 0 {
        } else if i == 1 {
        } else if i == 2 {
        } else if i == 3 {
        } else if i == 4 {
        } else {
        }
    }
}

proof fn lemma_mask_step(c: u32, i: u32)
    requires
        i < 6,
        c < (1u32 << i),
    ensures
        (c | (1u32 << i)) == c + (1u32 << i),
        c + (1u32 << i) < (1u32 << ((i + 1) as u32)),
        c < (1u32 << ((i + 1) as u32)),
{
    assert((c | (1u32 << i)) == c + (1u32 << i)) by (bit_vector)
        requires
            i < 6,
            c < (1u32 << i),
    ;
    assert(c + (1u32 << i) < (1u32 << ((i + 1) as u32))) by (bit_vector)
        requires
            i < 6,
            c < (1u32 << i),
    ;
}

/// Lays out a material for the rasterizer: a sampler, a texture for each
/// image component, and the buffer of colors, with the mask of the color
/// components.
pub fn material_bindings(components: &PerTexture<ComponentKind>) -> (r: MaterialBindings)
    requires
        forall|i: int| 0 <= i < 6 ==> renderable_component(#[trigger] components.slots()[i]),
    ensures
        r.describes(components.slots()),
{
    let slots = components.components();
    let ghost s = components.slots();
    let mut entries: Vec<BindingEntry> = Vec::new();
    entries.push(BindingEntry::Sampler { binding: 0 });
    let mut color_mask: u32 = 0;
    let mut colors: Vec<[u32; 4]> = Vec::new();
    let mut i: usize = 0;
    assert(1u32 << 0u32 == 1u32) by (bit_vector);
    while i < MATERIAL_COMPONENTS
        invariant
            i <= 6,
            slots@.len() == 6,
            forall|j: int|
                0 <= j < 6 ==> match #[trigger] s[j] {
                    Some(x) => slots@[j] matches Some(y) && *y == x,
                    None => slots@[j] is None,
                },
            forall|j: int| 0 <= j < 6 ==> renderable_component(#[trigger] s[j]),
            entries@ == seq![BindingEntry::Sampler { binding: 0 }] + texture_entries(s, i as int),
            color_mask as int == color_mask_of(s, i as int),
            color_mask < (1u32 << (i as u32)),
            colors@.len() == i,
            forall|j: int| 0 <= j < i ==> (#[trigger] colors@[j])@ == component_color(s[j]),
        decreases 6 - i,
    {
        assert(renderable_component(s[i as int]));
        let ghost prev_entries = entries@;
        match slots[i] {
            Some(ComponentKind::Rgba { r, g, b, a }) => {
                proof {
                    lemma_mask_step(color_mask, i as u32);
                }
                color_mask = color_mask | (1u32 << (i as u32));
                let c = [*r, *g, *b, *a];
                assert(c@ =~= seq![*r, *g, *b, *a]);
                colors.push(c);
                assert(entries@ == seq![BindingEntry::Sampler { binding: 0 }] + texture_entries(
                    s,
                    i + 1,
                ));
            },
            _ => {
                proof {
                    lemma_mask_step(color_mask, i as u32);
                }
                entries.push(
                    BindingEntry::Texture { binding: (i + 1) as u32, component: i },
                );
                let c = [0u32, 0u32, 0u32, 0u32];
                assert(c@ =~= seq![0u32, 0u32, 0u32, 0u32]);
                colors.push(c);
                assert(entries@ =~= seq![BindingEntry::Sampler { binding: 0 }] + texture_entries(
                    s,
                    i + 1,
                ));
            },
        }
        i = i + 1;
    }
    entries.push(BindingEntry::ColorBuffer { binding: BUFFER_BINDING });
    assert(entries@ =~= seq![BindingEntry::Sampler { binding: 0 }] + texture_entries(s, 6) + seq![
        BindingEntry::ColorBuffer { binding: BUFFER_BINDING },
    ]);
    MaterialBindings { entries, color_mask, colors }
}

} // verus!
