use strahl::material_textures::MaterialTextures;
use strahl::per_texture::PerTexture;

fn sample() -> PerTexture<u32> {
    PerTexture {
        roughness: Some(1),
        specular: None,
        glossy: Some(3),
        diffuse: None,
        emission: Some(5),
        normal: Some(6),
    }
}

#[test]
fn map_all_applies_to_present_components() {
    let r = sample().map_all(|x| x * 10);
    assert_eq!(r.roughness, Some(10));
    assert_eq!(r.specular, None);
    assert_eq!(r.glossy, Some(30));
    assert_eq!(r.diffuse, None);
    assert_eq!(r.emission, Some(50));
    assert_eq!(r.normal, Some(60));
}

#[test]
fn take_empties_the_container() {
    let mut p = sample();
    let t = p.take();
    assert_eq!(t.roughness, Some(1));
    assert_eq!(t.normal, Some(6));
    assert!(p.roughness.is_none() && p.specular.is_none() && p.glossy.is_none());
    assert!(p.diffuse.is_none() && p.emission.is_none() && p.normal.is_none());
    let again = p.take();
    assert!(again.roughness.is_none() && again.normal.is_none());
}

#[test]
fn map_named_passes_component_names() {
    let r = sample().map_named(|n, x| format!("{n}:{x}"));
    assert_eq!(r.roughness.as_deref(), Some("roughness:1"));
    assert_eq!(r.specular, None);
    assert_eq!(r.glossy.as_deref(), Some("glossy:3"));
    assert_eq!(r.emission.as_deref(), Some("emission:5"));
    assert_eq!(r.normal.as_deref(), Some("normal:6"));
}

#[test]
fn map_named_calls_in_component_order() {
    let mut order = Vec::new();
    let full = PerTexture {
        roughness: Some(0),
        specular: Some(0),
        glossy: Some(0),
        diffuse: Some(0),
        emission: Some(0),
        normal: Some(0),
    };
    let _ = full.map_named(|n, _x| order.push(n.to_string()));
    assert_eq!(order, vec!["roughness", "specular", "glossy", "diffuse", "emission", "normal"]);
}

#[test]
fn and_then_drops_rejected_values() {
    let r = sample().and_then(|n, x| if n == "glossy" { None } else { Some(x + 1) });
    assert_eq!(r.roughness, Some(2));
    assert_eq!(r.specular, None);
    assert_eq!(r.glossy, None);
    assert_eq!(r.emission, Some(6));
    assert_eq!(r.normal, Some(7));
}

#[test]
fn or_else_fills_only_empty_components() {
    let mut asked = Vec::new();
    let r = sample().or_else(|n| {
        asked.push(n.to_string());
        Some(100)
    });
    assert_eq!(asked, vec!["specular", "diffuse"]);
    assert_eq!(r.roughness, Some(1));
    assert_eq!(r.specular, Some(100));
    assert_eq!(r.diffuse, Some(100));
    assert_eq!(r.normal, Some(6));
}

#[test]
fn or_else_may_leave_components_empty() {
    let r = sample().or_else(|n| if n == "specular" { Some(0) } else { None });
    assert_eq!(r.specular, Some(0));
    assert_eq!(r.diffuse, None);
}

#[test]
fn components_lists_slots_in_order() {
    let p = sample();
    let c = p.components();
    assert_eq!(c, vec![Some(&1), None, Some(&3), None, Some(&5), Some(&6)]);
}

#[test]
fn default_is_empty() {
    let p: PerTexture<u8> = Default::default();
    assert!(p.components().iter().all(|c| c.is_none()));
    let e: PerTexture<u8> = PerTexture::empty();
    assert!(e.roughness.is_none() && e.normal.is_none());
}

#[test]
fn material_textures_operations() {
    let m = MaterialTextures {
        roughness: Some(2u8),
        specular: None,
        glossy: None,
        diffuse: Some(4),
        emission: None,
        normal: None,
    };
    let doubled = m.map_all(|x| x as u16 * 2);
    assert_eq!(doubled.roughness, Some(4));
    assert_eq!(doubled.diffuse, Some(8));
    assert_eq!(doubled.specular, None);
    let named = doubled.map_named(|n, x| (n.len(), x));
    assert_eq!(named.roughness, Some((9, 4)));
    assert_eq!(named.diffuse, Some((7, 8)));
    let mut kept = named.and_then(|n, x| if n == "diffuse" { Some(x.1) } else { None });
    assert_eq!(kept.roughness, None);
    assert_eq!(kept.diffuse, Some(8));
    let taken = kept.take();
    assert_eq!(taken.diffuse, Some(8));
    assert_eq!(kept.diffuse, None);
    let d: MaterialTextures<u8> = Default::default();
    assert!(d.roughness.is_none() && d.diffuse.is_none() && d.normal.is_none());
}
