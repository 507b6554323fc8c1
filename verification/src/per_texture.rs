//! A value for each component of a surface material.
use crate::slot::{
    can_fill, can_map, can_map_named, filled_by, mapped_by, named_mapped_by, named_then_by,
};
use vstd::prelude::*;

verus! {

/// One optional value for each of the six material components, in the
/// order roughness, specular, glossy, diffuse, emission, normal.
pub struct PerTexture<T> {
    pub roughness: Option<T>,
    pub specular: Option<T>,
    pub glossy: Option<T>,
    pub diffuse: Option<T>,
    pub emission: Option<T>,
    pub normal: Option<T>,
}

impl<T> PerTexture<T> {
    /// The six slots in component order.
    pub open spec fn slots(self) -> Seq<Option<T>> {
        seq![self.roughness, self.specular, self.glossy, self.diffuse, self.emission, self.normal]
    }

    /// No component holds a value.
    pub open spec fn is_empty(self) -> bool {
        &&& self.roughness is None
        &&& self.specular is None
        &&& self.glossy is None
        &&& self.diffuse is None
        &&& self.emission is None
        &&& self.normal is None
    }

    /// Every component holds a value.
    pub open spec fn is_full(self) -> bool {
        &&& self.roughness is Some
        &&& self.specular is Some
        &&& self.glossy is Some
        &&& self.diffuse is Some
        &&& self.emission is Some
        &&& self.normal is Some
    }

    /// A container with no component set.
    pub fn empty() -> (r: Self)
        ensures
            r.is_empty(),
    {
        PerTexture {
            roughness: None,
            specular: None,
            glossy: None,
            diffuse: None,
            emission: None,
            normal: None,
        }
    }

    /// `mapper` may be applied to every value present in `self`.
    pub open spec fn map_all_requires<U, F: Fn(T) -> U>(self, mapper: F) -> bool {
        &&& can_map(mapper, self.roughness)
        &&& can_map(mapper, self.specular)
        &&& can_map(mapper, self.glossy)
        &&& can_map(mapper, self.diffuse)
        &&& can_map(mapper, self.emission)
        &&& can_map(mapper, self.normal)
    }

    /// `r` is `self` with `mapper` applied to every present value.
    pub open spec fn map_all_result<U, F: Fn(T) -> U>(self, mapper: F, r: PerTexture<U>) -> bool {
        &&& mapped_by(mapper, self.roughness, r.roughness)
        &&& mapped_by(mapper, self.specular, r.specular)
        &&& mapped_by(mapper, self.glossy, r.glossy)
        &&& mapped_by(mapper, self.diffuse, r.diffuse)
        &&& mapped_by(mapper, self.emission, r.emission)
        &&& mapped_by(mapper, self.normal, r.normal)
    }

    /// Applies `mapper` to every present value; empty components stay empty.
    pub fn map_all<U>(self, mapper: impl Fn(T) -> U) -> (r: PerTexture<U>)
        requires
            self.map_all_requires(mapper),
        ensures
            self.map_all_result(mapper, r),
    {
        PerTexture {
            roughness: match self.roughness {
                Some(x) => Some(mapper(x)),
                None => None,
            },
            specular: match self.specular {
                Some(x) => Some(mapper(x)),
                None => None,
            },
            glossy: match self.glossy {
                Some(x) => Some(mapper(x)),
                None => None,
            },
            diffuse: match self.diffuse {
                Some(x) => Some(mapper(x)),
                None => None,
            },
            emission: match self.emission {
                Some(x) => Some(mapper(x)),
                None => None,
            },
            normal: match self.normal {
                Some(x) => Some(mapper(x)),
                None => None,
            },
        }
    }

    /// Moves every value out of `self`, leaving all components empty.
    pub fn take(&mut self) -> (r: Self)
        ensures
            r == *old(self),
            final(self).is_empty(),
    {
        PerTexture {
            roughness: self.roughness.take(),
            specular: self.specular.take(),
            glossy: self.glossy.take(),
            diffuse: self.diffuse.take(),
            emission: self.emission.take(),
            normal: self.normal.take(),
        }
    }

    /// `mapper` may be applied to every present value together with its component's name.
    pub open spec fn map_named_requires<U, F: FnMut(&str, T) -> U>(self, mapper: F) -> bool {
        &&& can_map_named(mapper, "roughness", self.roughness)
        &&& can_map_named(mapper, "specular", self.specular)
        &&& can_map_named(mapper, "glossy", self.glossy)
        &&& can_map_named(mapper, "diffuse", self.diffuse)
        &&& can_map_named(mapper, "emission", self.emission)
        &&& can_map_named(mapper, "normal", self.normal)
    }

    /// `r` is `self` with `mapper` applied to every present value and its component's name.
    pub open spec fn map_named_result<U, F: FnMut(&str, T) -> U>(
        self,
        mapper: F,
        r: PerTexture<U>,
    ) -> bool {
        &&& named_mapped_by(mapper, "roughness", self.roughness, r.roughness)
        &&& named_mapped_by(mapper, "specular", self.specular, r.specular)
        &&& named_mapped_by(mapper, "glossy", self.glossy, r.glossy)
        &&& named_mapped_by(mapper, "diffuse", self.diffuse, r.diffuse)
        &&& named_mapped_by(mapper, "emission", self.emission, r.emission)
        &&& named_mapped_by(mapper, "normal", self.normal, r.normal)
    }

    /// Applies `mapper` to the name of each component and its value, for every
    /// present value; empty components stay empty.
    pub fn map_named<U>(self, mut mapper: impl FnMut(&str, T) -> U) -> (r: PerTexture<U>)
        requires
            self.map_named_requires(mapper),
        ensures
            self.map_named_result(mapper, r),
    {
        PerTexture {
            roughness: match self.roughness {
                Some(x) => Some(mapper("roughness", x)),
                None => None,
            },
            specular: match self.specular {
                Some(x) => Some(mapper("specular", x)),
                None => None,
            },
            glossy: match self.glossy {
                Some(x) => Some(mapper("glossy", x)),
                None => None,
            },
            diffuse: match self.diffuse {
                Some(x) => Some(mapper("diffuse", x)),
                None => None,
            },
            emission: match self.emission {
                Some(x) => Some(mapper("emission", x)),
                None => None,
            },
            normal: match self.normal {
                Some(x) => Some(mapper("normal", x)),
                None => None,
            },
        }
    }

    /// `mapper` may be applied to every present value together with its component's name.
    pub open spec fn and_then_requires<U, F: FnMut(&str, T) -> Option<U>>(self, mapper: F) -> bool {
        &&& can_map_named(mapper, "roughness", self.roughness)
        &&& can_map_named(mapper, "specular", self.specular)
        &&& can_map_named(mapper, "glossy", self.glossy)
        &&& can_map_named(mapper, "diffuse", self.diffuse)
        &&& can_map_named(mapper, "emission", self.emission)
        &&& can_map_named(mapper, "normal", self.normal)
    }

    /// Each component of `r` is what `mapper` returned for the component's
    /// name and value in `self`, and empty where `self` is empty.
    pub open spec fn and_then_result<U, F: FnMut(&str, T) -> Option<U>>(
        self,
        mapper: F,
        r: PerTexture<U>,
    ) -> bool {
        &&& named_then_by(mapper, "roughness", self.roughness, r.roughness)
        &&& named_then_by(mapper, "specular", self.specular, r.specular)
        &&& named_then_by(mapper, "glossy", self.glossy, r.glossy)
        &&& named_then_by(mapper, "diffuse", self.diffuse, r.diffuse)
        &&& named_then_by(mapper, "emission", self.emission, r.emission)
        &&& named_then_by(mapper, "normal", self.normal, r.normal)
    }

    /// Replaces every present value by the option `mapper` returns for it and
    /// its component's name; empty components stay empty.
    pub fn and_then<U>(self, mut mapper: impl FnMut(&str, T) -> Option<U>) -> (r: PerTexture<U>)
        requires
            self.and_then_requires(mapper),
        ensures
            self.and_then_result(mapper, r),
    {
        PerTexture {
            roughness: match self.roughness {
                Some(x) => mapper("roughness", x),
                None => None,
            },
            specular: match self.specular {
                Some(x) => mapper("specular", x),
                None => None,
            },
            glossy: match self.glossy {
                Some(x) => mapper("glossy", x),
                None => None,
            },
            diffuse: match self.diffuse {
                Some(x) => mapper("diffuse", x),
                None => None,
            },
            emission: match self.emission {
                Some(x) => mapper("emission", x),
                None => None,
            },
            normal: match self.normal {
                Some(x) => mapper("normal", x),
                None => None,
            },
        }
    }

    /// `fun` may be called with the name of every empty component.
    pub open spec fn or_else_requires<F: FnMut(&str) -> Option<T>>(self, fun: F) -> bool {
        &&& can_fill(fun, "roughness", self.roughness)
        &&& can_fill(fun, "specular", self.specular)
        &&& can_fill(fun, "glossy", self.glossy)
        &&& can_fill(fun, "diffuse", self.diffuse)
        &&& can_fill(fun, "emission", self.emission)
        &&& can_fill(fun, "normal", self.normal)
    }

    /// `r` keeps every value of `self`; each empty component of `self` holds
    /// in `r` what `fun` returned for the component's name.
    pub open spec fn or_else_result<F: FnMut(&str) -> Option<T>>(self, fun: F, r: Self) -> bool {
        &&& filled_by(fun, "roughness", self.roughness, r.roughness)
        &&& filled_by(fun, "specular", self.specular, r.specular)
        &&& filled_by(fun, "glossy", self.glossy, r.glossy)
        &&& filled_by(fun, "diffuse", self.diffuse, r.diffuse)
        &&& filled_by(fun, "emission", self.emission, r.emission)
        &&& filled_by(fun, "normal", self.normal, r.normal)
    }

    /// Fills every empty component with what `fun` returns for its name;
    /// present values are kept.
    pub fn or_else(self, mut fun: impl FnMut(&str) -> Option<T>) -> (r: Self)
        requires
            self.or_else_requires(fun),
        ensures
            self.or_else_result(fun, r),
    {
        PerTexture {
            roughness: match self.roughness {
                Some(x) => Some(x),
                None => fun("roughness"),
            },
            specular: match self.specular {
                Some(x) => Some(x),
                None => fun("specular"),
            },
            glossy: match self.glossy {
                Some(x) => Some(x),
                None => fun("glossy"),
            },
            diffuse: match self.diffuse {
                Some(x) => Some(x),
                None => fun("diffuse"),
            },
            emission: match self.emission {
                Some(x) => Some(x),
                None => fun("emission"),
            },
            normal: match self.normal {
                Some(x) => Some(x),
                None => fun("normal"),
            },
        }
    }

    /// References to the six components, in component order.
    pub fn components(&self) -> (r: Vec<Option<&T>>)
        ensures
            r@.len() == 6,
            forall|i: int|
                0 <= i < 6 ==> match #[trigger] self.slots()[i] {
                    Some(x) => r@[i] matches Some(y) && *y == x,
                    None => r@[i] is None,
                },
    {
        let mut r: Vec<Option<&T>> = Vec::new();
        r.push(self.roughness.as_ref());
        r.push(self.specular.as_ref());
        r.push(self.glossy.as_ref());
        r.push(self.diffuse.as_ref());
        r.push(self.emission.as_ref());
        r.push(self.normal.as_ref());
        r
    }
}

impl<T> Default for PerTexture<T> {
    /// A container with no component set.
    fn default() -> (r: Self)
        ensures
            r.is_empty(),
    {
        Self::empty()
    }
}

/// Law: when `fun` returns a value for every name, `or_else` leaves no
/// component empty.
pub proof fn lemma_or_else_fills_every_component<T, F: FnMut(&str) -> Option<T>>(
    p: PerTexture<T>,
    fun: F,
    r: PerTexture<T>,
)
    requires
        p.or_else_result(fun, r),
        forall|name: &str, o: Option<T>| #[trigger] call_ensures(fun, (name,), o) ==> o is Some,
    ensures
        r.is_full(),
{
}

/// Law: `and_then` never creates a value in a component that was empty.
pub proof fn lemma_and_then_keeps_empty_components<T, U, F: FnMut(&str, T) -> Option<U>>(
    p: PerTexture<T>,
    mapper: F,
    r: PerTexture<U>,
)
    requires
        p.and_then_result(mapper, r),
    ensures
        forall|i: int| 0 <= i < 6 && (#[trigger] r.slots()[i]) is Some ==> p.slots()[i] is Some,
{
}

/// Law: `map_all` and `map_named` keep the set of present components.
pub proof fn lemma_maps_keep_present_components<T, U, F: Fn(T) -> U, G: FnMut(&str, T) -> U>(
    p: PerTexture<T>,
    mapper: F,
    r: PerTexture<U>,
    named: G,
    s: PerTexture<U>,
)
    requires
        p.map_all_result(mapper, r),
        p.map_named_result(named, s),
    ensures
        forall|i: int|
            0 <= i < 6 ==> ((#[trigger] r.slots()[i]) is Some <==> p.slots()[i] is Some) && (
            s.slots()[i] is Some <==> p.slots()[i] is Some),
{
}

} // verus!
