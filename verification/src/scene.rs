//! The scene as the integrators see it: the lights, the materials of the
//! objects, and the choice of the nearest among the places where a ray meets
//! the objects. Finding those places is geometry, which the caller does.

use crate::bxdf::BSDF;
use crate::light::Light;
use crate::material::{is_diffuse, is_glass, is_mirror, Material};
use crate::math::{Normal, Point, Scalar, MAX_BITS};
use crate::spectrum::Spectrum;
use crate::texture::Uv;
use uuid::Uuid;
use vstd::prelude::*;

verus! {

/// `uuid::Uuid`, which is carried along and not looked into.
#[verifier::external_type_specification]
#[verifier::external_body]
pub struct ExUuid(uuid::Uuid);

/// `uuid::Uuid::new_v4`, which draws the identifier at random: nothing is
/// claimed of the result.
#[verifier::external_body]
fn new_v4() -> Uuid {
    Uuid::new_v4()
}

/// An object of the scene that can be shaded. Its shape and its place stay
/// with the caller.
#[derive(Debug)]
pub struct SceneNode {
    pub uuid: Uuid,
    pub material: Material,
}

impl SceneNode {
    /// An object of the given material, under an identifier of its own.
    pub fn new(material: Material) -> (r: SceneNode)
        ensures
            r.material == material,
    {
        SceneNode { uuid: new_v4(), material }
    }
}

/// A place where a ray meets the surface of an object.
#[derive(Clone, Copy, Debug)]
pub struct Hit {
    /// The index of the object in the scene.
    pub node: usize,
    /// The distance along the ray.
    pub toi: Scalar,
    /// The surface normal at the place.
    pub normal: Normal,
    /// The texture coordinates of the place, where the shape has any.
    pub uvs: Option<Uv>,
}

/// What the integrators need to know of the place where a ray meets the
/// scene.
#[derive(Debug)]
pub struct Intersection {
    pub point: Point,
    pub normal: Normal,
    pub bsdf: BSDF,
}

impl Intersection {
    pub fn new(p: Point, n: Normal, bsdf: BSDF) -> (r: Intersection)
        ensures
            r.point == p,
            r.normal == n,
            r.bsdf == bsdf,
    {
        Intersection { point: p, normal: n, bsdf }
    }
}

/// Whether a distance along a ray counts as a hit for a query that needs no
/// more than the distance: there is one and it is positive. A surface that a
/// ray starts on meets the ray at a distance of zero, or of a rounding
/// error below it, and is not to be hit.
pub open spec fn in_front(toi: Option<Scalar>) -> bool {
    toi matches Some(t) && t.spec_gt(Scalar { bits: 0 })
}

/// The positive ones among the first `n` distances, in their order.
pub open spec fn in_front_below(tois: Seq<Option<Scalar>>, n: nat) -> Seq<Scalar>
    decreases n,
{
    if n == 0 {
        Seq::empty()
    } else {
        let rest = in_front_below(tois, (n - 1) as nat);
        if in_front(tois[n - 1]) {
            rest.push(tois[n - 1].unwrap())
        } else {
            rest
        }
    }
}

/// The lights and the objects.
#[derive(Debug)]
pub struct Scene {
    lights: Vec<Light>,
    world: Vec<SceneNode>,
}

impl Scene {
    /// The objects.
    pub closed spec fn nodes(&self) -> Seq<SceneNode> {
        self.world@
    }

    /// The lights, in the order in which they were added.
    pub closed spec fn spec_lights(&self) -> Seq<Light> {
        self.lights@
    }

    /// Whether a hit can be the one that a ray sees: it lies on an object of
    /// the scene, farther than `t_min` in front of the ray's origin, at a
    /// finite distance below the largest number.
    pub open spec fn visible(&self, hit: Option<Hit>, t_min: Scalar) -> bool {
        hit matches Some(h) && h.node < self.nodes().len() && h.toi.spec_gt(t_min)
            && h.toi.spec_lt(Scalar { bits: MAX_BITS })
    }

    /// Whether the hit at `i` is the one that a ray sees: it is visible, no
    /// visible hit is nearer, and the visible hits before it are farther.
    pub open spec fn nearest(&self, hits: Seq<Option<Hit>>, t_min: Scalar, i: int) -> bool {
        &&& 0 <= i < hits.len()
        &&& self.visible(hits[i], t_min)
        &&& forall|j: int|
            0 <= j < hits.len() && self.visible(#[trigger] hits[j], t_min)
                ==> hits[i].unwrap().toi.rank() <= hits[j].unwrap().toi.rank()
        &&& forall|j: int|
            0 <= j < i && self.visible(#[trigger] hits[j], t_min) ==> hits[i].unwrap().toi.rank()
                < hits[j].unwrap().toi.rank()
    }

    /// A scene of the given objects, without lights.
    pub fn new(nodes: Vec<SceneNode>) -> (r: Scene)
        ensures
            r.nodes() == nodes@,
            r.spec_lights() == Seq::<Light>::empty(),
    {
        Scene { lights: Vec::new(), world: nodes }
    }

    pub fn add_light(&mut self, light: Light)
        ensures
            final(self).spec_lights() == old(self).spec_lights().push(light),
            final(self).nodes() == old(self).nodes(),
    {
        self.lights.push(light);
    }

    /// The lights.
    pub fn lights(&self) -> (r: &Vec<Light>)
        ensures
            r@ == self.spec_lights(),
    {
        &self.lights
    }

    /// The number of objects.
    pub fn len(&self) -> (r: usize)
        ensures
            r == self.nodes().len(),
    {
        self.world.len()
    }

    /// The object at `index`, if there is one.
    pub fn node(&self, index: usize) -> (r: Option<&SceneNode>)
        ensures
            r.is_some() == (index < self.nodes().len()),
            r.is_some() ==> *r.unwrap() == self.nodes()[index as int],
    {
        if index < self.world.len() {
            Some(&self.world[index])
        } else {
            None
        }
    }

    /// Whether a ray meets any object in front of its origin. `tois` holds,
    /// for each object that the ray may meet, the distance at which it does.
    pub fn intersects(&self, tois: &Vec<Option<Scalar>>) -> (r: bool)
        ensures
            r == exists|i: int| 0 <= i < tois@.len() && in_front(#[trigger] tois@[i]),
    {
        let mut i: usize = 0;
        while i < tois.len()
            invariant
                i <= tois.len(),
                forall|j: int| 0 <= j < i ==> !in_front(#[trigger] tois@[j]),
            decreases tois.len() - i,
        {
            if let Some(t) = tois[i] {
                if t.gt(Scalar::zero()) {
                    return true;
                }
            }
            i += 1;
        }
        false
    }

    /// The distances at which a ray meets the objects in front of its
    /// origin, in the order of the objects. `tois` is as for
    /// [`Self::intersects`].
    pub fn intersections(&self, tois: &Vec<Option<Scalar>>) -> (r: Vec<Scalar>)
        ensures
            r@ == in_front_below(tois@, tois@.len()),
    {
        let mut out: Vec<Scalar> = Vec::new();
        let mut i: usize = 0;
        while i < tois.len()
            invariant
                i <= tois.len(),
                out@ == in_front_below(tois@, i as nat),
            decreases tois.len() - i,
        {
            if let Some(t) = tois[i] {
                if t.gt(Scalar::zero()) {
                    out.push(t);
                }
            }
            i += 1;
        }
        out
    }

    /// The index in `hits` of the hit that a ray sees, if it sees any.
    /// `hits` holds, for each object that the ray may meet, the place where
    /// it does. A hit no farther than `t_min` is taken for the surface that
    /// the ray starts on and is not seen; [`crate::ray::Ray::offset`] is the
    /// distance to pass for a ray that leaves a surface.
    pub fn trace(&self, hits: &Vec<Option<Hit>>, t_min: Scalar) -> (r: Option<usize>)
        ensures
            match r {
                Some(i) => self.nearest(hits@, t_min, i as int),
                None => forall|j: int|
                    0 <= j < hits@.len() ==> !self.visible(#[trigger] hits@[j], t_min),
            },
            self.nodes().len() == 0 ==> r.is_none(),
            hits@.len() == 0 ==> r.is_none(),
    {
        let mut nearest_node: Option<usize> = None;
        let mut nearest_toi = Scalar::max_value();
        let mut i: usize = 0;
        while i < hits.len()
            invariant
                i <= hits.len(),
                match nearest_node {
                    Some(k) => {
                        &&& k < i
                        &&& self.visible(hits@[k as int], t_min)
                        &&& hits@[k as int].unwrap().toi == nearest_toi
                        &&& forall|j: int|
                            0 <= j < i && self.visible(#[trigger] hits@[j], t_min)
                                ==> nearest_toi.rank() <= hits@[j].unwrap().toi.rank()
                        &&& forall|j: int|
                            0 <= j < k && self.visible(#[trigger] hits@[j], t_min)
                                ==> nearest_toi.rank() < hits@[j].unwrap().toi.rank()
                    },
                    None => {
                        &&& nearest_toi.bits == MAX_BITS
                        &&& forall|j: int| 0 <= j < i ==> !self.visible(#[trigger] hits@[j], t_min)
                    },
                },
            decreases hits.len() - i,
        {
            if let Some(h) = hits[i] {
                if h.node < self.world.len() && h.toi.gt(t_min) && h.toi.lt(nearest_toi) {
                    nearest_node = Some(i);
                    nearest_toi = h.toi;
                }
            }
            i += 1;
        }
        nearest_node
    }

    /// What the integrators need to know of a hit: the place, the normal and
    /// the scattering function that the material of the object gives there.
    /// `point` is the place of the hit, `from_image` as for
    /// [`crate::texture::Texture::sample`]. There is nothing to know of a hit
    /// on an object that the scene does not hold.
    pub fn intersection(&self, hit: &Hit, point: Point, from_image: Spectrum) -> (r: Option<
        Intersection,
    >)
        ensures
            r.is_some() == (hit.node < self.nodes().len()),
            r.is_some() ==> {
                let isect = r.unwrap();
                &&& isect.point == point
                &&& isect.normal == hit.normal
                &&& match self.nodes()[hit.node as int].material {
                    Material::Diffuse(m) => is_diffuse(
                        isect.bsdf,
                        hit.normal,
                        m.spec_colour(from_image),
                    ),
                    Material::Glass(_) => is_glass(isect.bsdf, hit.normal),
                    Material::Mirror(_) => is_mirror(isect.bsdf, hit.normal),
                }
            },
    {
        if hit.node < self.world.len() {
            let bsdf = self.world[hit.node].material.get_bsdf(&hit.normal, &hit.uvs, from_image);
            Some(Intersection::new(point, hit.normal, bsdf))
        } else {
            None
        }
    }
}

/// A ray sees nothing in a scene without objects, whatever it is said to
/// hit.
pub proof fn lemma_empty_scene_hides_all(scene: Scene, hit: Option<Hit>, t_min: Scalar)
    requires
        scene.nodes().len() == 0,
    ensures
        !scene.visible(hit, t_min),
{
}

/// At most one hit is the one that a ray sees.
pub proof fn lemma_nearest_is_unique(
    scene: Scene,
    hits: Seq<Option<Hit>>,
    t_min: Scalar,
    i: int,
    j: int,
)
    requires
        scene.nearest(hits, t_min, i),
        scene.nearest(hits, t_min, j),
    ensures
        i == j,
{
}

} // verus!
