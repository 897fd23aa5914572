//! Light transport: what the two integrators decide at a surface point.
//!
//! An integrator adds up the light that leaves a surface point towards the
//! viewer. The sums and products are the caller's; here stand the decisions:
//! which light takes part, whether a secondary ray is traced, when a path
//! ends.

use crate::bxdf::{in_unit_interval, BxDF, BxDFType, Flag, Pdf, Selection, BSDF};
use crate::light::Light;
use crate::math::{Point, Scalar, Vector, HALF_BITS, ONE_BITS};
use crate::random::{choose_from, next_scalar};
use crate::ray::Ray;
use crate::scene::Scene;
use crate::spectrum::Spectrum;
use rand::StdRng;
use vstd::prelude::*;

verus! {

/// The number of bounces after which a path may be ended by chance.
pub const ROULETTE_AFTER: i32 = 3;

/// The terms that light arriving straight from a light source is scattered
/// by: all but the specular ones, which a light without extent never hits.
pub fn direct_lighting() -> (r: BxDFType)
    ensures
        forall|f: Flag| r@.contains(f) == (f != Flag::Specular),
{
    let all = BxDFType::from_bits_truncate(crate::bxdf::BSDF_ALL);
    proof {
        assert(31u32 & 1 != 0 && 31u32 & 2 != 0 && 31u32 & 4 != 0 && 31u32 & 8 != 0 && 31u32 & 16
            != 0) by (bit_vector);
        assert forall|f: Flag| all@.contains(f) by {
            match f {
                Flag::Reflection => {},
                Flag::Transmission => {},
                Flag::Diffuse => {},
                Flag::Glossy => {},
                Flag::Specular => {},
            }
        }
    }
    all.difference(BxDFType::of(Flag::Specular))
}

/// The factor by which light is weakened that arrives at the cosine
/// `cosine` to the normal: the cosine for light that arrives from the side
/// of the normal, and nothing for light that arrives along the surface or
/// from behind it.
pub open spec fn spec_incident_cosine(cosine: Scalar) -> Scalar {
    if cosine.spec_gt(Scalar { bits: 0 }) {
        cosine
    } else {
        Scalar { bits: 0 }
    }
}

/// See [`spec_incident_cosine`]: the larger of zero and the cosine.
pub fn incident_cosine(cosine: Scalar) -> (r: Scalar)
    ensures
        r == spec_incident_cosine(cosine),
        r == (Scalar { bits: 0 }).spec_max(cosine),
        !r.spec_is_nan(),
        r.spec_ge(Scalar { bits: 0 }),
{
    Scalar::zero().max(cosine)
}

/// Whether a light source adds anything at a surface point: light arrives
/// from it, the surface scatters some of it towards the viewer, the point
/// does not lie in its shadow, and the light arrives from the side of the
/// normal.
pub open spec fn lights(li: Spectrum, f: Spectrum, shadowed: bool, cosine: Scalar) -> bool {
    !li.spec_is_zero() && !f.spec_is_zero() && !shadowed && cosine.spec_gt(Scalar { bits: 0 })
}

/// The light that one light source adds at a surface point. `li` is the
/// light that arrives from the source, `f` the value of the scattering
/// function for the direction towards it, `shadowed` whether the point lies
/// in its shadow, `cosine` the cosine between the direction and the normal,
/// and `scattered` the product of `f`, `li` and [`incident_cosine`] of the
/// cosine. The source adds nothing where no light arrives, where none is
/// scattered towards the viewer, where the point lies in shadow, or where
/// the light arrives from behind the surface.
pub fn sample_light(
    li: &Spectrum,
    f: &Spectrum,
    shadowed: bool,
    cosine: Scalar,
    scattered: Spectrum,
) -> (r: Spectrum)
    ensures
        r == if lights(*li, *f, shadowed, cosine) {
            scattered
        } else {
            (Vector { x: Scalar { bits: 0 }, y: Scalar { bits: 0 }, z: Scalar { bits: 0 } })
        },
        !cosine.spec_gt(Scalar { bits: 0 }) ==> r.spec_is_zero(),
{
    if li.is_zero() || f.is_zero() || shadowed || !cosine.gt(Scalar::zero()) {
        Vector::zero()
    } else {
        scattered
    }
}

/// Chooses the one light source that a path samples at a surface point,
/// and gives with it the number of sources, by which its contribution is
/// scaled. A scene without lights has none to choose.
pub fn sample_one_light<'a>(scene: &'a Scene, rng: &mut StdRng) -> (r: Option<(&'a Light, usize)>)
    ensures
        r.is_none() == (scene.spec_lights().len() == 0),
        r.is_some() ==> scene.spec_lights().contains(*r.unwrap().0) && r.unwrap().1
            == scene.spec_lights().len(),
{
    let lights = scene.lights();
    let nlights = lights.len();
    if nlights == 0 {
        return None;
    }
    match choose_from(rng, lights) {
        Some(light) => Some((light, nlights)),
        None => None,
    }
}

/// Chooses the term that reflects light like a mirror, if the scattering
/// function has one.
pub fn specular_reflect(bsdf: &BSDF, rng: &mut StdRng) -> (r: Option<Selection>)
    ensures
        r.is_none() == (forall|i: int|
            0 <= i < bsdf.terms().len() ==> !(#[trigger] bsdf.terms()[i] is SpecularReflection)),
        r.is_some() ==> {
            let s = r.unwrap();
            &&& s.chosen < bsdf.terms().len()
            &&& bsdf.terms()[s.chosen as int] is SpecularReflection
            &&& s.bxdf_type@ == bsdf.terms()[s.chosen as int].flags()
            &&& s.matching@.contains(s.chosen)
            &&& forall|k: int|
                0 <= k < s.matching@.len() ==> (#[trigger] s.matching@[k]) < bsdf.terms().len()
                    && bsdf.terms()[s.matching@[k] as int] is SpecularReflection
            &&& in_unit_interval(s.u.0)
            &&& in_unit_interval(s.u.1)
        },
{
    let flags = BxDFType::of(Flag::Reflection).union(BxDFType::of(Flag::Specular));
    let n = bsdf.len();
    proof {
        crate::bxdf::lemma_matching_below(bsdf.terms(), flags@, n as nat);
        assert forall|i: int| 0 <= i < bsdf.terms().len() implies (#[trigger] bsdf.terms()[i]).matches(
            flags@,
        ) == (bsdf.terms()[i] is SpecularReflection) by {
            lemma_specular_flags(bsdf.terms()[i]);
        }
    }
    let r = bsdf.sample_f(rng, flags);
    proof {
        if r.is_none() {
            assert forall|i: int| 0 <= i < bsdf.terms().len() implies !(
            #[trigger] bsdf.terms()[i] is SpecularReflection) by {
                if bsdf.terms()[i] is SpecularReflection {
                    assert(bsdf.terms()[i].matches(flags@));
                    assert(bsdf.matching(flags@).contains(i as usize));
                }
            }
        }
    }
    r
}

/// Chooses the term that lets light through like clear glass, if the
/// scattering function has one.
pub fn specular_transmit(bsdf: &BSDF, rng: &mut StdRng) -> (r: Option<Selection>)
    ensures
        r.is_none() == (forall|i: int|
            0 <= i < bsdf.terms().len() ==> !(#[trigger] bsdf.terms()[i] is SpecularTransmission)),
        r.is_some() ==> {
            let s = r.unwrap();
            &&& s.chosen < bsdf.terms().len()
            &&& bsdf.terms()[s.chosen as int] is SpecularTransmission
            &&& s.bxdf_type@ == bsdf.terms()[s.chosen as int].flags()
            &&& s.matching@.contains(s.chosen)
            &&& forall|k: int|
                0 <= k < s.matching@.len() ==> (#[trigger] s.matching@[k]) < bsdf.terms().len()
                    && bsdf.terms()[s.matching@[k] as int] is SpecularTransmission
            &&& in_unit_interval(s.u.0)
            &&& in_unit_interval(s.u.1)
        },
{
    let flags = BxDFType::of(Flag::Transmission).union(BxDFType::of(Flag::Specular));
    let n = bsdf.len();
    proof {
        crate::bxdf::lemma_matching_below(bsdf.terms(), flags@, n as nat);
        assert forall|i: int| 0 <= i < bsdf.terms().len() implies (#[trigger] bsdf.terms()[i]).matches(
            flags@,
        ) == (bsdf.terms()[i] is SpecularTransmission) by {
            lemma_specular_flags(bsdf.terms()[i]);
        }
    }
    let r = bsdf.sample_f(rng, flags);
    proof {
        if r.is_none() {
            assert forall|i: int| 0 <= i < bsdf.terms().len() implies !(
            #[trigger] bsdf.terms()[i] is SpecularTransmission) by {
                if bsdf.terms()[i] is SpecularTransmission {
                    assert(bsdf.terms()[i].matches(flags@));
                    assert(bsdf.matching(flags@).contains(i as usize));
                }
            }
        }
    }
    r
}

/// A query for specular reflection takes the mirror terms and no others, a
/// query for specular transmission the transmitting terms and no others.
pub proof fn lemma_specular_flags(term: BxDF)
    ensures
        term.matches(Set::<Flag>::empty().insert(Flag::Reflection).union(
            Set::<Flag>::empty().insert(Flag::Specular),
        )) == (term is SpecularReflection),
        term.matches(Set::<Flag>::empty().insert(Flag::Transmission).union(
            Set::<Flag>::empty().insert(Flag::Specular),
        )) == (term is SpecularTransmission),
{
    let reflect = Set::<Flag>::empty().insert(Flag::Reflection).union(
        Set::<Flag>::empty().insert(Flag::Specular),
    );
    let transmit = Set::<Flag>::empty().insert(Flag::Transmission).union(
        Set::<Flag>::empty().insert(Flag::Specular),
    );
    match term {
        BxDF::Lambertian(_) => {
            assert(term.flags().contains(Flag::Diffuse));
            assert(!reflect.contains(Flag::Diffuse));
            assert(!transmit.contains(Flag::Diffuse));
        },
        BxDF::SpecularReflection(_) => {
            assert(term.flags().contains(Flag::Reflection));
            assert(!transmit.contains(Flag::Reflection));
        },
        BxDF::SpecularTransmission(_) => {
            assert(term.flags().contains(Flag::Transmission));
            assert(!reflect.contains(Flag::Transmission));
        },
    }
}

/// Whether a sampled direction carries light: the density is positive, the
/// value is not zero, and the direction does not graze the surface.
/// `cosine` is the cosine between the direction and the normal.
pub open spec fn carries_light(f: Spectrum, pdf: Pdf, cosine: Scalar) -> bool {
    pdf.spec_gt(Scalar { bits: 0 }) && !f.spec_is_zero() && !cosine.spec_equals(Scalar { bits: 0 })
}

/// See [`carries_light`].
pub fn sample_carries_light(f: &Spectrum, pdf: Pdf, cosine: Scalar) -> (r: bool)
    ensures
        r == carries_light(*f, pdf, cosine),
{
    pdf.gt(Scalar::zero()) && !f.is_zero() && !cosine.equals(Scalar::zero())
}

/// The secondary ray that follows a specular bounce of `ray`, if the
/// sampled direction `wi` carries light. `f`, `pdf` and `cosine` are as for
/// [`carries_light`]; `origin` is the surface point, moved a little along
/// `wi` so that the new ray does not meet the surface that it leaves.
pub fn specular_ray(ray: &Ray, f: &Spectrum, pdf: Pdf, cosine: Scalar, origin: Point, wi: Vector)
    -> (r: Option<Ray>)
    requires
        carries_light(*f, pdf, cosine) ==> ray.depth < i32::MAX,
    ensures
        r == if carries_light(*f, pdf, cosine) {
            Some(Ray { orig: origin, dir: wi, depth: (ray.depth + 1) as i32 })
        } else {
            None
        },
{
    if sample_carries_light(f, pdf, cosine) {
        Some(Ray::new_with_depth(origin, wi, ray.depth + 1))
    } else {
        None
    }
}

/// The integrator after Whitted: direct lighting, and mirror reflection
/// and refraction followed recursively down to a depth.
#[derive(Clone, Copy, Debug)]
pub struct Whitted {
    depth: i32,
}

impl Whitted {
    pub closed spec fn spec_depth(&self) -> i32 {
        self.depth
    }

    /// Whether the secondary rays of `ray` are traced: the ray has not
    /// reached the depth.
    pub open spec fn spec_recurses(&self, ray: Ray) -> bool {
        ray.depth < self.spec_depth()
    }

    /// The integrator of the given depth.
    pub closed spec fn spec_new(depth: i32) -> Whitted {
        Whitted { depth }
    }

    #[verifier::when_used_as_spec(spec_new)]
    pub fn new(depth: i32) -> (r: Whitted)
        ensures
            r == Self::spec_new(depth),
            r.spec_depth() == depth,
    {
        Whitted { depth }
    }

    #[verifier::when_used_as_spec(spec_depth)]
    pub fn depth(&self) -> (r: i32)
        ensures
            r == self.spec_depth(),
    {
        self.depth
    }

    /// What is added up at the surface point that `ray` has hit: always the
    /// direct lighting, through the terms of the mask that is returned
    /// first; and, where a depth is returned with it, the light that
    /// arrives along the reflected and the refracted ray, which are traced
    /// at that depth.
    pub fn integrate(&self, ray: &Ray) -> (r: (BxDFType, Option<i32>))
        ensures
            forall|f: Flag| r.0@.contains(f) == (f != Flag::Specular),
            r.1 == if self.spec_recurses(*ray) {
                Some((ray.depth + 1) as i32)
            } else {
                None
            },
    {
        let lights = direct_lighting();
        if ray.depth < self.depth {
            (lights, Some(ray.depth + 1))
        } else {
            (lights, None)
        }
    }
}

/// What the game of chance that ends long paths has decided.
#[derive(Clone, Copy, Debug)]
pub enum Roulette {
    /// The path is too short for the game: nothing changes.
    NotPlayed,
    /// The path ends here.
    Killed,
    /// The path goes on, and its throughput is divided by the probability
    /// of survival that is given.
    Survived(Scalar),
}

/// The path tracer: one light and one scattered direction are sampled at
/// each surface point, and the path is followed down to a depth, or until
/// it is ended by chance.
#[derive(Clone, Copy, Debug)]
pub struct PathTraced {
    depth: i32,
}

impl PathTraced {
    pub closed spec fn spec_depth(&self) -> i32 {
        self.depth
    }

    /// Whether a path goes on after the scattering function was sampled:
    /// the sample has a value and a density.
    pub open spec fn spec_scatters(f: Spectrum, pdf: Pdf) -> bool {
        !(f.spec_is_zero() || pdf.spec_equals(Scalar { bits: 0 }))
    }

    /// The probability with which a path of the given luminance survives
    /// the game of chance.
    pub open spec fn survival(luminance: Scalar) -> Scalar {
        (Scalar { bits: HALF_BITS }).spec_min(luminance)
    }

    /// The game of chance after `bounce` bounces, for a throughput of the
    /// given luminance and a draw `u` from the unit interval.
    pub open spec fn spec_roulette(bounce: i32, luminance: Scalar, u: Scalar) -> Roulette {
        if bounce > ROULETTE_AFTER {
            if u.spec_gt(Self::survival(luminance)) {
                Roulette::Killed
            } else {
                Roulette::Survived(Self::survival(luminance))
            }
        } else {
            Roulette::NotPlayed
        }
    }

    /// The number of the bounce that follows bounce number `bounce`, if the
    /// path may go on.
    pub open spec fn spec_next_bounce(depth: int, bounce: int) -> Option<int> {
        if bounce == depth {
            None
        } else {
            Some(bounce + 1)
        }
    }

    /// The number of the bounce at the vertex that a path reaches after `k`
    /// steps, if it can make that many.
    pub open spec fn bounce_after(depth: int, k: nat) -> Option<int>
        decreases k,
    {
        if k == 0 {
            Some(0)
        } else {
            match Self::bounce_after(depth, (k - 1) as nat) {
                Some(b) => Self::spec_next_bounce(depth, b),
                None => None,
            }
        }
    }

    /// The integrator of the given depth.
    pub closed spec fn spec_new(depth: i32) -> PathTraced {
        PathTraced { depth }
    }

    #[verifier::when_used_as_spec(spec_new)]
    pub fn new(depth: i32) -> (r: PathTraced)
        ensures
            r == Self::spec_new(depth),
            r.spec_depth() == depth,
    {
        PathTraced { depth }
    }

    #[verifier::when_used_as_spec(spec_depth)]
    pub fn depth(&self) -> (r: i32)
        ensures
            r == self.spec_depth(),
    {
        self.depth
    }

    /// The state in which a path starts at the first surface point, and
    /// its throughput there, which is one in every channel.
    pub fn integrate(&self) -> (r: (PathState, Spectrum))
        ensures
            r.0 == path_start(),
            r.1 == (Vector {
                x: Scalar { bits: ONE_BITS },
                y: Scalar { bits: ONE_BITS },
                z: Scalar { bits: ONE_BITS },
            }),
    {
        (
            PathState { bounce: 0, phase: PathPhase::Sampling },
            Vector::new(Scalar::one(), Scalar::one(), Scalar::one()),
        )
    }

    /// See [`Self::spec_scatters`].
    pub fn scatters(f: &Spectrum, pdf: Pdf) -> (r: bool)
        ensures
            r == Self::spec_scatters(*f, pdf),
    {
        !(f.is_zero() || pdf.equals(Scalar::zero()))
    }

    /// See [`Self::spec_roulette`]. Up to the third bounce the game is not
    /// played, whatever the luminance and the draw.
    pub fn roulette(bounce: i32, luminance: Scalar, u: Scalar) -> (r: Roulette)
        ensures
            r == Self::spec_roulette(bounce, luminance, u),
            bounce <= ROULETTE_AFTER ==> r == Roulette::NotPlayed,
            bounce > ROULETTE_AFTER ==> r != Roulette::NotPlayed,
    {
        if bounce > ROULETTE_AFTER {
            let continue_probability = Scalar::half().min(luminance);
            if u.gt(continue_probability) {
                Roulette::Killed
            } else {
                Roulette::Survived(continue_probability)
            }
        } else {
            Roulette::NotPlayed
        }
    }

    /// See [`Self::spec_next_bounce`]: the path ends at the bounce whose
    /// number is the depth.
    pub fn next_bounce(&self, bounce: i32) -> (r: Option<i32>)
        requires
            bounce != self.spec_depth() ==> bounce < i32::MAX,
        ensures
            r.is_some() == (bounce != self.spec_depth()),
            r.is_some() ==> r.unwrap() == bounce + 1,
            match Self::spec_next_bounce(self.spec_depth() as int, bounce as int) {
                Some(b) => r == Some(b as i32),
                None => r.is_none(),
            },
    {
        if bounce == self.depth {
            None
        } else {
            Some(bounce + 1)
        }
    }
}

/// A path never goes beyond the depth. With a depth that is not negative,
/// the vertex after `k` steps has bounce number `k`, and there is such a
/// vertex only for `k` up to the depth: the bounce number stays within the
/// depth and a path has at most one vertex more than the depth.
pub proof fn lemma_path_is_bounded(depth: int, k: nat)
    requires
        depth >= 0,
    ensures
        PathTraced::bounce_after(depth, k) == if k <= depth {
            Some(k as int)
        } else {
            None
        },
        PathTraced::bounce_after(depth, k) matches Some(b) ==> 0 <= b <= depth,
    decreases k,
{
    if k > 0 {
        lemma_path_is_bounded(depth, (k - 1) as nat);
    }
}

/// Where a path stands at a vertex.
#[derive(Clone, Copy, Debug, PartialEq, Eq, Structural)]
pub enum PathPhase {
    /// The vertex is being lit and its scattering function sampled.
    Sampling,
    /// The game of chance is being played.
    Rolling,
    /// The ray to the next vertex is being traced.
    Tracing,
    /// The path has ended.
    Finished,
}

/// A path under way: how many bounces it has made, and where it stands at
/// its last vertex.
#[derive(Clone, Copy, Debug)]
pub struct PathState {
    pub bounce: i32,
    pub phase: PathPhase,
}

/// What has happened to a path since it was last looked at.
#[derive(Clone, Copy, Debug)]
pub enum PathEvent {
    /// The scattering function was sampled, with this value and density.
    Sampled { f: Spectrum, pdf: Pdf },
    /// The throughput was updated, to this luminance, and a number was
    /// drawn from the unit interval.
    Rolled { luminance: Scalar, u: Scalar },
    /// The ray to the next vertex was traced, and has or has not hit an
    /// object.
    Traced { hit: bool },
}

/// What is to be done with a path next.
#[derive(Clone, Copy, Debug)]
pub enum PathAction {
    /// Nothing more: the light gathered so far is the light of the path.
    Finish,
    /// Scale the throughput by what was sampled, take its luminance, draw a
    /// number and report both.
    Roll,
    /// Trace the ray to the next vertex and report what it hits. Before
    /// that, scale the throughput by what was sampled, if that has not
    /// been done for the game of chance; if the game was played, divide the
    /// throughput by the probability of survival that is given.
    Trace { survival: Option<Scalar> },
    /// Light the new vertex, sample its scattering function and report the
    /// sample.
    Bounce,
}

/// A path that has ended.
pub open spec fn finished(state: PathState) -> (PathState, PathAction) {
    (PathState { bounce: state.bounce, phase: PathPhase::Finished }, PathAction::Finish)
}

/// A path at the last decision before the next ray: it ends at the bounce
/// whose number is the depth, and else the ray is traced.
pub open spec fn at_depth(depth: i32, state: PathState, survival: Option<Scalar>) -> (
    PathState,
    PathAction,
) {
    if state.bounce == depth {
        finished(state)
    } else {
        (
            PathState { bounce: state.bounce, phase: PathPhase::Tracing },
            PathAction::Trace { survival },
        )
    }
}

/// The step that a path of the given depth takes on an event. A sample
/// without value or density ends the path. After more than three bounces
/// the game of chance is played, and may end it. It ends at the depth, and
/// where its ray leaves the scene. An event that the path is not waiting
/// for ends it too.
pub open spec fn spec_path_bounce(depth: i32, state: PathState, event: PathEvent) -> (
    PathState,
    PathAction,
) {
    match (state.phase, event) {
        (PathPhase::Sampling, PathEvent::Sampled { f, pdf }) => {
            if !PathTraced::spec_scatters(f, pdf) {
                finished(state)
            } else if state.bounce > ROULETTE_AFTER {
                (PathState { bounce: state.bounce, phase: PathPhase::Rolling }, PathAction::Roll)
            } else {
                at_depth(depth, state, None)
            }
        },
        (PathPhase::Rolling, PathEvent::Rolled { luminance, u }) => {
            match PathTraced::spec_roulette(state.bounce, luminance, u) {
                Roulette::Killed => finished(state),
                Roulette::Survived(q) => at_depth(depth, state, Some(q)),
                Roulette::NotPlayed => at_depth(depth, state, None),
            }
        },
        (PathPhase::Tracing, PathEvent::Traced { hit }) => {
            if hit {
                (
                    PathState { bounce: (state.bounce + 1) as i32, phase: PathPhase::Sampling },
                    PathAction::Bounce,
                )
            } else {
                finished(state)
            }
        },
        _ => finished(state),
    }
}

/// The state of a path after a run of events.
pub open spec fn path_after(depth: i32, state: PathState, events: Seq<PathEvent>) -> PathState
    decreases events.len(),
{
    if events.len() == 0 {
        state
    } else {
        spec_path_bounce(depth, path_after(depth, state, events.drop_last()), events.last()).0
    }
}

/// The state in which every path starts: no bounce made, at the first
/// vertex.
pub open spec fn path_start() -> PathState {
    PathState { bounce: 0, phase: PathPhase::Sampling }
}

/// See [`spec_path_bounce`].
pub fn path_bounce(tracer: &PathTraced, state: PathState, event: PathEvent) -> (r: (
    PathState,
    PathAction,
))
    requires
        state.phase == PathPhase::Tracing && event == (PathEvent::Traced { hit: true })
            ==> state.bounce < i32::MAX,
    ensures
        r == spec_path_bounce(tracer.spec_depth(), state, event),
{
    let end = (PathState { bounce: state.bounce, phase: PathPhase::Finished }, PathAction::Finish);
    match (state.phase, event) {
        (PathPhase::Sampling, PathEvent::Sampled { f, pdf }) => {
            if !PathTraced::scatters(&f, pdf) {
                end
            } else if state.bounce > ROULETTE_AFTER {
                (PathState { bounce: state.bounce, phase: PathPhase::Rolling }, PathAction::Roll)
            } else if state.bounce == tracer.depth {
                end
            } else {
                (
                    PathState { bounce: state.bounce, phase: PathPhase::Tracing },
                    PathAction::Trace { survival: None },
                )
            }
        },
        (PathPhase::Rolling, PathEvent::Rolled { luminance, u }) => {
            let survival = match PathTraced::roulette(state.bounce, luminance, u) {
                Roulette::Killed => {
                    return end;
                },
                Roulette::Survived(q) => Some(q),
                Roulette::NotPlayed => None,
            };
            if state.bounce == tracer.depth {
                end
            } else {
                (
                    PathState { bounce: state.bounce, phase: PathPhase::Tracing },
                    PathAction::Trace { survival },
                )
            }
        },
        (PathPhase::Tracing, PathEvent::Traced { hit }) => {
            if hit {
                (
                    PathState { bounce: state.bounce + 1, phase: PathPhase::Sampling },
                    PathAction::Bounce,
                )
            } else {
                end
            }
        },
        _ => end,
    }
}

/// A path survives the game of chance with a probability that is neither
/// above one half nor above the luminance of its throughput: it is the
/// smaller of the two.
pub proof fn lemma_survival_is_bounded(luminance: Scalar)
    requires
        !luminance.spec_is_nan(),
    ensures
        PathTraced::survival(luminance).spec_le(Scalar { bits: HALF_BITS }),
        PathTraced::survival(luminance).spec_le(luminance),
        PathTraced::survival(luminance) == luminance || PathTraced::survival(luminance) == (Scalar {
            bits: HALF_BITS,
        }),
{
}

/// Draws the number for the game of chance and reports it with the
/// luminance of the throughput.
pub fn roll(rng: &mut StdRng, luminance: Scalar) -> (r: PathEvent)
    ensures
        r matches PathEvent::Rolled { luminance: l, u } && l == luminance && in_unit_interval(u),
{
    PathEvent::Rolled { luminance, u: next_scalar(rng) }
}

/// Whether a path of the given depth is within bounds: its bounce number
/// is not negative and not beyond the depth, and it is below the depth
/// while the path waits for its next ray.
pub open spec fn within_depth(depth: i32, state: PathState) -> bool {
    &&& 0 <= state.bounce <= depth
    &&& state.phase == PathPhase::Tracing ==> state.bounce < depth
}

/// No step takes a path out of bounds.
pub proof fn lemma_step_stays_within_depth(depth: i32, state: PathState, event: PathEvent)
    requires
        within_depth(depth, state),
    ensures
        within_depth(depth, spec_path_bounce(depth, state, event).0),
{
}

/// A path never goes beyond the depth: whatever happens to a path that
/// starts at the first vertex, its bounce number stays within the depth.
pub proof fn lemma_path_stays_within_depth(depth: i32, events: Seq<PathEvent>)
    requires
        depth >= 0,
    ensures
        0 <= path_after(depth, path_start(), events).bounce <= depth,
        within_depth(depth, path_after(depth, path_start(), events)),
    decreases events.len(),
{
    if events.len() > 0 {
        lemma_path_stays_within_depth(depth, events.drop_last());
        lemma_step_stays_within_depth(
            depth,
            path_after(depth, path_start(), events.drop_last()),
            events.last(),
        );
    }
}

/// At the depth no ray is traced: a path whose bounce number is the depth
/// and that is not already waiting for a ray is never told to trace one
/// nor to go on to a next vertex, whatever was sampled and whatever the
/// game of chance gave, and its bounce number stays the depth.
pub proof fn lemma_no_ray_at_depth(depth: i32, state: PathState, event: PathEvent)
    requires
        state.bounce == depth,
        state.phase != PathPhase::Tracing,
    ensures
        !(spec_path_bounce(depth, state, event).1 is Trace),
        !(spec_path_bounce(depth, state, event).1 is Bounce),
        spec_path_bounce(depth, state, event).0.bounce == depth,
        spec_path_bounce(depth, state, event).0.phase != PathPhase::Tracing,
{
}

/// The game of chance is played only after the third bounce: a step on a
/// path that has made no more than three bounces neither asks for the game
/// nor changes the throughput through it.
pub proof fn lemma_roulette_waits(depth: i32, state: PathState, event: PathEvent)
    requires
        state.bounce <= ROULETTE_AFTER,
    ensures
        !(spec_path_bounce(depth, state, event).1 is Roll),
        spec_path_bounce(depth, state, event).1 matches PathAction::Trace { survival }
            ==> survival.is_none(),
{
}

/// An integrator.
#[derive(Clone, Copy, Debug)]
pub enum Integrator {
    Whitted(Whitted),
    PathTraced(PathTraced),
}

} // verus!
