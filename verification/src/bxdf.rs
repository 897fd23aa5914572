//! Scattering at a surface point: the kinds of scattering terms, the mask
//! that classifies them, and the choice of the terms that take part in an
//! evaluation or a sample.

use crate::math::{Clamp, Scalar, Vector, ONE_BITS};
use crate::random::{choose_from, next_scalar};
use crate::spectrum::Spectrum;
use rand::StdRng;
use vstd::prelude::*;

verus! {

pub const BSDF_REFLECTION: u32 = 0b0000_0001;

pub const BSDF_TRANSMISSION: u32 = 0b0000_0010;

pub const BSDF_DIFFUSE: u32 = 0b0000_0100;

pub const BSDF_GLOSSY: u32 = 0b0000_1000;

pub const BSDF_SPECULAR: u32 = 0b0001_0000;

pub const BSDF_ALL_TYPES: u32 = 0b0001_1100;

pub const BSDF_ALL_REFLECTION: u32 = 0b0001_1101;

pub const BSDF_ALL_TRANSMISSION: u32 = 0b0001_1110;

pub const BSDF_ALL: u32 = 0b0001_1111;

/// One property of a scattering term.
#[derive(Clone, Copy, Debug, PartialEq, Eq, Structural)]
pub enum Flag {
    Reflection,
    Transmission,
    Diffuse,
    Glossy,
    Specular,
}

impl Flag {
    /// The bit that stands for the flag in a mask.
    pub open spec fn spec_mask(self) -> u32 {
        match self {
            Flag::Reflection => BSDF_REFLECTION,
            Flag::Transmission => BSDF_TRANSMISSION,
            Flag::Diffuse => BSDF_DIFFUSE,
            Flag::Glossy => BSDF_GLOSSY,
            Flag::Specular => BSDF_SPECULAR,
        }
    }

    #[verifier::when_used_as_spec(spec_mask)]
    pub fn mask(self) -> (r: u32)
        ensures
            r == self.spec_mask(),
    {
        match self {
            Flag::Reflection => BSDF_REFLECTION,
            Flag::Transmission => BSDF_TRANSMISSION,
            Flag::Diffuse => BSDF_DIFFUSE,
            Flag::Glossy => BSDF_GLOSSY,
            Flag::Specular => BSDF_SPECULAR,
        }
    }
}

/// A set of flags, held as a bit mask. It classifies a scattering term, or
/// says which terms a query asks for.
#[derive(Clone, Copy, Debug, PartialEq, Eq, Structural)]
pub struct BxDFType {
    bits: u32,
}

impl View for BxDFType {
    type V = Set<Flag>;

    closed spec fn view(&self) -> Set<Flag> {
        Set::new(|f: Flag| self.bits & f.spec_mask() != 0)
    }
}

/// The bit of one flag in the union, the intersection and the difference of
/// two masks, and in a mask that was cut down to the five flags.
proof fn lemma_single_bits(a: u32, b: u32, m: u32)
    requires
        m == 1 || m == 2 || m == 4 || m == 8 || m == 16,
    ensures
        ((a | b) & m != 0) == ((a & m != 0) || (b & m != 0)),
        ((a & b) & m != 0) == ((a & m != 0) && (b & m != 0)),
        ((a & !b) & m != 0) == ((a & m != 0) && !(b & m != 0)),
        a <= 31 && b <= 31 ==> (a | b) <= 31 && (a & b) <= 31 && (a & !b) <= 31,
        (a & 31) <= 31,
        ((a & 31) & m != 0) == (a & m != 0),
{
    assert(((a | b) & m != 0) == ((a & m != 0) || (b & m != 0))) by (bit_vector);
    assert(((a & b) & m != 0) == ((a & m != 0) && (b & m != 0))) by (bit_vector)
        requires
            m == 1 || m == 2 || m == 4 || m == 8 || m == 16,
    ;
    assert(((a & !b) & m != 0) == ((a & m != 0) && !(b & m != 0))) by (bit_vector)
        requires
            m == 1 || m == 2 || m == 4 || m == 8 || m == 16,
    ;
    assert(a <= 31 && b <= 31 ==> (a | b) <= 31 && (a & b) <= 31 && (a & !b) <= 31)
        by (bit_vector);
    assert((a & 31) <= 31) by (bit_vector);
    assert(((a & 31) & m != 0) == (a & m != 0)) by (bit_vector)
        requires
            m == 1 || m == 2 || m == 4 || m == 8 || m == 16,
    ;
}

/// Inclusion, disjointness and equality of two masks, flag by flag.
proof fn lemma_each_bit(a: u32, b: u32)
    requires
        a <= 31,
        b <= 31,
    ensures
        (a & b == a) == ((a & 1 != 0 ==> b & 1 != 0) && (a & 2 != 0 ==> b & 2 != 0) && (a & 4 != 0
            ==> b & 4 != 0) && (a & 8 != 0 ==> b & 8 != 0) && (a & 16 != 0 ==> b & 16 != 0)),
        (a & b == 0) == (!(a & 1 != 0 && b & 1 != 0) && !(a & 2 != 0 && b & 2 != 0) && !(a & 4 != 0
            && b & 4 != 0) && !(a & 8 != 0 && b & 8 != 0) && !(a & 16 != 0 && b & 16 != 0)),
        (a == b) == (((a & 1 != 0) == (b & 1 != 0)) && ((a & 2 != 0) == (b & 2 != 0)) && ((a & 4
            != 0) == (b & 4 != 0)) && ((a & 8 != 0) == (b & 8 != 0)) && ((a & 16 != 0) == (b & 16
            != 0))),
{
    assert((a & b == a) == ((a & 1 != 0 ==> b & 1 != 0) && (a & 2 != 0 ==> b & 2 != 0) && (a & 4
        != 0 ==> b & 4 != 0) && (a & 8 != 0 ==> b & 8 != 0) && (a & 16 != 0 ==> b & 16 != 0)))
        by (bit_vector)
        requires
            a <= 31,
            b <= 31,
    ;
    assert((a & b == 0) == (!(a & 1 != 0 && b & 1 != 0) && !(a & 2 != 0 && b & 2 != 0) && !(a & 4
        != 0 && b & 4 != 0) && !(a & 8 != 0 && b & 8 != 0) && !(a & 16 != 0 && b & 16 != 0)))
        by (bit_vector)
        requires
            a <= 31,
            b <= 31,
    ;
    assert((a == b) == (((a & 1 != 0) == (b & 1 != 0)) && ((a & 2 != 0) == (b & 2 != 0)) && ((a
        & 4 != 0) == (b & 4 != 0)) && ((a & 8 != 0) == (b & 8 != 0)) && ((a & 16 != 0) == (b & 16
        != 0)))) by (bit_vector)
        requires
            a <= 31,
            b <= 31,
    ;
}

impl BxDFType {
    #[verifier::type_invariant]
    spec fn in_range(self) -> bool {
        self.bits <= BSDF_ALL
    }

    /// The mask with the bits that `bits` has among the five flags.
    pub fn from_bits_truncate(bits: u32) -> (r: BxDFType)
        ensures
            forall|f: Flag| r@.contains(f) == (bits & f.spec_mask() != 0),
    {
        proof {
            assert(bits & 31 <= 31) by (bit_vector);
        }
        let r = BxDFType { bits: bits & BSDF_ALL };
        proof {
            assert forall|f: Flag| r@.contains(f) == (bits & f.spec_mask() != 0) by {
                lemma_single_bits(bits, 0, f.spec_mask());
            }
        }
        r
    }

    /// The mask with exactly the bits of `bits`, if they are all flags.
    pub fn from_bits(bits: u32) -> (r: Option<BxDFType>)
        ensures
            r.is_some() == (bits <= BSDF_ALL),
            r.is_some() ==> forall|f: Flag| r.unwrap()@.contains(f) == (bits & f.spec_mask() != 0),
    {
        if bits <= BSDF_ALL {
            Some(BxDFType { bits })
        } else {
            None
        }
    }

    /// The mask as bits.
    pub fn bits(self) -> (r: u32)
        ensures
            r <= BSDF_ALL,
            forall|f: Flag| self@.contains(f) == (r & f.spec_mask() != 0),
    {
        proof {
            use_type_invariant(self);
        }
        self.bits
    }

    /// No flag.
    pub fn empty() -> (r: BxDFType)
        ensures
            r@ == Set::<Flag>::empty(),
    {
        let r = BxDFType { bits: 0 };
        proof {
            assert forall|f: Flag| !r@.contains(f) by {
                let m = f.spec_mask();
                assert(0u32 & m == 0) by (bit_vector);
            }
            assert(r@ =~= Set::<Flag>::empty());
        }
        r
    }

    /// The one flag.
    pub fn of(flag: Flag) -> (r: BxDFType)
        ensures
            r@ == Set::<Flag>::empty().insert(flag),
    {
        let r = BxDFType { bits: flag.mask() };
        proof {
            let m = flag.spec_mask();
            assert forall|f: Flag| r@.contains(f) == (f == flag) by {
                let n = f.spec_mask();
                assert((m == 1 || m == 2 || m == 4 || m == 8 || m == 16) && (n == 1 || n == 2 || n
                    == 4 || n == 8 || n == 16) ==> (m & n != 0) == (m == n)) by (bit_vector);
            }
            assert(r@ =~= Set::<Flag>::empty().insert(flag));
        }
        r
    }

    /// The flags of either mask.
    pub fn union(self, other: BxDFType) -> (r: BxDFType)
        ensures
            r@ == self@.union(other@),
    {
        proof {
            use_type_invariant(self);
            use_type_invariant(other);
            lemma_single_bits(self.bits, other.bits, 1);
        }
        let r = BxDFType { bits: self.bits | other.bits };
        proof {
            assert forall|f: Flag| r@.contains(f) == (self@.contains(f) || other@.contains(f)) by {
                lemma_single_bits(self.bits, other.bits, f.spec_mask());
            }
            assert(r@ =~= self@.union(other@));
        }
        r
    }

    /// The flags of both masks.
    pub fn intersection(self, other: BxDFType) -> (r: BxDFType)
        ensures
            r@ == self@.intersect(other@),
    {
        proof {
            use_type_invariant(self);
            use_type_invariant(other);
            lemma_single_bits(self.bits, other.bits, 1);
        }
        let r = BxDFType { bits: self.bits & other.bits };
        proof {
            assert forall|f: Flag| r@.contains(f) == (self@.contains(f) && other@.contains(f)) by {
                lemma_single_bits(self.bits, other.bits, f.spec_mask());
            }
            assert(r@ =~= self@.intersect(other@));
        }
        r
    }

    /// The flags of this mask that `other` lacks.
    pub fn difference(self, other: BxDFType) -> (r: BxDFType)
        ensures
            r@ == self@.difference(other@),
    {
        proof {
            use_type_invariant(self);
            use_type_invariant(other);
            lemma_single_bits(self.bits, other.bits, 1);
        }
        let r = BxDFType { bits: self.bits & !other.bits };
        proof {
            assert forall|f: Flag| r@.contains(f) == (self@.contains(f) && !other@.contains(f)) by {
                lemma_single_bits(self.bits, other.bits, f.spec_mask());
            }
            assert(r@ =~= self@.difference(other@));
        }
        r
    }

    /// Whether the mask has no flag.
    pub fn is_empty(self) -> (r: bool)
        ensures
            r == (self@ == Set::<Flag>::empty()),
    {
        proof {
            use_type_invariant(self);
            lemma_each_bit(self.bits, 0);
            assert(0u32 & 1 == 0 && 0u32 & 2 == 0 && 0u32 & 4 == 0 && 0u32 & 8 == 0 && 0u32 & 16
                == 0) by (bit_vector);
            if self.bits == 0 {
                assert forall|f: Flag| !self@.contains(f) by {
                    let m = f.spec_mask();
                    assert(0u32 & m == 0) by (bit_vector);
                }
                assert(self@ =~= Set::<Flag>::empty());
            } else {
                assert(self@.contains(Flag::Reflection) || self@.contains(Flag::Transmission)
                    || self@.contains(Flag::Diffuse) || self@.contains(Flag::Glossy)
                    || self@.contains(Flag::Specular));
            }
        }
        self.bits == 0
    }

    /// Whether the two masks are the same set of flags.
    pub fn equals(self, other: BxDFType) -> (r: bool)
        ensures
            r == (self@ == other@),
            r == (self == other),
    {
        proof {
            use_type_invariant(self);
            use_type_invariant(other);
            lemma_each_bit(self.bits, other.bits);
            if self.bits == other.bits {
                assert(self@ =~= other@);
            } else {
                assert(self@.contains(Flag::Reflection) != other@.contains(Flag::Reflection)
                    || self@.contains(Flag::Transmission) != other@.contains(Flag::Transmission)
                    || self@.contains(Flag::Diffuse) != other@.contains(Flag::Diffuse)
                    || self@.contains(Flag::Glossy) != other@.contains(Flag::Glossy)
                    || self@.contains(Flag::Specular) != other@.contains(Flag::Specular));
            }
        }
        self.bits == other.bits
    }

    /// Whether the mask has the flag.
    pub fn has(self, flag: Flag) -> (r: bool)
        ensures
            r == self@.contains(flag),
    {
        self.bits & flag.mask() != 0
    }

    /// Whether the mask has every flag of `other`.
    pub fn contains(self, other: BxDFType) -> (r: bool)
        ensures
            r == other@.subset_of(self@),
    {
        proof {
            use_type_invariant(self);
            use_type_invariant(other);
            lemma_each_bit(other.bits, self.bits);
            if other.bits & self.bits == other.bits {
                assert forall|f: Flag| other@.contains(f) implies self@.contains(f) by {
                    match f {
                        Flag::Reflection => {},
                        Flag::Transmission => {},
                        Flag::Diffuse => {},
                        Flag::Glossy => {},
                        Flag::Specular => {},
                    }
                }
            } else {
                assert(!(other@.contains(Flag::Reflection) ==> self@.contains(Flag::Reflection))
                    || !(other@.contains(Flag::Transmission) ==> self@.contains(
                    Flag::Transmission)) || !(other@.contains(Flag::Diffuse) ==> self@.contains(
                    Flag::Diffuse)) || !(other@.contains(Flag::Glossy) ==> self@.contains(
                    Flag::Glossy)) || !(other@.contains(Flag::Specular) ==> self@.contains(
                    Flag::Specular)));
            }
        }
        other.bits & self.bits == other.bits
    }

    /// Whether the two masks share a flag.
    pub fn intersects(self, other: BxDFType) -> (r: bool)
        ensures
            r == !self@.disjoint(other@),
    {
        proof {
            use_type_invariant(self);
            use_type_invariant(other);
            lemma_each_bit(self.bits, other.bits);
            if self.bits & other.bits == 0 {
                assert forall|f: Flag| self@.contains(f) implies !other@.contains(f) by {
                    match f {
                        Flag::Reflection => {},
                        Flag::Transmission => {},
                        Flag::Diffuse => {},
                        Flag::Glossy => {},
                        Flag::Specular => {},
                    }
                }
            } else {
                assert((self@.contains(Flag::Reflection) && other@.contains(Flag::Reflection)) || (
                self@.contains(Flag::Transmission) && other@.contains(Flag::Transmission)) || (
                self@.contains(Flag::Diffuse) && other@.contains(Flag::Diffuse)) || (
                self@.contains(Flag::Glossy) && other@.contains(Flag::Glossy)) || (self@.contains(
                    Flag::Specular,
                ) && other@.contains(Flag::Specular)));
            }
        }
        self.bits & other.bits != 0
    }
}

/// The density of a sampled direction.
pub type Pdf = Scalar;

/// How much light a conductor reflects, by its index `eta` and its
/// absorption `k` in each channel.
#[derive(Clone, Copy, Debug)]
pub struct FresnelConductor {
    eta: Spectrum,
    k: Spectrum,
}

impl FresnelConductor {
    pub closed spec fn spec_eta(&self) -> Spectrum {
        self.eta
    }

    pub closed spec fn spec_k(&self) -> Spectrum {
        self.k
    }

    pub fn new(eta: Spectrum, k: Spectrum) -> (r: FresnelConductor)
        ensures
            r.spec_eta() == eta,
            r.spec_k() == k,
    {
        FresnelConductor { eta, k }
    }

    #[verifier::when_used_as_spec(spec_eta)]
    pub fn eta(&self) -> (r: Spectrum)
        ensures
            r == self.spec_eta(),
    {
        self.eta
    }

    #[verifier::when_used_as_spec(spec_k)]
    pub fn k(&self) -> (r: Spectrum)
        ensures
            r == self.spec_k(),
    {
        self.k
    }
}

/// How much light the boundary between two dielectrics reflects, by the
/// refractive index `etai` on the side of the normal and `etat` on the other.
#[derive(Clone, Copy, Debug)]
pub struct FresnelDielectric {
    etai: Scalar,
    etat: Scalar,
}

impl FresnelDielectric {
    pub closed spec fn spec_etai(&self) -> Scalar {
        self.etai
    }

    pub closed spec fn spec_etat(&self) -> Scalar {
        self.etat
    }

    /// The cosine restricted to `[-1, 1]` and the indices on the side that the
    /// light comes from and on the side that it goes to: as given where the
    /// cosine is positive, exchanged otherwise.
    pub open spec fn spec_orient(&self, cosi: Scalar) -> (Scalar, Scalar, Scalar) {
        let c = cosi.clamped(Scalar { bits: ONE_BITS }.spec_neg(), Scalar { bits: ONE_BITS });
        if c.spec_gt(Scalar { bits: 0 }) {
            (c, self.spec_etai(), self.spec_etat())
        } else {
            (c, self.spec_etat(), self.spec_etai())
        }
    }

    pub fn new(etai: Scalar, etat: Scalar) -> (r: FresnelDielectric)
        ensures
            r.spec_etai() == etai,
            r.spec_etat() == etat,
    {
        FresnelDielectric { etai, etat }
    }

    #[verifier::when_used_as_spec(spec_etai)]
    pub fn etai(&self) -> (r: Scalar)
        ensures
            r == self.spec_etai(),
    {
        self.etai
    }

    #[verifier::when_used_as_spec(spec_etat)]
    pub fn etat(&self) -> (r: Scalar)
        ensures
            r == self.spec_etat(),
    {
        self.etat
    }

    /// The first step of an evaluation: see [`Self::spec_orient`].
    pub fn orient(&self, cosi: Scalar) -> (r: (Scalar, Scalar, Scalar))
        ensures
            r == self.spec_orient(cosi),
    {
        let c = cosi.clamp(Scalar::one().neg(), Scalar::one());
        if c.gt(Scalar::zero()) {
            (c, self.etai, self.etat)
        } else {
            (c, self.etat, self.etai)
        }
    }

    /// The last step of an evaluation. `sint` is the sine of the angle of
    /// the transmitted direction by Snell's law, `reflectance` what the
    /// Fresnel equations give for the two cosines. Beyond the critical
    /// angle, where `sint > 1`, all light is reflected.
    pub fn evaluate(&self, sint: Scalar, reflectance: Spectrum) -> (r: Spectrum)
        ensures
            r == if sint.spec_gt(Scalar { bits: ONE_BITS }) {
                (Vector {
                    x: Scalar { bits: ONE_BITS },
                    y: Scalar { bits: ONE_BITS },
                    z: Scalar { bits: ONE_BITS },
                })
            } else {
                reflectance
            },
    {
        if sint.gt(Scalar::one()) {
            Vector::new(Scalar::one(), Scalar::one(), Scalar::one())
        } else {
            reflectance
        }
    }
}

/// The reflectance model of a mirror-like term.
#[derive(Clone, Copy, Debug)]
pub enum Fresnel {
    Conductor(FresnelConductor),
    Dielectric(FresnelDielectric),
}

/// A perfectly diffuse reflector: it scatters the same amount of light in
/// every direction of the hemisphere.
#[derive(Clone, Copy, Debug)]
pub struct Lambertian {
    colour: Spectrum,
}

impl Lambertian {
    pub closed spec fn spec_colour(&self) -> Spectrum {
        self.colour
    }

    pub fn new(colour: Spectrum) -> (r: Lambertian)
        ensures
            r.spec_colour() == colour,
    {
        Lambertian { colour }
    }

    #[verifier::when_used_as_spec(spec_colour)]
    pub fn colour(&self) -> (r: Spectrum)
        ensures
            r == self.spec_colour(),
    {
        self.colour
    }
}

/// A perfect mirror: light that arrives from one direction leaves in one.
#[derive(Clone, Copy, Debug)]
pub struct SpecularReflection {
    r: Spectrum,
    fresnel: Fresnel,
}

impl SpecularReflection {
    pub closed spec fn spec_r(&self) -> Spectrum {
        self.r
    }

    pub closed spec fn spec_fresnel(&self) -> Fresnel {
        self.fresnel
    }

    /// `wo` mirrored at the normal of the shading frame, which is its z axis.
    pub open spec fn mirrored(wo: Vector) -> Vector {
        Vector { x: wo.x.spec_neg(), y: wo.y.spec_neg(), z: wo.z }
    }

    pub fn new(r: Spectrum, fresnel: Fresnel) -> (s: SpecularReflection)
        ensures
            s.spec_r() == r,
            s.spec_fresnel() == fresnel,
    {
        SpecularReflection { r, fresnel }
    }

    #[verifier::when_used_as_spec(spec_r)]
    pub fn r(&self) -> (r: Spectrum)
        ensures
            r == self.spec_r(),
    {
        self.r
    }

    #[verifier::when_used_as_spec(spec_fresnel)]
    pub fn fresnel(&self) -> (r: Fresnel)
        ensures
            r == self.spec_fresnel(),
    {
        self.fresnel
    }

    /// The one direction that the term scatters into, with density 1.
    /// `reflected` is the Fresnel reflectance for `wo`, scaled by the term's
    /// colour and divided by the cosine of the mirrored direction.
    pub fn sample_f(&self, wo: &Vector, reflected: Spectrum) -> (s: (Spectrum, Vector, Pdf))
        ensures
            s == (reflected, Self::mirrored(*wo), Scalar { bits: ONE_BITS }),
    {
        (reflected, Vector::new(wo.x.neg(), wo.y.neg(), wo.z), Scalar::one())
    }
}

/// A perfectly smooth boundary between two dielectrics, seen from the light
/// that passes through it.
#[derive(Clone, Copy, Debug)]
pub struct SpecularTransmission {
    t: Spectrum,
    etai: Scalar,
    etat: Scalar,
    fresnel: FresnelDielectric,
}

impl SpecularTransmission {
    pub closed spec fn spec_t(&self) -> Spectrum {
        self.t
    }

    pub closed spec fn spec_etai(&self) -> Scalar {
        self.etai
    }

    pub closed spec fn spec_etat(&self) -> Scalar {
        self.etat
    }

    pub closed spec fn spec_fresnel(&self) -> FresnelDielectric {
        self.fresnel
    }

    /// Whether light that leaves along `wo` has entered from the side of
    /// the normal, and the indices on the side that it comes from and on the
    /// side that it goes to.
    pub open spec fn spec_orient(&self, wo: Vector) -> (bool, Scalar, Scalar) {
        if wo.z.spec_gt(Scalar { bits: 0 }) {
            (true, self.spec_etai(), self.spec_etat())
        } else {
            (false, self.spec_etat(), self.spec_etai())
        }
    }

    /// What sampling gives for the squared sine `sint2` of the transmitted
    /// angle: nothing under total internal reflection, the transmitted light
    /// in the refracted direction with density 1 otherwise.
    pub open spec fn spec_sample_f(sint2: Scalar, transmitted: Spectrum, wi: Vector) -> (
        Spectrum,
        Vector,
        Pdf,
    ) {
        if sint2.spec_gt(Scalar { bits: ONE_BITS }) {
            (
                Vector { x: Scalar { bits: 0 }, y: Scalar { bits: 0 }, z: Scalar { bits: 0 } },
                Vector { x: Scalar { bits: 0 }, y: Scalar { bits: 0 }, z: Scalar { bits: 0 } },
                Scalar { bits: 0 },
            )
        } else {
            (transmitted, wi, Scalar { bits: ONE_BITS })
        }
    }

    pub fn new(t: Spectrum, etai: Scalar, etat: Scalar) -> (r: SpecularTransmission)
        ensures
            r.spec_t() == t,
            r.spec_etai() == etai,
            r.spec_etat() == etat,
            r.spec_fresnel().spec_etai() == etai,
            r.spec_fresnel().spec_etat() == etat,
    {
        SpecularTransmission { t, etai, etat, fresnel: FresnelDielectric::new(etai, etat) }
    }

    #[verifier::when_used_as_spec(spec_t)]
    pub fn t(&self) -> (r: Spectrum)
        ensures
            r == self.spec_t(),
    {
        self.t
    }

    #[verifier::when_used_as_spec(spec_etai)]
    pub fn etai(&self) -> (r: Scalar)
        ensures
            r == self.spec_etai(),
    {
        self.etai
    }

    #[verifier::when_used_as_spec(spec_etat)]
    pub fn etat(&self) -> (r: Scalar)
        ensures
            r == self.spec_etat(),
    {
        self.etat
    }

    #[verifier::when_used_as_spec(spec_fresnel)]
    pub fn fresnel(&self) -> (r: FresnelDielectric)
        ensures
            r == self.spec_fresnel(),
    {
        self.fresnel
    }

    /// The first step of a sample: see [`Self::spec_orient`].
    pub fn orient(&self, wo: &Vector) -> (r: (bool, Scalar, Scalar))
        ensures
            r == self.spec_orient(*wo),
    {
        if wo.z.gt(Scalar::zero()) {
            (true, self.etai, self.etat)
        } else {
            (false, self.etat, self.etai)
        }
    }

    /// The cosine of the transmitted direction from its size. By Snell's
    /// law the size is the square root of one minus the squared sine of
    /// the transmitted angle, which the caller takes; `root` is that root.
    /// The transmitted direction lies on the side opposite to the one that
    /// the light came from, so the cosine is the root with a negative sign
    /// for light that enters from the side of the normal, and the root as
    /// it is for light that leaves towards it.
    pub fn transmitted_cosine(entering: bool, root: Scalar) -> (r: Scalar)
        ensures
            r == if entering {
                root.spec_neg()
            } else {
                root
            },
            r.spec_abs() == root.spec_abs(),
    {
        if entering {
            root.neg()
        } else {
            root
        }
    }

    /// The last step of a sample: see [`Self::spec_sample_f`].
    pub fn sample_f(&self, sint2: Scalar, transmitted: Spectrum, wi: Vector) -> (r: (
        Spectrum,
        Vector,
        Pdf,
    ))
        ensures
            r == Self::spec_sample_f(sint2, transmitted, wi),
            sint2.spec_gt(Scalar { bits: ONE_BITS }) ==> r.0.spec_is_zero() && r.2.spec_is_zero(),
    {
        if sint2.gt(Scalar::one()) {
            (Vector::zero(), Vector::zero(), Scalar::zero())
        } else {
            (transmitted, wi, Scalar::one())
        }
    }
}

/// A scattering term.
#[derive(Clone, Copy, Debug)]
pub enum BxDF {
    Lambertian(Lambertian),
    SpecularReflection(SpecularReflection),
    SpecularTransmission(SpecularTransmission),
}

impl BxDF {
    /// The flags that classify the term.
    pub open spec fn flags(&self) -> Set<Flag> {
        match self {
            BxDF::Lambertian(_) => Set::<Flag>::empty().insert(Flag::Diffuse).insert(
                Flag::Reflection,
            ),
            BxDF::SpecularReflection(_) => Set::<Flag>::empty().insert(Flag::Reflection).insert(
                Flag::Specular,
            ),
            BxDF::SpecularTransmission(_) => Set::<Flag>::empty().insert(
                Flag::Transmission,
            ).insert(Flag::Specular),
        }
    }

    /// Whether a query for `requested` takes the term: every flag of the
    /// term is asked for.
    pub open spec fn matches(&self, requested: Set<Flag>) -> bool {
        self.flags().subset_of(requested)
    }

    /// Whether the term scatters into a single direction.
    pub open spec fn spec_is_specular(&self) -> bool {
        self.flags().contains(Flag::Specular)
    }

    pub fn bxdf_type(&self) -> (r: BxDFType)
        ensures
            r@ == self.flags(),
    {
        match self {
            BxDF::Lambertian(_) => BxDFType::of(Flag::Diffuse).union(
                BxDFType::of(Flag::Reflection),
            ),
            BxDF::SpecularReflection(_) => BxDFType::of(Flag::Reflection).union(
                BxDFType::of(Flag::Specular),
            ),
            BxDF::SpecularTransmission(_) => BxDFType::of(Flag::Transmission).union(
                BxDFType::of(Flag::Specular),
            ),
        }
    }

    pub fn matches_flags(&self, bxdf_type: BxDFType) -> (r: bool)
        ensures
            r == self.matches(bxdf_type@),
    {
        bxdf_type.contains(self.bxdf_type())
    }

    #[verifier::when_used_as_spec(spec_is_specular)]
    pub fn is_specular(&self) -> (r: bool)
        ensures
            r == self.spec_is_specular(),
    {
        self.bxdf_type().has(Flag::Specular)
    }

    /// The value of the term for a pair of directions. A specular term has
    /// none: all that it scatters comes through sampling. `diffuse` is the
    /// value that a term of another kind has for the pair.
    pub fn f(&self, diffuse: Spectrum) -> (r: Spectrum)
        ensures
            r == if self.spec_is_specular() {
                (Vector { x: Scalar { bits: 0 }, y: Scalar { bits: 0 }, z: Scalar { bits: 0 } })
            } else {
                diffuse
            },
    {
        if self.is_specular() {
            Vector::zero()
        } else {
            diffuse
        }
    }

    /// The density with which sampling picks a direction. A specular term
    /// has none. `cosine_weighted` is the density of the cosine-weighted
    /// hemisphere distribution, which the other terms sample from.
    pub fn pdf(&self, cosine_weighted: Pdf) -> (r: Pdf)
        ensures
            r == if self.spec_is_specular() {
                (Scalar { bits: 0 })
            } else {
                cosine_weighted
            },
    {
        if self.is_specular() {
            Scalar::zero()
        } else {
            cosine_weighted
        }
    }

    /// A direction drawn on the upper hemisphere, brought to the side of
    /// `wo`: its z component changes sign where that of `wo` is negative.
    pub fn face(wo: &Vector, wi: Vector) -> (r: Vector)
        ensures
            r == if wo.z.spec_lt(Scalar { bits: 0 }) {
                (Vector { x: wi.x, y: wi.y, z: wi.z.spec_neg() })
            } else {
                wi
            },
    {
        if wo.z.lt(Scalar::zero()) {
            Vector::new(wi.x, wi.y, wi.z.neg())
        } else {
            wi
        }
    }
}

/// The indices below `n` of the terms that a query for `requested` takes,
/// in rising order.
pub open spec fn matching_below(terms: Seq<BxDF>, requested: Set<Flag>, n: nat) -> Seq<usize>
    decreases n,
{
    if n == 0 {
        Seq::empty()
    } else {
        let rest = matching_below(terms, requested, (n - 1) as nat);
        if terms[n - 1].matches(requested) {
            rest.push((n - 1) as usize)
        } else {
            rest
        }
    }
}

/// The flags that are left of a query once the directions are known: a pair
/// on one side of the surface is reflection, so transmission goes; a pair
/// on opposite sides is transmission, so reflection goes.
pub open spec fn for_hemisphere(requested: Set<Flag>, same_side: bool) -> Set<Flag> {
    if same_side {
        requested.remove(Flag::Transmission)
    } else {
        requested.remove(Flag::Reflection)
    }
}

/// `matching_below` lists exactly the indices below `n` of the terms that
/// match, each once and in rising order.
pub proof fn lemma_matching_below(terms: Seq<BxDF>, requested: Set<Flag>, n: nat)
    requires
        n <= terms.len(),
        n <= usize::MAX,
    ensures
        matching_below(terms, requested, n).len() <= n,
        forall|k: int|
            0 <= k < matching_below(terms, requested, n).len() ==> {
                let i = #[trigger] matching_below(terms, requested, n)[k];
                i < n && terms[i as int].matches(requested)
            },
        forall|j: int, k: int|
            0 <= j < k < matching_below(terms, requested, n).len() ==> matching_below(
                terms,
                requested,
                n,
            )[j] < matching_below(terms, requested, n)[k],
        forall|i: int|
            0 <= i < n && #[trigger] terms[i].matches(requested) ==> matching_below(
                terms,
                requested,
                n,
            ).contains(i as usize),
    decreases n,
{
    if n > 0 {
        let rest = matching_below(terms, requested, (n - 1) as nat);
        lemma_matching_below(terms, requested, (n - 1) as nat);
        let all = matching_below(terms, requested, n);
        assert forall|i: int| 0 <= i < n && #[trigger] terms[i].matches(requested) implies all.contains(
            i as usize,
        ) by {
            if i < n - 1 {
                let k = choose|k: int| 0 <= k < rest.len() && rest[k] == i as usize;
                assert(all[k] == i as usize);
            } else {
                assert(all[all.len() - 1] == i as usize);
            }
        }
    }
}

/// Whether a number is at least 0 and below 1.
pub open spec fn in_unit_interval(u: Scalar) -> bool {
    u.spec_ge(Scalar { bits: 0 }) && u.spec_lt(Scalar { bits: ONE_BITS })
}

/// What sampling a scattering function has decided before any direction is
/// worked out.
#[derive(Debug)]
pub struct Selection {
    /// The index of the term to draw the direction from.
    pub chosen: usize,
    /// The flags of that term.
    pub bxdf_type: BxDFType,
    /// The indices of all terms that the query takes, in rising order.
    pub matching: Vec<usize>,
    /// Two numbers drawn from the unit interval, from which the direction
    /// is worked out.
    pub u: (Scalar, Scalar),
}

impl Selection {
    /// Whether the density of the sample is the sum of the densities that
    /// the matching terms give to the direction. It is not for a specular
    /// term, which has no density, nor where the chosen term is the only one.
    pub open spec fn spec_sums_pdfs(&self) -> bool {
        !self.bxdf_type@.contains(Flag::Specular) && self.matching@.len() > 1
    }

    /// What the density is divided by: the number of matching terms.
    pub open spec fn spec_pdf_divisor(&self) -> usize {
        if self.matching@.len() > 1 {
            self.matching@.len() as usize
        } else {
            1
        }
    }

    /// Whether the value of the sample is the sum over the terms that
    /// [`BSDF::f`] takes for the sampled direction. For a specular term it
    /// is what the term itself gave.
    pub open spec fn spec_recomputes_f(&self) -> bool {
        !self.bxdf_type@.contains(Flag::Specular)
    }

    #[verifier::when_used_as_spec(spec_sums_pdfs)]
    pub fn sums_pdfs(&self) -> (r: bool)
        ensures
            r == self.spec_sums_pdfs(),
    {
        !self.bxdf_type.has(Flag::Specular) && self.matching.len() > 1
    }

    #[verifier::when_used_as_spec(spec_pdf_divisor)]
    pub fn pdf_divisor(&self) -> (r: usize)
        ensures
            r == self.spec_pdf_divisor(),
    {
        if self.matching.len() > 1 {
            self.matching.len()
        } else {
            1
        }
    }

    #[verifier::when_used_as_spec(spec_recomputes_f)]
    pub fn recomputes_f(&self) -> (r: bool)
        ensures
            r == self.spec_recomputes_f(),
    {
        !self.bxdf_type.has(Flag::Specular)
    }
}

/// The scattering function at one surface point: the shading normal and the
/// terms, in the order in which they were added.
#[derive(Debug)]
pub struct BSDF {
    normal: Vector,
    bxdfs: Vec<BxDF>,
}

impl BSDF {
    pub closed spec fn spec_normal(&self) -> Vector {
        self.normal
    }

    /// The terms.
    pub closed spec fn terms(&self) -> Seq<BxDF> {
        self.bxdfs@
    }

    /// The indices of the terms that a query for `requested` takes.
    pub open spec fn matching(&self, requested: Set<Flag>) -> Seq<usize> {
        matching_below(self.terms(), requested, self.terms().len())
    }

    pub fn new(normal: Vector) -> (r: BSDF)
        ensures
            r.spec_normal() == normal,
            r.terms() == Seq::<BxDF>::empty(),
    {
        Self::new_with_bxdfs(normal, Vec::new())
    }

    pub fn new_with_bxdfs(normal: Vector, bxdfs: Vec<BxDF>) -> (r: BSDF)
        ensures
            r.spec_normal() == normal,
            r.terms() == bxdfs@,
    {
        BSDF { normal, bxdfs }
    }

    pub fn add_bxdf(&mut self, x: BxDF)
        ensures
            final(self).spec_normal() == old(self).spec_normal(),
            final(self).terms() == old(self).terms().push(x),
    {
        self.bxdfs.push(x);
    }

    #[verifier::when_used_as_spec(spec_normal)]
    pub fn normal(&self) -> (r: Vector)
        ensures
            r == self.spec_normal(),
    {
        self.normal
    }

    /// The number of terms.
    pub fn len(&self) -> (r: usize)
        ensures
            r == self.terms().len(),
    {
        self.bxdfs.len()
    }

    /// The term at `index`, if there is one.
    pub fn bxdf(&self, index: usize) -> (r: Option<BxDF>)
        ensures
            r == if index < self.terms().len() {
                Some(self.terms()[index as int])
            } else {
                None
            },
    {
        if index < self.bxdfs.len() {
            Some(self.bxdfs[index])
        } else {
            None
        }
    }

    /// The indices of the terms that a query for `flags` takes, in rising
    /// order.
    pub fn matching_terms(&self, flags: BxDFType) -> (r: Vec<usize>)
        ensures
            r@ == self.matching(flags@),
    {
        let mut out: Vec<usize> = Vec::new();
        let mut i: usize = 0;
        while i < self.bxdfs.len()
            invariant
                i <= self.bxdfs.len(),
                out@ == matching_below(self.bxdfs@, flags@, i as nat),
            decreases self.bxdfs.len() - i,
        {
            if self.bxdfs[i].matches_flags(flags) {
                out.push(i);
            }
            i += 1;
        }
        out
    }

    /// The terms whose values add up to the value of the scattering function
    /// for a pair of directions. `same_side` says whether the two directions
    /// lie on the same side of the surface, that is whether the product of
    /// their cosines to the normal is positive. The result holds the indices
    /// of the terms, in rising order, that a query for `flags` takes once
    /// the flag of the other hemisphere is taken away.
    pub fn f(&self, same_side: bool, flags: BxDFType) -> (r: Vec<usize>)
        ensures
            r@ == self.matching(for_hemisphere(flags@, same_side)),
            forall|k: int|
                0 <= k < r@.len() ==> {
                    let i = #[trigger] r@[k];
                    &&& i < self.terms().len()
                    &&& self.terms()[i as int].matches(flags@)
                    &&& same_side ==> !self.terms()[i as int].flags().contains(Flag::Transmission)
                    &&& !same_side ==> !self.terms()[i as int].flags().contains(Flag::Reflection)
                },
    {
        let left = if same_side {
            flags.difference(BxDFType::of(Flag::Transmission))
        } else {
            flags.difference(BxDFType::of(Flag::Reflection))
        };
        let n = self.bxdfs.len();
        proof {
            assert(left@ =~= for_hemisphere(flags@, same_side));
            lemma_matching_below(self.terms(), left@, n as nat);
        }
        self.matching_terms(left)
    }

    /// Chooses the term to sample, at random among the terms that a query
    /// for `flags` takes, draws the two numbers that the direction is
    /// worked out from, and says how the sample is put together from what
    /// the terms give. There is nothing to sample where no term matches, and
    /// no number is drawn then.
    pub fn sample_f(&self, rng: &mut StdRng, flags: BxDFType) -> (r: Option<Selection>)
        ensures
            r.is_none() == (self.matching(flags@).len() == 0),
            r.is_some() ==> {
                let s = r.unwrap();
                &&& s.matching@ == self.matching(flags@)
                &&& s.matching@.contains(s.chosen)
                &&& s.chosen < self.terms().len()
                &&& self.terms()[s.chosen as int].matches(flags@)
                &&& s.bxdf_type@ == self.terms()[s.chosen as int].flags()
                &&& in_unit_interval(s.u.0)
                &&& in_unit_interval(s.u.1)
            },
    {
        let matching = self.matching_terms(flags);
        let n = self.bxdfs.len();
        proof {
            lemma_matching_below(self.terms(), flags@, n as nat);
        }
        match choose_from(rng, &matching) {
            Some(index) => {
                let chosen = *index;
                let bxdf_type = self.bxdfs[chosen].bxdf_type();
                let u1 = next_scalar(rng);
                let u2 = next_scalar(rng);
                Some(Selection { chosen, bxdf_type, matching, u: (u1, u2) })
            },
            None => None,
        }
    }
}

/// A term that takes part in the value of a scattering function lies in the
/// hemisphere of the pair of directions: with both directions on one side
/// of the surface no transmitting term takes part, with the directions on
/// opposite sides no reflecting one, and apart from that exactly the terms
/// that the query asks for take part.
pub proof fn lemma_f_respects_hemisphere(
    terms: Seq<BxDF>,
    requested: Set<Flag>,
    same_side: bool,
    i: int,
)
    requires
        0 <= i < terms.len(),
        terms.len() <= usize::MAX,
    ensures
        matching_below(terms, for_hemisphere(requested, same_side), terms.len()).contains(
            i as usize,
        ) == (terms[i].matches(requested) && if same_side {
            !terms[i].flags().contains(Flag::Transmission)
        } else {
            !terms[i].flags().contains(Flag::Reflection)
        }),
{
    let left = for_hemisphere(requested, same_side);
    let gone = if same_side {
        Flag::Transmission
    } else {
        Flag::Reflection
    };
    assert(left == requested.remove(gone));
    assert(terms[i].matches(left) == (terms[i].matches(requested) && !terms[i].flags().contains(
        gone,
    ))) by {
        if terms[i].matches(requested) && !terms[i].flags().contains(gone) {
            assert forall|f: Flag| terms[i].flags().contains(f) implies left.contains(f) by {
                assert(requested.contains(f));
            }
        }
        if terms[i].matches(left) {
            assert forall|f: Flag| terms[i].flags().contains(f) implies requested.contains(f) by {
                assert(left.contains(f));
            }
            if terms[i].flags().contains(gone) {
                assert(left.contains(gone));
            }
        }
    }
    lemma_matching_below(terms, left, terms.len());
    let all = matching_below(terms, left, terms.len());
    if all.contains(i as usize) {
        let k = choose|k: int| 0 <= k < all.len() && all[k] == i as usize;
        assert(terms[all[k] as int].matches(left));
    }
}

} // verus!
