//! Scene descriptions.
//!
//! A scene is described by a JSON document with the sections `cameras`,
//! `views`, `objects`, `materials` and `lights`. Reading one gives the plain
//! values that a renderer is set up from, or the first fault that the
//! document has.

use crate::integrator::{Integrator, PathTraced, Whitted};
use crate::json::{
    as_array, as_i64, as_object, as_scalar, as_str, as_u64, document, from_str, get, items, iter,
    member, members, number, object, pointed, pointer, signed, string, unsigned,
};
use crate::light::{Light, PointLight};
use crate::math::{Point, Scalar, Vector, ONE_BITS};
use crate::renderer::StandardRenderer;
use crate::spectrum::Spectrum;
use crate::view;
use serde_json::Value;
use vstd::prelude::*;
use vstd::string::StringExecFns;

verus! {

/// What is wrong with a scene description.
#[derive(Debug)]
pub enum Error {
    ExpectedArray(&'static str),
    ExpectedU64(&'static str),
    ExpectedF64(&'static str),
    ExpectedI64(&'static str),
    ExpectedObject(&'static str),
    ExpectedString(&'static str),
    Json(String),
    MalformedPoint(&'static str),
    MalformedSpectrum(&'static str),
    MalformedVector(&'static str),
    MissingKey(&'static str),
    MissingReference { typ: &'static str, name: String },
    Texture(String),
    Unrecognised { typ: &'static str, name: String },
}

/// A fault by its kind and its words.
pub enum Fault {
    ExpectedArray(Seq<char>),
    ExpectedU64(Seq<char>),
    ExpectedF64(Seq<char>),
    ExpectedI64(Seq<char>),
    ExpectedObject(Seq<char>),
    ExpectedString(Seq<char>),
    Json(Seq<char>),
    MalformedPoint(Seq<char>),
    MalformedSpectrum(Seq<char>),
    MalformedVector(Seq<char>),
    MissingKey(Seq<char>),
    MissingReference { typ: Seq<char>, name: Seq<char> },
    Texture(Seq<char>),
    Unrecognised { typ: Seq<char>, name: Seq<char> },
}

impl View for Error {
    type V = Fault;

    open spec fn view(&self) -> Fault {
        match *self {
            Error::ExpectedArray(s) => Fault::ExpectedArray(s@),
            Error::ExpectedU64(s) => Fault::ExpectedU64(s@),
            Error::ExpectedF64(s) => Fault::ExpectedF64(s@),
            Error::ExpectedI64(s) => Fault::ExpectedI64(s@),
            Error::ExpectedObject(s) => Fault::ExpectedObject(s@),
            Error::ExpectedString(s) => Fault::ExpectedString(s@),
            Error::Json(s) => Fault::Json(s@),
            Error::MalformedPoint(s) => Fault::MalformedPoint(s@),
            Error::MalformedSpectrum(s) => Fault::MalformedSpectrum(s@),
            Error::MalformedVector(s) => Fault::MalformedVector(s@),
            Error::MissingKey(s) => Fault::MissingKey(s@),
            Error::MissingReference { typ, name } => Fault::MissingReference {
                typ: typ@,
                name: name@,
            },
            Error::Texture(s) => Fault::Texture(s@),
            Error::Unrecognised { typ, name } => Fault::Unrecognised { typ: typ@, name: name@ },
        }
    }
}

impl Fault {
    /// What the fault is about: the key or the thing that it names, or the
    /// words that came with it.
    pub open spec fn description(self) -> Seq<char> {
        match self {
            Fault::ExpectedArray(s) => s,
            Fault::ExpectedU64(s) => s,
            Fault::ExpectedF64(s) => s,
            Fault::ExpectedI64(s) => s,
            Fault::ExpectedObject(s) => s,
            Fault::ExpectedString(s) => s,
            Fault::Json(s) => s,
            Fault::MalformedPoint(s) => s,
            Fault::MalformedSpectrum(s) => s,
            Fault::MalformedVector(s) => s,
            Fault::MissingKey(s) => s,
            Fault::MissingReference { typ, name } => name,
            Fault::Texture(s) => s,
            Fault::Unrecognised { typ, name } => name,
        }
    }

    /// The fault in a sentence.
    pub open spec fn sentence(self) -> Seq<char> {
        match self {
            Fault::ExpectedArray(s) => "Expected JSON array: "@ + s,
            Fault::ExpectedU64(s) => "Expected JSON u64: "@ + s,
            Fault::ExpectedF64(s) => "Expected JSON f64: "@ + s,
            Fault::ExpectedI64(s) => "Expected JSON i64: "@ + s,
            Fault::ExpectedObject(s) => "Expected JSON object: "@ + s,
            Fault::ExpectedString(s) => "Expected JSON string: "@ + s,
            Fault::Json(s) => "JSON parse error: "@ + s,
            Fault::MalformedPoint(s) => "Malformed point: "@ + s,
            Fault::MalformedSpectrum(s) => "Malformed spectrum: "@ + s,
            Fault::MalformedVector(s) => "Malformed vector: "@ + s,
            Fault::MissingKey(s) => "Missing key: "@ + s,
            Fault::MissingReference { typ, name } => "Referenced "@ + typ + " with name '"@ + name
                + "' not found."@,
            Fault::Texture(s) => "Texture error: "@ + s,
            Fault::Unrecognised { typ, name } => "Unrecognised "@ + typ + ": "@ + name,
        }
    }
}

fn sentence_of(head: &str, tail: &str) -> (r: String)
    ensures
        r@ == head@ + tail@,
{
    let mut out = head.to_owned();
    out.append(tail);
    out
}

impl Error {
    /// See [`Fault::description`].
    pub fn description(&self) -> (r: String)
        ensures
            r@ == self@.description(),
    {
        match self {
            Error::ExpectedArray(err) => (*err).to_owned(),
            Error::ExpectedU64(err) => (*err).to_owned(),
            Error::ExpectedF64(err) => (*err).to_owned(),
            Error::ExpectedI64(err) => (*err).to_owned(),
            Error::ExpectedObject(err) => (*err).to_owned(),
            Error::ExpectedString(err) => (*err).to_owned(),
            Error::Json(err) => err.clone(),
            Error::MalformedPoint(err) => (*err).to_owned(),
            Error::MalformedSpectrum(err) => (*err).to_owned(),
            Error::MalformedVector(err) => (*err).to_owned(),
            Error::MissingKey(err) => (*err).to_owned(),
            Error::MissingReference { typ, name } => name.clone(),
            Error::Texture(err) => err.clone(),
            Error::Unrecognised { typ, name } => name.clone(),
        }
    }

    /// See [`Fault::sentence`].
    pub fn to_string(&self) -> (r: String)
        ensures
            r@ == self@.sentence(),
    {
        match self {
            Error::ExpectedArray(err) => sentence_of("Expected JSON array: ", err),
            Error::ExpectedU64(err) => sentence_of("Expected JSON u64: ", err),
            Error::ExpectedF64(err) => sentence_of("Expected JSON f64: ", err),
            Error::ExpectedI64(err) => sentence_of("Expected JSON i64: ", err),
            Error::ExpectedObject(err) => sentence_of("Expected JSON object: ", err),
            Error::ExpectedString(err) => sentence_of("Expected JSON string: ", err),
            Error::Json(err) => sentence_of("JSON parse error: ", err.as_str()),
            Error::MalformedPoint(err) => sentence_of("Malformed point: ", err),
            Error::MalformedSpectrum(err) => sentence_of("Malformed spectrum: ", err),
            Error::MalformedVector(err) => sentence_of("Malformed vector: ", err),
            Error::MissingKey(err) => sentence_of("Missing key: ", err),
            Error::MissingReference { typ, name } => {
                let mut out = sentence_of("Referenced ", typ);
                out.append(" with name '");
                out.append(name.as_str());
                out.append("' not found.");
                out
            },
            Error::Texture(err) => sentence_of("Texture error: ", err.as_str()),
            Error::Unrecognised { typ, name } => {
                let mut out = sentence_of("Unrecognised ", typ);
                out.append(": ");
                out.append(name.as_str());
                out
            },
        }
    }
}

/// Where something stands and how it is turned, as the description gives
/// it: a position and a rotation vector.
#[derive(Clone, Copy, Debug)]
pub struct Transform {
    pub position: Vector,
    pub rotation: Vector,
}

/// A perspective camera as the description gives it: the size of the image
/// in pixels, the field of view in degrees, and the near and far planes.
#[derive(Clone, Copy, Debug)]
pub struct CameraDescription {
    pub transform: Transform,
    pub width: u32,
    pub height: u32,
    pub fov: Scalar,
    pub near: Scalar,
    pub far: Scalar,
}

/// A texture as the description gives it.
#[derive(Debug)]
pub enum TextureDescription {
    Constant(Spectrum),
    /// An image, by the name of its file.
    Image(String),
}

/// A material as the description gives it.
#[derive(Debug)]
pub enum MaterialDescription {
    Diffuse(TextureDescription),
    Glass,
    Mirror,
}

/// A material by its kind, its colour and the characters of its file name.
pub enum MaterialModel {
    Constant(Spectrum),
    Image(Seq<char>),
    Glass,
    Mirror,
}

impl View for MaterialDescription {
    type V = MaterialModel;

    open spec fn view(&self) -> MaterialModel {
        match *self {
            MaterialDescription::Diffuse(TextureDescription::Constant(c)) => MaterialModel::Constant(
                c,
            ),
            MaterialDescription::Diffuse(TextureDescription::Image(f)) => MaterialModel::Image(f@),
            MaterialDescription::Glass => MaterialModel::Glass,
            MaterialDescription::Mirror => MaterialModel::Mirror,
        }
    }
}

/// The shape of an object.
#[derive(Clone, Copy, Debug)]
pub enum Shape {
    /// A box, by its extents along the three axes.
    Cuboid(Vector),
    /// A sphere, by its radius.
    Ball(Scalar),
}

/// An object as the description gives it.
#[derive(Clone, Copy, Debug)]
pub struct ObjectDescription {
    /// The index of the material among the materials of the description.
    pub material: usize,
    pub transform: Transform,
    pub shape: Shape,
}

/// All that a scene description holds, each list in the order in which the
/// JSON object of its section hands out its members.
#[derive(Debug)]
pub struct SceneDescription {
    pub cameras: Vec<(String, CameraDescription)>,
    pub views: Vec<(String, view::View)>,
    pub materials: Vec<(String, MaterialDescription)>,
    pub objects: Vec<ObjectDescription>,
    pub lights: Vec<Light>,
}

/// The content of a scene description.
pub struct SceneModel {
    pub cameras: Seq<(Seq<char>, CameraDescription)>,
    pub views: Seq<(Seq<char>, view::View)>,
    pub materials: Seq<(Seq<char>, MaterialModel)>,
    pub objects: Seq<ObjectDescription>,
    pub lights: Seq<Light>,
}

/// A list of named things with each name as its characters.
pub open spec fn listed<T>(list: Seq<(String, T)>) -> Seq<(Seq<char>, T)> {
    Seq::new(list.len(), |i: int| (list[i].0@, list[i].1))
}

/// A list of named materials, each by its name and its model.
pub open spec fn listed_materials(list: Seq<(String, MaterialDescription)>) -> Seq<
    (Seq<char>, MaterialModel),
> {
    Seq::new(list.len(), |i: int| (list[i].0@, list[i].1@))
}

impl SceneDescription {
    /// Whether every name in the description was found: each object has one
    /// of the materials and each view one of the cameras.
    pub open spec fn well_referenced(&self) -> bool {
        &&& forall|i: int|
            0 <= i < self.objects@.len() ==> (#[trigger] self.objects@[i]).material
                < self.materials@.len()
        &&& forall|i: int|
            0 <= i < self.views@.len() ==> (#[trigger] self.views@[i]).1.camera
                < self.cameras@.len()
    }
}

impl View for SceneDescription {
    type V = SceneModel;

    open spec fn view(&self) -> SceneModel {
        SceneModel {
            cameras: listed(self.cameras@),
            views: listed(self.views@),
            materials: listed_materials(self.materials@),
            objects: self.objects@,
            lights: self.lights@,
        }
    }
}

/// The names of a list of named things.
pub open spec fn names<T>(list: Seq<(Seq<char>, T)>) -> Seq<Seq<char>> {
    Seq::new(list.len(), |i: int| list[i].0)
}

/// The first place below `n` at which a name stands in a list of names.
pub open spec fn place_below(list: Seq<Seq<char>>, name: Seq<char>, n: nat) -> Option<usize>
    decreases n,
{
    if n == 0 {
        None
    } else {
        match place_below(list, name, (n - 1) as nat) {
            Some(i) => Some(i),
            None => if list[n - 1] == name {
                Some((n - 1) as usize)
            } else {
                None
            },
        }
    }
}

/// The first place at which a name stands in a list of names.
pub open spec fn place(list: Seq<Seq<char>>, name: Seq<char>) -> Option<usize> {
    place_below(list, name, list.len())
}

/// The results for the first `n` members of a document, gathered into one:
/// the list of what was read, or the fault of the first member that has one.
pub open spec fn gather<T>(results: Seq<Result<T, Fault>>, n: nat) -> Result<Seq<T>, Fault>
    decreases n,
{
    if n == 0 {
        Ok(Seq::empty())
    } else {
        match gather(results, (n - 1) as nat) {
            Err(e) => Err(e),
            Ok(s) => match results[n - 1] {
                Ok(t) => Ok(s.push(t)),
                Err(e) => Err(e),
            },
        }
    }
}

/// A result under a name.
pub open spec fn named<T>(name: Seq<char>, result: Result<T, Fault>) -> Result<
    (Seq<char>, T),
    Fault,
> {
    match result {
        Ok(t) => Ok((name, t)),
        Err(e) => Err(e),
    }
}

/// The member of an object that the description must have.
pub open spec fn required(o: serde_json::Map<String, Value>, key: Seq<char>) -> Result<
    Value,
    Fault,
> {
    match member(o, key) {
        Some(v) => Ok(v),
        None => Err(Fault::MissingKey(key)),
    }
}

/// The value under a pointer that the description must have.
pub open spec fn required_at(v: Value, path: Seq<char>, key: Seq<char>) -> Result<Value, Fault> {
    match pointed(v, path) {
        Some(v) => Ok(v),
        None => Err(Fault::MissingKey(key)),
    }
}

/// A value read as a string.
pub open spec fn read_string(v: Value, key: Seq<char>) -> Result<Seq<char>, Fault> {
    match string(v) {
        Some(s) => Ok(s),
        None => Err(Fault::ExpectedString(key)),
    }
}

/// A value read as an object.
pub open spec fn read_object(v: Value, key: Seq<char>) -> Result<
    serde_json::Map<String, Value>,
    Fault,
> {
    match object(v) {
        Some(o) => Ok(o),
        None => Err(Fault::ExpectedObject(key)),
    }
}

/// A value read as a whole number that is not negative.
pub open spec fn read_u64(v: Value, key: Seq<char>) -> Result<u64, Fault> {
    match unsigned(v) {
        Some(n) => Ok(n),
        None => Err(Fault::ExpectedU64(key)),
    }
}

/// A value read as a whole number.
pub open spec fn read_i64(v: Value, key: Seq<char>) -> Result<i64, Fault> {
    match signed(v) {
        Some(n) => Ok(n),
        None => Err(Fault::ExpectedI64(key)),
    }
}

/// A value read as a number.
pub open spec fn read_scalar(v: Value, key: Seq<char>) -> Result<Scalar, Fault> {
    match number(v) {
        Some(bits) => Ok(Scalar { bits }),
        None => Err(Fault::ExpectedF64(key)),
    }
}

/// A value read as an array of three numbers. `what` names the array for
/// a value that is none, `malformed` is the fault of an array of another
/// length, and `keys` names the three numbers.
pub open spec fn read_triple(
    v: Value,
    what: Seq<char>,
    malformed: Fault,
    keys: (Seq<char>, Seq<char>, Seq<char>),
) -> Result<(Scalar, Scalar, Scalar), Fault> {
    match items(v) {
        None => Err(Fault::ExpectedArray(what)),
        Some(a) => if a.len() != 3 {
            Err(malformed)
        } else {
            match read_scalar(a[0], keys.0) {
                Err(e) => Err(e),
                Ok(x) => match read_scalar(a[1], keys.1) {
                    Err(e) => Err(e),
                    Ok(y) => match read_scalar(a[2], keys.2) {
                        Err(e) => Err(e),
                        Ok(z) => Ok((x, y, z)),
                    },
                },
            }
        },
    }
}

/// A value read as a vector.
pub open spec fn read_vector(v: Value) -> Result<Vector, Fault> {
    match read_triple(
        v,
        "vector"@,
        Fault::MalformedVector("Array of three elements expected."@),
        ("x"@, "y"@, "z"@),
    ) {
        Ok(t) => Ok(Vector { x: t.0, y: t.1, z: t.2 }),
        Err(e) => Err(e),
    }
}

/// A value read as a point.
pub open spec fn read_point(v: Value) -> Result<Point, Fault> {
    match read_triple(
        v,
        "point"@,
        Fault::MalformedPoint("Array of three elements expected."@),
        ("x"@, "y"@, "z"@),
    ) {
        Ok(t) => Ok(Point { x: t.0, y: t.1, z: t.2 }),
        Err(e) => Err(e),
    }
}

/// A value read as a colour.
pub open spec fn read_spectrum(v: Value) -> Result<Spectrum, Fault> {
    match read_triple(
        v,
        "spectrum"@,
        Fault::MalformedSpectrum("Array of three elements expected"@),
        ("r"@, "g"@, "b"@),
    ) {
        Ok(t) => Ok(Vector { x: t.0, y: t.1, z: t.2 }),
        Err(e) => Err(e),
    }
}

/// A value read as a transform: a position, and a rotation where one is
/// given.
pub open spec fn read_transform(v: Value) -> Result<Transform, Fault> {
    match read_object(v, "transform"@) {
        Err(e) => Err(e),
        Ok(o) => match required(o, "position"@) {
            Err(e) => Err(e),
            Ok(p) => match read_vector(p) {
                Err(e) => Err(e),
                Ok(position) => match member(o, "rotation"@) {
                    None => Ok(
                        Transform {
                            position,
                            rotation: Vector {
                                x: Scalar { bits: 0 },
                                y: Scalar { bits: 0 },
                                z: Scalar { bits: 0 },
                            },
                        },
                    ),
                    Some(r) => match read_vector(r) {
                        Err(e) => Err(e),
                        Ok(rotation) => Ok(Transform { position, rotation }),
                    },
                },
            },
        },
    }
}

/// The number under a pointer that the description must have.
pub open spec fn read_scalar_at(v: Value, path: Seq<char>, key: Seq<char>) -> Result<
    Scalar,
    Fault,
> {
    match required_at(v, path, key) {
        Err(e) => Err(e),
        Ok(n) => read_scalar(n, key),
    }
}

/// The whole number under a pointer that the description must have.
pub open spec fn read_i64_at(v: Value, path: Seq<char>, key: Seq<char>) -> Result<i64, Fault> {
    match required_at(v, path, key) {
        Err(e) => Err(e),
        Ok(n) => read_i64(n, key),
    }
}

/// The whole number that is not negative under a pointer that the
/// description must have.
pub open spec fn read_u64_at(v: Value, path: Seq<char>, key: Seq<char>) -> Result<u64, Fault> {
    match required_at(v, path, key) {
        Err(e) => Err(e),
        Ok(n) => read_u64(n, key),
    }
}

/// The string under a pointer that the description must have.
pub open spec fn read_string_at(v: Value, path: Seq<char>, key: Seq<char>) -> Result<
    Seq<char>,
    Fault,
> {
    match required_at(v, path, key) {
        Err(e) => Err(e),
        Ok(n) => read_string(n, key),
    }
}

/// A value read as a camera. The size of the image is cut to 32 bits.
pub open spec fn read_camera(v: Value) -> Result<CameraDescription, Fault> {
    match required_at(v, "/transform"@, "transform"@) {
        Err(e) => Err(e),
        Ok(t) => match read_transform(t) {
            Err(e) => Err(e),
            Ok(transform) => match read_u64_at(v, "/width"@, "width"@) {
                Err(e) => Err(e),
                Ok(width) => match read_u64_at(v, "/height"@, "height"@) {
                    Err(e) => Err(e),
                    Ok(height) => match read_scalar_at(v, "/fov"@, "fov"@) {
                        Err(e) => Err(e),
                        Ok(fov) => match read_scalar_at(v, "/near"@, "near"@) {
                            Err(e) => Err(e),
                            Ok(near) => match read_scalar_at(v, "/far"@, "far"@) {
                                Err(e) => Err(e),
                                Ok(far) => match read_string_at(v, "/type"@, "type"@) {
                                    Err(e) => Err(e),
                                    Ok(kind) => if kind == "Perspective"@ {
                                        Ok(
                                            CameraDescription {
                                                transform,
                                                width: width as u32,
                                                height: height as u32,
                                                fov,
                                                near,
                                                far,
                                            },
                                        )
                                    } else {
                                        Err(
                                            Fault::Unrecognised {
                                                typ: "camera type"@,
                                                name: kind,
                                            },
                                        )
                                    },
                                },
                            },
                        },
                    },
                },
            },
        },
    }
}

/// A name read as an integrator of the given depth.
pub open spec fn read_integrator(name: Seq<char>, depth: i32) -> Result<Integrator, Fault> {
    if name == "Path"@ {
        Ok(Integrator::PathTraced(PathTraced::spec_new(depth)))
    } else if name == "Whitted"@ {
        Ok(Integrator::Whitted(Whitted::spec_new(depth)))
    } else {
        Err(Fault::Unrecognised { typ: "integrator"@, name })
    }
}

/// A value read as a view, with the camera looked up among `cameras`. The
/// number of samples and the depth are cut to 32 bits.
pub open spec fn read_view(v: Value, cameras: Seq<Seq<char>>) -> Result<view::View, Fault> {
    match read_string_at(v, "/camera"@, "camera"@) {
        Err(e) => Err(e),
        Ok(name) => match place(cameras, name) {
            None => Err(Fault::MissingReference { typ: "Camera"@, name }),
            Some(camera) => match read_i64_at(v, "/samples"@, "samples"@) {
                Err(e) => Err(e),
                Ok(samples) => match read_i64_at(v, "/depth"@, "depth"@) {
                    Err(e) => Err(e),
                    Ok(depth) => match read_string_at(v, "/integrator"@, "integrator"@) {
                        Err(e) => Err(e),
                        Ok(how) => match read_integrator(how, depth as i32) {
                            Err(e) => Err(e),
                            Ok(integrator) => match read_string_at(v, "/renderer"@, "renderer"@) {
                                Err(e) => Err(e),
                                Ok(renderer) => if renderer == "Standard"@ {
                                    Ok(
                                        view::View {
                                            camera,
                                            samples: samples as u32,
                                            depth: depth as i32,
                                            renderer: StandardRenderer::spec_new(integrator),
                                        },
                                    )
                                } else {
                                    Err(Fault::Unrecognised { typ: "renderer"@, name: renderer })
                                },
                            },
                        },
                    },
                },
            },
        },
    }
}

/// A value read as a texture.
pub open spec fn read_texture(v: Value) -> Result<MaterialModel, Fault> {
    match read_object(v, "texture"@) {
        Err(e) => Err(e),
        Ok(o) => match required(o, "type"@) {
            Err(e) => Err(e),
            Ok(t) => match read_string(t, "type"@) {
                Err(e) => Err(e),
                Ok(kind) => if kind == "Constant"@ {
                    match required(o, "colour"@) {
                        Err(e) => Err(e),
                        Ok(c) => match read_spectrum(c) {
                            Err(e) => Err(e),
                            Ok(colour) => Ok(MaterialModel::Constant(colour)),
                        },
                    }
                } else if kind == "Image"@ {
                    match required(o, "filename"@) {
                        Err(e) => Err(e),
                        Ok(f) => match read_string(f, "filename"@) {
                            Err(e) => Err(e),
                            Ok(filename) => Ok(MaterialModel::Image(filename)),
                        },
                    }
                } else {
                    Err(Fault::Unrecognised { typ: "texture type"@, name: kind })
                },
            },
        },
    }
}

/// A value read as a material.
pub open spec fn read_material(v: Value) -> Result<MaterialModel, Fault> {
    match read_object(v, "material"@) {
        Err(e) => Err(e),
        Ok(o) => match required(o, "type"@) {
            Err(e) => Err(e),
            Ok(t) => match read_string(t, "type"@) {
                Err(e) => Err(e),
                Ok(kind) => if kind == "Glass"@ {
                    Ok(MaterialModel::Glass)
                } else if kind == "Mirror"@ {
                    Ok(MaterialModel::Mirror)
                } else if kind == "Diffuse"@ {
                    match required(o, "texture"@) {
                        Err(e) => Err(e),
                        Ok(texture) => read_texture(texture),
                    }
                } else {
                    Err(Fault::Unrecognised { typ: "material type"@, name: kind })
                },
            },
        },
    }
}

/// The shape of the kind `kind` that an object describes.
pub open spec fn read_shape(o: serde_json::Map<String, Value>, kind: Seq<char>) -> Result<
    Shape,
    Fault,
> {
    if kind == "Cuboid"@ {
        match required(o, "extents"@) {
            Err(e) => Err(e),
            Ok(x) => match read_vector(x) {
                Err(e) => Err(e),
                Ok(extents) => Ok(Shape::Cuboid(extents)),
            },
        }
    } else if kind == "Ball"@ {
        match required(o, "radius"@) {
            Err(e) => Err(e),
            Ok(r) => match read_scalar(r, "radius"@) {
                Err(e) => Err(e),
                Ok(radius) => Ok(Shape::Ball(radius)),
            },
        }
    } else {
        Err(Fault::Unrecognised { typ: "Intersectable"@, name: kind })
    }
}

/// A value read as an object, with the material looked up among
/// `materials`.
pub open spec fn read_object_description(v: Value, materials: Seq<Seq<char>>) -> Result<
    ObjectDescription,
    Fault,
> {
    match read_object(v, "object"@) {
        Err(e) => Err(e),
        Ok(o) => match required(o, "material"@) {
            Err(e) => Err(e),
            Ok(m) => match read_string(m, "material"@) {
                Err(e) => Err(e),
                Ok(name) => match place(materials, name) {
                    None => Err(Fault::MissingReference { typ: "Material"@, name }),
                    Some(material) => match required(o, "transform"@) {
                        Err(e) => Err(e),
                        Ok(t) => match read_transform(t) {
                            Err(e) => Err(e),
                            Ok(transform) => match required(o, "Intersectable"@) {
                                Err(e) => Err(e),
                                Ok(k) => match read_string(k, "Intersectable"@) {
                                    Err(e) => Err(e),
                                    Ok(kind) => match read_shape(o, kind) {
                                        Err(e) => Err(e),
                                        Ok(shape) => Ok(
                                            ObjectDescription { material, transform, shape },
                                        ),
                                    },
                                },
                            },
                        },
                    },
                },
            },
        },
    }
}

/// A value read as a light. A point light has an intensity of one.
pub open spec fn read_light(v: Value) -> Result<Light, Fault> {
    match read_object(v, "light"@) {
        Err(e) => Err(e),
        Ok(o) => match required(o, "type"@) {
            Err(e) => Err(e),
            Ok(t) => match read_string(t, "type"@) {
                Err(e) => Err(e),
                Ok(kind) => match required(o, "colour"@) {
                    Err(e) => Err(e),
                    Ok(c) => match read_spectrum(c) {
                        Err(e) => Err(e),
                        Ok(colour) => if kind == "Point"@ {
                            match required(o, "position"@) {
                                Err(e) => Err(e),
                                Ok(p) => match read_point(p) {
                                    Err(e) => Err(e),
                                    Ok(position) => match required(o, "radius"@) {
                                        Err(e) => Err(e),
                                        Ok(r) => match read_scalar(r, "radius"@) {
                                            Err(e) => Err(e),
                                            Ok(radius) => Ok(
                                                Light::Point(
                                                    PointLight::spec_new(
                                                        Scalar { bits: ONE_BITS },
                                                        colour,
                                                        position,
                                                        radius,
                                                    ),
                                                ),
                                            ),
                                        },
                                    },
                                },
                            }
                        } else {
                            Err(Fault::Unrecognised { typ: "light type"@, name: kind })
                        },
                    },
                },
            },
        },
    }
}

/// The cameras of a description, each under its name.
pub open spec fn read_cameras(v: Value) -> Result<Seq<(Seq<char>, CameraDescription)>, Fault> {
    match read_object(v, "cameras"@) {
        Err(e) => Err(e),
        Ok(o) => gather(
            Seq::new(
                members(o).len(),
                |i: int| named(members(o)[i].0, read_camera(members(o)[i].1)),
            ),
            members(o).len(),
        ),
    }
}

/// The views of a description, each under its name.
pub open spec fn read_views(v: Value, cameras: Seq<Seq<char>>) -> Result<
    Seq<(Seq<char>, view::View)>,
    Fault,
> {
    match read_object(v, "views"@) {
        Err(e) => Err(e),
        Ok(o) => gather(
            Seq::new(
                members(o).len(),
                |i: int| named(members(o)[i].0, read_view(members(o)[i].1, cameras)),
            ),
            members(o).len(),
        ),
    }
}

/// The materials of a description, each under its name.
pub open spec fn read_materials(v: Value) -> Result<Seq<(Seq<char>, MaterialModel)>, Fault> {
    match read_object(v, "materials"@) {
        Err(e) => Err(e),
        Ok(o) => gather(
            Seq::new(
                members(o).len(),
                |i: int| named(members(o)[i].0, read_material(members(o)[i].1)),
            ),
            members(o).len(),
        ),
    }
}

/// The objects of a description.
pub open spec fn read_objects(v: Value, materials: Seq<Seq<char>>) -> Result<
    Seq<ObjectDescription>,
    Fault,
> {
    match read_object(v, "objects"@) {
        Err(e) => Err(e),
        Ok(o) => gather(
            Seq::new(
                members(o).len(),
                |i: int| read_object_description(members(o)[i].1, materials),
            ),
            members(o).len(),
        ),
    }
}

/// The lights of a description.
pub open spec fn read_lights(v: Value) -> Result<Seq<Light>, Fault> {
    match read_object(v, "lights"@) {
        Err(e) => Err(e),
        Ok(o) => gather(
            Seq::new(members(o).len(), |i: int| read_light(members(o)[i].1)),
            members(o).len(),
        ),
    }
}

/// A document read as a scene description. All five sections must be there
/// before any is read; then the cameras are read, the views, the materials,
/// the objects and the lights, and the first fault ends the reading.
pub open spec fn read_scene(v: Value) -> Result<SceneModel, Fault> {
    match required_at(v, "/cameras"@, "cameras"@) {
        Err(e) => Err(e),
        Ok(c) => match required_at(v, "/views"@, "views"@) {
            Err(e) => Err(e),
            Ok(w) => match required_at(v, "/objects"@, "objects"@) {
                Err(e) => Err(e),
                Ok(o) => match required_at(v, "/materials"@, "materials"@) {
                    Err(e) => Err(e),
                    Ok(m) => match required_at(v, "/lights"@, "lights"@) {
                        Err(e) => Err(e),
                        Ok(l) => match read_cameras(c) {
                            Err(e) => Err(e),
                            Ok(cameras) => match read_views(w, names(cameras)) {
                                Err(e) => Err(e),
                                Ok(views) => match read_materials(m) {
                                    Err(e) => Err(e),
                                    Ok(materials) => match read_objects(o, names(materials)) {
                                        Err(e) => Err(e),
                                        Ok(objects) => match read_lights(l) {
                                            Err(e) => Err(e),
                                            Ok(lights) => Ok(
                                                SceneModel {
                                                    cameras,
                                                    views,
                                                    materials,
                                                    objects,
                                                    lights,
                                                },
                                            ),
                                        },
                                    },
                                },
                            },
                        },
                    },
                },
            },
        },
    }
}

/// Whether a result is what reading should give.
pub open spec fn gives<T>(r: Result<T, Error>, wanted: Result<T, Fault>) -> bool {
    match r {
        Ok(t) => wanted == Ok::<T, Fault>(t),
        Err(e) => wanted == Err::<T, Fault>(e@),
    }
}

/// Whether a result is a list of named things that reading should give.
pub open spec fn gives_list<T>(
    r: Result<Vec<(String, T)>, Error>,
    wanted: Result<Seq<(Seq<char>, T)>, Fault>,
) -> bool {
    match r {
        Ok(list) => wanted == Ok::<Seq<(Seq<char>, T)>, Fault>(listed(list@)),
        Err(e) => wanted == Err::<Seq<(Seq<char>, T)>, Fault>(e@),
    }
}

/// Whether a result is the list that reading should give.
pub open spec fn gives_all<T>(r: Result<Vec<T>, Error>, wanted: Result<Seq<T>, Fault>) -> bool {
    match r {
        Ok(list) => wanted == Ok::<Seq<T>, Fault>(list@),
        Err(e) => wanted == Err::<Seq<T>, Fault>(e@),
    }
}

/// The names of a list of named things, each as its characters.
pub open spec fn names_of<T>(list: Seq<(String, T)>) -> Seq<Seq<char>> {
    Seq::new(list.len(), |i: int| list[i].0@)
}

/// Once a member has a fault, that fault is the result, whatever follows.
pub proof fn lemma_gather_fails<T>(results: Seq<Result<T, Fault>>, k: nat, n: nat)
    requires
        k <= n,
        gather(results, k) is Err,
    ensures
        gather(results, n) == gather(results, k),
    decreases n,
{
    if k < n {
        lemma_gather_fails(results, k, (n - 1) as nat);
    }
}

fn try_get_string<'a>(value: &'a Value, key: &'static str) -> (r: Result<&'a str, Error>)
    ensures
        match r {
            Ok(s) => read_string(*value, key@) == Ok::<Seq<char>, Fault>(s@),
            Err(e) => read_string(*value, key@) == Err::<Seq<char>, Fault>(e@),
        },
{
    match as_str(value) {
        Some(s) => Ok(s),
        None => Err(Error::ExpectedString(key)),
    }
}

fn try_get_object<'a>(value: &'a Value, key: &'static str) -> (r: Result<
    &'a serde_json::Map<String, Value>,
    Error,
>)
    ensures
        match r {
            Ok(o) => read_object(*value, key@) == Ok::<serde_json::Map<String, Value>, Fault>(*o),
            Err(e) => read_object(*value, key@) == Err::<serde_json::Map<String, Value>, Fault>(
                e@,
            ),
        },
{
    match as_object(value) {
        Some(o) => Ok(o),
        None => Err(Error::ExpectedObject(key)),
    }
}

fn try_get_u64(value: &Value, key: &'static str) -> (r: Result<u64, Error>)
    ensures
        gives(r, read_u64(*value, key@)),
{
    match as_u64(value) {
        Some(n) => Ok(n),
        None => Err(Error::ExpectedU64(key)),
    }
}

fn try_get_f64(value: &Value, key: &'static str) -> (r: Result<Scalar, Error>)
    ensures
        gives(r, read_scalar(*value, key@)),
{
    match as_scalar(value) {
        Some(x) => Ok(x),
        None => Err(Error::ExpectedF64(key)),
    }
}

fn try_get_i64(value: &Value, key: &'static str) -> (r: Result<i64, Error>)
    ensures
        gives(r, read_i64(*value, key@)),
{
    match as_i64(value) {
        Some(n) => Ok(n),
        None => Err(Error::ExpectedI64(key)),
    }
}

fn require<'a>(o: &'a serde_json::Map<String, Value>, key: &'static str) -> (r: Result<
    &'a Value,
    Error,
>)
    ensures
        match r {
            Ok(v) => required(*o, key@) == Ok::<Value, Fault>(*v),
            Err(e) => required(*o, key@) == Err::<Value, Fault>(e@),
        },
{
    match get(o, key) {
        Some(v) => Ok(v),
        None => Err(Error::MissingKey(key)),
    }
}

fn require_at<'a>(value: &'a Value, path: &'static str, key: &'static str) -> (r: Result<
    &'a Value,
    Error,
>)
    ensures
        match r {
            Ok(v) => required_at(*value, path@, key@) == Ok::<Value, Fault>(*v),
            Err(e) => required_at(*value, path@, key@) == Err::<Value, Fault>(e@),
        },
{
    match pointer(value, path) {
        Some(v) => Ok(v),
        None => Err(Error::MissingKey(key)),
    }
}

fn scalar_at(value: &Value, path: &'static str, key: &'static str) -> (r: Result<Scalar, Error>)
    ensures
        gives(r, read_scalar_at(*value, path@, key@)),
{
    match require_at(value, path, key) {
        Ok(n) => try_get_f64(n, key),
        Err(e) => Err(e),
    }
}

fn i64_at(value: &Value, path: &'static str, key: &'static str) -> (r: Result<i64, Error>)
    ensures
        gives(r, read_i64_at(*value, path@, key@)),
{
    match require_at(value, path, key) {
        Ok(n) => try_get_i64(n, key),
        Err(e) => Err(e),
    }
}

fn u64_at(value: &Value, path: &'static str, key: &'static str) -> (r: Result<u64, Error>)
    ensures
        gives(r, read_u64_at(*value, path@, key@)),
{
    match require_at(value, path, key) {
        Ok(n) => try_get_u64(n, key),
        Err(e) => Err(e),
    }
}

fn string_at<'a>(value: &'a Value, path: &'static str, key: &'static str) -> (r: Result<
    &'a str,
    Error,
>)
    ensures
        match r {
            Ok(s) => read_string_at(*value, path@, key@) == Ok::<Seq<char>, Fault>(s@),
            Err(e) => read_string_at(*value, path@, key@) == Err::<Seq<char>, Fault>(e@),
        },
{
    match require_at(value, path, key) {
        Ok(n) => try_get_string(n, key),
        Err(e) => Err(e),
    }
}

/// Whether two texts have the same characters.
fn same(a: &str, b: &str) -> (r: bool)
    ensures
        r == (a@ == b@),
{
    let x = a.to_owned();
    let y = b.to_owned();
    x == y
}

/// The first place at which a name stands in a list of named things.
fn find<T>(list: &Vec<(String, T)>, name: &str) -> (r: Option<usize>)
    ensures
        r == place(names_of(list@), name@),
        r matches Some(i) ==> i < list@.len() && list@[i as int].0@ == name@,
{
    let mut i: usize = 0;
    while i < list.len()
        invariant
            i <= list.len(),
            place_below(names_of(list@), name@, i as nat).is_none(),
        decreases list.len() - i,
    {
        if same(list[i].0.as_str(), name) {
            proof {
                lemma_place_found(names_of(list@), name@, (i + 1) as nat, list@.len());
            }
            return Some(i);
        }
        i += 1;
    }
    None
}

/// A place that was found stays the place, however far the search goes on.
pub proof fn lemma_place_found(list: Seq<Seq<char>>, name: Seq<char>, k: nat, n: nat)
    requires
        k <= n,
        place_below(list, name, k) is Some,
    ensures
        place_below(list, name, n) == place_below(list, name, k),
    decreases n,
{
    if k < n {
        lemma_place_found(list, name, k, (n - 1) as nat);
    }
}

fn parse_triple(
    data: &Value,
    what: &'static str,
    malformed: Error,
    keys: (&'static str, &'static str, &'static str),
) -> (r: Result<(Scalar, Scalar, Scalar), Error>)
    ensures
        gives(r, read_triple(*data, what@, malformed@, (keys.0@, keys.1@, keys.2@))),
{
    let data = match as_array(data) {
        Some(a) => a,
        None => {
            return Err(Error::ExpectedArray(what));
        },
    };
    if data.len() != 3 {
        return Err(malformed);
    }
    let x = match try_get_f64(&data[0], keys.0) {
        Ok(x) => x,
        Err(e) => {
            return Err(e);
        },
    };
    let y = match try_get_f64(&data[1], keys.1) {
        Ok(y) => y,
        Err(e) => {
            return Err(e);
        },
    };
    let z = match try_get_f64(&data[2], keys.2) {
        Ok(z) => z,
        Err(e) => {
            return Err(e);
        },
    };
    Ok((x, y, z))
}

/// Reads a vector: an array of three numbers.
pub fn parse_vector(data: &Value) -> (r: Result<Vector, Error>)
    ensures
        gives(r, read_vector(*data)),
{
    match parse_triple(
        data,
        "vector",
        Error::MalformedVector("Array of three elements expected."),
        ("x", "y", "z"),
    ) {
        Ok(t) => Ok(Vector::new(t.0, t.1, t.2)),
        Err(e) => Err(e),
    }
}

/// Reads a point: an array of three numbers.
pub fn parse_point(data: &Value) -> (r: Result<Point, Error>)
    ensures
        gives(r, read_point(*data)),
{
    match parse_triple(
        data,
        "point",
        Error::MalformedPoint("Array of three elements expected."),
        ("x", "y", "z"),
    ) {
        Ok(t) => Ok(Point::new(t.0, t.1, t.2)),
        Err(e) => Err(e),
    }
}

/// Reads a colour: an array of three numbers.
pub fn parse_spectrum(data: &Value) -> (r: Result<Spectrum, Error>)
    ensures
        gives(r, read_spectrum(*data)),
{
    match parse_triple(
        data,
        "spectrum",
        Error::MalformedSpectrum("Array of three elements expected"),
        ("r", "g", "b"),
    ) {
        Ok(t) => Ok(Vector::new(t.0, t.1, t.2)),
        Err(e) => Err(e),
    }
}

/// Reads a transform: an object with a `position` and, if it likes, a
/// `rotation`.
pub fn parse_transform(data: &Value) -> (r: Result<Transform, Error>)
    ensures
        gives(r, read_transform(*data)),
{
    let data = match try_get_object(data, "transform") {
        Ok(o) => o,
        Err(e) => {
            return Err(e);
        },
    };
    let position = match require(data, "position") {
        Ok(p) => p,
        Err(e) => {
            return Err(e);
        },
    };
    let position = match parse_vector(position) {
        Ok(p) => p,
        Err(e) => {
            return Err(e);
        },
    };
    let rotation = match get(data, "rotation") {
        Some(rot) => match parse_vector(rot) {
            Ok(r) => r,
            Err(e) => {
                return Err(e);
            },
        },
        None => Vector::zero(),
    };
    Ok(Transform { position, rotation })
}

/// Reads a camera.
pub fn parse_camera(data: &Value) -> (r: Result<CameraDescription, Error>)
    ensures
        gives(r, read_camera(*data)),
{
    let transform = match require_at(data, "/transform", "transform") {
        Ok(t) => t,
        Err(e) => {
            return Err(e);
        },
    };
    let transform = match parse_transform(transform) {
        Ok(t) => t,
        Err(e) => {
            return Err(e);
        },
    };
    let width = match u64_at(data, "/width", "width") {
        Ok(n) => n,
        Err(e) => {
            return Err(e);
        },
    };
    let height = match u64_at(data, "/height", "height") {
        Ok(n) => n,
        Err(e) => {
            return Err(e);
        },
    };
    let fov = match scalar_at(data, "/fov", "fov") {
        Ok(x) => x,
        Err(e) => {
            return Err(e);
        },
    };
    let near = match scalar_at(data, "/near", "near") {
        Ok(x) => x,
        Err(e) => {
            return Err(e);
        },
    };
    let far = match scalar_at(data, "/far", "far") {
        Ok(x) => x,
        Err(e) => {
            return Err(e);
        },
    };
    let camera_type = match string_at(data, "/type", "type") {
        Ok(s) => s,
        Err(e) => {
            return Err(e);
        },
    };
    if same(camera_type, "Perspective") {
        Ok(
            CameraDescription {
                transform,
                width: #[verifier::truncate] (width as u32),
                height: #[verifier::truncate] (height as u32),
                fov,
                near,
                far,
            },
        )
    } else {
        Err(Error::Unrecognised { typ: "camera type", name: camera_type.to_owned() })
    }
}

fn parse_integrator(name: &str, depth: i32) -> (r: Result<Integrator, Error>)
    ensures
        gives(r, read_integrator(name@, depth)),
{
    if same(name, "Path") {
        Ok(Integrator::PathTraced(PathTraced::new(depth)))
    } else if same(name, "Whitted") {
        Ok(Integrator::Whitted(Whitted::new(depth)))
    } else {
        Err(Error::Unrecognised { typ: "integrator", name: name.to_owned() })
    }
}

/// Reads a view. `cameras` are the cameras that it may name.
pub fn parse_view(data: &Value, cameras: &Vec<(String, CameraDescription)>) -> (r: Result<
    view::View,
    Error,
>)
    ensures
        gives(r, read_view(*data, names_of(cameras@))),
        r matches Ok(view) ==> view.camera < cameras@.len(),
{
    let camera = match string_at(data, "/camera", "camera") {
        Ok(s) => s,
        Err(e) => {
            return Err(e);
        },
    };
    let camera = match find(cameras, camera) {
        Some(i) => i,
        None => {
            return Err(Error::MissingReference { typ: "Camera", name: camera.to_owned() });
        },
    };
    let samples = match i64_at(data, "/samples", "samples") {
        Ok(n) => n,
        Err(e) => {
            return Err(e);
        },
    };
    let depth = match i64_at(data, "/depth", "depth") {
        Ok(n) => n,
        Err(e) => {
            return Err(e);
        },
    };
    let integrator = match string_at(data, "/integrator", "integrator") {
        Ok(s) => s,
        Err(e) => {
            return Err(e);
        },
    };
    let integrator = match parse_integrator(integrator, #[verifier::truncate] (depth as i32)) {
        Ok(i) => i,
        Err(e) => {
            return Err(e);
        },
    };
    let renderer = match string_at(data, "/renderer", "renderer") {
        Ok(s) => s,
        Err(e) => {
            return Err(e);
        },
    };
    if same(renderer, "Standard") {
        Ok(
            view::View::new(
                camera,
                #[verifier::truncate] (samples as u32),
                #[verifier::truncate] (depth as i32),
                StandardRenderer::new(integrator),
            ),
        )
    } else {
        Err(Error::Unrecognised { typ: "renderer", name: renderer.to_owned() })
    }
}

/// Reads a texture.
pub fn parse_texture(data: &Value) -> (r: Result<TextureDescription, Error>)
    ensures
        match r {
            Ok(t) => read_texture(*data) == Ok::<MaterialModel, Fault>(
                MaterialDescription::Diffuse(t)@,
            ),
            Err(e) => read_texture(*data) == Err::<MaterialModel, Fault>(e@),
        },
{
    let data = match try_get_object(data, "texture") {
        Ok(o) => o,
        Err(e) => {
            return Err(e);
        },
    };
    let texture_type = match require(data, "type") {
        Ok(t) => t,
        Err(e) => {
            return Err(e);
        },
    };
    let texture_type = match try_get_string(texture_type, "type") {
        Ok(s) => s,
        Err(e) => {
            return Err(e);
        },
    };
    if same(texture_type, "Constant") {
        let colour = match require(data, "colour") {
            Ok(c) => c,
            Err(e) => {
                return Err(e);
            },
        };
        match parse_spectrum(colour) {
            Ok(c) => Ok(TextureDescription::Constant(c)),
            Err(e) => Err(e),
        }
    } else if same(texture_type, "Image") {
        let filename = match require(data, "filename") {
            Ok(f) => f,
            Err(e) => {
                return Err(e);
            },
        };
        match try_get_string(filename, "filename") {
            Ok(f) => Ok(TextureDescription::Image(f.to_owned())),
            Err(e) => Err(e),
        }
    } else {
        Err(Error::Unrecognised { typ: "texture type", name: texture_type.to_owned() })
    }
}

/// Reads a material.
pub fn parse_material(data: &Value) -> (r: Result<MaterialDescription, Error>)
    ensures
        match r {
            Ok(m) => read_material(*data) == Ok::<MaterialModel, Fault>(m@),
            Err(e) => read_material(*data) == Err::<MaterialModel, Fault>(e@),
        },
{
    let data = match try_get_object(data, "material") {
        Ok(o) => o,
        Err(e) => {
            return Err(e);
        },
    };
    let material_type = match require(data, "type") {
        Ok(t) => t,
        Err(e) => {
            return Err(e);
        },
    };
    let material_type = match try_get_string(material_type, "type") {
        Ok(s) => s,
        Err(e) => {
            return Err(e);
        },
    };
    if same(material_type, "Glass") {
        Ok(MaterialDescription::Glass)
    } else if same(material_type, "Mirror") {
        Ok(MaterialDescription::Mirror)
    } else if same(material_type, "Diffuse") {
        let texture = match require(data, "texture") {
            Ok(t) => t,
            Err(e) => {
                return Err(e);
            },
        };
        match parse_texture(texture) {
            Ok(t) => Ok(MaterialDescription::Diffuse(t)),
            Err(e) => Err(e),
        }
    } else {
        Err(Error::Unrecognised { typ: "material type", name: material_type.to_owned() })
    }
}

fn parse_shape(data: &serde_json::Map<String, Value>, kind: &str) -> (r: Result<Shape, Error>)
    ensures
        gives(r, read_shape(*data, kind@)),
{
    if same(kind, "Cuboid") {
        let extents = match require(data, "extents") {
            Ok(x) => x,
            Err(e) => {
                return Err(e);
            },
        };
        match parse_vector(extents) {
            Ok(x) => Ok(Shape::Cuboid(x)),
            Err(e) => Err(e),
        }
    } else if same(kind, "Ball") {
        let radius = match require(data, "radius") {
            Ok(x) => x,
            Err(e) => {
                return Err(e);
            },
        };
        match try_get_f64(radius, "radius") {
            Ok(x) => Ok(Shape::Ball(x)),
            Err(e) => Err(e),
        }
    } else {
        Err(Error::Unrecognised { typ: "Intersectable", name: kind.to_owned() })
    }
}

/// Reads an object. `materials` are the materials that it may name.
pub fn parse_object(data: &Value, materials: &Vec<(String, MaterialDescription)>) -> (r: Result<
    ObjectDescription,
    Error,
>)
    ensures
        gives(r, read_object_description(*data, names_of(materials@))),
        r matches Ok(object) ==> object.material < materials@.len(),
{
    let data = match try_get_object(data, "object") {
        Ok(o) => o,
        Err(e) => {
            return Err(e);
        },
    };
    let material = match require(data, "material") {
        Ok(m) => m,
        Err(e) => {
            return Err(e);
        },
    };
    let material = match try_get_string(material, "material") {
        Ok(s) => s,
        Err(e) => {
            return Err(e);
        },
    };
    let material = match find(materials, material) {
        Some(i) => i,
        None => {
            return Err(Error::MissingReference { typ: "Material", name: material.to_owned() });
        },
    };
    let transform = match require(data, "transform") {
        Ok(t) => t,
        Err(e) => {
            return Err(e);
        },
    };
    let transform = match parse_transform(transform) {
        Ok(t) => t,
        Err(e) => {
            return Err(e);
        },
    };
    let kind = match require(data, "Intersectable") {
        Ok(k) => k,
        Err(e) => {
            return Err(e);
        },
    };
    let kind = match try_get_string(kind, "Intersectable") {
        Ok(s) => s,
        Err(e) => {
            return Err(e);
        },
    };
    match parse_shape(data, kind) {
        Ok(shape) => Ok(ObjectDescription { material, transform, shape }),
        Err(e) => Err(e),
    }
}

/// Reads a light.
pub fn parse_light(data: &Value) -> (r: Result<Light, Error>)
    ensures
        gives(r, read_light(*data)),
{
    let data = match try_get_object(data, "light") {
        Ok(o) => o,
        Err(e) => {
            return Err(e);
        },
    };
    let light_type = match require(data, "type") {
        Ok(t) => t,
        Err(e) => {
            return Err(e);
        },
    };
    let light_type = match try_get_string(light_type, "type") {
        Ok(s) => s,
        Err(e) => {
            return Err(e);
        },
    };
    let colour = match require(data, "colour") {
        Ok(c) => c,
        Err(e) => {
            return Err(e);
        },
    };
    let colour = match parse_spectrum(colour) {
        Ok(c) => c,
        Err(e) => {
            return Err(e);
        },
    };
    if same(light_type, "Point") {
        let position = match require(data, "position") {
            Ok(p) => p,
            Err(e) => {
                return Err(e);
            },
        };
        let position = match parse_point(position) {
            Ok(p) => p,
            Err(e) => {
                return Err(e);
            },
        };
        let radius = match require(data, "radius") {
            Ok(x) => x,
            Err(e) => {
                return Err(e);
            },
        };
        match try_get_f64(radius, "radius") {
            Ok(radius) => Ok(Light::Point(PointLight::new(Scalar::one(), colour, position, radius))),
            Err(e) => Err(e),
        }
    } else {
        Err(Error::Unrecognised { typ: "light type", name: light_type.to_owned() })
    }
}

/// Reads the cameras: an object that holds each camera under its name.
pub fn parse_cameras(data: &Value) -> (r: Result<Vec<(String, CameraDescription)>, Error>)
    ensures
        gives_list(r, read_cameras(*data)),
{
    let o = match try_get_object(data, "cameras") {
        Ok(o) => o,
        Err(e) => {
            return Err(e);
        },
    };
    let entries = iter(o);
    let ghost results = Seq::new(
        members(*o).len(),
        |i: int| named(members(*o)[i].0, read_camera(members(*o)[i].1)),
    );
    let mut cameras: Vec<(String, CameraDescription)> = Vec::new();
    let mut i: usize = 0;
    proof {
        assert(listed(cameras@) =~= Seq::empty());
        assert(read_cameras(*data) == gather(results, results.len()));
    }
    while i < entries.len()
        invariant
            read_cameras(*data) == gather(results, results.len()),
            i <= entries.len(),
            entries@.len() == members(*o).len(),
            forall|j: int|
                0 <= j < entries@.len() ==> (#[trigger] entries@[j]).0@ == members(*o)[j].0
                    && *entries@[j].1 == members(*o)[j].1,
            results.len() == members(*o).len(),
            forall|j: int|
                0 <= j < results.len() ==> #[trigger] results[j] == named(
                    members(*o)[j].0,
                    read_camera(members(*o)[j].1),
                ),
            gather(results, i as nat) == Ok::<Seq<(Seq<char>, CameraDescription)>, Fault>(
                listed(cameras@),
            ),
        decreases entries.len() - i,
    {
        let (name, value) = entries[i];
        match parse_camera(value) {
            Ok(camera) => {
                proof {
                    assert(results[i as int] == Ok::<(Seq<char>, CameraDescription), Fault>(
                        (name@, camera),
                    ));
                    assert(listed(cameras@).push((name@, camera)) =~= listed(
                        cameras@.push((*name, camera)),
                    ));
                }
                cameras.push((name.clone(), camera));
            },
            Err(e) => {
                proof {
                    assert(results[i as int] == Err::<(Seq<char>, CameraDescription), Fault>(e@));
                    lemma_gather_fails(results, (i + 1) as nat, results.len());
                }
                return Err(e);
            },
        }
        i += 1;
    }
    Ok(cameras)
}

/// Reads the views: an object that holds each view under its name.
pub fn parse_views(data: &Value, cameras: &Vec<(String, CameraDescription)>) -> (r: Result<
    Vec<(String, view::View)>,
    Error,
>)
    ensures
        gives_list(r, read_views(*data, names_of(cameras@))),
        r matches Ok(views) ==> forall|i: int|
            0 <= i < views@.len() ==> (#[trigger] views@[i]).1.camera < cameras@.len(),
{
    let o = match try_get_object(data, "views") {
        Ok(o) => o,
        Err(e) => {
            return Err(e);
        },
    };
    let entries = iter(o);
    let ghost results = Seq::new(
        members(*o).len(),
        |i: int| named(members(*o)[i].0, read_view(members(*o)[i].1, names_of(cameras@))),
    );
    let mut views: Vec<(String, view::View)> = Vec::new();
    let mut i: usize = 0;
    proof {
        assert(listed(views@) =~= Seq::empty());
        assert(read_views(*data, names_of(cameras@)) == gather(results, results.len()));
    }
    while i < entries.len()
        invariant
            read_views(*data, names_of(cameras@)) == gather(results, results.len()),
            i <= entries.len(),
            entries@.len() == members(*o).len(),
            forall|j: int|
                0 <= j < entries@.len() ==> (#[trigger] entries@[j]).0@ == members(*o)[j].0
                    && *entries@[j].1 == members(*o)[j].1,
            results.len() == members(*o).len(),
            forall|j: int|
                0 <= j < results.len() ==> #[trigger] results[j] == named(
                    members(*o)[j].0,
                    read_view(members(*o)[j].1, names_of(cameras@)),
                ),
            gather(results, i as nat) == Ok::<Seq<(Seq<char>, view::View)>, Fault>(
                listed(views@),
            ),
            forall|j: int|
                0 <= j < views@.len() ==> (#[trigger] views@[j]).1.camera < cameras@.len(),
        decreases entries.len() - i,
    {
        let (name, value) = entries[i];
        match parse_view(value, cameras) {
            Ok(view) => {
                proof {
                    assert(results[i as int] == Ok::<(Seq<char>, view::View), Fault>(
                        (name@, view),
                    ));
                    assert(listed(views@).push((name@, view)) =~= listed(
                        views@.push((*name, view)),
                    ));
                }
                views.push((name.clone(), view));
            },
            Err(e) => {
                proof {
                    assert(results[i as int] == Err::<(Seq<char>, view::View), Fault>(e@));
                    lemma_gather_fails(results, (i + 1) as nat, results.len());
                }
                return Err(e);
            },
        }
        i += 1;
    }
    Ok(views)
}

/// Reads the materials: an object that holds each material under its name.
pub fn parse_materials(data: &Value) -> (r: Result<Vec<(String, MaterialDescription)>, Error>)
    ensures
        match r {
            Ok(list) => read_materials(*data) == Ok::<Seq<(Seq<char>, MaterialModel)>, Fault>(
                listed_materials(list@),
            ),
            Err(e) => read_materials(*data) == Err::<Seq<(Seq<char>, MaterialModel)>, Fault>(e@),
        },
{
    let o = match try_get_object(data, "materials") {
        Ok(o) => o,
        Err(e) => {
            return Err(e);
        },
    };
    let entries = iter(o);
    let ghost results = Seq::new(
        members(*o).len(),
        |i: int| named(members(*o)[i].0, read_material(members(*o)[i].1)),
    );
    let mut materials: Vec<(String, MaterialDescription)> = Vec::new();
    let mut i: usize = 0;
    proof {
        assert(listed_materials(materials@) =~= Seq::empty());
        assert(read_materials(*data) == gather(results, results.len()));
    }
    while i < entries.len()
        invariant
            read_materials(*data) == gather(results, results.len()),
            i <= entries.len(),
            entries@.len() == members(*o).len(),
            forall|j: int|
                0 <= j < entries@.len() ==> (#[trigger] entries@[j]).0@ == members(*o)[j].0
                    && *entries@[j].1 == members(*o)[j].1,
            results.len() == members(*o).len(),
            forall|j: int|
                0 <= j < results.len() ==> #[trigger] results[j] == named(
                    members(*o)[j].0,
                    read_material(members(*o)[j].1),
                ),
            gather(results, i as nat) == Ok::<Seq<(Seq<char>, MaterialModel)>, Fault>(
                listed_materials(materials@),
            ),
        decreases entries.len() - i,
    {
        let (name, value) = entries[i];
        match parse_material(value) {
            Ok(material) => {
                proof {
                    assert(results[i as int] == Ok::<(Seq<char>, MaterialModel), Fault>(
                        (name@, material@),
                    ));
                    assert(listed_materials(materials@).push((name@, material@))
                        =~= listed_materials(materials@.push((*name, material))));
                }
                materials.push((name.clone(), material));
            },
            Err(e) => {
                proof {
                    assert(results[i as int] == Err::<(Seq<char>, MaterialModel), Fault>(e@));
                    lemma_gather_fails(results, (i + 1) as nat, results.len());
                }
                return Err(e);
            },
        }
        i += 1;
    }
    Ok(materials)
}

/// Reads the objects: an object that holds each of them under a name.
pub fn parse_objects(data: &Value, materials: &Vec<(String, MaterialDescription)>) -> (r: Result<
    Vec<ObjectDescription>,
    Error,
>)
    ensures
        gives_all(r, read_objects(*data, names_of(materials@))),
        r matches Ok(objects) ==> forall|i: int|
            0 <= i < objects@.len() ==> (#[trigger] objects@[i]).material < materials@.len(),
{
    let o = match try_get_object(data, "objects") {
        Ok(o) => o,
        Err(e) => {
            return Err(e);
        },
    };
    let entries = iter(o);
    let ghost results = Seq::new(
        members(*o).len(),
        |i: int| read_object_description(members(*o)[i].1, names_of(materials@)),
    );
    let mut objects: Vec<ObjectDescription> = Vec::new();
    let mut i: usize = 0;
    proof {
        assert(objects@ =~= Seq::empty());
        assert(read_objects(*data, names_of(materials@)) == gather(results, results.len()));
    }
    while i < entries.len()
        invariant
            read_objects(*data, names_of(materials@)) == gather(results, results.len()),
            i <= entries.len(),
            entries@.len() == members(*o).len(),
            forall|j: int|
                0 <= j < entries@.len() ==> (#[trigger] entries@[j]).0@ == members(*o)[j].0
                    && *entries@[j].1 == members(*o)[j].1,
            results.len() == members(*o).len(),
            forall|j: int|
                0 <= j < results.len() ==> #[trigger] results[j] == read_object_description(
                    members(*o)[j].1,
                    names_of(materials@),
                ),
            gather(results, i as nat) == Ok::<Seq<ObjectDescription>, Fault>(objects@),
            forall|j: int|
                0 <= j < objects@.len() ==> (#[trigger] objects@[j]).material < materials@.len(),
        decreases entries.len() - i,
    {
        let (name, value) = entries[i];
        match parse_object(value, materials) {
            Ok(object) => {
                proof {
                    assert(results[i as int] == Ok::<ObjectDescription, Fault>(object));
                }
                objects.push(object);
            },
            Err(e) => {
                proof {
                    assert(results[i as int] == Err::<ObjectDescription, Fault>(e@));
                    lemma_gather_fails(results, (i + 1) as nat, results.len());
                }
                return Err(e);
            },
        }
        i += 1;
    }
    Ok(objects)
}

/// Reads the lights: an object that holds each light under a name.
pub fn parse_lights(data: &Value) -> (r: Result<Vec<Light>, Error>)
    ensures
        gives_all(r, read_lights(*data)),
{
    let o = match try_get_object(data, "lights") {
        Ok(o) => o,
        Err(e) => {
            return Err(e);
        },
    };
    let entries = iter(o);
    let ghost results = Seq::new(members(*o).len(), |i: int| read_light(members(*o)[i].1));
    let mut lights: Vec<Light> = Vec::new();
    let mut i: usize = 0;
    proof {
        assert(lights@ =~= Seq::empty());
        assert(read_lights(*data) == gather(results, results.len()));
    }
    while i < entries.len()
        invariant
            read_lights(*data) == gather(results, results.len()),
            i <= entries.len(),
            entries@.len() == members(*o).len(),
            forall|j: int|
                0 <= j < entries@.len() ==> (#[trigger] entries@[j]).0@ == members(*o)[j].0
                    && *entries@[j].1 == members(*o)[j].1,
            results.len() == members(*o).len(),
            forall|j: int|
                0 <= j < results.len() ==> #[trigger] results[j] == read_light(members(*o)[j].1),
            gather(results, i as nat) == Ok::<Seq<Light>, Fault>(lights@),
        decreases entries.len() - i,
    {
        let (name, value) = entries[i];
        match parse_light(value) {
            Ok(light) => {
                proof {
                    assert(results[i as int] == Ok::<Light, Fault>(light));
                }
                lights.push(light);
            },
            Err(e) => {
                proof {
                    assert(results[i as int] == Err::<Light, Fault>(e@));
                    lemma_gather_fails(results, (i + 1) as nat, results.len());
                }
                return Err(e);
            },
        }
        i += 1;
    }
    Ok(lights)
}

/// Reads a scene description from a JSON text. A text that is no JSON
/// document gives the words of the JSON reader on it; a document gives what
/// [`read_scene`] says. In a description that was read every material of an
/// object and every camera of a view is an index into its list.
pub fn parse_scene(json: &str) -> (r: Result<SceneDescription, Error>)
    ensures
        match document(json@) {
            Err(words) => r matches Err(e) && e@ == Fault::Json(words),
            Ok(data) => match r {
                Ok(scene) => read_scene(data) == Ok::<SceneModel, Fault>(scene@),
                Err(e) => read_scene(data) == Err::<SceneModel, Fault>(e@),
            },
        },
        r matches Ok(scene) ==> scene.well_referenced(),
{
    let data = match from_str(json) {
        Ok(data) => data,
        Err(words) => {
            return Err(Error::Json(words));
        },
    };
    let cameras = match require_at(&data, "/cameras", "cameras") {
        Ok(v) => v,
        Err(e) => {
            return Err(e);
        },
    };
    let views = match require_at(&data, "/views", "views") {
        Ok(v) => v,
        Err(e) => {
            return Err(e);
        },
    };
    let objects = match require_at(&data, "/objects", "objects") {
        Ok(v) => v,
        Err(e) => {
            return Err(e);
        },
    };
    let materials = match require_at(&data, "/materials", "materials") {
        Ok(v) => v,
        Err(e) => {
            return Err(e);
        },
    };
    let lights = match require_at(&data, "/lights", "lights") {
        Ok(v) => v,
        Err(e) => {
            return Err(e);
        },
    };
    let cameras = match parse_cameras(cameras) {
        Ok(c) => c,
        Err(e) => {
            return Err(e);
        },
    };
    proof {
        assert(names(listed(cameras@)) =~= names_of(cameras@));
    }
    let views = match parse_views(views, &cameras) {
        Ok(v) => v,
        Err(e) => {
            return Err(e);
        },
    };
    let materials = match parse_materials(materials) {
        Ok(m) => m,
        Err(e) => {
            return Err(e);
        },
    };
    proof {
        assert(names(listed_materials(materials@)) =~= names_of(materials@));
    }
    let objects = match parse_objects(objects, &materials) {
        Ok(o) => o,
        Err(e) => {
            return Err(e);
        },
    };
    let lights = match parse_lights(lights) {
        Ok(l) => l,
        Err(e) => {
            return Err(e);
        },
    };
    Ok(SceneDescription { cameras, views, materials, objects, lights })
}

} // verus!
