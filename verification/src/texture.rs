//! Texture-descriptor model and the cubemap reinterpretation step: a flat
//! sprite sheet that stacks N square faces vertically is rewritten, in its
//! descriptor alone, as an N-layer array texture sampled as a cube with a
//! non-interpolating sampler. Pixel data is untouched by design; only the
//! descriptor changes.
use vstd::prelude::*;
use vstd::arithmetic::div_mod::lemma_div_by_self;
use vstd::arithmetic::div_mod::lemma_mod_multiples_basic;
use vstd::arithmetic::div_mod::lemma_div_multiples_vanish;

verus! {

/// Numeric id standing for a texture asset held by the external asset
/// store; the store around this crate maps ids to its own handles.
#[derive(Clone, Copy, PartialEq, Eq, Structural, Debug)]
pub struct TextureHandle(pub u64);

/// How the sampler interpolates between texel centers.
#[derive(Clone, Copy, PartialEq, Eq, Structural, Debug)]
pub enum SamplerMode {
    Linear,
    Nearest,
}

/// How the render system views the texture when sampling it.
#[derive(Clone, Copy, PartialEq, Eq, Structural, Debug)]
pub enum ViewDimension {
    Flat,
    Cube,
}

/// The mutable texture descriptor of a decoded image asset: its size in
/// pixels, how many array layers it holds, and how it is sampled.
#[derive(Clone, Copy, PartialEq, Eq, Structural, Debug)]
pub struct ImageDescriptor {
    pub width: u32,
    pub height: u32,
    pub array_layer_count: u32,
    pub sampler: SamplerMode,
    pub view_dimension: ViewDimension,
}

/// Why the cubemap pipeline failed for an asset.
#[derive(Clone, Copy, PartialEq, Eq, Structural, Debug)]
pub enum ReinterpretError {
    /// The handle did not resolve to an image at mutation time.
    AssetNotFound,
    /// The sheet's height is not an exact multiple of its width, so it
    /// cannot be split into square faces of edge `width`.
    InvalidAspectRatio,
}

/// A sheet can be split into square faces: its height is an exact
/// positive multiple of its width.
pub open spec fn aspect_valid(d: ImageDescriptor) -> bool {
    &&& d.width > 0
    &&& d.height as int % d.width as int == 0
}

/// The number of square faces stacked in the sheet.
pub open spec fn layer_count(d: ImageDescriptor) -> int {
    d.height as int / d.width as int
}

/// The descriptor after reinterpretation: the same pixel buffer declared
/// as `layer_count` square slices of edge `width`, viewed as a cube and
/// sampled without interpolation.
pub open spec fn stacked_as_cube(d: ImageDescriptor) -> ImageDescriptor {
    ImageDescriptor {
        width: d.width,
        height: d.width,
        array_layer_count: layer_count(d) as u32,
        sampler: SamplerMode::Nearest,
        view_dimension: ViewDimension::Cube,
    }
}

/// What one reinterpretation attempt does to a descriptor and what it
/// returns: a sheet that is already layered is left untouched (the call
/// fails closed and reports that nothing was applied); a sheet whose
/// height is no exact multiple of its width is rejected untouched; any
/// other sheet is reinterpreted.
pub open spec fn reinterpret_spec(d: ImageDescriptor) -> (ImageDescriptor, Result<
    bool,
    ReinterpretError,
>) {
    if d.array_layer_count != 1 {
        (d, Ok(false))
    } else if !aspect_valid(d) {
        (d, Err(ReinterpretError::InvalidAspectRatio))
    } else {
        (stacked_as_cube(d), Ok(true))
    }
}

/// Rewrite a flat sprite sheet's descriptor as a cube-compatible array
/// texture. Returns `Ok(true)` when the descriptor was rewritten,
/// `Ok(false)` when it was already layered and was deliberately left
/// alone, and `Err(InvalidAspectRatio)` (descriptor untouched) when the
/// sheet cannot be split into square faces.
pub fn reinterpret(desc: &mut ImageDescriptor) -> (r: Result<bool, ReinterpretError>)
    ensures
        *final(desc) == reinterpret_spec(*old(desc)).0,
        r == reinterpret_spec(*old(desc)).1,
{
    if desc.array_layer_count != 1 {
        return Ok(false);
    }
    if desc.width == 0 || desc.height % desc.width != 0 {
        return Err(ReinterpretError::InvalidAspectRatio);
    }
    let layers: u32 = desc.height / desc.width;
    desc.height = desc.width;
    desc.array_layer_count = layers;
    desc.sampler = SamplerMode::Nearest;
    desc.view_dimension = ViewDimension::Cube;
    Ok(true)
}

/// Reinterpretation is idempotent on descriptors: applying the step to a
/// descriptor it has already produced changes nothing. A reinterpreted
/// sheet either carries more than one layer (the step fails closed) or
/// came out as a single square face, which reinterprets to itself.
pub proof fn lemma_reinterpret_idempotent(d: ImageDescriptor)
    ensures
        reinterpret_spec(reinterpret_spec(d).0).0 == reinterpret_spec(d).0,
{
    let d1 = reinterpret_spec(d).0;
    if d.array_layer_count == 1 && aspect_valid(d) {
        if d1.array_layer_count == 1 {
            lemma_mod_multiples_basic(1, d.width as int);
            lemma_div_by_self(d.width as int);
        }
    }
}

/// A sheet of exactly six stacked square faces reinterprets successfully
/// into a six-layer cube texture: the shape every skybox source takes.
pub proof fn lemma_six_face_sheet(d: ImageDescriptor)
    requires
        d.array_layer_count == 1,
        d.width > 0,
        d.height == 6 * d.width,
    ensures
        reinterpret_spec(d).1 == Ok::<bool, ReinterpretError>(true),
        reinterpret_spec(d).0.array_layer_count == 6,
        reinterpret_spec(d).0.view_dimension == ViewDimension::Cube,
        reinterpret_spec(d).0.sampler == SamplerMode::Nearest,
{
    lemma_mod_multiples_basic(6, d.width as int);
    lemma_div_multiples_vanish(6, d.width as int);
    assert(d.height as int == (d.width as int) * 6) by (nonlinear_arith)
        requires
            d.height as int == 6 * (d.width as int),
    ;
}

} // verus!
