//! The per-frame cubemap pipeline step: poll the loader's reported state,
//! and — exactly once, the first frame the sheet is fully loaded —
//! reinterpret its descriptor as a cube texture and rebind every skybox
//! surface to it.
use vstd::prelude::*;
use crate::skybox::SkyboxSurface;
use crate::skybox::bind_all;
use crate::skybox::bind_all_spec;
use crate::store::ImageStore;
use crate::store::store_lookup;
use crate::store::store_set;
use crate::store::lemma_store_set_lookup;
use crate::texture::ImageDescriptor;
use crate::texture::ReinterpretError;
use crate::texture::TextureHandle;
use crate::texture::reinterpret;
use crate::texture::reinterpret_spec;

verus! {

/// The state the external asset loader reports for an asset.
#[derive(Clone, Copy, PartialEq, Eq, Structural, Debug)]
pub enum LoadState {
    NotLoaded,
    Loading,
    Loaded,
    Failed,
}

/// Process-wide cubemap pipeline state: which image asset holds the sky
/// sheet, and whether it has already been reinterpreted (`loaded`).
#[derive(Clone, Copy, PartialEq, Eq, Structural, Debug)]
pub struct SkyCubeMap {
    pub image: TextureHandle,
    pub loaded: bool,
}

/// The one-shot guard: the pipeline acts only when the asset has finished
/// loading and has not been acted on before. A load failure never lifts
/// the guard, so a failed sheet is skipped indefinitely.
pub open spec fn guard_open(cm: SkyCubeMap, load: LoadState) -> bool {
    &&& !cm.loaded
    &&& load == LoadState::Loaded
}

/// What one frame of the pipeline does, over the whole viewer state: with
/// the guard closed, nothing. With the guard open, the state is marked
/// loaded first (errors are terminal for the asset, never retried); then
/// a handle that resolves to no image stops the frame with
/// `AssetNotFound`, and otherwise the descriptor is reinterpreted and
/// every skybox surface is rebound to the sheet's handle.
pub open spec fn reinterpret_cubemap_spec(
    cm: SkyCubeMap,
    load: LoadState,
    imgs: Seq<(TextureHandle, ImageDescriptor)>,
    sky: Seq<SkyboxSurface>,
) -> (SkyCubeMap, Seq<(TextureHandle, ImageDescriptor)>, Seq<SkyboxSurface>, Result<
    bool,
    ReinterpretError,
>) {
    if !guard_open(cm, load) {
        (cm, imgs, sky, Ok(false))
    } else {
        let cm2 = SkyCubeMap { image: cm.image, loaded: true };
        match store_lookup(imgs, cm.image) {
            None => (cm2, imgs, sky, Err(ReinterpretError::AssetNotFound)),
            Some(d) => (
                cm2,
                store_set(imgs, cm.image, reinterpret_spec(d).0),
                bind_all_spec(sky, cm.image),
                reinterpret_spec(d).1,
            ),
        }
    }
}

/// One frame of the cubemap pipeline. Returns `Ok(true)` when the sheet's
/// descriptor was reinterpreted this frame, `Ok(false)` when the guard kept
/// the frame idle or the sheet was already layered, and an error when the
/// handle resolved to nothing or the sheet's shape was invalid.
pub fn reinterpret_cubemap(
    cubemap: &mut SkyCubeMap,
    load: LoadState,
    images: &mut ImageStore,
    skyboxes: &mut Vec<SkyboxSurface>,
) -> (r: Result<bool, ReinterpretError>)
    ensures
        (*final(cubemap), final(images)@, final(skyboxes)@, r) == reinterpret_cubemap_spec(
            *old(cubemap),
            load,
            old(images)@,
            old(skyboxes)@,
        ),
        old(cubemap).loaded ==> *final(cubemap) == *old(cubemap) && final(images)@ == old(
            images,
        )@ && final(skyboxes)@ == old(skyboxes)@ && r == Ok::<bool, ReinterpretError>(false),
        guard_open(*old(cubemap), load) ==> (match store_lookup(
            old(images)@,
            old(cubemap).image,
        ) {
            Some(d) => {
                &&& store_lookup(final(images)@, old(cubemap).image) == Some(
                    reinterpret_spec(d).0,
                )
                &&& forall|h2: TextureHandle|
                    h2 != old(cubemap).image ==> store_lookup(final(images)@, h2) == store_lookup(
                        old(images)@,
                        h2,
                    )
                &&& r == reinterpret_spec(d).1
            },
            None => r == Err::<bool, ReinterpretError>(ReinterpretError::AssetNotFound),
        }),
{
    if cubemap.loaded {
        return Ok(false);
    }
    if load != LoadState::Loaded {
        return Ok(false);
    }
    cubemap.loaded = true;
    match images.get(cubemap.image) {
        None => Err(ReinterpretError::AssetNotFound),
        Some(d0) => {
            let mut d = d0;
            let r = reinterpret(&mut d);
            let _found = images.replace(cubemap.image, d);
            proof {
                lemma_store_set_lookup(old(images)@, old(cubemap).image, d, old(cubemap).image);
                assert forall|h2: TextureHandle| h2 != old(cubemap).image implies store_lookup(
                    images@,
                    h2,
                ) == store_lookup(old(images)@, h2) by {
                    lemma_store_set_lookup(old(images)@, old(cubemap).image, d, h2);
                }
            }
            bind_all(skyboxes, cubemap.image);
            r
        },
    }
}

/// The pipeline is single-shot and never premature. While the asset has
/// not reported `Loaded`, or once the state is marked loaded, a frame
/// changes nothing; the mark is set exactly on the first loaded frame, so
/// after one frame with the guard open, every later frame — whatever the
/// loader reports then — changes nothing and reports that nothing was
/// applied: running the step twice leaves exactly the state of running it
/// once.
pub proof fn lemma_reinterpret_cubemap_single_shot(
    cm: SkyCubeMap,
    load: LoadState,
    imgs: Seq<(TextureHandle, ImageDescriptor)>,
    sky: Seq<SkyboxSurface>,
    load2: LoadState,
)
    ensures
        !guard_open(cm, load) ==> reinterpret_cubemap_spec(cm, load, imgs, sky) == (
            cm,
            imgs,
            sky,
            Ok::<bool, ReinterpretError>(false),
        ),
        guard_open(cm, load) ==> reinterpret_cubemap_spec(cm, load, imgs, sky).0 == (SkyCubeMap {
            image: cm.image,
            loaded: true,
        }),
        guard_open(cm, load) ==> ({
            let (cm1, imgs1, sky1, r1) = reinterpret_cubemap_spec(cm, load, imgs, sky);
            reinterpret_cubemap_spec(cm1, load2, imgs1, sky1) == (
                cm1,
                imgs1,
                sky1,
                Ok::<bool, ReinterpretError>(false),
            )
        }),
{
}

} // verus!
