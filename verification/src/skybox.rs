//! Skybox surfaces and the binder that propagates a finalized cubemap
//! handle to every surface in the scene.
use vstd::prelude::*;
use vstd::pervasive::VecAdditionalExecFns;
use crate::texture::TextureHandle;

verus! {

/// A renderable skybox surface: which texture it draws, and how bright.
/// Brightness is in the renderer's own luminance units.
#[derive(Clone, Copy, PartialEq, Eq, Structural, Debug)]
pub struct SkyboxSurface {
    pub image: TextureHandle,
    pub brightness: u32,
}

/// Every surface rebound to texture `h`, each keeping its brightness.
pub open spec fn bind_all_spec(s: Seq<SkyboxSurface>, h: TextureHandle) -> Seq<SkyboxSurface> {
    s.map(|i: int, sb: SkyboxSurface| SkyboxSurface { image: h, brightness: sb.brightness })
}

/// Overwrite the texture of every skybox surface in the scene with the
/// given handle. Brightness values are untouched; an empty scene is a
/// no-op. Rebinding the same handle again is harmless.
pub fn bind_all(skyboxes: &mut Vec<SkyboxSurface>, handle: TextureHandle)
    ensures
        final(skyboxes)@ == bind_all_spec(old(skyboxes)@, handle),
        final(skyboxes)@.len() == old(skyboxes)@.len(),
        forall|i: int|
            0 <= i < old(skyboxes)@.len() ==> final(skyboxes)@[i].image == handle
                && final(skyboxes)@[i].brightness == old(skyboxes)@[i].brightness,
{
    let n: usize = skyboxes.len();
    let mut i: usize = 0;
    while i < n
        invariant
            n == skyboxes@.len(),
            skyboxes@.len() == old(skyboxes)@.len(),
            i <= n,
            forall|j: int|
                0 <= j < i ==> skyboxes@[j] == (SkyboxSurface {
                    image: handle,
                    brightness: old(skyboxes)@[j].brightness,
                }),
            forall|j: int| i <= j < n ==> skyboxes@[j] == old(skyboxes)@[j],
        decreases n - i,
    {
        let b: u32 = skyboxes[i].brightness;
        skyboxes.set(i, SkyboxSurface { image: handle, brightness: b });
        i += 1;
    }
    proof {
        assert(skyboxes@ =~= bind_all_spec(old(skyboxes)@, handle));
    }
}

} // verus!
