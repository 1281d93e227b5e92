//! The resources that the render passes are bound to.
use vstd::prelude::*;

verus! {

/// The kinds of resources that a graphics device hands out. The library binds
/// handles of these types to render passes, by cloning them, and looks into none.
pub trait Resources {
    /// The vertices of an object.
    type Vertices: Clone;
    /// The vertices of the quad that covers the screen.
    type QuadVertices: Clone;
    /// Which vertices are drawn, in which order.
    type Slice: Clone;
    /// How a texture is sampled.
    type Sampler: Clone;
    /// A texture of an object, for reading.
    type Texture: Clone;
    /// A layer of the geometry buffer, for reading.
    type GeometryView: Clone;
    /// A layer of the geometry buffer, for drawing to.
    type GeometryTarget: Clone;
    /// The luminance of the picture, for reading.
    type LuminanceView: Clone;
    /// The luminance of the picture, for drawing to.
    type LuminanceTarget: Clone;
    /// The depth of the picture.
    type Depth: Clone;
    /// The depth that a light sees, for reading.
    type ShadowView: Clone;
    /// The depth that a light sees, for drawing to.
    type ShadowDepth: Clone;
    /// The colour of the window.
    type Surface: Clone;
    /// A buffer of model, view and projection.
    type TransformBuffer: Clone;
    /// A buffer of what changes with every frame.
    type LiveBuffer: Clone;
    /// A buffer of one light.
    type LightBuffer: Clone;
}

/// One texture of the device, for reading and for drawing to.
pub struct ViewPair<V, T> {
    pub resource: V,
    pub target: T,
}

/// What the pass that fills the geometry buffer is bound to.
pub struct DeferredData<R: Resources> {
    pub verts: R::Vertices,
    pub transform: R::TransformBuffer,
    pub layer_a: R::GeometryTarget,
    pub layer_b: R::GeometryTarget,
    pub normal: (R::Texture, R::Sampler),
    pub depth: R::Depth,
}

/// What the pass that adds the light of one light is bound to.
pub struct PbrData<R: Resources> {
    pub verts: R::QuadVertices,
    pub live: R::LiveBuffer,
    pub light: R::LightBuffer,
    pub layer_a: (R::GeometryView, R::Sampler),
    pub layer_b: (R::GeometryView, R::Sampler),
    pub albedo: (R::Texture, R::Sampler),
    pub metalness: (R::Texture, R::Sampler),
    pub roughness: (R::Texture, R::Sampler),
    pub shadow: (R::ShadowView, R::Sampler),
    pub luminance: R::LuminanceTarget,
}

/// What the pass that brings the luminance to the window is bound to.
pub struct LdrData<R: Resources> {
    pub verts: R::QuadVertices,
    pub live: R::LiveBuffer,
    pub luminance: (R::LuminanceView, R::Sampler),
    pub color: R::Surface,
}

/// What the pass that draws what a light sees is bound to.
pub struct ShadowData<R: Resources> {
    pub verts: R::Vertices,
    pub transform: R::TransformBuffer,
    pub depth: R::ShadowDepth,
}

/// An object that can be shown.
pub struct Object<R: Resources> {
    pub mesh: (R::Vertices, R::Slice),
    pub sampler: R::Sampler,
    pub normal: R::Texture,
    pub albedo: R::Texture,
    pub roughness: R::Texture,
    pub metalness: R::Texture,
}

/// The pair is a clone of this texture and this sampler.
pub open spec fn samples<T: Clone, S: Clone>(pair: (T, S), texture: T, sampler: S) -> bool {
    cloned(texture, pair.0) && cloned(sampler, pair.1)
}

impl<R: Resources> Object<R> {
    /// The passes are bound to this object.
    pub open spec fn bound(
        self,
        deferred: DeferredData<R>,
        pbr: PbrData<R>,
        shadow: ShadowData<R>,
    ) -> bool {
        &&& cloned(self.mesh.0, deferred.verts)
        &&& cloned(self.mesh.0, shadow.verts)
        &&& samples(deferred.normal, self.normal, self.sampler)
        &&& samples(pbr.albedo, self.albedo, self.sampler)
        &&& samples(pbr.roughness, self.roughness, self.sampler)
        &&& samples(pbr.metalness, self.metalness, self.sampler)
    }

    /// Binds the passes to this object, and leaves all else that they are bound
    /// to.
    pub fn apply_to_data(
        &self,
        deferred: &mut DeferredData<R>,
        pbr: &mut PbrData<R>,
        shadow: &mut ShadowData<R>,
    )
        ensures
            self.bound(*final(deferred), *final(pbr), *final(shadow)),
            *final(deferred) == (DeferredData {
                verts: final(deferred).verts,
                normal: final(deferred).normal,
                ..*old(deferred)
            }),
            *final(pbr) == (PbrData {
                albedo: final(pbr).albedo,
                roughness: final(pbr).roughness,
                metalness: final(pbr).metalness,
                ..*old(pbr)
            }),
            *final(shadow) == (ShadowData { verts: final(shadow).verts, ..*old(shadow) }),
    {
        deferred.verts = self.mesh.0.clone();
        shadow.verts = self.mesh.0.clone();

        deferred.normal = (self.normal.clone(), self.sampler.clone());
        pbr.albedo = (self.albedo.clone(), self.sampler.clone());
        pbr.roughness = (self.roughness.clone(), self.sampler.clone());
        pbr.metalness = (self.metalness.clone(), self.sampler.clone());
    }
}

} // verus!
