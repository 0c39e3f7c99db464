//! The manager that owns textures, passes and render options, and plans the
//! passes of each frame.

use vstd::prelude::*;

use crate::raymarching::{
    dispatch_for, ComputeDispatch, Point3, RaymarchingObject,
    RaymarchingOptions, RaymarchingRenderComputePass, DEFAULT_OBJECT_CAPACITY,
};
use crate::surface::{surface_resize_outcome, SurfaceState};
use crate::texture_manager::{
    backing_extent, has_texture, lemma_backing_extent_fits, lookup_answer, sized_for,
    EngineTexture, TextureHandle, TextureKind, TextureManager,
};

verus! {

/// Name of the texture that holds the rendered scene.
pub const SCENE_TEXTURE: &'static str = "SceneTexture";

/// Name of the texture that the raymarching pass writes.
pub const RAYMARCHING_TEXTURE: &'static str = "Raymarching";

/// Parameters the user edits live: the texture to present, the camera, and
/// the options of each pass.
#[derive(Debug, Clone)]
pub struct RenderOptions {
    /// Name of the texture to present.
    pub show: String,
    /// Field of view, in tenths of a degree.
    pub fov_tenths: u32,
    /// Camera rotation, in thousandths of a radian.
    pub rotation_milli: u32,
    /// Where rays start, in thousandths of a scene unit.
    pub ray_origin: Point3,
    pub raymarching: RaymarchingOptions,
}

impl RenderOptions {
    /// The options a manager starts with: present the raymarched texture, a
    /// field of view of one degree, no rotation, rays from the origin.
    pub open spec fn is_initial(&self) -> bool {
        &&& self.show@ == RAYMARCHING_TEXTURE@
        &&& self.fov_tenths == 10
        &&& self.rotation_milli == 0
        &&& self.ray_origin == (Point3 { x: 0, y: 0, z: 0 })
        &&& self.raymarching == (RaymarchingOptions {})
    }

    /// A copy of these options, field for field.
    pub fn snapshot(&self) -> (r: RenderOptions)
        ensures
            r == *self,
    {
        RenderOptions {
            show: self.show.clone(),
            fov_tenths: self.fov_tenths,
            rotation_milli: self.rotation_milli,
            ray_origin: self.ray_origin,
            raymarching: self.raymarching,
        }
    }
}

impl Default for RenderOptions {
    fn default() -> (r: RenderOptions)
        ensures
            r.is_initial(),
    {
        RenderOptions {
            show: RAYMARCHING_TEXTURE.to_owned(),
            fov_tenths: 10,
            rotation_milli: 0,
            ray_origin: Point3::origin(),
            raymarching: RaymarchingOptions::default(),
        }
    }
}

/// The GPU work of one frame, in order: when `compute` holds a dispatch, the
/// compute pass that writes `compute_target`; then, when `blit` names a
/// texture, the show pass that copies that texture to the surface. A frame
/// with neither draws nothing.
#[derive(Debug, Clone, Copy, PartialEq, Eq, Structural)]
pub struct FramePlan {
    pub compute: Option<ComputeDispatch>,
    pub compute_target: TextureHandle,
    pub blit: Option<TextureHandle>,
}

/// Owns the textures, the passes and the render options, and sequences the
/// passes of each frame.
#[derive(Debug)]
pub struct RenderPassManager {
    pub raymarching_pass: RaymarchingRenderComputePass,
    pub render_options: RenderOptions,
    pub texture_manager: TextureManager,
    pub raymarching_target: TextureHandle,
    pub width: u32,
    pub height: u32,
}

/// The two textures a freshly built manager of `width` by `height` holds: the
/// scene texture, then the raymarching target, both at full scale.
pub open spec fn initial_textures(textures: Seq<EngineTexture>, width: u32, height: u32) -> bool {
    &&& textures.len() == 2
    &&& textures[0].name@ == SCENE_TEXTURE@
    &&& textures[0].kind == TextureKind::SceneTexture
    &&& textures[1].name@ == RAYMARCHING_TEXTURE@
    &&& textures[1].kind == TextureKind::Standard
    &&& forall|i: int|
        0 <= i < 2 ==> {
            &&& #[trigger] textures[i].scale_percent == 100
            &&& textures[i].width == backing_extent(width as nat, 100)
            &&& textures[i].height == backing_extent(height as nat, 100)
        }
}

/// Whether a resize to `width` by `height` recreates the backing images of a
/// manager now at `current_width` by `current_height`.
pub open spec fn resize_recreates(current_width: u32, current_height: u32, width: u32, height: u32) -> bool {
    width != 0 && height != 0 && !(width == current_width && height == current_height)
}

/// What a resize to `width` by `height` does to a manager: when it recreates,
/// the manager takes the new size and every texture is sized for it, each by
/// its own scale, and options and passes are kept; otherwise nothing changes.
pub open spec fn resize_outcome(
    before: RenderPassManager,
    after: RenderPassManager,
    width: u32,
    height: u32,
    recreated: bool,
) -> bool {
    &&& recreated == resize_recreates(before.width, before.height, width, height)
    &&& recreated ==> {
        &&& after.width == width
        &&& after.height == height
        &&& after.texture_manager.width == width
        &&& after.texture_manager.height == height
        &&& after.texture_manager.textures@ == before.texture_manager.textures@.map_values(
            |t: EngineTexture| sized_for(t, width, height),
        )
        &&& after.render_options == before.render_options
        &&& after.raymarching_pass == before.raymarching_pass
        &&& after.raymarching_target == before.raymarching_target
    }
    &&& !recreated ==> after == before
}

/// Resizing twice to the same size recreates the backing images at most
/// once: the second resize reports no recreation and leaves the manager as
/// the first one left it.
pub proof fn lemma_resize_idempotent(
    m0: RenderPassManager,
    m1: RenderPassManager,
    m2: RenderPassManager,
    width: u32,
    height: u32,
    first: bool,
    second: bool,
)
    requires
        m0.wf(),
        resize_outcome(m0, m1, width, height, first),
        resize_outcome(m1, m2, width, height, second),
    ensures
        !second,
        m2 == m1,
{
}

/// A resize to a size with a zero side changes nothing: dimensions, textures,
/// options and passes all stay as they were.
pub proof fn lemma_zero_size_resize_is_noop(
    m0: RenderPassManager,
    m1: RenderPassManager,
    width: u32,
    height: u32,
    recreated: bool,
)
    requires
        width == 0 || height == 0,
        resize_outcome(m0, m1, width, height, recreated),
    ensures
        !recreated,
        m1 == m0,
{
}

/// After a resize to a size with no zero side, the manager records that size
/// and each texture's backing image is the size scaled by its own factor,
/// rounded, whether or not the images had to be recreated.
pub proof fn lemma_resize_sizes_textures(
    m0: RenderPassManager,
    m1: RenderPassManager,
    width: u32,
    height: u32,
    recreated: bool,
)
    requires
        m0.wf(),
        width != 0,
        height != 0,
        resize_outcome(m0, m1, width, height, recreated),
    ensures
        m1.width == width,
        m1.height == height,
        m1.texture_manager.textures@.len() == m0.texture_manager.textures@.len(),
        forall|i: int|
            #![trigger m1.texture_manager.textures@[i]]
            0 <= i < m1.texture_manager.textures@.len() ==> {
                &&& m1.texture_manager.textures@[i].width == backing_extent(
                    width as nat,
                    m1.texture_manager.textures@[i].scale_percent as nat,
                )
                &&& m1.texture_manager.textures@[i].height == backing_extent(
                    height as nat,
                    m1.texture_manager.textures@[i].scale_percent as nat,
                )
            },
{
    assert forall|i: int|
        #![trigger m1.texture_manager.textures@[i]]
        0 <= i < m1.texture_manager.textures@.len() implies {
        &&& m1.texture_manager.textures@[i].width == backing_extent(
            width as nat,
            m1.texture_manager.textures@[i].scale_percent as nat,
        )
        &&& m1.texture_manager.textures@[i].height == backing_extent(
            height as nat,
            m1.texture_manager.textures@[i].scale_percent as nat,
        )
    } by {
        assert(m0.texture_manager.textures@[i] == sized_for(
            m0.texture_manager.textures@[i],
            m0.width,
            m0.height,
        ));
        let scale = m1.texture_manager.textures@[i].scale_percent;
        lemma_backing_extent_fits(width, scale);
        lemma_backing_extent_fits(height, scale);
        if recreated {
            assert(m1.texture_manager.textures@[i] == sized_for(
                m0.texture_manager.textures@[i],
                width,
                height,
            ));
        }
    }
}

/// When the surface and the manager have the same size, one resize event
/// handed to both leaves them with the same size again: either both take the
/// new size (a size with no zero side that differs from the current one),
/// the manager's textures each sized for it by their own scale, or neither
/// changes.
pub proof fn lemma_surface_and_manager_resize_together(
    s0: SurfaceState,
    s1: SurfaceState,
    m0: RenderPassManager,
    m1: RenderPassManager,
    width: u32,
    height: u32,
    reconfigure: bool,
    recreated: bool,
)
    requires
        m0.wf(),
        s0.width == m0.width,
        s0.height == m0.height,
        surface_resize_outcome(s0, s1, width, height, reconfigure),
        resize_outcome(m0, m1, width, height, recreated),
    ensures
        reconfigure == recreated,
        s1.width == m1.width,
        s1.height == m1.height,
        m1.wf(),
        width != 0 && height != 0 ==> m1.width == width && m1.height == height,
        width != 0 && height != 0 ==> forall|i: int|
            #![trigger m1.texture_manager.textures@[i]]
            0 <= i < m1.texture_manager.textures@.len() ==> {
                &&& m1.texture_manager.textures@[i].width == backing_extent(
                    width as nat,
                    m1.texture_manager.textures@[i].scale_percent as nat,
                )
                &&& m1.texture_manager.textures@[i].height == backing_extent(
                    height as nat,
                    m1.texture_manager.textures@[i].scale_percent as nat,
                )
            },
{
    if width != 0 && height != 0 {
        lemma_resize_sizes_textures(m0, m1, width, height, recreated);
    }
    lemma_resize_preserves_wf(m0, m1, width, height, recreated);
}

/// A resize keeps a well-formed manager well formed.
pub proof fn lemma_resize_preserves_wf(
    m0: RenderPassManager,
    m1: RenderPassManager,
    width: u32,
    height: u32,
    recreated: bool,
)
    requires
        m0.wf(),
        resize_outcome(m0, m1, width, height, recreated),
    ensures
        m1.wf(),
{
    if recreated {
        assert forall|i: int| 0 <= i < m1.texture_manager.textures@.len() implies #[trigger]
            m1.texture_manager.textures@[i] == sized_for(
                m1.texture_manager.textures@[i],
                m1.width,
                m1.height,
            ) by {
            let t = m0.texture_manager.textures@[i];
            lemma_backing_extent_fits(width, t.scale_percent);
            lemma_backing_extent_fits(height, t.scale_percent);
        }
        assert forall|i: int, j: int|
            0 <= i < m1.texture_manager.textures@.len() && 0 <= j
                < m1.texture_manager.textures@.len() && i != j implies #[trigger]
            m1.texture_manager.textures@[i].name@ != #[trigger] m1.texture_manager.textures@[j].name@ by {
            assert(m1.texture_manager.textures@[i].name == m0.texture_manager.textures@[i].name);
            assert(m1.texture_manager.textures@[j].name == m0.texture_manager.textures@[j].name);
        }
        let k = m0.raymarching_target.index as int;
        assert(m1.texture_manager.textures@[k].name == m0.texture_manager.textures@[k].name);
    }
}

impl RenderPassManager {
    /// The textures are well formed and sized for the manager's width and
    /// height, and the compute target is the compute-writable texture named
    /// `RAYMARCHING_TEXTURE`.
    pub open spec fn wf(&self) -> bool {
        &&& self.texture_manager.wf()
        &&& self.texture_manager.width == self.width
        &&& self.texture_manager.height == self.height
        &&& self.raymarching_target.index < self.texture_manager.textures@.len()
        &&& self.texture_manager.textures@[self.raymarching_target.index as int].name@
            == RAYMARCHING_TEXTURE@
        &&& self.texture_manager.textures@[self.raymarching_target.index as int].kind
            == TextureKind::Standard
    }

    /// This manager is a freshly built one of `width` by `height`, but for its
    /// render options.
    pub open spec fn is_fresh(&self, width: u32, height: u32) -> bool {
        &&& self.wf()
        &&& self.width == width
        &&& self.height == height
        &&& initial_textures(self.texture_manager.textures@, width, height)
        &&& self.raymarching_target == (TextureHandle { index: 1 })
        &&& self.raymarching_pass.capacity == DEFAULT_OBJECT_CAPACITY
        &&& self.raymarching_pass.objects_count == 1
    }

    /// Builds the manager for a `width` by `height` surface: registers the
    /// scene texture and the raymarching target, both at full scale, with the
    /// initial render options.
    pub fn new(width: u32, height: u32) -> (r: RenderPassManager)
        ensures
            r.is_fresh(width, height),
            r.render_options.is_initial(),
    {
        let mut texture_manager = TextureManager::new(width, height);
        proof {
            reveal_strlit("SceneTexture");
            reveal_strlit("Raymarching");
        }
        let scene = texture_manager.create_texture(SCENE_TEXTURE, TextureKind::SceneTexture, 100);
        assert(scene is Ok);
        assert(SCENE_TEXTURE@.len() != RAYMARCHING_TEXTURE@.len());
        assert(!has_texture(texture_manager.textures@, RAYMARCHING_TEXTURE@));
        let raymarching_target = texture_manager.create_texture(
            RAYMARCHING_TEXTURE,
            TextureKind::Standard,
            100,
        ).unwrap();
        let raymarching_pass = RaymarchingRenderComputePass::new();
        let r = RenderPassManager {
            raymarching_pass,
            render_options: RenderOptions::default(),
            texture_manager,
            raymarching_target,
            width,
            height,
        };
        assert(r.texture_manager.textures@[0] == r.texture_manager.textures@.drop_last()[0]);
        r
    }

    /// Resizes every texture to the new surface size. A size with a zero side,
    /// or the current size, changes nothing. Passes and options are kept.
    /// Returns whether the backing images were recreated.
    pub fn resize(&mut self, width: u32, height: u32) -> (recreated: bool)
        requires
            old(self).wf(),
        ensures
            final(self).wf(),
            resize_outcome(*old(self), *final(self), width, height, recreated),
    {
        let recreated = self.texture_manager.resize(width, height);
        if recreated {
            self.width = width;
            self.height = height;
        }
        recreated
    }

    /// Plans one frame. A manager with a zero side plans nothing and changes
    /// nothing: the frame is skipped. Otherwise the frame is the raymarching
    /// dispatch over the current size, writing the raymarching target, then
    /// the blit of the texture that the options name, or no blit when no
    /// texture has that name. The objects must fit the storage buffer.
    pub fn render(&mut self, objects: &Vec<RaymarchingObject>, elapsed_millis: u64) -> (r:
        FramePlan)
        requires
            old(self).wf(),
            objects@.len() <= old(self).raymarching_pass.capacity,
        ensures
            final(self).wf(),
            final(self).render_options == old(self).render_options,
            final(self).texture_manager == old(self).texture_manager,
            final(self).width == old(self).width,
            final(self).height == old(self).height,
            final(self).raymarching_target == old(self).raymarching_target,
            final(self).raymarching_pass.capacity == old(self).raymarching_pass.capacity,
            r.compute_target == old(self).raymarching_target,
            (old(self).width == 0 || old(self).height == 0) ==> {
                &&& r.compute is None
                &&& r.blit is None
                &&& *final(self) == *old(self)
            },
            (old(self).width != 0 && old(self).height != 0) ==> {
                &&& r.compute == Some(
                    dispatch_for(
                        old(self).width,
                        old(self).height,
                        old(self).render_options.fov_tenths,
                        old(self).render_options.rotation_milli,
                        old(self).render_options.ray_origin,
                        objects@.len(),
                        elapsed_millis,
                    ),
                )
                &&& lookup_answer(
                    old(self).texture_manager.textures@,
                    old(self).render_options.show@,
                    r.blit,
                )
                &&& !has_texture(old(self).texture_manager.textures@, old(self).render_options.show@)
                    ==> r.blit is None
                &&& final(self).raymarching_pass.objects_count == objects@.len()
            },
    {
        if self.width == 0 || self.height == 0 {
            return FramePlan { compute: None, compute_target: self.raymarching_target, blit: None };
        }
        let compute = self.raymarching_pass.render(
            self.width,
            self.height,
            self.render_options.fov_tenths,
            self.render_options.rotation_milli,
            self.render_options.ray_origin,
            objects,
            elapsed_millis,
        );
        let blit = self.texture_manager.get_texture(self.render_options.show.as_str());
        FramePlan { compute: Some(compute), compute_target: self.raymarching_target, blit }
    }

    /// The render options, for live editing. Nothing else of the manager
    /// changes through the reference.
    pub fn get_options(&mut self) -> (r: &mut RenderOptions)
        ensures
            *r == old(self).render_options,
            final(self).render_options == *final(r),
            final(self).raymarching_pass == old(self).raymarching_pass,
            final(self).texture_manager == old(self).texture_manager,
            final(self).raymarching_target == old(self).raymarching_target,
            final(self).width == old(self).width,
            final(self).height == old(self).height,
    {
        &mut self.render_options
    }

    /// Tears the manager down and builds it anew at its current size, then
    /// puts the previous render options back: the options survive the
    /// rebuild, field for field; textures and passes start afresh.
    pub fn recreate(&mut self)
        ensures
            final(self).is_fresh(old(self).width, old(self).height),
            final(self).render_options == old(self).render_options,
    {
        let options = self.render_options.snapshot();
        *self = RenderPassManager::new(self.width, self.height);
        self.render_options = options;
    }
}

} // verus!
