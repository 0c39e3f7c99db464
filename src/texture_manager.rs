//! The registry of named textures, each sized from the surface by its own
//! resolution scale.

use vstd::prelude::*;

verus! {

/// Format and usage class of a texture.
#[derive(Debug, Clone, Copy, PartialEq, Eq, Structural)]
pub enum TextureKind {
    /// The high-precision target that holds the rendered scene.
    SceneTexture,
    /// An ordinary colour texture, compute-writable and sampled.
    Standard,
}

/// A typed handle to a registered texture: its position in the registry.
#[derive(Debug, Clone, Copy, PartialEq, Eq, Structural)]
pub struct TextureHandle {
    pub index: usize,
}

/// A registered texture: its name, kind, resolution scale (in percent of the
/// manager's size) and the size of its backing image in pixels.
#[derive(Debug, Clone)]
pub struct EngineTexture {
    pub name: String,
    pub kind: TextureKind,
    pub scale_percent: u32,
    pub width: u64,
    pub height: u64,
}

/// Why a texture cannot be registered.
#[derive(Debug, Clone, Copy, PartialEq, Eq, Structural)]
pub enum TextureError {
    /// A texture of that name is already registered.
    DuplicateName,
}

/// Backing size along one axis: `extent` scaled by `scale_percent` percent,
/// rounded half up, and at least one pixel.
pub open spec fn backing_extent(extent: nat, scale_percent: nat) -> nat {
    let scaled = (extent * scale_percent + 50) / 100;
    if scaled == 0 {
        1
    } else {
        scaled
    }
}

/// A backing extent computed from 32-bit sizes and scales fits in 64 bits.
pub proof fn lemma_backing_extent_fits(extent: u32, scale_percent: u32)
    ensures
        backing_extent(extent as nat, scale_percent as nat) <= u64::MAX,
{
    let e = extent as nat;
    let s = scale_percent as nat;
    assert(e * s <= 0xffff_fffe_0000_0001) by (nonlinear_arith)
        requires
            e <= 0xffff_ffff,
            s <= 0xffff_ffff,
    ;
}

/// The texture `t` with its backing image sized for a `width` by `height`
/// manager.
pub open spec fn sized_for(t: EngineTexture, width: u32, height: u32) -> EngineTexture {
    EngineTexture {
        width: backing_extent(width as nat, t.scale_percent as nat) as u64,
        height: backing_extent(height as nat, t.scale_percent as nat) as u64,
        ..t
    }
}

/// Whether some texture of `textures` is named `name`.
pub open spec fn has_texture(textures: Seq<EngineTexture>, name: Seq<char>) -> bool {
    exists|i: int| 0 <= i < textures.len() && #[trigger] textures[i].name@ == name
}

/// No two textures of `textures` share a name.
pub open spec fn names_unique(textures: Seq<EngineTexture>) -> bool {
    forall|i: int, j: int|
        0 <= i < textures.len() && 0 <= j < textures.len() && i != j ==> #[trigger] textures[i].name@
            != #[trigger] textures[j].name@
}

/// `found` is the answer to a lookup of `name` in `textures`: the handle of
/// the texture of that name, or nothing when there is none.
pub open spec fn lookup_answer(
    textures: Seq<EngineTexture>,
    name: Seq<char>,
    found: Option<TextureHandle>,
) -> bool {
    match found {
        Some(h) => h.index < textures.len() && textures[h.index as int].name@ == name,
        None => !has_texture(textures, name),
    }
}

/// Backing size along one axis, as `backing_extent` gives it.
pub fn backing_size(extent: u32, scale_percent: u32) -> (r: u64)
    ensures
        r == backing_extent(extent as nat, scale_percent as nat),
{
    let e = extent as u64;
    let s = scale_percent as u64;
    assert(e * s <= 0xffff_fffe_0000_0001) by (nonlinear_arith)
        requires
            e <= 0xffff_ffff,
            s <= 0xffff_ffff,
    ;
    let scaled = (e * s + 50) / 100;
    if scaled == 0 {
        1
    } else {
        scaled
    }
}

/// The named textures of the engine, all sized from one common width and
/// height.
#[derive(Debug)]
pub struct TextureManager {
    pub textures: Vec<EngineTexture>,
    pub width: u32,
    pub height: u32,
}

impl TextureManager {
    /// Names are unique, and every texture's backing image is sized for the
    /// manager's current width and height.
    pub open spec fn wf(&self) -> bool {
        &&& names_unique(self.textures@)
        &&& forall|i: int|
            0 <= i < self.textures@.len() ==> #[trigger] self.textures@[i] == sized_for(
                self.textures@[i],
                self.width,
                self.height,
            )
    }

    /// An empty manager for a `width` by `height` surface.
    pub fn new(width: u32, height: u32) -> (r: TextureManager)
        ensures
            r.wf(),
            r.textures@.len() == 0,
            r.width == width,
            r.height == height,
    {
        TextureManager { textures: Vec::new(), width, height }
    }

    /// Registers a texture named `name`, with a backing image of the manager's
    /// size scaled by `scale_percent` percent. A name that is already taken is
    /// refused and nothing changes.
    pub fn create_texture(&mut self, name: &str, kind: TextureKind, scale_percent: u32) -> (r:
        Result<TextureHandle, TextureError>)
        requires
            old(self).wf(),
        ensures
            final(self).wf(),
            final(self).width == old(self).width,
            final(self).height == old(self).height,
            has_texture(old(self).textures@, name@) ==> r == Err::<TextureHandle, TextureError>(
                TextureError::DuplicateName,
            ) && *final(self) == *old(self),
            !has_texture(old(self).textures@, name@) ==> {
                &&& r == Ok::<TextureHandle, TextureError>(
                    TextureHandle { index: old(self).textures@.len() as usize },
                )
                &&& final(self).textures@.len() == old(self).textures@.len() + 1
                &&& final(self).textures@.drop_last() == old(self).textures@
                &&& final(self).textures@.last().name@ == name@
                &&& final(self).textures@.last().kind == kind
                &&& final(self).textures@.last().scale_percent == scale_percent
                &&& final(self).textures@.last().width == backing_extent(
                    old(self).width as nat,
                    scale_percent as nat,
                )
                &&& final(self).textures@.last().height == backing_extent(
                    old(self).height as nat,
                    scale_percent as nat,
                )
            },
    {
        if self.get_texture(name).is_some() {
            return Err(TextureError::DuplicateName);
        }
        let texture = EngineTexture {
            name: name.to_owned(),
            kind,
            scale_percent,
            width: backing_size(self.width, scale_percent),
            height: backing_size(self.height, scale_percent),
        };
        let index = self.textures.len();
        self.textures.push(texture);
        assert(self.textures@.drop_last() == old(self).textures@);
        Ok(TextureHandle { index })
    }

    /// Looks up the texture named `name`; nothing when none is registered.
    pub fn get_texture(&self, name: &str) -> (r: Option<TextureHandle>)
        ensures
            lookup_answer(self.textures@, name@, r),
    {
        let wanted = name.to_owned();
        let mut i: usize = 0;
        while i < self.textures.len()
            invariant
                0 <= i <= self.textures@.len(),
                wanted@ == name@,
                forall|j: int| 0 <= j < i ==> #[trigger] self.textures@[j].name@ != name@,
            decreases self.textures@.len() - i,
        {
            if self.textures[i].name == wanted {
                return Some(TextureHandle { index: i });
            }
            i = i + 1;
        }
        None
    }

    /// Resizes every texture for a `width` by `height` surface, each by its own
    /// scale, and records the new size. A size with a zero side, or the
    /// current size, changes nothing. Returns whether the backing images were
    /// recreated.
    pub fn resize(&mut self, width: u32, height: u32) -> (recreated: bool)
        requires
            old(self).wf(),
        ensures
            final(self).wf(),
            recreated == (width != 0 && height != 0 && !(width == old(self).width && height == old(
                self,
            ).height)),
            recreated ==> final(self).width == width && final(self).height == height
                && final(self).textures@ == old(self).textures@.map_values(
                |t: EngineTexture| sized_for(t, width, height),
            ),
            !recreated ==> *final(self) == *old(self),
    {
        if width == 0 || height == 0 {
            return false;
        }
        if self.width == width && self.height == height {
            return false;
        }
        let ghost before = self.textures@;
        let mut resized: Vec<EngineTexture> = Vec::new();
        let mut i: usize = 0;
        while i < self.textures.len()
            invariant
                self.textures@ == before,
                0 <= i <= before.len(),
                resized@.len() == i,
                forall|j: int|
                    0 <= j < i ==> #[trigger] resized@[j] == sized_for(before[j], width, height),
            decreases before.len() - i,
        {
            let t = &self.textures[i];
            let next = EngineTexture {
                name: t.name.clone(),
                kind: t.kind,
                scale_percent: t.scale_percent,
                width: backing_size(width, t.scale_percent),
                height: backing_size(height, t.scale_percent),
            };
            resized.push(next);
            i = i + 1;
        }
        self.textures = resized;
        self.width = width;
        self.height = height;
        assert(self.textures@ =~= before.map_values(
            |t: EngineTexture| sized_for(t, width, height),
        ));
        true
    }
}

} // verus!
