//! The raymarching compute pass: the scene objects it reads, the capacity of
//! its object buffer, and the dispatch that covers the output texture.

use vstd::prelude::*;

verus! {

/// Number of threads along each side of one compute workgroup tile.
/// The compute shader declares the same tile size.
pub const WORKGROUP_TILE: u32 = 16;

/// Number of scene objects the storage buffer holds when the pass is built.
pub const DEFAULT_OBJECT_CAPACITY: u32 = 256;

/// Number of workgroups needed to cover `extent` pixels with tiles of
/// `WORKGROUP_TILE` threads.
pub open spec fn workgroups_for(extent: nat) -> nat {
    (extent + 15) / 16
}

/// `workgroups_for` is the ceiling of `extent / 16`: the least number of
/// 16-wide tiles whose union covers every pixel of the extent.
pub proof fn lemma_workgroups_is_ceiling(extent: nat)
    ensures
        16 * workgroups_for(extent) >= extent,
        workgroups_for(extent) == 0 || 16 * (workgroups_for(extent) - 1) < extent,
        extent == 0 ==> workgroups_for(extent) == 0,
        1 <= extent <= 16 ==> workgroups_for(extent) == 1,
        17 <= extent <= 32 ==> workgroups_for(extent) == 2,
{
    let k = workgroups_for(extent);
    assert(16 * k <= extent + 15 && extent + 15 < 16 * k + 16) by (nonlinear_arith)
        requires
            k == (extent + 15) / 16,
    ;
}

/// Number of workgroups along one axis of the dispatch grid.
pub fn workgroup_count(extent: u32) -> (r: u32)
    ensures
        r == workgroups_for(extent as nat),
{
    let full = extent / WORKGROUP_TILE;
    if extent % WORKGROUP_TILE == 0 {
        full
    } else {
        full + 1
    }
}

/// A point in scene space, each coordinate in thousandths of a scene unit.
#[derive(Debug, Clone, Copy, PartialEq, Eq, Structural)]
pub struct Point3 {
    pub x: i32,
    pub y: i32,
    pub z: i32,
}

impl Point3 {
    /// The origin of scene space.
    pub fn origin() -> (r: Point3)
        ensures
            r == (Point3 { x: 0, y: 0, z: 0 }),
    {
        Point3 { x: 0, y: 0, z: 0 }
    }
}

/// A sphere of the procedural scene: its centre and its radius, both in
/// thousandths of a scene unit.
#[derive(Debug, Clone, Copy, PartialEq, Eq, Structural)]
pub struct RaymarchingObject {
    pub position: Point3,
    pub radius: i32,
}

impl Default for RaymarchingObject {
    /// A sphere of radius one half at the origin.
    fn default() -> (r: RaymarchingObject)
        ensures
            r == (RaymarchingObject { position: Point3 { x: 0, y: 0, z: 0 }, radius: 500 }),
    {
        RaymarchingObject { position: Point3::origin(), radius: 500 }
    }
}

/// Options of the raymarching pass that the user may edit. The pass has none
/// yet; the value keeps a place for them in the render options.
#[derive(Debug, Clone, Copy, PartialEq, Eq, Structural)]
pub struct RaymarchingOptions {}

impl Default for RaymarchingOptions {
    fn default() -> (r: RaymarchingOptions)
        ensures
            r == (RaymarchingOptions {}),
    {
        RaymarchingOptions {}
    }
}

/// The push-constant block handed to the compute shader for one frame.
#[derive(Debug, Clone, Copy, PartialEq, Eq, Structural)]
pub struct RaymarchingConstants {
    pub texture_width: u32,
    pub texture_height: u32,
    /// Time since the pass was built, in milliseconds.
    pub elapsed_millis: u64,
    /// Camera rotation, in thousandths of a radian.
    pub rotation_milli: u32,
    /// Field of view, in tenths of a degree.
    pub fov_tenths: u32,
    pub ray_origin: Point3,
    pub objects_count: u32,
}

/// What the GPU has to do for one frame of the raymarching pass: upload the
/// first `upload_count` objects to the storage buffer, write `constants`, and
/// dispatch a grid of `groups_x` by `groups_y` by `groups_z` workgroups.
#[derive(Debug, Clone, Copy, PartialEq, Eq, Structural)]
pub struct ComputeDispatch {
    pub groups_x: u32,
    pub groups_y: u32,
    pub groups_z: u32,
    pub upload_count: usize,
    pub constants: RaymarchingConstants,
}

/// The dispatch that a frame of `width` by `height` pixels with `count`
/// objects calls for.
pub open spec fn dispatch_for(
    width: u32,
    height: u32,
    fov_tenths: u32,
    rotation_milli: u32,
    ray_origin: Point3,
    count: nat,
    elapsed_millis: u64,
) -> ComputeDispatch {
    ComputeDispatch {
        groups_x: workgroups_for(width as nat) as u32,
        groups_y: workgroups_for(height as nat) as u32,
        groups_z: 1,
        upload_count: count as usize,
        constants: RaymarchingConstants {
            texture_width: width,
            texture_height: height,
            elapsed_millis,
            rotation_milli,
            fov_tenths,
            ray_origin,
            objects_count: count as u32,
        },
    }
}

/// The CPU side of the raymarching compute pass: how many objects its
/// storage buffer holds, and how many the last frame uploaded.
#[derive(Debug, PartialEq, Eq, Structural)]
pub struct RaymarchingRenderComputePass {
    pub capacity: u32,
    pub objects_count: usize,
}

impl RaymarchingRenderComputePass {
    /// A pass whose storage buffer holds `DEFAULT_OBJECT_CAPACITY` objects and
    /// starts out with the one default sphere.
    pub fn new() -> (r: RaymarchingRenderComputePass)
        ensures
            r.capacity == DEFAULT_OBJECT_CAPACITY,
            r.objects_count == 1,
    {
        RaymarchingRenderComputePass { capacity: DEFAULT_OBJECT_CAPACITY, objects_count: 1 }
    }

    /// Size of the storage buffer in bytes, for objects of `object_size`
    /// bytes each.
    pub fn buffer_size(&self, object_size: u64) -> (r: Option<u64>)
        ensures
            r == (if object_size * self.capacity <= u64::MAX {
                Some((object_size * self.capacity) as u64)
            } else {
                None::<u64>
            }),
    {
        object_size.checked_mul(self.capacity as u64)
    }

    /// Whether `count` objects fit the storage buffer. The buffer does not
    /// grow: a caller whose scene does not fit stops, as with any other
    /// allocation failure.
    pub fn fits(&self, count: usize) -> (r: bool)
        ensures
            r == (count <= self.capacity),
    {
        count <= self.capacity as usize
    }

    /// Plans one frame: the upload of `objects`, the push constants, and a
    /// dispatch grid that covers every pixel of the `width` by `height` target
    /// with 16 by 16 tiles. The objects must fit the storage buffer.
    pub fn render(
        &mut self,
        width: u32,
        height: u32,
        fov_tenths: u32,
        rotation_milli: u32,
        ray_origin: Point3,
        objects: &Vec<RaymarchingObject>,
        elapsed_millis: u64,
    ) -> (r: ComputeDispatch)
        requires
            objects@.len() <= old(self).capacity,
        ensures
            r == dispatch_for(
                width,
                height,
                fov_tenths,
                rotation_milli,
                ray_origin,
                objects@.len(),
                elapsed_millis,
            ),
            *final(self) == (RaymarchingRenderComputePass {
                capacity: old(self).capacity,
                objects_count: objects@.len() as usize,
            }),
    {
        let count = objects.len();
        self.objects_count = count;
        let groups_x = workgroup_count(width);
        let groups_y = workgroup_count(height);
        ComputeDispatch {
            groups_x,
            groups_y,
            groups_z: 1,
            upload_count: count,
            constants: RaymarchingConstants {
                texture_width: width,
                texture_height: height,
                elapsed_millis,
                rotation_milli,
                fov_tenths,
                ray_origin,
                objects_count: count as u32,
            },
        }
    }
}

} // verus!
