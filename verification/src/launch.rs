//! Checking a launch against the device's limits and rounding its grid.
use vstd::prelude::*;
use crate::error::Error;
use crate::args_pool::{ArgsPool, bump_alloc, is_pow2, args_align};
use crate::grid::{AxisRange, Dim1D, Dim2D, Dim3D, checked_mul_u32, checked_mul_u64, dim1_checked_len, dim2_checked_len, dim3_checked_len};

verus! {

/// The launch limits a device's ISA reports.
#[derive(Clone, Copy, Debug, PartialEq, Eq, Structural)]
pub struct IsaLimits {
    /// Maximum workgroup length on each axis.
    pub workgroup_max_dim: Dim3D<u16>,
    /// Maximum number of workitems in a workgroup.
    pub workgroup_max_size: u32,
    /// Maximum grid length on each axis.
    pub grid_max_dim: Dim3D<u32>,
    /// Maximum number of workitems in a grid.
    pub grid_max_size: u64,
}

/// The workgroup and grid sizes of a dispatch packet.
#[derive(Clone, Copy, Debug, PartialEq, Eq, Structural)]
pub struct LaunchPlan {
    /// The workgroup size on each axis.
    pub workgroup: Dim3D<u16>,
    /// The grid size on each axis, rounded up to a multiple of the workgroup size.
    pub grid: Dim3D<u32>,
}

/// `g` rounded up to the next multiple of `w`, for `g, w >= 1`.
pub open spec fn round_up(g: int, w: int) -> int {
    ((g - 1) / w + 1) * w
}

/// Some axis of either size is zero.
pub open spec fn has_zero_axis(wg: Dim3D<u16>, grid: Dim3D<u32>) -> bool {
    wg.x == 0 || wg.y == 0 || wg.z == 0 || grid.x == 0 || grid.y == 0 || grid.z == 0
}

/// The checked product of the workgroup's axes, in `u32`.
pub open spec fn wg_checked_len(wg: Dim3D<u16>) -> Result<u32, Error> {
    checked_mul_u32(checked_mul_u32(checked_mul_u32(Ok(1u32), wg.x as u32), wg.y as u32), wg.z as u32)
}

/// The checked product of the grid's axes, in `u64`.
pub open spec fn grid_checked_len(grid: Dim3D<u32>) -> Result<u64, Error> {
    checked_mul_u64(checked_mul_u64(checked_mul_u64(Ok(1u64), grid.x as u64), grid.y as u64), grid.z as u64)
}

/// The rounded grid, or `Overflow` when an axis does not fit in `u32` once rounded.
pub open spec fn rounded_grid(wg: Dim3D<u16>, grid: Dim3D<u32>) -> Result<Dim3D<u32>, Error> {
    if round_up(grid.x as int, wg.x as int) > u32::MAX
        || round_up(grid.y as int, wg.y as int) > u32::MAX
        || round_up(grid.z as int, wg.z as int) > u32::MAX {
        Err(Error::Overflow)
    } else {
        Ok(Dim3D {
            x: round_up(grid.x as int, wg.x as int) as u32,
            y: round_up(grid.y as int, wg.y as int) as u32,
            z: round_up(grid.z as int, wg.z as int) as u32,
        })
    }
}

/// The outcome of planning a launch of workgroup `wg` over the grid of checked
/// length `grid`, on a device with limits `lim`. Checks come in this order: the
/// grid's own length, zero axes, the workgroup against the device, the grid
/// against the device, and the rounding of the grid.
pub open spec fn plan_launch_spec(wg: Dim3D<u16>, grid: Result<Dim3D<u32>, Error>, lim: IsaLimits)
    -> Result<LaunchPlan, Error>
{
    match grid {
        Err(e) => Err(e),
        Ok(g) => {
            if has_zero_axis(wg, g) {
                Err(Error::ZeroGridLaunchAxis)
            } else if wg.x > lim.workgroup_max_dim.x || wg.y > lim.workgroup_max_dim.y
                || wg.z > lim.workgroup_max_dim.z {
                Err(Error::KernelWorkgroupDimTooLargeForDevice)
            } else if wg_checked_len(wg) is Err {
                Err(Error::Overflow)
            } else if wg_checked_len(wg)->Ok_0 > lim.workgroup_max_size {
                Err(Error::KernelWorkgroupLenTooLargeForDevice)
            } else if g.x > lim.grid_max_dim.x || g.y > lim.grid_max_dim.y || g.z > lim.grid_max_dim.z {
                Err(Error::LaunchGridDimTooLargeForDevice)
            } else if grid_checked_len(g) is Err {
                Err(Error::Overflow)
            } else if grid_checked_len(g)->Ok_0 > lim.grid_max_size {
                Err(Error::LaunchGridLenTooLargeForDevice)
            } else {
                match rounded_grid(wg, g) {
                    Err(e) => Err(e),
                    Ok(r) => Ok(LaunchPlan { workgroup: wg, grid: r }),
                }
            }
        },
    }
}

/// Facts about rounding up: the result is a multiple of `w`, at least `g`, and
/// less than `g + w`.
proof fn lemma_round_up(g: int, w: int)
    requires g >= 1, w >= 1,
    ensures
        round_up(g, w) % w == 0,
        g <= round_up(g, w) < g + w,
        (g - 1) / w + 1 <= g,
        (g - 1) / w >= 0,
{
    let q = (g - 1) / w;
    let r = (g - 1) % w;
    assert(g - 1 == q * w + r && 0 <= r < w) by (nonlinear_arith)
        requires w >= 1, q == (g - 1) / w, r == (g - 1) % w;
    assert(q >= 0) by (nonlinear_arith) requires g - 1 >= 0, w >= 1, q == (g - 1) / w;
    assert((q + 1) * w == q * w + w) by (nonlinear_arith);
    assert(((q + 1) * w) % w == 0) by (nonlinear_arith) requires w >= 1;
    assert(q + 1 <= g) by (nonlinear_arith)
        requires g - 1 == q * w + r, 0 <= r, w >= 1, q >= 0;
}

/// The checked workgroup length is the product of all three axes.
proof fn lemma_wg_len(wg: Dim3D<u16>)
    ensures
        wg_checked_len(wg) is Ok <==> wg.x as int * wg.y as int * wg.z as int <= u32::MAX,
        wg_checked_len(wg) matches Ok(l) ==> l == wg.x as int * wg.y as int * wg.z as int,
{
    let x = wg.x as int;
    let y = wg.y as int;
    let z = wg.z as int;
    assert(1 * x == x);
    assert(x * y <= u32::MAX) by (nonlinear_arith) requires 0 <= x <= u16::MAX, 0 <= y <= u16::MAX;
    assert(z >= 1 ==> x * y <= x * y * z) by (nonlinear_arith) requires 0 <= x, 0 <= y;
    assert(z == 0 ==> x * y * z == 0) by (nonlinear_arith);
}

/// The checked grid length is the product of all three axes.
proof fn lemma_grid_len(g: Dim3D<u32>)
    ensures
        grid_checked_len(g) is Ok <==> g.x as int * g.y as int * g.z as int <= u64::MAX,
        grid_checked_len(g) matches Ok(l) ==> l == g.x as int * g.y as int * g.z as int,
{
    let x = g.x as int;
    let y = g.y as int;
    let z = g.z as int;
    assert(1 * x == x);
    assert(x * y <= u64::MAX) by (nonlinear_arith) requires 0 <= x <= u32::MAX, 0 <= y <= u32::MAX;
    assert(z >= 1 ==> x * y <= x * y * z) by (nonlinear_arith) requires 0 <= x, 0 <= y;
    assert(z == 0 ==> x * y * z == 0) by (nonlinear_arith);
}

/// Law: a launch is planned only within the device's limits: every axis of the
/// workgroup and of the requested grid is at least one and at most the device's
/// maximum for that axis, the workgroup has at most `workgroup_max_size` workitems
/// and the grid at most `grid_max_size`, counting all three axes; the planned grid
/// is the requested one rounded up to whole workgroups.
pub proof fn law_plan_within_limits(wg: Dim3D<u16>, grid: Result<Dim3D<u32>, Error>, lim: IsaLimits)
    requires plan_launch_spec(wg, grid, lim) is Ok,
    ensures ({
        let g = grid->Ok_0;
        let p = plan_launch_spec(wg, grid, lim)->Ok_0;
        &&& grid is Ok
        &&& 1 <= wg.x <= lim.workgroup_max_dim.x
        &&& 1 <= wg.y <= lim.workgroup_max_dim.y
        &&& 1 <= wg.z <= lim.workgroup_max_dim.z
        &&& wg.x as int * wg.y as int * wg.z as int <= lim.workgroup_max_size
        &&& 1 <= g.x <= lim.grid_max_dim.x
        &&& 1 <= g.y <= lim.grid_max_dim.y
        &&& 1 <= g.z <= lim.grid_max_dim.z
        &&& g.x as int * g.y as int * g.z as int <= lim.grid_max_size
        &&& p.workgroup == wg
        &&& p.grid.x as int % wg.x as int == 0 && g.x <= p.grid.x < g.x + wg.x
        &&& p.grid.y as int % wg.y as int == 0 && g.y <= p.grid.y < g.y + wg.y
        &&& p.grid.z as int % wg.z as int == 0 && g.z <= p.grid.z < g.z + wg.z
    }),
{
    lemma_wg_len(wg);
    let g = grid->Ok_0;
    lemma_grid_len(g);
    lemma_round_up(g.x as int, wg.x as int);
    lemma_round_up(g.y as int, wg.y as int);
    lemma_round_up(g.z as int, wg.z as int);
}

/// Law: a workgroup with more workitems than the device allows, counting all
/// three axes, is never planned.
pub proof fn law_workgroup_len_refused(wg: Dim3D<u16>, grid: Result<Dim3D<u32>, Error>, lim: IsaLimits)
    requires wg.x as int * wg.y as int * wg.z as int > lim.workgroup_max_size,
    ensures plan_launch_spec(wg, grid, lim) is Err,
{
    if plan_launch_spec(wg, grid, lim) is Ok {
        law_plan_within_limits(wg, grid, lim);
    }
}

fn round_up_axis(g: u32, w: u32) -> (r: Result<u32, Error>)
    requires g >= 1, w >= 1,
    ensures
        r is Err <==> round_up(g as int, w as int) > u32::MAX,
        r is Ok ==> r->Ok_0 == round_up(g as int, w as int),
{
    proof { lemma_round_up(g as int, w as int); }
    let q = (g - 1) / w;
    let q1 = q + 1;
    match q1.checked_mul(w) {
        Some(v) => Ok(v),
        None => Err(Error::Overflow),
    }
}

/// Check a launch against the device's limits and round the grid up to a multiple
/// of the workgroup size. `grid` is the checked length of the requested grid.
pub fn plan_launch(wg: &Dim3D<u16>, grid: Result<Dim3D<u32>, Error>, limits: &IsaLimits)
    -> (r: Result<LaunchPlan, Error>)
    ensures
        r == plan_launch_spec(*wg, grid, *limits),
        r is Ok ==> wg.x as int * wg.y as int * wg.z as int <= limits.workgroup_max_size
            && grid->Ok_0.x as int * grid->Ok_0.y as int * grid->Ok_0.z as int <= limits.grid_max_size,
        r matches Ok(p) ==> {
            &&& p.workgroup == *wg
            &&& p.grid.x as int % wg.x as int == 0 && p.grid.y as int % wg.y as int == 0 && p.grid.z as int % wg.z as int == 0
            &&& grid->Ok_0.x <= p.grid.x < grid->Ok_0.x + wg.x
            &&& grid->Ok_0.y <= p.grid.y < grid->Ok_0.y + wg.y
            &&& grid->Ok_0.z <= p.grid.z < grid->Ok_0.z + wg.z
        },
{
    proof {
        if plan_launch_spec(*wg, grid, *limits) is Ok {
            law_plan_within_limits(*wg, grid, *limits);
        }
    }
    let g = match grid {
        Ok(g) => g,
        Err(e) => { return Err(e); },
    };
    if wg.x == 0 || wg.y == 0 || wg.z == 0 || g.x == 0 || g.y == 0 || g.z == 0 {
        return Err(Error::ZeroGridLaunchAxis);
    }
    if wg.x > limits.workgroup_max_dim.x || wg.y > limits.workgroup_max_dim.y
        || wg.z > limits.workgroup_max_dim.z {
        return Err(Error::KernelWorkgroupDimTooLargeForDevice);
    }
    let wg_len = match wg.as_u32().checked_linear_len() {
        Ok(l) => l,
        Err(_) => { return Err(Error::Overflow); },
    };
    if wg_len > limits.workgroup_max_size {
        return Err(Error::KernelWorkgroupLenTooLargeForDevice);
    }
    if g.x > limits.grid_max_dim.x || g.y > limits.grid_max_dim.y || g.z > limits.grid_max_dim.z {
        return Err(Error::LaunchGridDimTooLargeForDevice);
    }
    let grid_len = match g.as_u64().checked_linear_len() {
        Ok(l) => l,
        Err(_) => { return Err(Error::Overflow); },
    };
    if grid_len > limits.grid_max_size {
        return Err(Error::LaunchGridLenTooLargeForDevice);
    }
    proof {
        lemma_round_up(g.x as int, wg.x as int);
        lemma_round_up(g.y as int, wg.y as int);
        lemma_round_up(g.z as int, wg.z as int);
    }
    let rx = round_up_axis(g.x, wg.x as u32);
    let ry = round_up_axis(g.y, wg.y as u32);
    let rz = round_up_axis(g.z, wg.z as u32);
    match (rx, ry, rz) {
        (Ok(x), Ok(y), Ok(z)) => Ok(LaunchPlan { workgroup: *wg, grid: Dim3D { x, y, z } }),
        _ => Err(Error::Overflow),
    }
}

/// Plan the launch of a one dimensional kernel over `grid`.
pub fn plan_launch_1d(grid: &Dim1D<AxisRange>, wg: &Dim1D<u16>, limits: &IsaLimits)
    -> (r: Result<LaunchPlan, Error>)
    ensures
        r == plan_launch_spec(
            Dim3D { x: wg.x, y: 1u16, z: 1u16 },
            match dim1_checked_len(*grid) {
                Ok(l) => Ok(Dim3D { x: l.x, y: 1u32, z: 1u32 }),
                Err(e) => Err(e),
            },
            *limits),
{
    plan_launch(&wg.workgroup_launch_grid(), grid.full_launch_grid(), limits)
}

/// Plan the launch of a two dimensional kernel over `grid`.
pub fn plan_launch_2d(grid: &Dim2D<AxisRange>, wg: &Dim2D<u16>, limits: &IsaLimits)
    -> (r: Result<LaunchPlan, Error>)
    ensures
        r == plan_launch_spec(
            Dim3D { x: wg.x, y: wg.y, z: 1u16 },
            match dim2_checked_len(*grid) {
                Ok(l) => Ok(Dim3D { x: l.x, y: l.y, z: 1u32 }),
                Err(e) => Err(e),
            },
            *limits),
{
    plan_launch(&wg.workgroup_launch_grid(), grid.full_launch_grid(), limits)
}

/// Plan the launch of a three dimensional kernel over `grid`.
pub fn plan_launch_3d(grid: &Dim3D<AxisRange>, wg: &Dim3D<u16>, limits: &IsaLimits)
    -> (r: Result<LaunchPlan, Error>)
    ensures r == plan_launch_spec(*wg, dim3_checked_len(*grid), *limits),
{
    plan_launch(&wg.workgroup_launch_grid(), grid.full_launch_grid(), limits)
}


/// The first steps of a launch, in the order that wastes nothing: the launch is
/// checked (`plan`, from `plan_launch`) before a block of `size` bytes aligned to
/// `align` is taken from the argument arena for the kernel's arguments. When
/// either step fails the caller's `args` are handed back with the error, and the
/// arena is as it was; a full arena gives `KernelArgsPoolOom`. On success the plan,
/// the block's address and the arguments come back.
pub fn reserve_launch<T>(plan: Result<LaunchPlan, Error>, pool: &mut ArgsPool, size: usize, align: usize, args: T)
    -> (r: Result<(LaunchPlan, usize, T), (Error, T)>)
    requires
        old(pool).wf(),
        is_pow2(align as int),
        old(pool).end_spec() + size + args_align(align as int) <= usize::MAX,
    ensures
        final(pool).wf(),
        final(pool).base_spec() == old(pool).base_spec(),
        final(pool).end_spec() == old(pool).end_spec(),
        plan matches Err(e) ==> r == Err::<(LaunchPlan, usize, T), (Error, T)>((e, args))
            && final(pool).allocated_spec() == old(pool).allocated_spec(),
        plan matches Ok(p) ==> match bump_alloc(old(pool).allocated_spec(), old(pool).end_spec(), size as int, align as int) {
            None => r == Err::<(LaunchPlan, usize, T), (Error, T)>((Error::KernelArgsPoolOom, args))
                && final(pool).allocated_spec() == old(pool).allocated_spec(),
            Some(at) => r == Ok::<(LaunchPlan, usize, T), (Error, T)>((p, at as usize, args))
                && final(pool).allocated_spec() == at + size,
        },
{
    let p = match plan {
        Ok(p) => p,
        Err(e) => { return Err((e, args)); },
    };
    match pool.alloc_block(size, align) {
        Some(at) => Ok((p, at, args)),
        None => Err((Error::KernelArgsPoolOom, args)),
    }
}

} // verus!
