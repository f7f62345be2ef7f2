use geobacter_runtime::error::Error;
use geobacter_runtime::grid::{AxisRange, Dim1D, Dim2D, Dim3D, VectorParams};
use geobacter_runtime::launch::{plan_launch, plan_launch_1d, plan_launch_2d, plan_launch_3d, IsaLimits, LaunchPlan};
use geobacter_runtime::dispatch::{DispatchPacket, FenceScope, FuncModule, LaunchDims};
use geobacter_runtime::codegen::CodegenDesc;

/// The launch limits of a typical GCN device.
fn limits() -> IsaLimits {
    IsaLimits {
        workgroup_max_dim: Dim3D { x: 1024, y: 1024, z: 1024 },
        workgroup_max_size: 1024,
        grid_max_dim: Dim3D { x: u32::MAX, y: u32::MAX, z: u32::MAX },
        grid_max_size: u32::MAX as u64,
    }
}

fn range(start: u32, end: u32) -> AxisRange {
    AxisRange::Range { start, end }
}

const WG1: Dim1D<u16> = Dim1D { x: 8 };
const WG2: Dim2D<u16> = Dim2D { x: 8, y: 8 };
const WG3: Dim3D<u16> = Dim3D { x: 8, y: 8, z: 8 };

/// Run a one dimensional launch on the host: every workitem of every workgroup of
/// the (rounded) launch writes `f(vp)` at its position in the launch, unless it
/// lies past the requested grid.
fn run_1d<E: Copy>(grid: &Dim1D<AxisRange>, buf: &mut Vec<E>,
                   f: impl Fn(&VectorParams<Dim1D<AxisRange>, Dim1D<u32>, Dim1D<u16>>) -> E) {
    let plan = plan_launch_1d(grid, &WG1, &limits()).unwrap();
    let groups = plan.grid.x / plan.workgroup.x as u32;
    for g in 0..groups {
        for i in 0..WG1.x {
            let launch_id = (g * WG1.x as u32 + i as u32) as usize;
            if let Some(vp) = VectorParams::<Dim1D<AxisRange>, Dim1D<u32>, Dim1D<u16>>::new(
                grid, &WG1, Dim1D { x: g }, Dim1D { x: i }) {
                buf[launch_id] = f(&vp);
            }
        }
    }
}

/// Run a three dimensional launch on the host, as `run_1d` does; a workitem's
/// position is its linear id in the launched (rounded) grid.
fn run_3d<E: Copy>(grid: &Dim3D<AxisRange>, buf: &mut Vec<E>,
                   f: impl Fn(&VectorParams<Dim3D<AxisRange>, Dim3D<u32>, Dim3D<u16>>) -> E) {
    let plan = plan_launch_3d(grid, &WG3, &limits()).unwrap();
    let (lx, ly, lz) = (plan.grid.x, plan.grid.y, plan.grid.z);
    for gz in 0..lz / 8 {
        for gy in 0..ly / 8 {
            for gx in 0..lx / 8 {
                for iz in 0..8u16 {
                    for iy in 0..8u16 {
                        for ix in 0..8u16 {
                            let x = gx * 8 + ix as u32;
                            let y = gy * 8 + iy as u32;
                            let z = gz * 8 + iz as u32;
                            let launch_id = ((z * ly + y) * lx + x) as usize;
                            if let Some(vp) = VectorParams::<Dim3D<AxisRange>, Dim3D<u32>, Dim3D<u16>>::new(
                                grid, &WG3, Dim3D { x: gx, y: gy, z: gz }, Dim3D { x: ix, y: iy, z: iz }) {
                                buf[launch_id] = f(&vp);
                            }
                        }
                    }
                }
            }
        }
    }
}

#[test]
fn zero_grid_err() {
    let grid = Dim1D { x: range(0, 0) };
    assert!(plan_launch_1d(&grid, &WG1, &limits()).is_err());
    assert_eq!(plan_launch_1d(&grid, &WG1, &limits()), Err(Error::ZeroGridLaunchAxis));
}

#[test]
fn overflow_err() {
    let grid = Dim2D { x: range(0, u32::MAX), y: range(0, u32::MAX) };
    assert!(plan_launch_2d(&grid, &WG2, &limits()).is_err());
}

#[test]
fn underflow_err() {
    let grid = Dim1D { x: range(1, 0) };
    assert!(plan_launch_1d(&grid, &WG1, &limits()).is_err());
    assert_eq!(plan_launch_1d(&grid, &WG1, &limits()), Err(Error::Underflow));
}

#[test]
fn device_wg_limit_err() {
    let grid = Dim2D { x: range(0, 1), y: range(0, 1) };
    let wg = Dim2D { x: 1024u16, y: 1024u16 };
    assert!(plan_launch_2d(&grid, &wg, &limits()).is_err());
    assert_eq!(plan_launch_2d(&grid, &wg, &limits()), Err(Error::KernelWorkgroupLenTooLargeForDevice));
}

#[test]
fn test_trivial() {
    // one dimension
    let grid = Dim1D { x: range(0, 16) };
    let mut m = vec![0u32; 16];
    run_1d(&grid, &mut m, |vp| *vp.gl_id());
    for (i, &v) in m.iter().enumerate() {
        assert_eq!(v as usize, i);
    }

    // three dimensions
    let grid = Dim3D { x: range(0, 16), y: range(0, 16), z: range(0, 16) };
    let mut m = vec![0u32; 16 * 16 * 16];
    run_3d(&grid, &mut m, |vp| *vp.gl_id());
    for (i, &v) in m.iter().enumerate() {
        assert_eq!(v as usize, i);
    }
}

#[test]
fn grid_rounding() {
    let grid = Dim1D { x: range(0, 12) };
    let mut m = vec![0u32; 16];
    run_1d(&grid, &mut m, |vp| *vp.gl_id());
    for (i, &v) in m.iter().enumerate() {
        if i < 12 {
            assert_eq!(v as usize, i);
        } else {
            assert_eq!(v, 0);
        }
    }
}

#[test]
fn test_glid_offset() {
    // one dimension
    let grid = Dim1D { x: range(32, 48) };
    let mut m = vec![0u32; 16];
    run_1d(&grid, &mut m, |vp| *vp.gl_id());
    for (i, &v) in m.iter().enumerate() {
        assert_eq!(v as usize, i + 32);
    }

    // three dimensions
    let grid = Dim3D { x: range(0, 16), y: range(32, 48), z: range(0, 16) };
    let mut m = vec![0u32; 16 * 16 * 16];
    run_3d(&grid, &mut m, |vp| *vp.gl_id());
    for (i, &v) in m.iter().enumerate() {
        assert_eq!(v as usize, i + 32 * 16);
    }
}

#[test]
fn test_workitem_idx() {
    // one dimension
    let grid = Dim1D { x: range(0, 32) };
    let mut m = vec![0u32; 32];
    run_1d(&grid, &mut m, |vp| vp.wi().x as u32);
    for (i, &v) in m.iter().enumerate() {
        assert_eq!(v as usize, i % (WG1.x as usize));
    }

    // three dimensions
    let grid = Dim3D { x: range(0, 16), y: range(0, 32), z: range(0, 8) };
    let mut m = vec![(0u32, 0u32, 0u32); 16 * 32 * 8];
    run_3d(&grid, &mut m, |vp| (vp.wi().x as u32, vp.wi().y as u32, vp.wi().z as u32));
    let (gx, gy) = (16usize, 32usize);
    for (i, &(x, y, z)) in m.iter().enumerate() {
        assert_eq!(x as usize, i % 8);
        assert_eq!(y as usize, (i / gx) % 8);
        assert_eq!(z as usize, (i / gx / gy) % 8);
    }
}

#[test]
fn test_workgroup_id() {
    // one dimension
    let grid = Dim1D { x: range(0, 32) };
    let mut m = vec![0u32; 32];
    run_1d(&grid, &mut m, |vp| vp.wg_id().x);
    for (i, &v) in m.iter().enumerate() {
        assert_eq!(v as usize, i / 8);
    }

    // three dimensions
    let grid = Dim3D { x: range(0, 16), y: range(0, 32), z: range(0, 8) };
    let mut m = vec![(0u32, 0u32, 0u32); 16 * 32 * 8];
    run_3d(&grid, &mut m, |vp| (vp.wg_id().x, vp.wg_id().y, vp.wg_id().z));
    for zi in 0..8u32 {
        for yi in 0..32u32 {
            for xi in 0..16u32 {
                let idx = (zi * 32 + yi) * 16 + xi;
                let (x, y, z) = m[idx as usize];
                assert_eq!(x, xi / 8);
                assert_eq!(y, yi / 8);
                assert_eq!(z, zi / 8);
            }
        }
    }
}

#[test]
fn test_workgroup_idx() {
    // one dimension
    let grid = Dim1D { x: range(0, 32) };
    let mut m = vec![0u32; 32];
    run_1d(&grid, &mut m, |vp| vp.wg_idx().x);
    for (i, &v) in m.iter().enumerate() {
        assert_eq!(v as usize, (i / 8) * 8);
    }

    // three dimensions
    let grid = Dim3D { x: range(0, 16), y: range(0, 32), z: range(0, 8) };
    let mut m = vec![(0u32, 0u32, 0u32); 16 * 32 * 8];
    run_3d(&grid, &mut m, |vp| (vp.wg_idx().x, vp.wg_idx().y, vp.wg_idx().z));
    for zi in 0..8u32 {
        for yi in 0..32u32 {
            for xi in 0..16u32 {
                let idx = (zi * 32 + yi) * 16 + xi;
                let (x, y, z) = m[idx as usize];
                assert_eq!(x, (xi / 8) * 8);
                assert_eq!(y, (yi / 8) * 8);
                assert_eq!(z, (zi / 8) * 8);
            }
        }
    }
}

#[test]
fn launch_rounds_grid_up_to_workgroup_multiple() {
    let plan = plan_launch(&Dim3D { x: 8, y: 4, z: 1 }, Ok(Dim3D { x: 12, y: 9, z: 3 }), &limits()).unwrap();
    assert_eq!(plan, LaunchPlan { workgroup: Dim3D { x: 8, y: 4, z: 1 }, grid: Dim3D { x: 16, y: 12, z: 3 } });
    // already a multiple: unchanged
    let plan = plan_launch(&Dim3D { x: 8, y: 8, z: 8 }, Ok(Dim3D { x: 16, y: 8, z: 24 }), &limits()).unwrap();
    assert_eq!(plan.grid, Dim3D { x: 16, y: 8, z: 24 });
}

#[test]
fn launch_error_variants() {
    let l = limits();
    assert_eq!(plan_launch(&Dim3D { x: 0, y: 1, z: 1 }, Ok(Dim3D { x: 1, y: 1, z: 1 }), &l),
               Err(Error::ZeroGridLaunchAxis));
    assert_eq!(plan_launch(&Dim3D { x: 1, y: 1, z: 1 }, Err(Error::Underflow), &l), Err(Error::Underflow));
    let small = IsaLimits {
        workgroup_max_dim: Dim3D { x: 16, y: 16, z: 16 },
        workgroup_max_size: 64,
        grid_max_dim: Dim3D { x: 100, y: 100, z: 100 },
        grid_max_size: 1000,
    };
    assert_eq!(plan_launch(&Dim3D { x: 32, y: 1, z: 1 }, Ok(Dim3D { x: 1, y: 1, z: 1 }), &small),
               Err(Error::KernelWorkgroupDimTooLargeForDevice));
    assert_eq!(plan_launch(&Dim3D { x: 16, y: 16, z: 1 }, Ok(Dim3D { x: 1, y: 1, z: 1 }), &small),
               Err(Error::KernelWorkgroupLenTooLargeForDevice));
    assert_eq!(plan_launch(&Dim3D { x: 1, y: 1, z: 1 }, Ok(Dim3D { x: 101, y: 1, z: 1 }), &small),
               Err(Error::LaunchGridDimTooLargeForDevice));
    assert_eq!(plan_launch(&Dim3D { x: 1, y: 1, z: 1 }, Ok(Dim3D { x: 100, y: 100, z: 1 }), &small),
               Err(Error::LaunchGridLenTooLargeForDevice));
    assert_eq!(plan_launch(&Dim3D { x: 8, y: 1, z: 1 }, Ok(Dim3D { x: u32::MAX, y: 1, z: 1 }), &l),
               Err(Error::Overflow));
}

#[test]
fn axis_ranges() {
    assert_eq!(AxisRange::RangeTo { end: 32 }.checked_len(), Ok(32));
    assert_eq!(AxisRange::RangeInclusive { start: 0, end: 32 }.checked_len(), Ok(33));
    assert_eq!(AxisRange::RangeToInclusive { end: 32 }.checked_len(), Ok(33));
    assert_eq!(AxisRange::RangeToInclusive { end: u32::MAX }.checked_len(), Err(Error::Overflow));
    assert_eq!(AxisRange::Range { start: 5, end: 3 }.checked_len(), Err(Error::Underflow));
    assert_eq!(AxisRange::Range { start: 32, end: 48 }.start(), 32);
}

#[test]
fn dispatch_packet_carries_plan_and_fences() {
    let mut m = FuncModule::new();
    assert_eq!(m.acquire_fence(), FenceScope::System);
    assert_eq!(m.release_fence(), FenceScope::System);
    m.dynamic_group_size = 64;
    m.dynamic_private_size = 16;
    m.device_acquire_fence();
    m.no_release_fence();
    assert_eq!(m.acquire_fence(), FenceScope::Agent);
    assert_eq!(m.release_fence(), FenceScope::NoFence);
    m.system_release_fence();
    assert_eq!(m.release_fence(), FenceScope::System);
    assert_eq!(m.acquire_fence(), FenceScope::Agent);
    let desc = CodegenDesc {
        group_segment_size: 256,
        kernarg_segment_size: 8,
        private_segment_size: 32,
        workgroup_fbarrier_count: 0,
        group_segment_p2align: 5,
        kernarg_segment_p2align: 3,
        private_segment_p2align: 5,
    };
    let plan = plan_launch_1d(&Dim1D { x: range(0, 12) }, &WG1, &limits()).unwrap();
    let p = m.dispatch_packet(&plan, &desc, 0xdead, true);
    assert_eq!(p, DispatchPacket {
        workgroup_size: Dim3D { x: 8, y: 1, z: 1 },
        grid_size: Dim3D { x: 16, y: 1, z: 1 },
        group_segment_size: 320,
        private_segment_size: 48,
        scacquire_scope: FenceScope::Agent,
        screlease_scope: FenceScope::System,
        ordered: false,
        kernel_object: 0xdead,
    });
    assert!(m.dispatch_packet(&plan, &desc, 1, false).ordered);
    assert_eq!(m.group_size(&desc), 320);
    assert_eq!(m.private_size(&desc), 48);
}

#[test]
fn launch_dims_start_at_unit() {
    assert_eq!(<(usize,) as LaunchDims>::default_unit(), (1,));
    assert_eq!(<(usize, usize) as LaunchDims>::default_unit(), (1, 1));
    assert_eq!(<(usize, usize, usize) as LaunchDims>::default_unit(), (1, 1, 1));
}

#[test]
fn grid_range_types() {
    let grids = [
        Dim1D { x: AxisRange::RangeTo { end: 32 } },
        Dim1D { x: AxisRange::Range { start: 0, end: 32 } },
        Dim1D { x: AxisRange::RangeInclusive { start: 0, end: 32 } },
        Dim1D { x: AxisRange::RangeToInclusive { end: 32 } },
    ];
    for g in grids.iter() {
        assert!(g.checked_len().is_ok());
        assert!(plan_launch_1d(g, &WG1, &limits()).is_ok());
    }
}
