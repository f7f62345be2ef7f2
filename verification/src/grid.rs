//! Launch grids and workgroups in one to three dimensions, and the ids each
//! workitem sees.
use vstd::prelude::*;
use crate::error::Error;
use vstd::arithmetic::div_mod::lemma_fundamental_div_mod_converse;

verus! {

/// A one dimensional grid value (a size, an index, or a range per axis).
#[derive(Clone, Copy, Debug, PartialEq, Eq, Structural)]
pub struct Dim1D<T> {
    pub x: T,
}

/// A two dimensional grid value.
#[derive(Clone, Copy, Debug, PartialEq, Eq, Structural)]
pub struct Dim2D<T> {
    pub x: T,
    pub y: T,
}

/// A three dimensional grid value.
#[derive(Clone, Copy, Debug, PartialEq, Eq, Structural)]
pub struct Dim3D<T> {
    pub x: T,
    pub y: T,
    pub z: T,
}

/// One axis of a launch grid, as a range of `u32` indices.
#[derive(Clone, Copy, Debug, PartialEq, Eq, Structural)]
pub enum AxisRange {
    /// `start..end`
    Range { start: u32, end: u32 },
    /// `start..=end`
    RangeInclusive { start: u32, end: u32 },
    /// `..end`
    RangeTo { end: u32 },
    /// `..=end`
    RangeToInclusive { end: u32 },
}

/// First index of an axis.
pub open spec fn axis_start(r: AxisRange) -> int {
    match r {
        AxisRange::Range { start, .. } => start as int,
        AxisRange::RangeInclusive { start, .. } => start as int,
        AxisRange::RangeTo { .. } => 0,
        AxisRange::RangeToInclusive { .. } => 0,
    }
}

/// Number of indices of an axis, over the integers (negative when the range is reversed).
pub open spec fn axis_len(r: AxisRange) -> int {
    match r {
        AxisRange::Range { start, end } => end - start,
        AxisRange::RangeInclusive { start, end } => end - start + 1,
        AxisRange::RangeTo { end } => end as int,
        AxisRange::RangeToInclusive { end } => end + 1,
    }
}

/// The checked length of an axis: `Underflow` for a reversed range, `Overflow`
/// when the count does not fit in `u32`.
pub open spec fn axis_checked_len(r: AxisRange) -> Result<u32, Error> {
    if axis_len(r) < 0 || (axis_len(r) == 0 && r is RangeInclusive) {
        Err(Error::Underflow)
    } else if axis_len(r) > u32::MAX {
        Err(Error::Overflow)
    } else {
        Ok(axis_len(r) as u32)
    }
}

impl AxisRange {
    /// The first index of the axis.
    pub fn start(&self) -> (r: u32)
        ensures r == axis_start(*self),
    {
        match *self {
            AxisRange::Range { start, .. } => start,
            AxisRange::RangeInclusive { start, .. } => start,
            AxisRange::RangeTo { .. } => 0,
            AxisRange::RangeToInclusive { .. } => 0,
        }
    }

    /// The number of indices of the axis, checked for reversal and overflow.
    pub fn checked_len(&self) -> (r: Result<u32, Error>)
        ensures r == axis_checked_len(*self),
    {
        match *self {
            AxisRange::Range { start, end } => {
                if end < start { Err(Error::Underflow) } else { Ok(end - start) }
            },
            AxisRange::RangeInclusive { start, end } => {
                if end < start {
                    Err(Error::Underflow)
                } else if end - start == u32::MAX {
                    Err(Error::Overflow)
                } else {
                    Ok(end - start + 1)
                }
            },
            AxisRange::RangeTo { end } => Ok(end),
            AxisRange::RangeToInclusive { end } => {
                if end == u32::MAX { Err(Error::Overflow) } else { Ok(end + 1) }
            },
        }
    }
}


/// The per-axis product `wg_id * wg_size`: the index of a workgroup's first workitem.
pub open spec fn axis_wg_idx(wg_size: u16, wg_id: u32) -> int {
    wg_id as int * wg_size as int
}

/// The grid index of a workitem on one axis, before the range's start offset.
pub open spec fn axis_rel_idx(wg_size: u16, wg_id: u32, wi: u16) -> int {
    axis_wg_idx(wg_size, wg_id) + wi as int
}

/// The grid index of a workitem on one axis.
pub open spec fn axis_grid_id(r: AxisRange, wg_size: u16, wg_id: u32, wi: u16) -> int {
    axis_rel_idx(wg_size, wg_id, wi) + axis_start(r)
}

/// Law: along one axis, the in-bounds workitems of a launch visit every index of
/// the grid exactly once. Index `k` of `[start, start + len)` is visited by
/// workgroup `(k - start) / w` at workitem `(k - start) % w`, and by no other
/// workgroup and workitem below the workgroup size `w`.
pub proof fn law_axis_cover(r: AxisRange, w: u16, k: int)
    requires
        w >= 1,
        axis_checked_len(r) is Ok,
        axis_start(r) <= k < axis_start(r) + axis_checked_len(r)->Ok_0,
    ensures
        ({
            let rel = k - axis_start(r);
            &&& rel / (w as int) <= u32::MAX
            &&& axis_grid_id(r, w, (rel / (w as int)) as u32, (rel % (w as int)) as u16) == k
            &&& axis_rel_idx(w, (rel / (w as int)) as u32, (rel % (w as int)) as u16) < axis_checked_len(r)->Ok_0
        }),
        forall|g: u32, i: u16| i < w && #[trigger] axis_grid_id(r, w, g, i) == k ==>
            g == (k - axis_start(r)) / (w as int) && i == (k - axis_start(r)) % (w as int),
{
    let rel = k - axis_start(r);
    let wi = w as int;
    let q = rel / wi;
    let m = rel % wi;
    assert(rel == q * wi + m && 0 <= m < wi) by (nonlinear_arith)
        requires wi >= 1, q == rel / wi, m == rel % wi;
    assert(0 <= q <= rel) by (nonlinear_arith)
        requires wi >= 1, q == rel / wi, rel >= 0;
    assert(axis_checked_len(r)->Ok_0 <= u32::MAX);
    assert(q * wi == (q as u32) as int * (w as int));
    assert forall|g: u32, i: u16| i < w && #[trigger] axis_grid_id(r, w, g, i) == k implies
        g == rel / wi && i == rel % wi by {
        vstd::arithmetic::div_mod::lemma_fundamental_div_mod_converse(rel, wi, g as int, i as int);
    }
}

/// The workgroup and workitem that visit grid index `k` of one axis.
pub open spec fn axis_visitor(r: AxisRange, w: u16, k: int) -> (u32, u16) {
    (((k - axis_start(r)) / (w as int)) as u32, ((k - axis_start(r)) % (w as int)) as u16)
}

/// `k` is an index of the grid `g` on every axis.
pub open spec fn in_grid3(g: Dim3D<AxisRange>, k: Dim3D<u32>) -> bool {
    &&& dim3_checked_len(g) is Ok
    &&& axis_start(g.x) <= k.x < axis_start(g.x) + dim3_checked_len(g)->Ok_0.x
    &&& axis_start(g.y) <= k.y < axis_start(g.y) + dim3_checked_len(g)->Ok_0.y
    &&& axis_start(g.z) <= k.z < axis_start(g.z) + dim3_checked_len(g)->Ok_0.z
}

/// The workgroup that visits grid index `k`.
pub open spec fn visitor_id(g: Dim3D<AxisRange>, wg: Dim3D<u16>, k: Dim3D<u32>) -> Dim3D<u32> {
    Dim3D { x: axis_visitor(g.x, wg.x, k.x as int).0, y: axis_visitor(g.y, wg.y, k.y as int).0,
        z: axis_visitor(g.z, wg.z, k.z as int).0 }
}

/// The workitem (within its workgroup) that visits grid index `k`.
pub open spec fn visitor_wi(g: Dim3D<AxisRange>, wg: Dim3D<u16>, k: Dim3D<u32>) -> Dim3D<u16> {
    Dim3D { x: axis_visitor(g.x, wg.x, k.x as int).1, y: axis_visitor(g.y, wg.y, k.y as int).1,
        z: axis_visitor(g.z, wg.z, k.z as int).1 }
}

/// Law: the in-bounds workitems of a three dimensional launch visit every index of
/// the grid exactly once: index `k` is visited by workgroup `visitor_id` at
/// workitem `visitor_wi`, which lie inside the requested grid, and by no other
/// workgroup and workitem within the workgroup size.
pub proof fn law_grid_cover(g: Dim3D<AxisRange>, wg: Dim3D<u16>, k: Dim3D<u32>)
    requires
        wg.x >= 1, wg.y >= 1, wg.z >= 1,
        in_grid3(g, k),
    ensures
        dim3_ids_fit(g, wg, visitor_id(g, wg, k), visitor_wi(g, wg, k)),
        dim3_grid_id(g, wg, visitor_id(g, wg, k), visitor_wi(g, wg, k)) == k,
        !dim3_oob(dim3_checked_len(g)->Ok_0, wg, visitor_id(g, wg, k), visitor_wi(g, wg, k)),
        forall|id: Dim3D<u32>, wi: Dim3D<u16>| wi.x < wg.x && wi.y < wg.y && wi.z < wg.z
            && dim3_ids_fit(g, wg, id, wi) && #[trigger] dim3_grid_id(g, wg, id, wi) == k ==>
            id == visitor_id(g, wg, k) && wi == visitor_wi(g, wg, k),
{
    law_axis_cover(g.x, wg.x, k.x as int);
    law_axis_cover(g.y, wg.y, k.y as int);
    law_axis_cover(g.z, wg.z, k.z as int);
    assert forall|id: Dim3D<u32>, wi: Dim3D<u16>| wi.x < wg.x && wi.y < wg.y && wi.z < wg.z
        && dim3_ids_fit(g, wg, id, wi) && #[trigger] dim3_grid_id(g, wg, id, wi) == k implies
        id == visitor_id(g, wg, k) && wi == visitor_wi(g, wg, k) by {
        assert(axis_grid_id(g.x, wg.x, id.x, wi.x) == k.x);
        assert(axis_grid_id(g.y, wg.y, id.y, wi.y) == k.y);
        assert(axis_grid_id(g.z, wg.z, id.z, wi.z) == k.z);
    }
}

/// The per-axis computations of a workitem's position fit in `u32`.
pub open spec fn axis_id_fits(r: AxisRange, wg_size: u16, wg_id: u32, wi: u16) -> bool {
    axis_grid_id(r, wg_size, wg_id, wi) <= u32::MAX
}

/// One step of a checked product: `Overflow` once the product leaves `u32`.
pub open spec fn checked_mul_u32(acc: Result<u32, Error>, v: u32) -> Result<u32, Error> {
    match acc {
        Err(e) => Err(e),
        Ok(a) => if a as int * v as int > u32::MAX { Err(Error::Overflow) } else { Ok((a as int * v as int) as u32) },
    }
}

/// One step of a checked product in `u64`.
pub open spec fn checked_mul_u64(acc: Result<u64, Error>, v: u64) -> Result<u64, Error> {
    match acc {
        Err(e) => Err(e),
        Ok(a) => if a as int * v as int > u64::MAX { Err(Error::Overflow) } else { Ok((a as int * v as int) as u64) },
    }
}

fn axis_checked_mul_u32(acc: u32, v: u32) -> (r: Result<u32, Error>)
    ensures r == checked_mul_u32(Ok(acc), v),
{
    match acc.checked_mul(v) {
        Some(p) => Ok(p),
        None => Err(Error::Overflow),
    }
}

fn axis_checked_mul_u64(acc: u64, v: u64) -> (r: Result<u64, Error>)
    ensures r == checked_mul_u64(Ok(acc), v),
{
    match acc.checked_mul(v) {
        Some(p) => Ok(p),
        None => Err(Error::Overflow),
    }
}

fn axis_grid_index(r: AxisRange, wg_size: u16, wg_id: u32, wi: u16) -> (id: u32)
    requires axis_id_fits(r, wg_size, wg_id, wi),
    ensures id == axis_grid_id(r, wg_size, wg_id, wi),
{
    proof {
        assert(0 <= wg_id as int * wg_size as int) by (nonlinear_arith);
    }
    wg_id * (wg_size as u32) + (wi as u32) + r.start()
}

fn axis_oob(r: AxisRange, len: u32, wg_size: u16, wg_id: u32, wi: u16) -> (oob: bool)
    requires axis_rel_idx(wg_size, wg_id, wi) <= u32::MAX,
    ensures oob == (axis_rel_idx(wg_size, wg_id, wi) >= len),
{
    proof {
        assert(0 <= wg_id as int * wg_size as int) by (nonlinear_arith);
    }
    wg_id * (wg_size as u32) + (wi as u32) >= len
}

// ---------------------------------------------------------------------------
// Three dimensions

/// The checked length of each axis, reporting the first failing axis (x, then y, then z).
pub open spec fn dim3_checked_len(g: Dim3D<AxisRange>) -> Result<Dim3D<u32>, Error> {
    match axis_checked_len(g.x) {
        Err(e) => Err(e),
        Ok(x) => match axis_checked_len(g.y) {
            Err(e) => Err(e),
            Ok(y) => match axis_checked_len(g.z) {
                Err(e) => Err(e),
                Ok(z) => Ok(Dim3D { x, y, z }),
            },
        },
    }
}

/// The product of the three lengths, over the integers.
pub open spec fn dim3_product(d: Dim3D<u32>) -> int {
    d.x as int * d.y as int * d.z as int
}

/// The running products `x * y` and `x * y * z` both fit in `u32`.
pub open spec fn dim3_partials_fit(d: Dim3D<u32>) -> bool {
    &&& d.x as int * d.y as int <= u32::MAX
    &&& dim3_product(d) <= u32::MAX
}

/// The globally linear id of an index within a grid of the given lengths.
pub open spec fn glid3(id: Dim3D<u32>, len: Dim3D<u32>) -> int {
    (id.z as int * len.y as int + id.y as int) * len.x as int + id.x as int
}

/// Each intermediate value of the globally linear id fits in `u32`.
pub open spec fn glid3_fits(id: Dim3D<u32>, len: Dim3D<u32>) -> bool {
    &&& id.z as int * len.y as int <= u32::MAX
    &&& id.z as int * len.y as int + id.y as int <= u32::MAX
    &&& (id.z as int * len.y as int + id.y as int) * len.x as int <= u32::MAX
    &&& glid3(id, len) <= u32::MAX
}

/// The grid index of a workitem.
pub open spec fn dim3_grid_id(g: Dim3D<AxisRange>, wg: Dim3D<u16>, wg_id: Dim3D<u32>, wi: Dim3D<u16>) -> Dim3D<u32> {
    Dim3D {
        x: axis_grid_id(g.x, wg.x, wg_id.x, wi.x) as u32,
        y: axis_grid_id(g.y, wg.y, wg_id.y, wi.y) as u32,
        z: axis_grid_id(g.z, wg.z, wg_id.z, wi.z) as u32,
    }
}

/// Every per-axis position computation fits in `u32`.
pub open spec fn dim3_ids_fit(g: Dim3D<AxisRange>, wg: Dim3D<u16>, wg_id: Dim3D<u32>, wi: Dim3D<u16>) -> bool {
    &&& axis_id_fits(g.x, wg.x, wg_id.x, wi.x)
    &&& axis_id_fits(g.y, wg.y, wg_id.y, wi.y)
    &&& axis_id_fits(g.z, wg.z, wg_id.z, wi.z)
}

/// Whether a workitem lies in the rounded-up part of the launch, past the requested grid.
pub open spec fn dim3_oob(len: Dim3D<u32>, wg: Dim3D<u16>, wg_id: Dim3D<u32>, wi: Dim3D<u16>) -> bool {
    ||| axis_rel_idx(wg.x, wg_id.x, wi.x) >= len.x
    ||| axis_rel_idx(wg.y, wg_id.y, wi.y) >= len.y
    ||| axis_rel_idx(wg.z, wg_id.z, wi.z) >= len.z
}

impl Dim3D<u16> {
    /// Widen each axis to `u32`.
    pub fn as_u32(&self) -> (r: Dim3D<u32>)
        ensures r.x == self.x, r.y == self.y, r.z == self.z,
    {
        Dim3D { x: self.x as u32, y: self.y as u32, z: self.z as u32 }
    }
}

impl Dim3D<u32> {
    /// Widen each axis to `u64`.
    pub fn as_u64(&self) -> (r: Dim3D<u64>)
        ensures r.x == self.x, r.y == self.y, r.z == self.z,
    {
        Dim3D { x: self.x as u64, y: self.y as u64, z: self.z as u64 }
    }

    /// The product of the axes, or `Overflow` when it does not fit in `u32`.
    pub fn checked_linear_len(&self) -> (r: Result<u32, Error>)
        ensures
            r == checked_mul_u32(checked_mul_u32(checked_mul_u32(Ok(1u32), self.x), self.y), self.z),
            r is Ok ==> r->Ok_0 == dim3_product(*self),
            dim3_product(*self) > u32::MAX ==> r is Err,
    {
        let a = axis_checked_mul_u32(1, self.x);
        let r = match a {
            Err(e) => Err(e),
            Ok(a) => match axis_checked_mul_u32(a, self.y) {
                Err(e) => Err(e),
                Ok(b) => axis_checked_mul_u32(b, self.z),
            },
        };
        proof { lemma_checked_product3(self.x as int, self.y as int, self.z as int, u32::MAX as int); }
        r
    }

    /// The globally linear id of `self` within a grid of lengths `len`.
    pub fn glid(&self, len: Dim3D<u32>) -> (r: u32)
        requires glid3_fits(*self, len),
        ensures r == glid3(*self, len),
    {
        (self.z * len.y + self.y) * len.x + self.x
    }
}

impl Dim3D<u64> {
    /// The product of the axes, or `Overflow` when it does not fit in `u64`.
    pub fn checked_linear_len(&self) -> (r: Result<u64, Error>)
        ensures
            r == checked_mul_u64(checked_mul_u64(checked_mul_u64(Ok(1u64), self.x), self.y), self.z),
            r is Ok ==> r->Ok_0 == self.x as int * self.y as int * self.z as int,
            self.x as int * self.y as int * self.z as int > u64::MAX ==> r is Err,
    {
        let a = axis_checked_mul_u64(1, self.x);
        let r = match a {
            Err(e) => Err(e),
            Ok(a) => match axis_checked_mul_u64(a, self.y) {
                Err(e) => Err(e),
                Ok(b) => axis_checked_mul_u64(b, self.z),
            },
        };
        proof { lemma_checked_product3(self.x as int, self.y as int, self.z as int, u64::MAX as int); }
        r
    }
}

impl Dim3D<AxisRange> {
    /// The length of each axis, checked for reversed ranges and overflow.
    pub fn checked_len(&self) -> (r: Result<Dim3D<u32>, Error>)
        ensures r == dim3_checked_len(*self),
    {
        let x = match self.x.checked_len() { Ok(v) => v, Err(e) => { return Err(e); } };
        let y = match self.y.checked_len() { Ok(v) => v, Err(e) => { return Err(e); } };
        let z = match self.z.checked_len() { Ok(v) => v, Err(e) => { return Err(e); } };
        Ok(Dim3D { x, y, z })
    }

    /// The length of each axis; the grid must be well formed.
    pub fn len(&self) -> (r: Dim3D<u32>)
        requires dim3_checked_len(*self) is Ok,
        ensures r == dim3_checked_len(*self)->Ok_0,
    {
        match self.checked_len() {
            Ok(v) => v,
            Err(_) => Dim3D { x: 0, y: 0, z: 0 },
        }
    }

    /// The first index of each axis.
    pub fn start(&self) -> (r: Dim3D<u32>)
        ensures r.x == axis_start(self.x), r.y == axis_start(self.y), r.z == axis_start(self.z),
    {
        Dim3D { x: self.x.start(), y: self.y.start(), z: self.z.start() }
    }

    /// The total number of workitems requested, or `None` when an axis is malformed.
    pub fn linear_len(&self) -> (r: Option<u32>)
        requires dim3_checked_len(*self) is Ok ==> dim3_partials_fit(dim3_checked_len(*self)->Ok_0),
        ensures
            r == match dim3_checked_len(*self) {
                Ok(l) => Some(dim3_product(l) as u32),
                Err(_) => None::<u32>,
            },
    {
        let l = match self.checked_len() { Ok(l) => l, Err(_) => { return None; } };
        proof { lemma_checked_product3(l.x as int, l.y as int, l.z as int, u32::MAX as int); }
        let mut acc: u32 = 1;
        acc = acc * l.x;
        acc = acc * l.y;
        acc = acc * l.z;
        Some(acc)
    }

    /// The size of the grid handed to the device: the checked length of each axis.
    pub fn full_launch_grid(&self) -> (r: Result<Dim3D<u32>, Error>)
        ensures r == dim3_checked_len(*self),
    {
        self.checked_len()
    }

    /// The index of the first workitem of workgroup `wg_id`.
    pub fn workgroup_idx(wg_size: &Dim3D<u16>, wg_id: &Dim3D<u32>) -> (r: Dim3D<u32>)
        requires
            axis_wg_idx(wg_size.x, wg_id.x) <= u32::MAX,
            axis_wg_idx(wg_size.y, wg_id.y) <= u32::MAX,
            axis_wg_idx(wg_size.z, wg_id.z) <= u32::MAX,
        ensures
            r.x == axis_wg_idx(wg_size.x, wg_id.x),
            r.y == axis_wg_idx(wg_size.y, wg_id.y),
            r.z == axis_wg_idx(wg_size.z, wg_id.z),
    {
        proof {
            assert(0 <= wg_id.x as int * wg_size.x as int) by (nonlinear_arith);
            assert(0 <= wg_id.y as int * wg_size.y as int) by (nonlinear_arith);
            assert(0 <= wg_id.z as int * wg_size.z as int) by (nonlinear_arith);
        }
        Dim3D {
            x: wg_id.x * (wg_size.x as u32),
            y: wg_id.y * (wg_size.y as u32),
            z: wg_id.z * (wg_size.z as u32),
        }
    }

    /// The grid index of workitem `wi` of workgroup `wg_id`, including the grid's start offset.
    pub fn grid_id(&self, wg_size: &Dim3D<u16>, wg_id: &Dim3D<u32>, wi: &Dim3D<u16>) -> (r: Dim3D<u32>)
        requires dim3_ids_fit(*self, *wg_size, *wg_id, *wi),
        ensures r == dim3_grid_id(*self, *wg_size, *wg_id, *wi),
    {
        Dim3D {
            x: axis_grid_index(self.x, wg_size.x, wg_id.x, wi.x),
            y: axis_grid_index(self.y, wg_size.y, wg_id.y, wi.y),
            z: axis_grid_index(self.z, wg_size.z, wg_id.z, wi.z),
        }
    }

    /// Whether workitem `wi` of workgroup `wg_id` lies past the requested grid on some axis.
    pub fn grid_oob(&self, wg_size: &Dim3D<u16>, wg_id: &Dim3D<u32>, wi: &Dim3D<u16>) -> (r: bool)
        requires
            dim3_checked_len(*self) is Ok,
            dim3_ids_fit(*self, *wg_size, *wg_id, *wi),
        ensures r == dim3_oob(dim3_checked_len(*self)->Ok_0, *wg_size, *wg_id, *wi),
    {
        let len = self.len();
        axis_oob(self.x, len.x, wg_size.x, wg_id.x, wi.x)
            || axis_oob(self.y, len.y, wg_size.y, wg_id.y, wi.y)
            || axis_oob(self.z, len.z, wg_size.z, wg_id.z, wi.z)
    }

    /// The globally linear id of workitem `wi` of workgroup `wg_id`.
    pub fn global_linear_id(&self, wg_size: &Dim3D<u16>, wg_id: &Dim3D<u32>, wi: &Dim3D<u16>) -> (r: u32)
        requires
            dim3_checked_len(*self) is Ok,
            dim3_ids_fit(*self, *wg_size, *wg_id, *wi),
            glid3_fits(dim3_grid_id(*self, *wg_size, *wg_id, *wi), dim3_checked_len(*self)->Ok_0),
        ensures r == glid3(dim3_grid_id(*self, *wg_size, *wg_id, *wi), dim3_checked_len(*self)->Ok_0),
    {
        let id = self.grid_id(wg_size, wg_id, wi);
        id.glid(self.len())
    }
}

// ---------------------------------------------------------------------------
// One and two dimensions

/// The checked length of a one dimensional grid.
pub open spec fn dim1_checked_len(g: Dim1D<AxisRange>) -> Result<Dim1D<u32>, Error> {
    match axis_checked_len(g.x) {
        Err(e) => Err(e),
        Ok(x) => Ok(Dim1D { x }),
    }
}

/// The checked length of a two dimensional grid, reporting the first failing axis.
pub open spec fn dim2_checked_len(g: Dim2D<AxisRange>) -> Result<Dim2D<u32>, Error> {
    match axis_checked_len(g.x) {
        Err(e) => Err(e),
        Ok(x) => match axis_checked_len(g.y) {
            Err(e) => Err(e),
            Ok(y) => Ok(Dim2D { x, y }),
        },
    }
}

/// The globally linear id of a two dimensional index: `y * len.x + x`.
pub open spec fn glid2(id: Dim2D<u32>, len: Dim2D<u32>) -> int {
    id.y as int * len.x as int + id.x as int
}

/// Each intermediate value of the two dimensional globally linear id fits in `u32`.
pub open spec fn glid2_fits(id: Dim2D<u32>, len: Dim2D<u32>) -> bool {
    &&& id.y as int * len.x as int <= u32::MAX
    &&& glid2(id, len) <= u32::MAX
}

impl Dim2D<u32> {
    /// The globally linear id of `self` within a grid of lengths `len`.
    pub fn glid(&self, len: Dim2D<u32>) -> (r: u32)
        requires glid2_fits(*self, len),
        ensures r == glid2(*self, len),
    {
        self.y * len.x + self.x
    }
}

impl Dim1D<u32> {
    /// The globally linear id of a one dimensional index is the index itself.
    pub fn glid(&self, len: Dim1D<u32>) -> (r: u32)
        ensures r == self.x,
    {
        self.x
    }
}

impl Dim1D<AxisRange> {
    /// The checked length of the axis.
    pub fn checked_len(&self) -> (r: Result<Dim1D<u32>, Error>)
        ensures r == dim1_checked_len(*self),
    {
        match self.x.checked_len() { Ok(x) => Ok(Dim1D { x }), Err(e) => Err(e) }
    }

    /// The length of the axis; the grid must be well formed.
    pub fn len(&self) -> (r: Dim1D<u32>)
        requires dim1_checked_len(*self) is Ok,
        ensures r == dim1_checked_len(*self)->Ok_0,
    {
        match self.checked_len() { Ok(v) => v, Err(_) => Dim1D { x: 0 } }
    }

    /// The first index of the axis.
    pub fn start(&self) -> (r: Dim1D<u32>)
        ensures r.x == axis_start(self.x),
    {
        Dim1D { x: self.x.start() }
    }

    /// The total number of workitems requested, or `None` when the axis is malformed.
    pub fn linear_len(&self) -> (r: Option<u32>)
        ensures
            r == match dim1_checked_len(*self) {
                Ok(l) => Some(l.x),
                Err(_) => None::<u32>,
            },
    {
        match self.checked_len() { Ok(l) => Some(l.x), Err(_) => None }
    }

    /// The size of the grid handed to the device; the other axes have length one.
    pub fn full_launch_grid(&self) -> (r: Result<Dim3D<u32>, Error>)
        ensures
            r == match dim1_checked_len(*self) {
                Ok(l) => Ok(Dim3D { x: l.x, y: 1u32, z: 1u32 }),
                Err(e) => Err(e),
            },
    {
        match self.checked_len() {
            Ok(l) => Ok(Dim3D { x: l.x, y: 1, z: 1 }),
            Err(e) => Err(e),
        }
    }

    /// The index of the first workitem of workgroup `wg_id`.
    pub fn workgroup_idx(wg_size: &Dim1D<u16>, wg_id: &Dim1D<u32>) -> (r: Dim1D<u32>)
        requires axis_wg_idx(wg_size.x, wg_id.x) <= u32::MAX,
        ensures r.x == axis_wg_idx(wg_size.x, wg_id.x),
    {
        proof { assert(0 <= wg_id.x as int * wg_size.x as int) by (nonlinear_arith); }
        Dim1D { x: wg_id.x * (wg_size.x as u32) }
    }

    /// The grid index of workitem `wi` of workgroup `wg_id`, including the start offset.
    pub fn grid_id(&self, wg_size: &Dim1D<u16>, wg_id: &Dim1D<u32>, wi: &Dim1D<u16>) -> (r: Dim1D<u32>)
        requires axis_id_fits(self.x, wg_size.x, wg_id.x, wi.x),
        ensures r.x == axis_grid_id(self.x, wg_size.x, wg_id.x, wi.x),
    {
        Dim1D { x: axis_grid_index(self.x, wg_size.x, wg_id.x, wi.x) }
    }

    /// Whether workitem `wi` of workgroup `wg_id` lies past the requested grid.
    pub fn grid_oob(&self, wg_size: &Dim1D<u16>, wg_id: &Dim1D<u32>, wi: &Dim1D<u16>) -> (r: bool)
        requires
            dim1_checked_len(*self) is Ok,
            axis_id_fits(self.x, wg_size.x, wg_id.x, wi.x),
        ensures r == (axis_rel_idx(wg_size.x, wg_id.x, wi.x) >= dim1_checked_len(*self)->Ok_0.x),
    {
        let len = self.len();
        axis_oob(self.x, len.x, wg_size.x, wg_id.x, wi.x)
    }

    /// The globally linear id of workitem `wi` of workgroup `wg_id`: its grid index.
    pub fn global_linear_id(&self, wg_size: &Dim1D<u16>, wg_id: &Dim1D<u32>, wi: &Dim1D<u16>) -> (r: u32)
        requires axis_id_fits(self.x, wg_size.x, wg_id.x, wi.x),
        ensures r == axis_grid_id(self.x, wg_size.x, wg_id.x, wi.x),
    {
        self.grid_id(wg_size, wg_id, wi).x
    }
}

impl Dim2D<AxisRange> {
    /// The checked length of each axis, reporting the first failing axis.
    pub fn checked_len(&self) -> (r: Result<Dim2D<u32>, Error>)
        ensures r == dim2_checked_len(*self),
    {
        let x = match self.x.checked_len() { Ok(v) => v, Err(e) => { return Err(e); } };
        let y = match self.y.checked_len() { Ok(v) => v, Err(e) => { return Err(e); } };
        Ok(Dim2D { x, y })
    }

    /// The length of each axis; the grid must be well formed.
    pub fn len(&self) -> (r: Dim2D<u32>)
        requires dim2_checked_len(*self) is Ok,
        ensures r == dim2_checked_len(*self)->Ok_0,
    {
        match self.checked_len() { Ok(v) => v, Err(_) => Dim2D { x: 0, y: 0 } }
    }

    /// The first index of each axis.
    pub fn start(&self) -> (r: Dim2D<u32>)
        ensures r.x == axis_start(self.x), r.y == axis_start(self.y),
    {
        Dim2D { x: self.x.start(), y: self.y.start() }
    }

    /// The total number of workitems requested, or `None` when an axis is malformed.
    pub fn linear_len(&self) -> (r: Option<u32>)
        requires
            dim2_checked_len(*self) is Ok ==>
                dim2_checked_len(*self)->Ok_0.x as int * dim2_checked_len(*self)->Ok_0.y as int <= u32::MAX,
        ensures
            r == match dim2_checked_len(*self) {
                Ok(l) => Some((l.x as int * l.y as int) as u32),
                Err(_) => None::<u32>,
            },
    {
        let l = match self.checked_len() { Ok(l) => l, Err(_) => { return None; } };
        let mut acc: u32 = 1;
        acc = acc * l.x;
        acc = acc * l.y;
        Some(acc)
    }

    /// The size of the grid handed to the device; the z axis has length one.
    pub fn full_launch_grid(&self) -> (r: Result<Dim3D<u32>, Error>)
        ensures
            r == match dim2_checked_len(*self) {
                Ok(l) => Ok(Dim3D { x: l.x, y: l.y, z: 1u32 }),
                Err(e) => Err(e),
            },
    {
        match self.checked_len() {
            Ok(l) => Ok(Dim3D { x: l.x, y: l.y, z: 1 }),
            Err(e) => Err(e),
        }
    }

    /// The index of the first workitem of workgroup `wg_id`.
    pub fn workgroup_idx(wg_size: &Dim2D<u16>, wg_id: &Dim2D<u32>) -> (r: Dim2D<u32>)
        requires
            axis_wg_idx(wg_size.x, wg_id.x) <= u32::MAX,
            axis_wg_idx(wg_size.y, wg_id.y) <= u32::MAX,
        ensures
            r.x == axis_wg_idx(wg_size.x, wg_id.x),
            r.y == axis_wg_idx(wg_size.y, wg_id.y),
    {
        proof {
            assert(0 <= wg_id.x as int * wg_size.x as int) by (nonlinear_arith);
            assert(0 <= wg_id.y as int * wg_size.y as int) by (nonlinear_arith);
        }
        Dim2D { x: wg_id.x * (wg_size.x as u32), y: wg_id.y * (wg_size.y as u32) }
    }

    /// The grid index of workitem `wi` of workgroup `wg_id`, including the start offset.
    pub fn grid_id(&self, wg_size: &Dim2D<u16>, wg_id: &Dim2D<u32>, wi: &Dim2D<u16>) -> (r: Dim2D<u32>)
        requires
            axis_id_fits(self.x, wg_size.x, wg_id.x, wi.x),
            axis_id_fits(self.y, wg_size.y, wg_id.y, wi.y),
        ensures
            r.x == axis_grid_id(self.x, wg_size.x, wg_id.x, wi.x),
            r.y == axis_grid_id(self.y, wg_size.y, wg_id.y, wi.y),
    {
        Dim2D {
            x: axis_grid_index(self.x, wg_size.x, wg_id.x, wi.x),
            y: axis_grid_index(self.y, wg_size.y, wg_id.y, wi.y),
        }
    }

    /// Whether workitem `wi` of workgroup `wg_id` lies past the requested grid on some axis.
    pub fn grid_oob(&self, wg_size: &Dim2D<u16>, wg_id: &Dim2D<u32>, wi: &Dim2D<u16>) -> (r: bool)
        requires
            dim2_checked_len(*self) is Ok,
            axis_id_fits(self.x, wg_size.x, wg_id.x, wi.x),
            axis_id_fits(self.y, wg_size.y, wg_id.y, wi.y),
        ensures
            r == (axis_rel_idx(wg_size.x, wg_id.x, wi.x) >= dim2_checked_len(*self)->Ok_0.x
                || axis_rel_idx(wg_size.y, wg_id.y, wi.y) >= dim2_checked_len(*self)->Ok_0.y),
    {
        let len = self.len();
        axis_oob(self.x, len.x, wg_size.x, wg_id.x, wi.x)
            || axis_oob(self.y, len.y, wg_size.y, wg_id.y, wi.y)
    }

    /// The globally linear id of workitem `wi` of workgroup `wg_id`.
    pub fn global_linear_id(&self, wg_size: &Dim2D<u16>, wg_id: &Dim2D<u32>, wi: &Dim2D<u16>) -> (r: u32)
        requires
            dim2_checked_len(*self) is Ok,
            axis_id_fits(self.x, wg_size.x, wg_id.x, wi.x),
            axis_id_fits(self.y, wg_size.y, wg_id.y, wi.y),
            glid2_fits(
                Dim2D {
                    x: axis_grid_id(self.x, wg_size.x, wg_id.x, wi.x) as u32,
                    y: axis_grid_id(self.y, wg_size.y, wg_id.y, wi.y) as u32,
                },
                dim2_checked_len(*self)->Ok_0),
        ensures
            r == glid2(
                Dim2D {
                    x: axis_grid_id(self.x, wg_size.x, wg_id.x, wi.x) as u32,
                    y: axis_grid_id(self.y, wg_size.y, wg_id.y, wi.y) as u32,
                },
                dim2_checked_len(*self)->Ok_0),
    {
        let id = self.grid_id(wg_size, wg_id, wi);
        id.glid(self.len())
    }
}

// ---------------------------------------------------------------------------
// Workgroups, conversions and per-workitem parameters

impl Dim1D<u16> {
    /// The workgroup size handed to the device; the other axes have length one.
    pub fn workgroup_launch_grid(&self) -> (r: Dim3D<u16>)
        ensures r == (Dim3D { x: self.x, y: 1u16, z: 1u16 }),
    {
        Dim3D { x: self.x, y: 1, z: 1 }
    }
}

impl Dim2D<u16> {
    /// The workgroup size handed to the device; the z axis has length one.
    pub fn workgroup_launch_grid(&self) -> (r: Dim3D<u16>)
        ensures r == (Dim3D { x: self.x, y: self.y, z: 1u16 }),
    {
        Dim3D { x: self.x, y: self.y, z: 1 }
    }
}

impl Dim3D<u16> {
    /// The workgroup size handed to the device.
    pub fn workgroup_launch_grid(&self) -> (r: Dim3D<u16>)
        ensures r == *self,
    {
        *self
    }
}

impl Dim1D<u32> {
    /// A three dimensional value whose other axes are one.
    pub fn into_3d(&self) -> (r: Dim3D<u32>)
        ensures r == (Dim3D { x: self.x, y: 1u32, z: 1u32 }),
    {
        Dim3D { x: self.x, y: 1, z: 1 }
    }
}

impl Dim2D<u32> {
    /// A three dimensional value whose z axis is one.
    pub fn into_3d(&self) -> (r: Dim3D<u32>)
        ensures r == (Dim3D { x: self.x, y: self.y, z: 1u32 }),
    {
        Dim3D { x: self.x, y: self.y, z: 1 }
    }
}

impl<T: Copy> Dim3D<T> {
    /// The same value on every axis.
    pub fn splat(v: T) -> (r: Dim3D<T>)
        ensures r == (Dim3D { x: v, y: v, z: v }),
    {
        Dim3D { x: v, y: v, z: v }
    }
}

impl<T: Copy> Dim2D<T> {
    /// The same value on every axis.
    pub fn splat(v: T) -> (r: Dim2D<T>)
        ensures r == (Dim2D { x: v, y: v }),
    {
        Dim2D { x: v, y: v }
    }
}

/// The ids a kernel sees in one workitem: its workitem id within the workgroup,
/// the workgroup id, the first index of the workgroup, the grid, the grid index
/// and the globally linear id.
pub struct VectorParams<G, I, W> {
    wi: W,
    wg_id: I,
    wg_idx: I,
    grid_size: G,
    grid_id: I,
    gid: u32,
}

impl<G, I, W> VectorParams<G, I, W> {
    /// The workitem id within its workgroup.
    pub closed spec fn wi_spec(&self) -> W { self.wi }
    /// The workgroup id.
    pub closed spec fn wg_id_spec(&self) -> I { self.wg_id }
    /// The grid index of the workgroup's first workitem.
    pub closed spec fn wg_idx_spec(&self) -> I { self.wg_idx }
    /// The requested grid.
    pub closed spec fn grid_size_spec(&self) -> G { self.grid_size }
    /// The grid index of the workitem.
    pub closed spec fn grid_id_spec(&self) -> I { self.grid_id }
    /// The globally linear id of the workitem.
    pub closed spec fn gl_id_spec(&self) -> u32 { self.gid }

    /// The workitem id within its workgroup.
    pub fn wi(&self) -> (r: &W)
        ensures *r == self.wi_spec(),
    {
        &self.wi
    }
    /// The workgroup id.
    pub fn wg_id(&self) -> (r: &I)
        ensures *r == self.wg_id_spec(),
    {
        &self.wg_id
    }
    /// The grid index of the workgroup's first workitem.
    pub fn wg_idx(&self) -> (r: &I)
        ensures *r == self.wg_idx_spec(),
    {
        &self.wg_idx
    }
    /// The requested grid.
    pub fn grid_size(&self) -> (r: &G)
        ensures *r == self.grid_size_spec(),
    {
        &self.grid_size
    }
    /// The grid index of the workitem.
    pub fn grid_id(&self) -> (r: &I)
        ensures *r == self.grid_id_spec(),
    {
        &self.grid_id
    }
    /// Globally linear id.
    pub fn gl_id(&self) -> (r: &u32)
        ensures *r == self.gl_id_spec(),
    {
        &self.gid
    }
}

impl VectorParams<Dim3D<AxisRange>, Dim3D<u32>, Dim3D<u16>> {
    /// The parameters of workitem `wi` of workgroup `wg_id`, or `None` when that
    /// workitem lies in the rounded-up part of the launch.
    pub fn new(grid: &Dim3D<AxisRange>, wg_size: &Dim3D<u16>, wg_id: Dim3D<u32>, wi: Dim3D<u16>)
        -> (r: Option<Self>)
        requires
            dim3_checked_len(*grid) is Ok,
            dim3_ids_fit(*grid, *wg_size, wg_id, wi),
            !dim3_oob(dim3_checked_len(*grid)->Ok_0, *wg_size, wg_id, wi) ==>
                glid3_fits(dim3_grid_id(*grid, *wg_size, wg_id, wi), dim3_checked_len(*grid)->Ok_0),
        ensures
            r is None <==> dim3_oob(dim3_checked_len(*grid)->Ok_0, *wg_size, wg_id, wi),
            r matches Some(vp) ==> {
                &&& vp.wi_spec() == wi
                &&& vp.wg_id_spec() == wg_id
                &&& vp.wg_idx_spec().x == axis_wg_idx(wg_size.x, wg_id.x)
                &&& vp.wg_idx_spec().y == axis_wg_idx(wg_size.y, wg_id.y)
                &&& vp.wg_idx_spec().z == axis_wg_idx(wg_size.z, wg_id.z)
                &&& vp.grid_size_spec() == *grid
                &&& vp.grid_id_spec() == dim3_grid_id(*grid, *wg_size, wg_id, wi)
                &&& vp.gl_id_spec() == glid3(dim3_grid_id(*grid, *wg_size, wg_id, wi), dim3_checked_len(*grid)->Ok_0)
            },
    {
        if grid.grid_oob(wg_size, &wg_id, &wi) {
            return None;
        }
        Some(VectorParams {
            gid: grid.global_linear_id(wg_size, &wg_id, &wi),
            wg_idx: Dim3D::<AxisRange>::workgroup_idx(wg_size, &wg_id),
            grid_id: grid.grid_id(wg_size, &wg_id, &wi),
            grid_size: *grid,
            wi,
            wg_id,
        })
    }
}

impl VectorParams<Dim2D<AxisRange>, Dim2D<u32>, Dim2D<u16>> {
    /// The parameters of workitem `wi` of workgroup `wg_id`, or `None` when that
    /// workitem lies in the rounded-up part of the launch.
    pub fn new(grid: &Dim2D<AxisRange>, wg_size: &Dim2D<u16>, wg_id: Dim2D<u32>, wi: Dim2D<u16>)
        -> (r: Option<Self>)
        requires
            dim2_checked_len(*grid) is Ok,
            axis_id_fits(grid.x, wg_size.x, wg_id.x, wi.x),
            axis_id_fits(grid.y, wg_size.y, wg_id.y, wi.y),
            !(axis_rel_idx(wg_size.x, wg_id.x, wi.x) >= dim2_checked_len(*grid)->Ok_0.x
                || axis_rel_idx(wg_size.y, wg_id.y, wi.y) >= dim2_checked_len(*grid)->Ok_0.y) ==>
                glid2_fits(
                    Dim2D {
                        x: axis_grid_id(grid.x, wg_size.x, wg_id.x, wi.x) as u32,
                        y: axis_grid_id(grid.y, wg_size.y, wg_id.y, wi.y) as u32,
                    },
                    dim2_checked_len(*grid)->Ok_0),
        ensures
            r is None <==> (axis_rel_idx(wg_size.x, wg_id.x, wi.x) >= dim2_checked_len(*grid)->Ok_0.x
                || axis_rel_idx(wg_size.y, wg_id.y, wi.y) >= dim2_checked_len(*grid)->Ok_0.y),
            r matches Some(vp) ==> {
                &&& vp.wi_spec() == wi
                &&& vp.wg_id_spec() == wg_id
                &&& vp.wg_idx_spec().x == axis_wg_idx(wg_size.x, wg_id.x)
                &&& vp.wg_idx_spec().y == axis_wg_idx(wg_size.y, wg_id.y)
                &&& vp.grid_size_spec() == *grid
                &&& vp.grid_id_spec().x == axis_grid_id(grid.x, wg_size.x, wg_id.x, wi.x)
                &&& vp.grid_id_spec().y == axis_grid_id(grid.y, wg_size.y, wg_id.y, wi.y)
                &&& vp.gl_id_spec() == glid2(vp.grid_id_spec(), dim2_checked_len(*grid)->Ok_0)
            },
    {
        if grid.grid_oob(wg_size, &wg_id, &wi) {
            return None;
        }
        Some(VectorParams {
            gid: grid.global_linear_id(wg_size, &wg_id, &wi),
            wg_idx: Dim2D::<AxisRange>::workgroup_idx(wg_size, &wg_id),
            grid_id: grid.grid_id(wg_size, &wg_id, &wi),
            grid_size: *grid,
            wi,
            wg_id,
        })
    }
}

impl VectorParams<Dim1D<AxisRange>, Dim1D<u32>, Dim1D<u16>> {
    /// The parameters of workitem `wi` of workgroup `wg_id`, or `None` when that
    /// workitem lies in the rounded-up part of the launch.
    pub fn new(grid: &Dim1D<AxisRange>, wg_size: &Dim1D<u16>, wg_id: Dim1D<u32>, wi: Dim1D<u16>)
        -> (r: Option<Self>)
        requires
            dim1_checked_len(*grid) is Ok,
            axis_id_fits(grid.x, wg_size.x, wg_id.x, wi.x),
        ensures
            r is None <==> axis_rel_idx(wg_size.x, wg_id.x, wi.x) >= dim1_checked_len(*grid)->Ok_0.x,
            r matches Some(vp) ==> {
                &&& vp.wi_spec() == wi
                &&& vp.wg_id_spec() == wg_id
                &&& vp.wg_idx_spec().x == axis_wg_idx(wg_size.x, wg_id.x)
                &&& vp.grid_size_spec() == *grid
                &&& vp.grid_id_spec().x == axis_grid_id(grid.x, wg_size.x, wg_id.x, wi.x)
                &&& vp.gl_id_spec() == axis_grid_id(grid.x, wg_size.x, wg_id.x, wi.x)
            },
    {
        if grid.grid_oob(wg_size, &wg_id, &wi) {
            return None;
        }
        Some(VectorParams {
            gid: grid.global_linear_id(wg_size, &wg_id, &wi),
            wg_idx: Dim1D::<AxisRange>::workgroup_idx(wg_size, &wg_id),
            grid_id: grid.grid_id(wg_size, &wg_id, &wi),
            grid_size: *grid,
            wi,
            wg_id,
        })
    }
}

/// A product of three naturals exceeds a bound exactly when the first partial
/// product that exceeds it does, so a left-to-right checked product fails exactly
/// when the whole product is too large.
proof fn lemma_checked_product3(x: int, y: int, z: int, m: int)
    requires x >= 0, y >= 0, z >= 0, m >= 0,
    ensures
        (x * y > m && z >= 1) ==> x * y * z > m,
        x * y * z <= m ==> (x * y <= m || z == 0),
        x > m && y >= 1 ==> x * y > m,
        x * y >= 0, x * y * z >= 0,
{
    assert((x * y > m && z >= 1) ==> x * y * z > m) by (nonlinear_arith)
        requires x >= 0, y >= 0, z >= 0, m >= 0;
    assert(x > m && y >= 1 ==> x * y > m) by (nonlinear_arith)
        requires x >= 0, y >= 0, m >= 0;
    assert(x * y >= 0 && x * y * z >= 0) by (nonlinear_arith)
        requires x >= 0, y >= 0, z >= 0;
}


/// Whether `id` lies in a grid of lengths `len`.
pub open spec fn in_lengths3(id: Dim3D<u32>, len: Dim3D<u32>) -> bool {
    id.x < len.x && id.y < len.y && id.z < len.z
}

/// Law: the globally linear id ranks the grid's indices row by row with `x`
/// varying fastest, then `y`, then `z`: the first index has id 0, every index has an
/// id below the grid's size, and the next index along that order (the next `x`;
/// at the end of a row the first `x` of the next `y`; at the end of a plane the
/// first index of the next `z`) has the next id.
pub proof fn law_glid3_rank(id: Dim3D<u32>, len: Dim3D<u32>)
    requires in_lengths3(id, len),
    ensures
        glid3(Dim3D { x: 0u32, y: 0u32, z: 0u32 }, len) == 0,
        0 <= glid3(id, len) < len.x as int * len.y as int * len.z as int,
        id.x + 1 < len.x ==>
            glid3(Dim3D { x: (id.x + 1) as u32, y: id.y, z: id.z }, len) == glid3(id, len) + 1,
        id.x + 1 == len.x && id.y + 1 < len.y ==>
            glid3(Dim3D { x: 0u32, y: (id.y + 1) as u32, z: id.z }, len) == glid3(id, len) + 1,
        id.x + 1 == len.x && id.y + 1 == len.y && id.z + 1 < len.z ==>
            glid3(Dim3D { x: 0u32, y: 0u32, z: (id.z + 1) as u32 }, len) == glid3(id, len) + 1,
{
    let (x, y, z) = (id.x as int, id.y as int, id.z as int);
    let (lx, ly, lz) = (len.x as int, len.y as int, len.z as int);
    assert((0 * ly + 0) * lx + 0 == 0) by (nonlinear_arith);
    assert(0 <= (z * ly + y) * lx + x < lx * ly * lz) by (nonlinear_arith)
        requires 0 <= x < lx, 0 <= y < ly, 0 <= z < lz;
    assert((z * ly + (y + 1)) * lx == (z * ly + y) * lx + lx) by (nonlinear_arith);
    assert(((z + 1) * ly + 0) * lx == (z * ly + (ly - 1)) * lx + lx) by (nonlinear_arith);
}

/// Law: no two indices of a grid share a globally linear id.
pub proof fn law_glid3_injective(a: Dim3D<u32>, b: Dim3D<u32>, len: Dim3D<u32>)
    requires in_lengths3(a, len), in_lengths3(b, len), glid3(a, len) == glid3(b, len),
    ensures a == b,
{
    let (lx, ly) = (len.x as int, len.y as int);
    let g = glid3(a, len);
    let ra = a.z as int * ly + a.y as int;
    let rb = b.z as int * ly + b.y as int;
    lemma_fundamental_div_mod_converse(g, lx, ra, a.x as int);
    lemma_fundamental_div_mod_converse(g, lx, rb, b.x as int);
    lemma_fundamental_div_mod_converse(ra, ly, a.z as int, a.y as int);
    lemma_fundamental_div_mod_converse(rb, ly, b.z as int, b.y as int);
}

/// Law: in two dimensions the globally linear id ranks the indices row by row
/// with `x` varying fastest: the first index has id 0, every index has an id below
/// the grid's size, the next `x` has the next id, and at the end of a row the
/// first `x` of the next row does.
pub proof fn law_glid2_rank(id: Dim2D<u32>, len: Dim2D<u32>)
    requires id.x < len.x, id.y < len.y,
    ensures
        glid2(Dim2D { x: 0u32, y: 0u32 }, len) == 0,
        0 <= glid2(id, len) < len.x as int * len.y as int,
        id.x + 1 < len.x ==> glid2(Dim2D { x: (id.x + 1) as u32, y: id.y }, len) == glid2(id, len) + 1,
        id.x + 1 == len.x && id.y + 1 < len.y ==>
            glid2(Dim2D { x: 0u32, y: (id.y + 1) as u32 }, len) == glid2(id, len) + 1,
{
    let (x, y) = (id.x as int, id.y as int);
    let (lx, ly) = (len.x as int, len.y as int);
    assert(0 * lx + 0 == 0) by (nonlinear_arith);
    assert(0 <= y * lx + x < lx * ly) by (nonlinear_arith) requires 0 <= x < lx, 0 <= y < ly;
    assert((y + 1) * lx == y * lx + lx) by (nonlinear_arith);
}

/// Law: no two indices of a two dimensional grid share a globally linear id.
pub proof fn law_glid2_injective(a: Dim2D<u32>, b: Dim2D<u32>, len: Dim2D<u32>)
    requires a.x < len.x, a.y < len.y, b.x < len.x, b.y < len.y, glid2(a, len) == glid2(b, len),
    ensures a == b,
{
    let g = glid2(a, len);
    lemma_fundamental_div_mod_converse(g, len.x as int, a.y as int, a.x as int);
    lemma_fundamental_div_mod_converse(g, len.x as int, b.y as int, b.x as int);
}

} // verus!
