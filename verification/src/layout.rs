//! The packing algorithm of the grid.
//!
//! Children are walked in flat index order, `count` to a line. Each child is
//! placed at the current (major, minor) position; when it completes a line the
//! major position advances by the child's major extent plus the major spacing
//! and the minor position resets, otherwise the minor position advances by the
//! child's minor extent plus the minor spacing. No overshoot correction is
//! applied when the items of one line differ in size: lines of unequal items
//! drift, which is accepted because wrap mode assumes equally sized items.

use vstd::arithmetic::div_mod::lemma_fundamental_div_mod;
use vstd::arithmetic::div_mod::lemma_fundamental_div_mod_converse;
use vstd::arithmetic::mul::lemma_mul_inequality;
use vstd::prelude::*;

use crate::geometry::Axis;
use crate::geometry::BoxConstraints;
use crate::geometry::Insets;
use crate::geometry::Point;
use crate::geometry::Rect;
use crate::geometry::Size;
use crate::geometry::sat_add;
use crate::geometry::sat_add_u64;
use crate::geometry::spec_overflow_insets;

verus! {

/// The number of items found on the minor axis of the grid.
#[derive(Clone, Copy, PartialEq, Eq, Structural, Debug)]
pub enum MinorAxisCount {
    /// The grid determines how many items fit on the minor axis from one
    /// measured child. Wrap assumes the grid items are equal in size.
    Wrap,
    /// A caller-specified number of items on the minor axis. The grid may
    /// overflow the container when the items of one line together measure
    /// wider than it.
    Count(u64),
}

/// A configured count must be at least one: a line holds at least one item.
pub open spec fn count_wf(c: MinorAxisCount) -> bool {
    match c {
        MinorAxisCount::Wrap => true,
        MinorAxisCount::Count(n) => n >= 1,
    }
}

/// The number of items per line in wrap mode, from one measured child.
///
/// With no probe (an empty pool or an empty collection) or with a probe whose
/// minor extent is zero, the count degenerates to one rather than dividing by
/// zero; a quotient of zero (a probe wider than the container) is likewise
/// lifted to one so that a line always holds an item.
pub open spec fn spec_wrap_count(axis: Axis, bc: BoxConstraints, probe: Option<Size>) -> u64 {
    match probe {
        Option::None => 1,
        Option::Some(sz) => {
            if axis.spec_minor(sz) == 0 {
                1
            } else {
                let n = axis.spec_minor(bc.max) / axis.spec_minor(sz);
                if n == 0 {
                    1
                } else {
                    n
                }
            }
        },
    }
}

/// Computes how many items fit on the minor axis before the grid wraps, given
/// the size one probe child measured to, if any.
pub fn wrap_count(axis: Axis, bc: &BoxConstraints, probe: Option<Size>) -> (n: u64)
    ensures
        n == spec_wrap_count(axis, *bc, probe),
        n >= 1,
        probe matches Option::Some(sz) && sz.spec_is_zero() ==> n == 1,
{
    match probe {
        Option::None => 1,
        Option::Some(sz) => {
            let extent = axis.minor(sz);
            if extent == 0 {
                1
            } else {
                let n = axis.minor(bc.max) / extent;
                if n == 0 {
                    1
                } else {
                    n
                }
            }
        },
    }
}

/// The constraints a child is laid out with: those of the container with new
/// values on the major axis.
pub open spec fn spec_constraints(axis: Axis, bc: BoxConstraints, min_major: u64, major: u64) -> BoxConstraints {
    match axis {
        Axis::Horizontal => BoxConstraints {
            min: Size { width: min_major, height: bc.min.height },
            max: Size { width: major, height: bc.max.height },
        },
        Axis::Vertical => BoxConstraints {
            min: Size { width: bc.min.width, height: min_major },
            max: Size { width: bc.max.width, height: major },
        },
    }
}

/// Generates constraints with new values on the major axis.
pub fn constraints(axis: Axis, bc: &BoxConstraints, min_major: u64, major: u64) -> (child_bc: BoxConstraints)
    ensures
        child_bc == spec_constraints(axis, *bc, min_major, major),
{
    match axis {
        Axis::Horizontal => BoxConstraints {
            min: Size { width: min_major, height: bc.min.height },
            max: Size { width: major, height: bc.max.height },
        },
        Axis::Vertical => BoxConstraints {
            min: Size { width: bc.min.width, height: min_major },
            max: Size { width: bc.max.width, height: major },
        },
    }
}

/// The (major, minor) position of the item at flat index `i`, by the
/// advancement recurrence: the item that completes a line advances the major
/// position and resets the minor one; any other item advances the minor
/// position. Both positions saturate at the machine range.
pub open spec fn spec_origin(
    sizes: Seq<Size>,
    axis: Axis,
    major_spacing: u64,
    minor_spacing: u64,
    count: u64,
    i: int,
) -> (int, int)
    decreases i,
{
    if i <= 0 {
        (0, 0)
    } else {
        let prev = spec_origin(sizes, axis, major_spacing, minor_spacing, count, i - 1);
        let sz = sizes[i - 1];
        if i % (count as int) == 0 {
            (sat_add(prev.0, axis.spec_major(sz) + major_spacing), 0)
        } else {
            (prev.0, sat_add(prev.1, axis.spec_minor(sz) + minor_spacing))
        }
    }
}

/// Both components of [`spec_origin`] stay within the machine range.
pub proof fn lemma_origin_bounded(
    sizes: Seq<Size>,
    axis: Axis,
    major_spacing: u64,
    minor_spacing: u64,
    count: u64,
    i: int,
)
    ensures
        0 <= spec_origin(sizes, axis, major_spacing, minor_spacing, count, i).0 <= u64::MAX,
        0 <= spec_origin(sizes, axis, major_spacing, minor_spacing, count, i).1 <= u64::MAX,
    decreases i,
{
    if i > 0 {
        lemma_origin_bounded(sizes, axis, major_spacing, minor_spacing, count, i - 1);
    }
}

/// The major position of [`spec_origin`] never decreases as the flat index
/// grows: later lines never stand before earlier ones.
pub proof fn lemma_major_position_monotone(
    sizes: Seq<Size>,
    axis: Axis,
    major_spacing: u64,
    minor_spacing: u64,
    count: u64,
    i: int,
    j: int,
)
    requires
        0 <= i <= j,
    ensures
        spec_origin(sizes, axis, major_spacing, minor_spacing, count, i).0
            <= spec_origin(sizes, axis, major_spacing, minor_spacing, count, j).0,
    decreases j - i,
{
    if i < j {
        lemma_major_position_monotone(sizes, axis, major_spacing, minor_spacing, count, i, j - 1);
        lemma_origin_bounded(sizes, axis, major_spacing, minor_spacing, count, j - 1);
    }
}

/// Computes the origin of every child from the sizes the children measured
/// to, walking them `count` to a line.
pub fn grid_origins(
    sizes: &Vec<Size>,
    axis: Axis,
    major_spacing: u64,
    minor_spacing: u64,
    count: u64,
) -> (origins: Vec<Point>)
    requires
        count >= 1,
    ensures
        origins@.len() == sizes@.len(),
        forall|i: int|
            0 <= i < sizes@.len() ==> origins@[i] == axis.spec_pack(
                spec_origin(sizes@, axis, major_spacing, minor_spacing, count, i).0 as u64,
                spec_origin(sizes@, axis, major_spacing, minor_spacing, count, i).1 as u64,
            ),
{
    let mut origins: Vec<Point> = Vec::new();
    let mut major_pos: u64 = 0;
    let mut minor_pos: u64 = 0;
    let mut idx: usize = 0;
    while idx < sizes.len()
        invariant
            count >= 1,
            idx <= sizes@.len(),
            origins@.len() == idx,
            major_pos == spec_origin(sizes@, axis, major_spacing, minor_spacing, count, idx as int).0,
            minor_pos == spec_origin(sizes@, axis, major_spacing, minor_spacing, count, idx as int).1,
            forall|i: int|
                0 <= i < idx ==> origins@[i] == axis.spec_pack(
                    spec_origin(sizes@, axis, major_spacing, minor_spacing, count, i).0 as u64,
                    spec_origin(sizes@, axis, major_spacing, minor_spacing, count, i).1 as u64,
                ),
        decreases sizes@.len() - idx,
    {
        origins.push(axis.pack(major_pos, minor_pos));
        let sz = sizes[idx];
        if ((idx as u64) + 1) % count == 0 {
            major_pos = sat_add_u64(sat_add_u64(major_pos, axis.major(sz)), major_spacing);
            minor_pos = 0;
        } else {
            minor_pos = sat_add_u64(sat_add_u64(minor_pos, axis.minor(sz)), minor_spacing);
        }
        idx += 1;
    }
    origins
}

/// The union of the rectangles the children cover, child by child: the
/// bounding rectangle of the first `i` placed children.
pub open spec fn spec_bounding_rect(origins: Seq<Point>, sizes: Seq<Size>, i: int) -> Rect
    decreases i,
{
    if i <= 0 {
        Rect { x0: 0, y0: 0, x1: 0, y1: 0 }
    } else {
        spec_bounding_rect(origins, sizes, i - 1).spec_union(
            Rect::spec_from_origin_size(origins[i - 1], sizes[i - 1]),
        )
    }
}

/// Accumulates the bounding rectangle of all placed children, starting from
/// the empty rectangle at the origin.
pub fn bounding_rect(origins: &Vec<Point>, sizes: &Vec<Size>) -> (r: Rect)
    requires
        origins@.len() == sizes@.len(),
    ensures
        r == spec_bounding_rect(origins@, sizes@, origins@.len() as int),
{
    let mut r = Rect::zero();
    let mut idx: usize = 0;
    while idx < origins.len()
        invariant
            origins@.len() == sizes@.len(),
            idx <= origins@.len(),
            r == spec_bounding_rect(origins@, sizes@, idx as int),
        decreases origins@.len() - idx,
    {
        r = r.union(Rect::from_origin_size(origins[idx], sizes[idx]));
        idx += 1;
    }
    r
}

/// The origin of every child, the (major, minor) recurrence packed onto
/// (x, y).
pub open spec fn spec_origins_of(
    sizes: Seq<Size>,
    axis: Axis,
    major_spacing: u64,
    minor_spacing: u64,
    count: u64,
) -> Seq<Point> {
    Seq::new(
        sizes.len(),
        |i: int| axis.spec_pack(
            spec_origin(sizes, axis, major_spacing, minor_spacing, count, i).0 as u64,
            spec_origin(sizes, axis, major_spacing, minor_spacing, count, i).1 as u64,
        ),
    )
}

/// What one layout pass yields for children that measured to the given
/// sizes: the box the grid reports — the bounding rectangle of all placed
/// children, clamped into the incoming constraints — and how far the
/// children overflow that box, reported as paint insets.
pub open spec fn spec_grid_layout(
    bc: BoxConstraints,
    axis: Axis,
    major_spacing: u64,
    minor_spacing: u64,
    count: u64,
    sizes: Seq<Size>,
) -> (Size, Insets) {
    let origins = spec_origins_of(sizes, axis, major_spacing, minor_spacing, count);
    let rect = spec_bounding_rect(origins, sizes, sizes.len() as int);
    let size = bc.spec_constrain(rect.spec_size());
    (size, spec_overflow_insets(rect, size))
}

/// Every index divisible by the count starts a new line: its minor position
/// is zero, whatever the sizes measured to and even where positions have
/// saturated.
pub proof fn lemma_line_start(
    sizes: Seq<Size>,
    axis: Axis,
    major_spacing: u64,
    minor_spacing: u64,
    count: u64,
    i: int,
)
    requires
        i >= 0,
        i % (count as int) == 0,
    ensures
        spec_origin(sizes, axis, major_spacing, minor_spacing, count, i).1 == 0,
{
}

/// With a configured count, equally sized items and a positive major stride
/// (a positive major extent or major spacing), a later line stands strictly
/// further along the major axis than an earlier one.
pub proof fn lemma_rows_strictly_advance(
    sizes: Seq<Size>,
    axis: Axis,
    major_spacing: u64,
    minor_spacing: u64,
    count: u64,
    item: Size,
    i: int,
    j: int,
)
    requires
        count >= 1,
        forall|k: int| 0 <= k < sizes.len() ==> sizes[k] == item,
        0 <= i <= sizes.len(),
        0 <= j <= sizes.len(),
        (sizes.len() as int) * (axis.spec_major(item) + major_spacing) <= u64::MAX,
        (count as int) * (axis.spec_minor(item) + minor_spacing) <= u64::MAX,
        axis.spec_major(item) + major_spacing > 0,
        i / (count as int) < j / (count as int),
    ensures
        spec_origin(sizes, axis, major_spacing, minor_spacing, count, i).0
            < spec_origin(sizes, axis, major_spacing, minor_spacing, count, j).0,
{
    let c = count as int;
    let stride = axis.spec_major(item) + major_spacing;
    lemma_uniform_grid_origin(sizes, axis, major_spacing, minor_spacing, count, item, i);
    lemma_uniform_grid_origin(sizes, axis, major_spacing, minor_spacing, count, item, j);
    vstd::arithmetic::mul::lemma_mul_strict_inequality(i / c, j / c, stride);
}

/// An empty collection degrades gracefully: with no children the layout's
/// box is the constraints' clamp of the zero size and nothing overflows it.
pub proof fn lemma_empty_grid_layout(
    bc: BoxConstraints,
    axis: Axis,
    major_spacing: u64,
    minor_spacing: u64,
    count: u64,
)
    ensures
        spec_grid_layout(bc, axis, major_spacing, minor_spacing, count, Seq::empty()).0
            == bc.spec_constrain(Size { width: 0, height: 0 }),
        spec_grid_layout(bc, axis, major_spacing, minor_spacing, count, Seq::empty()).1
            == (Insets { x0: 0, y0: 0, x1: 0, y1: 0 }),
{
    let origins = spec_origins_of(Seq::empty(), axis, major_spacing, minor_spacing, count);
    assert(spec_bounding_rect(origins, Seq::empty(), 0) == (Rect { x0: 0, y0: 0, x1: 0, y1: 0 }));
}

/// Division and modulo of a successor: stepping `i - 1` to `i` either starts
/// a new line (`i % c == 0`) or stays on the line of `i - 1`.
proof fn lemma_succ_div_mod(i: int, c: int)
    requires
        c >= 1,
        i >= 1,
    ensures
        i % c == 0 ==> i / c == (i - 1) / c + 1 && (i - 1) % c == c - 1,
        i % c != 0 ==> i / c == (i - 1) / c && i % c == (i - 1) % c + 1,
{
    lemma_fundamental_div_mod(i, c);
    if i % c == 0 {
        assert(i - 1 == (i / c - 1) * c + (c - 1)) by (nonlinear_arith)
            requires
                i == c * (i / c) + i % c,
                i % c == 0,
                c >= 1,
        ;
        lemma_fundamental_div_mod_converse(i - 1, c, i / c - 1, c - 1);
    } else {
        assert(0 <= i % c < c) by {
            lemma_fundamental_div_mod(i, c);
        }
        assert(i - 1 == (i / c) * c + (i % c - 1)) by (nonlinear_arith)
            requires
                i == c * (i / c) + i % c,
                c >= 1,
        ;
        lemma_fundamental_div_mod_converse(i - 1, c, i / c, i % c - 1);
    }
}

/// With a configured count and equally sized items, the recurrence puts the
/// item at flat index `i` on line `i / count` at place `i % count` of its
/// line, at the exact position given by the item's extents plus spacing.
/// The bounds on the totals keep every position below the machine range, so
/// no saturation takes place.
pub proof fn lemma_uniform_grid_origin(
    sizes: Seq<Size>,
    axis: Axis,
    major_spacing: u64,
    minor_spacing: u64,
    count: u64,
    item: Size,
    i: int,
)
    requires
        count >= 1,
        forall|k: int| 0 <= k < sizes.len() ==> sizes[k] == item,
        0 <= i <= sizes.len(),
        (sizes.len() as int) * (axis.spec_major(item) + major_spacing) <= u64::MAX,
        (count as int) * (axis.spec_minor(item) + minor_spacing) <= u64::MAX,
    ensures
        spec_origin(sizes, axis, major_spacing, minor_spacing, count, i).0
            == (i / (count as int)) * (axis.spec_major(item) + major_spacing),
        spec_origin(sizes, axis, major_spacing, minor_spacing, count, i).1
            == (i % (count as int)) * (axis.spec_minor(item) + minor_spacing),
    decreases i,
{
    let c = count as int;
    let maj_stride = axis.spec_major(item) + major_spacing;
    let min_stride = axis.spec_minor(item) + minor_spacing;
    if i == 0 {
        assert(0int / c == 0 && 0int % c == 0) by {
            lemma_fundamental_div_mod_converse(0, c, 0, 0);
        }
        assert((0int / c) * maj_stride == 0) by (nonlinear_arith)
            requires
                0int / c == 0,
        ;
        assert((0int % c) * min_stride == 0) by (nonlinear_arith)
            requires
                0int % c == 0,
        ;
    } else {
        lemma_uniform_grid_origin(sizes, axis, major_spacing, minor_spacing, count, item, i - 1);
        lemma_succ_div_mod(i, c);
        let q_prev = (i - 1) / c;
        let r_prev = (i - 1) % c;
        lemma_fundamental_div_mod(i - 1, c);
        assert(i - 1 == q_prev * c + r_prev) by (nonlinear_arith)
            requires
                i - 1 == c * q_prev + r_prev,
        ;
        assert(0 <= q_prev) by {
            if q_prev < 0 {
                assert(q_prev * c <= -c) by (nonlinear_arith)
                    requires
                        q_prev <= -1,
                        c >= 1,
                ;
            }
        }
        // The index of the line of `i - 1` is at most `i - 1` itself, which
        // keeps every product in range below.
        assert(q_prev * c <= i - 1);
        if i % c == 0 {
            // `i - 1` completed its line: the major position advances.
            assert(i / c == q_prev + 1 && r_prev == c - 1);
            assert((q_prev + 1) * c <= i) by (nonlinear_arith)
                requires
                    q_prev * c <= i - 1,
                    r_prev == c - 1,
                    i - 1 == q_prev * c + r_prev,
            ;
            assert((q_prev + 1) * maj_stride <= (sizes.len() as int) * maj_stride) by {
                assert(q_prev + 1 <= i) by (nonlinear_arith)
                    requires
                        (q_prev + 1) * c <= i,
                        c >= 1,
                        q_prev + 1 >= 0,
                ;
                lemma_mul_inequality(q_prev + 1, sizes.len() as int, maj_stride);
            }
            assert((q_prev + 1) * maj_stride == q_prev * maj_stride + maj_stride) by (nonlinear_arith);
            assert((i % c) * min_stride == 0) by (nonlinear_arith)
                requires
                    i % c == 0,
            ;
        } else {
            // `i - 1` stays on its line: the minor position advances.
            assert(i / c == q_prev && i % c == r_prev + 1);
            assert((r_prev + 1) * min_stride <= c * min_stride) by {
                lemma_mul_inequality(r_prev + 1, c, min_stride);
            }
            assert((r_prev + 1) * min_stride == r_prev * min_stride + min_stride) by (nonlinear_arith);
        }
    }
}

} // verus!
