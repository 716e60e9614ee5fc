//! The grid widget: the child pool, its reconciliation against the
//! collection length, and the four lifecycle passes.
//!
//! The host toolkit stays behind two capability interfaces: a child widget is
//! an opaque handle offering [`GridChild`], and the pass-specific context
//! object of the host is threaded through unchanged as an opaque `Ctx`
//! parameter. Whatever a pass must tell the host — that the subtree
//! structure changed, or what box and paint insets a layout produced — is
//! returned to the caller instead of being written into a context.

use vstd::prelude::*;

use crate::data::Data;
use crate::data::GridIter;
use crate::geometry::Axis;
use crate::geometry::BoxConstraints;
use crate::geometry::Insets;
use crate::geometry::Point;
use crate::geometry::Size;
use crate::geometry::overflow_insets;
use crate::layout::MinorAxisCount;
use crate::layout::bounding_rect;
use crate::layout::constraints;
use crate::layout::count_wf;
use crate::layout::grid_origins;
use crate::layout::spec_grid_layout;
use crate::layout::spec_origins_of;
use crate::layout::wrap_count;

verus! {

/// Creates one child widget per newly appeared collection item.
pub trait ChildFactory<W>: Sized {
    /// Makes one fresh child widget.
    fn make(&self) -> W;
}

/// The capability interface a child widget offers the grid. `Ctx` is the
/// host's pass context, threaded through unchanged; nothing is assumed about
/// what a child does with it, with its item, or with itself.
pub trait GridChild<T, Ctx>: Sized {
    /// Routes an event to the child, paired with an owned copy of its item,
    /// which the child may alter.
    fn event(&mut self, ctx: &mut Ctx, data: &mut T);

    /// Routes a lifecycle notification to the child.
    fn lifecycle(&mut self, ctx: &mut Ctx, data: &T);

    /// Routes a data update to the child.
    fn update(&mut self, ctx: &mut Ctx, data: &T);

    /// Lays the child out under `bc` and reports the size it measured to.
    fn layout(&mut self, ctx: &mut Ctx, bc: &BoxConstraints, data: &T) -> Size;

    /// Places the child's origin within its parent.
    fn set_origin(&mut self, ctx: &mut Ctx, data: &T, origin: Point);

    /// Paints the child.
    fn paint(&mut self, ctx: &mut Ctx, data: &T);
}

/// How many children a reconciliation creates: the shortfall of the pool
/// against the collection length, never negative.
pub open spec fn grow_count(pool: int, target: int) -> int {
    if target > pool {
        target - pool
    } else {
        0
    }
}

/// A grid view widget for a variable size collection of items.
///
/// `W` is the opaque child-widget type the factory `F` produces, one child
/// per item, index-aligned with the collection after every reconciliation.
pub struct GridView<W, F> {
    factory: F,
    children: Vec<W>,
    axis: Axis,
    vertical_spacing: u64,
    horizontal_spacing: u64,
    minor_axis_count: MinorAxisCount,
    factory_calls: Ghost<int>,
}

impl<W, F> GridView<W, F> {
    /// The live child widgets, in item order.
    pub closed spec fn spec_children(&self) -> Seq<W> {
        self.children@
    }

    /// The number of live children.
    pub open spec fn num_children(&self) -> int {
        self.spec_children().len() as int
    }

    /// The orientation of the major axis.
    pub closed spec fn spec_axis(&self) -> Axis {
        self.axis
    }

    /// The gap between vertically adjacent items.
    pub closed spec fn spec_vertical_spacing(&self) -> u64 {
        self.vertical_spacing
    }

    /// The gap between horizontally adjacent items.
    pub closed spec fn spec_horizontal_spacing(&self) -> u64 {
        self.horizontal_spacing
    }

    /// The minor-axis-count policy.
    pub closed spec fn spec_minor_axis_count(&self) -> MinorAxisCount {
        self.minor_axis_count
    }

    /// How often the factory has been invoked since construction.
    pub closed spec fn spec_factory_calls(&self) -> int {
        self.factory_calls@
    }

    /// A well-formed grid: a configured per-line count is at least one.
    pub open spec fn wf(&self) -> bool {
        count_wf(self.spec_minor_axis_count())
    }

    /// Whether the two grids are configured alike: same axis, spacings and
    /// per-line count policy.
    pub open spec fn same_config(&self, other: &GridView<W, F>) -> bool {
        &&& self.spec_axis() == other.spec_axis()
        &&& self.spec_vertical_spacing() == other.spec_vertical_spacing()
        &&& self.spec_horizontal_spacing() == other.spec_horizontal_spacing()
        &&& self.spec_minor_axis_count() == other.spec_minor_axis_count()
    }

    /// The spacing along the major axis: with a vertical major axis the
    /// vertical spacing, otherwise the horizontal one.
    pub open spec fn spec_major_spacing(&self) -> u64 {
        match self.spec_axis() {
            Axis::Vertical => self.spec_vertical_spacing(),
            Axis::Horizontal => self.spec_horizontal_spacing(),
        }
    }

    /// The spacing across the major axis.
    pub open spec fn spec_minor_spacing(&self) -> u64 {
        match self.spec_axis() {
            Axis::Vertical => self.spec_horizontal_spacing(),
            Axis::Horizontal => self.spec_vertical_spacing(),
        }
    }

    /// The number of live children.
    pub fn children_len(&self) -> (n: usize)
        ensures
            n == self.num_children(),
    {
        self.children.len()
    }

    /// The child at index `i`.
    pub fn child_at(&self, i: usize) -> (c: &W)
        requires
            i < self.num_children(),
        ensures
            *c == self.spec_children()[i as int],
    {
        &self.children[i]
    }

    /// The orientation of the major axis.
    pub fn current_axis(&self) -> (a: Axis)
        ensures
            a == self.spec_axis(),
    {
        self.axis
    }

    /// The vertical and horizontal spacing.
    pub fn current_spacing(&self) -> (s: (u64, u64))
        ensures
            s.0 == self.spec_vertical_spacing(),
            s.1 == self.spec_horizontal_spacing(),
    {
        (self.vertical_spacing, self.horizontal_spacing)
    }

    /// The minor-axis-count policy.
    pub fn current_minor_axis_count(&self) -> (c: MinorAxisCount)
        ensures
            c == self.spec_minor_axis_count(),
    {
        self.minor_axis_count
    }
}

impl<W, F: ChildFactory<W>> GridView<W, F> {
    /// Creates a new grid view widget. The factory is invoked once whenever
    /// a newly appeared item needs a child widget.
    ///
    /// Defaults to a vertical layout, zero spacing between grid items and
    /// five items on the minor axis.
    pub fn new(factory: F) -> (g: GridView<W, F>)
        ensures
            g.num_children() == 0,
            g.spec_factory_calls() == 0,
            g.spec_axis() == Axis::Vertical,
            g.spec_vertical_spacing() == 0,
            g.spec_horizontal_spacing() == 0,
            g.spec_minor_axis_count() == MinorAxisCount::Count(5),
            g.wf(),
    {
        GridView {
            factory,
            children: Vec::new(),
            axis: Axis::Vertical,
            vertical_spacing: 0,
            horizontal_spacing: 0,
            minor_axis_count: MinorAxisCount::Count(5),
            factory_calls: Ghost(0),
        }
    }

    /// Sets the widget to display horizontally.
    pub fn horizontal(self) -> (g: GridView<W, F>)
        ensures
            g.spec_axis() == Axis::Horizontal,
            g.spec_vertical_spacing() == self.spec_vertical_spacing(),
            g.spec_horizontal_spacing() == self.spec_horizontal_spacing(),
            g.spec_minor_axis_count() == self.spec_minor_axis_count(),
            g.spec_children() == self.spec_children(),
            g.spec_factory_calls() == self.spec_factory_calls(),
    {
        let mut g = self;
        g.axis = Axis::Horizontal;
        g
    }

    /// Lets the grid determine how many items fit on the minor axis before
    /// wrapping, from one measured child.
    ///
    /// If this is set along with [`GridView::with_minor_axis_count`], wrap
    /// takes priority.
    pub fn wrap(self) -> (g: GridView<W, F>)
        ensures
            g.spec_minor_axis_count() == MinorAxisCount::Wrap,
            g.spec_axis() == self.spec_axis(),
            g.spec_vertical_spacing() == self.spec_vertical_spacing(),
            g.spec_horizontal_spacing() == self.spec_horizontal_spacing(),
            g.spec_children() == self.spec_children(),
            g.spec_factory_calls() == self.spec_factory_calls(),
            g.wf(),
    {
        let mut g = self;
        g.minor_axis_count = MinorAxisCount::Wrap;
        g
    }

    /// Builder style method that sets how many items are laid out on the
    /// minor axis before the grid wraps around to the next line.
    ///
    /// When the items of one line together measure wider than the container,
    /// the grid overflows it; use [`GridView::wrap`] to wrap automatically.
    pub fn with_minor_axis_count(self, count: u64) -> (g: GridView<W, F>)
        requires
            count >= 1,
        ensures
            g.spec_minor_axis_count() == MinorAxisCount::Count(count),
            g.spec_axis() == self.spec_axis(),
            g.spec_vertical_spacing() == self.spec_vertical_spacing(),
            g.spec_horizontal_spacing() == self.spec_horizontal_spacing(),
            g.spec_children() == self.spec_children(),
            g.spec_factory_calls() == self.spec_factory_calls(),
            g.wf(),
    {
        let mut g = self;
        g.minor_axis_count = MinorAxisCount::Count(count);
        g
    }

    /// Sets how many items are laid out on the minor axis before the grid
    /// wraps around to the next line.
    pub fn set_minor_axis_count(&mut self, count: u64)
        requires
            count >= 1,
        ensures
            final(self).spec_minor_axis_count() == MinorAxisCount::Count(count),
            final(self).spec_axis() == old(self).spec_axis(),
            final(self).spec_vertical_spacing() == old(self).spec_vertical_spacing(),
            final(self).spec_horizontal_spacing() == old(self).spec_horizontal_spacing(),
            final(self).spec_children() == old(self).spec_children(),
            final(self).spec_factory_calls() == old(self).spec_factory_calls(),
            final(self).wf(),
    {
        self.minor_axis_count = MinorAxisCount::Count(count);
    }

    /// Builder style method that sets the vertical and the horizontal
    /// spacing between items to the same value.
    pub fn with_spacing(self, spacing: u64) -> (g: GridView<W, F>)
        ensures
            g.spec_vertical_spacing() == spacing,
            g.spec_horizontal_spacing() == spacing,
            g.spec_axis() == self.spec_axis(),
            g.spec_minor_axis_count() == self.spec_minor_axis_count(),
            g.spec_children() == self.spec_children(),
            g.spec_factory_calls() == self.spec_factory_calls(),
    {
        let mut g = self;
        g.vertical_spacing = spacing;
        g.horizontal_spacing = spacing;
        g
    }

    /// Sets the vertical and the horizontal spacing between items to the
    /// same value.
    pub fn set_spacing(&mut self, spacing: u64)
        ensures
            final(self).spec_vertical_spacing() == spacing,
            final(self).spec_horizontal_spacing() == spacing,
            final(self).spec_axis() == old(self).spec_axis(),
            final(self).spec_minor_axis_count() == old(self).spec_minor_axis_count(),
            final(self).spec_children() == old(self).spec_children(),
            final(self).spec_factory_calls() == old(self).spec_factory_calls(),
    {
        self.vertical_spacing = spacing;
        self.horizontal_spacing = spacing;
    }

    /// Builder style method that sets the spacing between vertically
    /// adjacent items.
    pub fn with_vertical_spacing(self, spacing: u64) -> (g: GridView<W, F>)
        ensures
            g.spec_vertical_spacing() == spacing,
            g.spec_horizontal_spacing() == self.spec_horizontal_spacing(),
            g.spec_axis() == self.spec_axis(),
            g.spec_minor_axis_count() == self.spec_minor_axis_count(),
            g.spec_children() == self.spec_children(),
            g.spec_factory_calls() == self.spec_factory_calls(),
    {
        let mut g = self;
        g.vertical_spacing = spacing;
        g
    }

    /// Sets the spacing between vertically adjacent items.
    pub fn set_vertical_spacing(self, spacing: u64) -> (g: GridView<W, F>)
        ensures
            g.spec_vertical_spacing() == spacing,
            g.spec_horizontal_spacing() == self.spec_horizontal_spacing(),
            g.spec_axis() == self.spec_axis(),
            g.spec_minor_axis_count() == self.spec_minor_axis_count(),
            g.spec_children() == self.spec_children(),
            g.spec_factory_calls() == self.spec_factory_calls(),
    {
        let mut g = self;
        g.vertical_spacing = spacing;
        g
    }

    /// Builder style method that sets the spacing between horizontally
    /// adjacent items.
    pub fn with_horizontal_spacing(self, spacing: u64) -> (g: GridView<W, F>)
        ensures
            g.spec_horizontal_spacing() == spacing,
            g.spec_vertical_spacing() == self.spec_vertical_spacing(),
            g.spec_axis() == self.spec_axis(),
            g.spec_minor_axis_count() == self.spec_minor_axis_count(),
            g.spec_children() == self.spec_children(),
            g.spec_factory_calls() == self.spec_factory_calls(),
    {
        let mut g = self;
        g.horizontal_spacing = spacing;
        g
    }

    /// Sets the spacing between horizontally adjacent items.
    pub fn set_horizontal_spacing(self, spacing: u64) -> (g: GridView<W, F>)
        ensures
            g.spec_horizontal_spacing() == spacing,
            g.spec_vertical_spacing() == self.spec_vertical_spacing(),
            g.spec_axis() == self.spec_axis(),
            g.spec_minor_axis_count() == self.spec_minor_axis_count(),
            g.spec_children() == self.spec_children(),
            g.spec_factory_calls() == self.spec_factory_calls(),
    {
        let mut g = self;
        g.horizontal_spacing = spacing;
        g
    }

    /// When the widget is created or the data changes, creates or removes
    /// children as needed: a pool longer than the collection is truncated,
    /// trailing children first; a shorter one grows by one fresh child per
    /// missing index, in ascending order, the factory invoked once each.
    /// Children below the shorter of the two lengths are kept in place.
    ///
    /// Returns `true` iff children were added or removed, so the caller can
    /// signal the host that the widget subtree changed.
    pub fn update_child_count<T: Data, D: GridIter<T>>(&mut self, data: &D) -> (changed: bool)
        ensures
            final(self).num_children() == data.items().len(),
            changed == (old(self).num_children() != data.items().len()),
            final(self).spec_factory_calls() == old(self).spec_factory_calls() + grow_count(
                old(self).num_children(),
                data.items().len() as int,
            ),
            forall|i: int|
                0 <= i < old(self).num_children() && i < data.items().len()
                    ==> final(self).spec_children()[i] == old(self).spec_children()[i],
            final(self).same_config(old(self)),
    {
        let len = self.children.len();
        let data_len = data.data_len();
        if len > data_len {
            self.children.truncate(data_len);
        } else if len < data_len {
            let mut i = len;
            while i < data_len
                invariant
                    len <= i <= data_len,
                    self.children@.len() == i,
                    data_len == data.items().len(),
                    self.factory_calls@ == old(self).spec_factory_calls() + (i - len),
                    forall|k: int| 0 <= k < len ==> self.children@[k] == old(self).spec_children()[k],
                    self.axis == old(self).spec_axis(),
                    self.vertical_spacing == old(self).spec_vertical_spacing(),
                    self.horizontal_spacing == old(self).spec_horizontal_spacing(),
                    self.minor_axis_count == old(self).spec_minor_axis_count(),
                decreases data_len - i,
            {
                let child = self.factory.make();
                self.children.push(child);
                self.factory_calls = Ghost(self.factory_calls@ + 1);
                i += 1;
            }
        }
        len != data_len
    }

    /// The event pass: routes the event context to every live child, paired
    /// with an owned copy of its item in flat index order, then commits the
    /// copies back to the collection — which is replaced only when some copy
    /// came back altered, by value (copy-on-any-change). Items beyond the
    /// pool are carried over unchanged, and the pool never resizes here.
    ///
    /// Returns whether the backing collection was replaced.
    pub fn event<T: Data, D: GridIter<T>, Ctx>(&mut self, ctx: &mut Ctx, data: &mut D) -> (data_changed: bool) where
        W: GridChild<T, Ctx>,

        ensures
            final(self).num_children() == old(self).num_children(),
            final(self).same_config(old(self)),
            final(self).spec_factory_calls() == old(self).spec_factory_calls(),
            final(data).items().len() == old(data).items().len(),
            data_changed == !(final(data).items() =~= old(data).items()),
            !data_changed ==> final(data).items() == old(data).items(),
            forall|i: int|
                old(self).num_children() <= i < old(data).items().len()
                    ==> final(data).items()[i] == old(data).items()[i],
    {
        let len = data.data_len();
        let mut new_items: Vec<T> = Vec::new();
        let mut i: usize = 0;
        while i < len
            invariant
                i <= len,
                len == data.items().len(),
                *data == *old(data),
                new_items@.len() == i,
                self.children@.len() == old(self).num_children(),
                self.axis == old(self).spec_axis(),
                self.vertical_spacing == old(self).spec_vertical_spacing(),
                self.horizontal_spacing == old(self).spec_horizontal_spacing(),
                self.minor_axis_count == old(self).spec_minor_axis_count(),
                self.factory_calls@ == old(self).spec_factory_calls(),
                forall|k: int|
                    old(self).num_children() <= k < i ==> new_items@[k] == data.items()[k],
            decreases len - i,
        {
            let mut d = data.item_at(i).clone_item();
            if i < self.children.len() {
                let child = &mut self.children[i];
                child.event(ctx, &mut d);
            }
            new_items.push(d);
            i += 1;
        }
        data.commit_if_changed(new_items)
    }

    /// The structural/mount pass. On first mount (`widget_added`) the pool
    /// is reconciled against the collection length before anything else;
    /// the returned flag reports whether the subtree structure changed, so
    /// the host can re-mount the new children. The notification is then
    /// routed to every live child paired with its item; items beyond the
    /// pool are skipped.
    pub fn lifecycle<T: Data, D: GridIter<T>, Ctx>(
        &mut self,
        ctx: &mut Ctx,
        widget_added: bool,
        data: &D,
    ) -> (children_changed: bool) where W: GridChild<T, Ctx>
        ensures
            final(self).same_config(old(self)),
            widget_added ==> final(self).num_children() == data.items().len()
                && children_changed == (old(self).num_children() != data.items().len())
                && final(self).spec_factory_calls() == old(self).spec_factory_calls()
                + grow_count(old(self).num_children(), data.items().len() as int),
            !widget_added ==> final(self).num_children() == old(self).num_children()
                && children_changed == false
                && final(self).spec_factory_calls() == old(self).spec_factory_calls(),
    {
        let changed = if widget_added {
            self.update_child_count(data)
        } else {
            false
        };

        let data_len = data.data_len();
        let pool_len = self.children.len();
        let n = if pool_len < data_len {
            pool_len
        } else {
            data_len
        };
        let ghost mid = *self;
        let mut i: usize = 0;
        while i < n
            invariant
                i <= n,
                n <= data.items().len(),
                n <= self.children@.len(),
                self.children@.len() == mid.num_children(),
                self.axis == mid.spec_axis(),
                self.vertical_spacing == mid.spec_vertical_spacing(),
                self.horizontal_spacing == mid.spec_horizontal_spacing(),
                self.minor_axis_count == mid.spec_minor_axis_count(),
                self.factory_calls@ == mid.spec_factory_calls(),
            decreases n - i,
        {
            let item = data.item_at(i);
            let child = &mut self.children[i];
            child.lifecycle(ctx, item);
            i += 1;
        }
        changed
    }

    /// The data-update pass: the new data is routed to the existing children
    /// first — a child about to be removed still hears the update, while a
    /// newly appearing item never receives a stale one — and only then is
    /// the pool reconciled against the new collection length.
    ///
    /// Returns whether the subtree structure changed.
    pub fn update<T: Data, D: GridIter<T>, Ctx>(&mut self, ctx: &mut Ctx, data: &D) -> (children_changed: bool) where
        W: GridChild<T, Ctx>,

        ensures
            final(self).same_config(old(self)),
            final(self).num_children() == data.items().len(),
            children_changed == (old(self).num_children() != data.items().len()),
            final(self).spec_factory_calls() == old(self).spec_factory_calls() + grow_count(
                old(self).num_children(),
                data.items().len() as int,
            ),
    {
        let data_len = data.data_len();
        let pool_len = self.children.len();
        let n = if pool_len < data_len {
            pool_len
        } else {
            data_len
        };
        let mut i: usize = 0;
        while i < n
            invariant
                i <= n,
                n <= data.items().len(),
                n <= self.children@.len(),
                self.children@.len() == old(self).num_children(),
                self.axis == old(self).spec_axis(),
                self.vertical_spacing == old(self).spec_vertical_spacing(),
                self.horizontal_spacing == old(self).spec_horizontal_spacing(),
                self.minor_axis_count == old(self).spec_minor_axis_count(),
                self.factory_calls@ == old(self).spec_factory_calls(),
            decreases n - i,
        {
            let item = data.item_at(i);
            let child = &mut self.children[i];
            child.update(ctx, item);
            i += 1;
        }

        self.update_child_count(data)
    }

    /// What holds of one layout pass of grid `g` over `n_items` items: the
    /// children that got laid out measured to some sequence of sizes — one
    /// per paired child — and the pass returned exactly what the packing
    /// algorithm yields for those sizes under an effective per-line count
    /// that is at least one and, when the count is configured, is the
    /// configured one.
    pub open spec fn layout_pass_result(
        g: GridView<W, F>,
        bc: BoxConstraints,
        n_items: int,
        res: (Size, Insets),
        sizes: Seq<Size>,
        count: u64,
    ) -> bool {
        &&& sizes.len() == vstd::math::min(g.num_children(), n_items)
        &&& count >= 1
        &&& (g.spec_minor_axis_count() matches MinorAxisCount::Count(n) ==> count == n)
        &&& res == spec_grid_layout(
            bc,
            g.spec_axis(),
            g.spec_major_spacing(),
            g.spec_minor_spacing(),
            count,
            sizes,
        )
    }

    /// The layout pass. Reconciliation is expected to be complete (the
    /// update pass has run), but a pool shorter than the collection degrades
    /// gracefully: only paired children are laid out.
    ///
    /// Every child is laid out under the container's constraints with new
    /// bounds on the major axis, then placed by the packing recurrence,
    /// walking the items in row-chunked flat order. In wrap mode the
    /// per-line count is first determined by measuring one probe child — the
    /// last of the pool, paired with the collection's representative item —
    /// degenerating to one item per line when there is nothing to probe or
    /// the probe measures to nothing.
    ///
    /// Returns the grid's own box — the bounding rectangle of all placed
    /// children clamped into the incoming constraints — and the overflow
    /// beyond that box, to be reported to the host as paint insets.
    pub fn layout<T: Data, D: GridIter<T>, Ctx>(
        &mut self,
        ctx: &mut Ctx,
        bc: &BoxConstraints,
        data: &D,
    ) -> (res: (Size, Insets)) where W: GridChild<T, Ctx>
        requires
            old(self).wf(),
        ensures
            final(self).num_children() == old(self).num_children(),
            final(self).same_config(old(self)),
            final(self).spec_factory_calls() == old(self).spec_factory_calls(),
            exists|sizes: Seq<Size>, count: u64| #[trigger] GridView::<W, F>::layout_pass_result(
                *old(self),
                *bc,
                data.items().len() as int,
                res,
                sizes,
                count,
            ),
    {
        let axis = self.axis;
        let (major_spacing, minor_spacing) = match axis {
            Axis::Vertical => (self.vertical_spacing, self.horizontal_spacing),
            Axis::Horizontal => (self.horizontal_spacing, self.vertical_spacing),
        };
        let child_bc = constraints(axis, bc, 0, axis.major(bc.max));

        let minor_axis_count = match self.minor_axis_count {
            MinorAxisCount::Wrap => {
                // Measure one probe child: the last of the pool, paired with
                // the collection's representative item.
                let probe: Option<Size> = if self.children.len() > 0 {
                    match data.child_data() {
                        Option::Some(item) => {
                            let last = self.children.len() - 1;
                            let child = &mut self.children[last];
                            Option::Some(child.layout(ctx, &child_bc, item))
                        },
                        Option::None => Option::None,
                    }
                } else {
                    Option::None
                };
                wrap_count(axis, bc, probe)
            },
            MinorAxisCount::Count(count) => count,
        };

        let data_len = data.data_len();
        let pool_len = self.children.len();
        let n = if pool_len < data_len {
            pool_len
        } else {
            data_len
        };

        let ghost mid = *self;
        let mut sizes: Vec<Size> = Vec::new();
        let mut i: usize = 0;
        while i < n
            invariant
                i <= n,
                n <= data.items().len(),
                n <= self.children@.len(),
                sizes@.len() == i,
                self.children@.len() == mid.num_children(),
                self.axis == mid.spec_axis(),
                self.vertical_spacing == mid.spec_vertical_spacing(),
                self.horizontal_spacing == mid.spec_horizontal_spacing(),
                self.minor_axis_count == mid.spec_minor_axis_count(),
                self.factory_calls@ == mid.spec_factory_calls(),
            decreases n - i,
        {
            let item = data.item_at(i);
            let child = &mut self.children[i];
            sizes.push(child.layout(ctx, &child_bc, item));
            i += 1;
        }

        let origins = grid_origins(&sizes, axis, major_spacing, minor_spacing, minor_axis_count);

        let mut i: usize = 0;
        while i < n
            invariant
                i <= n,
                n <= data.items().len(),
                n <= self.children@.len(),
                n == sizes@.len(),
                n == origins@.len(),
                self.children@.len() == mid.num_children(),
                self.axis == mid.spec_axis(),
                self.vertical_spacing == mid.spec_vertical_spacing(),
                self.horizontal_spacing == mid.spec_horizontal_spacing(),
                self.minor_axis_count == mid.spec_minor_axis_count(),
                self.factory_calls@ == mid.spec_factory_calls(),
            decreases n - i,
        {
            let item = data.item_at(i);
            let child = &mut self.children[i];
            child.set_origin(ctx, item, origins[i]);
            i += 1;
        }

        let paint_rect = bounding_rect(&origins, &sizes);
        let my_size = bc.constrain(paint_rect.size());
        let insets = overflow_insets(paint_rect, my_size);

        proof {
            assert(origins@ =~= spec_origins_of(
                sizes@,
                axis,
                major_spacing,
                minor_spacing,
                minor_axis_count,
            ));
            assert(GridView::<W, F>::layout_pass_result(
                *old(self),
                *bc,
                data.items().len() as int,
                (my_size, insets),
                sizes@,
                minor_axis_count,
            ));
        }
        (my_size, insets)
    }

    /// The paint pass: routes the paint context to every live child, paired
    /// with its item in flat index order, read-only. Items beyond the pool
    /// are skipped.
    pub fn paint<T: Data, D: GridIter<T>, Ctx>(&mut self, ctx: &mut Ctx, data: &D) where
        W: GridChild<T, Ctx>,

        ensures
            final(self).num_children() == old(self).num_children(),
            final(self).same_config(old(self)),
            final(self).spec_factory_calls() == old(self).spec_factory_calls(),
    {
        let data_len = data.data_len();
        let pool_len = self.children.len();
        let n = if pool_len < data_len {
            pool_len
        } else {
            data_len
        };
        let mut i: usize = 0;
        while i < n
            invariant
                i <= n,
                n <= data.items().len(),
                n <= self.children@.len(),
                self.children@.len() == old(self).num_children(),
                self.axis == old(self).spec_axis(),
                self.vertical_spacing == old(self).spec_vertical_spacing(),
                self.horizontal_spacing == old(self).spec_horizontal_spacing(),
                self.minor_axis_count == old(self).spec_minor_axis_count(),
                self.factory_calls@ == old(self).spec_factory_calls(),
            decreases n - i,
        {
            let item = data.item_at(i);
            let child = &mut self.children[i];
            child.paint(ctx, item);
            i += 1;
        }
    }
}

/// Reconciliation is idempotent: reconciling twice in a row against the
/// same length leaves the pool at that length and costs exactly what the
/// first reconciliation alone costs — the second one invokes no factory and,
/// the pool already matching, reports no change.
pub proof fn lemma_reconcile_idempotent(initial: int, n: int)
    ensures
        pool_len_after(initial, seq![n, n]) == n,
        factory_calls_after(initial, seq![n, n]) == grow_count(initial, n),
        grow_count(n, n) == 0,
{
    let ls = seq![n, n];
    assert(ls.drop_first() =~= seq![n]);
    assert(seq![n].drop_first() =~= Seq::<int>::empty());
    assert(pool_len_after(n, Seq::<int>::empty()) == n);
    assert(factory_calls_after(n, Seq::<int>::empty()) == 0);
    assert(pool_len_after(n, seq![n]) == n);
    assert(factory_calls_after(n, seq![n]) == grow_count(n, n));
}

/// The pool length after reconciling against each length of `ls` in order:
/// every step leaves the pool at exactly the length it reconciled against.
pub open spec fn pool_len_after(initial: int, ls: Seq<int>) -> int
    decreases ls.len(),
{
    if ls.len() == 0 {
        initial
    } else {
        pool_len_after(ls[0], ls.drop_first())
    }
}

/// The factory calls a sequence of reconciliations accumulates: each step
/// pays only for its own shortfall; a shrink costs nothing and a removed
/// item's factory is never replayed.
pub open spec fn factory_calls_after(initial: int, ls: Seq<int>) -> int
    decreases ls.len(),
{
    if ls.len() == 0 {
        0
    } else {
        grow_count(initial, ls[0]) + factory_calls_after(ls[0], ls.drop_first())
    }
}

/// After reconciling against each length of a non-empty sequence in order,
/// the pool holds exactly the most recently reconciled length.
pub proof fn lemma_pool_tracks_last_length(initial: int, ls: Seq<int>)
    requires
        ls.len() > 0,
    ensures
        pool_len_after(initial, ls) == ls.last(),
    decreases ls.len(),
{
    if ls.len() == 1 {
        assert(ls.drop_first().len() == 0);
        assert(pool_len_after(ls[0], ls.drop_first()) == ls[0]);
    } else {
        lemma_pool_tracks_last_length(ls[0], ls.drop_first());
        assert(ls.drop_first().last() == ls.last());
    }
}

/// Monotonic pool sizing: over lengths that never shrink, the accumulated
/// factory calls amount to exactly the total growth from the initial pool
/// size to the final length — each child is created once, none is ever
/// re-created.
pub proof fn lemma_monotone_growth_calls(initial: int, ls: Seq<int>)
    requires
        ls.len() > 0,
        initial <= ls[0],
        forall|i: int| 0 <= i < ls.len() - 1 ==> #[trigger] ls[i] <= ls[i + 1],
    ensures
        factory_calls_after(initial, ls) == ls.last() - initial,
    decreases ls.len(),
{
    if ls.len() > 1 {
        assert(forall|i: int|
            0 <= i < ls.drop_first().len() - 1 ==> #[trigger] ls.drop_first()[i] <= ls.drop_first()[
                i + 1
            ]);
        lemma_monotone_growth_calls(ls[0], ls.drop_first());
        assert(ls.drop_first().last() == ls.last());
    } else {
        assert(ls.drop_first().len() == 0);
        assert(factory_calls_after(ls[0], ls.drop_first()) == 0);
    }
}

} // verus!
