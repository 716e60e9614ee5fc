use std::cell::Cell;
use std::rc::Rc;
use std::sync::Arc;

use grid_view::geometry::{Axis, BoxConstraints, Insets, Point, Size};
use grid_view::grid::{ChildFactory, GridChild, GridView};
use grid_view::layout::MinorAxisCount;

/// The opaque pass context of the tests; the grid threads it through
/// unchanged.
struct TestCtx;

/// A child widget of a fixed measured size that records what reaches it.
struct TestChild {
    width: u64,
    height: u64,
    event_bump: u64,
    origin: Option<Point>,
    lifecycles: u64,
    updates: u64,
    paints: u64,
}

impl GridChild<u64, TestCtx> for TestChild {
    fn event(&mut self, _ctx: &mut TestCtx, data: &mut u64) {
        *data += self.event_bump;
    }

    fn lifecycle(&mut self, _ctx: &mut TestCtx, _data: &u64) {
        self.lifecycles += 1;
    }

    fn update(&mut self, _ctx: &mut TestCtx, _data: &u64) {
        self.updates += 1;
    }

    fn layout(&mut self, _ctx: &mut TestCtx, _bc: &BoxConstraints, _data: &u64) -> Size {
        Size { width: self.width, height: self.height }
    }

    fn set_origin(&mut self, _ctx: &mut TestCtx, _data: &u64, origin: Point) {
        self.origin = Some(origin);
    }

    fn paint(&mut self, _ctx: &mut TestCtx, _data: &u64) {
        self.paints += 1;
    }
}

/// Produces children of one fixed size and counts its own invocations.
struct TestFactory {
    width: u64,
    height: u64,
    event_bump: u64,
    made: Rc<Cell<u64>>,
}

impl ChildFactory<TestChild> for TestFactory {
    fn make(&self) -> TestChild {
        self.made.set(self.made.get() + 1);
        TestChild {
            width: self.width,
            height: self.height,
            event_bump: self.event_bump,
            origin: None,
            lifecycles: 0,
            updates: 0,
            paints: 0,
        }
    }
}

fn factory(width: u64, height: u64, bump: u64) -> (TestFactory, Rc<Cell<u64>>) {
    let made = Rc::new(Cell::new(0));
    (
        TestFactory { width, height, event_bump: bump, made: Rc::clone(&made) },
        made,
    )
}

fn bc(max_width: u64, max_height: u64) -> BoxConstraints {
    BoxConstraints {
        min: Size { width: 0, height: 0 },
        max: Size { width: max_width, height: max_height },
    }
}

fn items(values: &[u64]) -> Arc<Vec<u64>> {
    Arc::new(values.to_vec())
}

#[test]
fn defaults_are_vertical_no_spacing_five_per_line() {
    let (f, _made) = factory(10, 10, 0);
    let grid: GridView<TestChild, TestFactory> = GridView::new(f);
    assert_eq!(grid.current_axis(), Axis::Vertical);
    assert_eq!(grid.current_spacing(), (0, 0));
    assert_eq!(grid.current_minor_axis_count(), MinorAxisCount::Count(5));
    assert_eq!(grid.children_len(), 0);
}

#[test]
fn builders_configure_the_grid() {
    let (f, _made) = factory(10, 10, 0);
    let grid: GridView<TestChild, TestFactory> =
        GridView::new(f).horizontal().with_minor_axis_count(3).with_spacing(4);
    assert_eq!(grid.current_axis(), Axis::Horizontal);
    assert_eq!(grid.current_minor_axis_count(), MinorAxisCount::Count(3));
    assert_eq!(grid.current_spacing(), (4, 4));

    let grid = grid.with_vertical_spacing(7).set_horizontal_spacing(9);
    assert_eq!(grid.current_spacing(), (7, 9));

    let mut grid = grid.wrap();
    assert_eq!(grid.current_minor_axis_count(), MinorAxisCount::Wrap);
    grid.set_minor_axis_count(2);
    assert_eq!(grid.current_minor_axis_count(), MinorAxisCount::Count(2));
    grid.set_spacing(1);
    assert_eq!(grid.current_spacing(), (1, 1));
    let grid = grid.set_vertical_spacing(5);
    assert_eq!(grid.current_spacing(), (5, 1));
}

#[test]
fn reconciliation_grows_the_pool_once_per_item() {
    let (f, made) = factory(10, 10, 0);
    let mut grid: GridView<TestChild, TestFactory> = GridView::new(f);
    let data = items(&[1, 2, 3]);
    assert!(grid.update_child_count(&data));
    assert_eq!(grid.children_len(), 3);
    assert_eq!(made.get(), 3);
}

#[test]
fn reconciliation_is_idempotent() {
    let (f, made) = factory(10, 10, 0);
    let mut grid: GridView<TestChild, TestFactory> = GridView::new(f);
    let data = items(&[1, 2, 3]);
    assert!(grid.update_child_count(&data));
    // A second reconciliation against the same length changes nothing and
    // invokes no factory.
    assert!(!grid.update_child_count(&data));
    assert_eq!(grid.children_len(), 3);
    assert_eq!(made.get(), 3);
}

#[test]
fn pool_follows_a_sequence_of_lengths_without_replaying_factories() {
    let (f, made) = factory(10, 10, 0);
    let mut grid: GridView<TestChild, TestFactory> = GridView::new(f);
    // Lengths 3, 5, 2, 4: each step pays only for its own shortfall.
    assert!(grid.update_child_count(&items(&[1, 2, 3])));
    assert_eq!(made.get(), 3);
    assert!(grid.update_child_count(&items(&[1, 2, 3, 4, 5])));
    assert_eq!(made.get(), 5);
    assert!(grid.update_child_count(&items(&[1, 2])));
    assert_eq!(made.get(), 5);
    assert!(grid.update_child_count(&items(&[1, 2, 3, 4])));
    assert_eq!(grid.children_len(), 4);
    assert_eq!(made.get(), 7);
}

#[test]
fn event_pass_replaces_the_collection_when_children_alter_items() {
    let (f, _made) = factory(10, 10, 1);
    let mut grid: GridView<TestChild, TestFactory> = GridView::new(f);
    let mut data = items(&[10, 20, 30]);
    grid.update_child_count(&data);
    let before = Arc::clone(&data);
    let mut ctx = TestCtx;
    assert!(grid.event(&mut ctx, &mut data));
    assert!(!Arc::ptr_eq(&before, &data));
    assert_eq!(*data, vec![11, 21, 31]);
    assert_eq!(grid.children_len(), 3);
}

#[test]
fn event_pass_leaves_an_unaltered_collection_untouched() {
    let (f, _made) = factory(10, 10, 0);
    let mut grid: GridView<TestChild, TestFactory> = GridView::new(f);
    let mut data = items(&[10, 20, 30]);
    grid.update_child_count(&data);
    let before = Arc::clone(&data);
    let mut ctx = TestCtx;
    assert!(!grid.event(&mut ctx, &mut data));
    assert!(Arc::ptr_eq(&before, &data));
}

#[test]
fn event_pass_carries_unpaired_items_over_unchanged() {
    let (f, _made) = factory(10, 10, 1);
    let mut grid: GridView<TestChild, TestFactory> = GridView::new(f);
    let mut data = items(&[10, 20]);
    grid.update_child_count(&data);
    // The collection grew since the last reconciliation: the excess item has
    // no child yet and passes through unchanged.
    let mut data = items(&[10, 20, 30]);
    let mut ctx = TestCtx;
    assert!(grid.event(&mut ctx, &mut data));
    assert_eq!(*data, vec![11, 21, 30]);
    assert_eq!(grid.children_len(), 2);
}

#[test]
fn mount_reconciles_and_notifies_every_child() {
    let (f, made) = factory(10, 10, 0);
    let mut grid: GridView<TestChild, TestFactory> = GridView::new(f);
    let data = items(&[1, 2, 3]);
    let mut ctx = TestCtx;
    assert!(grid.lifecycle(&mut ctx, true, &data));
    assert_eq!(grid.children_len(), 3);
    assert_eq!(made.get(), 3);
    for i in 0..3 {
        assert_eq!(grid.child_at(i).lifecycles, 1);
    }
    // A later, non-mount notification reconciles nothing.
    assert!(!grid.lifecycle(&mut ctx, false, &data));
    assert_eq!(made.get(), 3);
    assert_eq!(grid.child_at(0).lifecycles, 2);
}

#[test]
fn update_pass_updates_existing_children_before_reconciling() {
    let (f, made) = factory(10, 10, 0);
    let mut grid: GridView<TestChild, TestFactory> = GridView::new(f);
    grid.update_child_count(&items(&[1, 2]));
    assert_eq!(made.get(), 2);
    let mut ctx = TestCtx;
    // The collection grew: the two existing children hear the update, the
    // newly created third child does not.
    assert!(grid.update(&mut ctx, &items(&[1, 2, 3])));
    assert_eq!(grid.children_len(), 3);
    assert_eq!(made.get(), 3);
    assert_eq!(grid.child_at(0).updates, 1);
    assert_eq!(grid.child_at(1).updates, 1);
    assert_eq!(grid.child_at(2).updates, 0);
    // The collection shrank: the child about to be removed still hears it.
    assert!(grid.update(&mut ctx, &items(&[1])));
    assert_eq!(grid.children_len(), 1);
    assert_eq!(made.get(), 3);
    assert_eq!(grid.child_at(0).updates, 2);
}

#[test]
fn paint_pass_reaches_every_paired_child() {
    let (f, _made) = factory(10, 10, 0);
    let mut grid: GridView<TestChild, TestFactory> = GridView::new(f);
    let data = items(&[1, 2]);
    grid.update_child_count(&data);
    let mut ctx = TestCtx;
    grid.paint(&mut ctx, &data);
    assert_eq!(grid.child_at(0).paints, 1);
    assert_eq!(grid.child_at(1).paints, 1);
}

#[test]
fn count_mode_places_items_row_major() {
    // Five 10-by-10 items, three to a line, vertical, no spacing: item 3
    // lands on line 1 at place 0, exactly at (0, 10); item 4 at (10, 10).
    let (f, _made) = factory(10, 10, 0);
    let mut grid: GridView<TestChild, TestFactory> =
        GridView::new(f).with_minor_axis_count(3);
    let data = items(&[1, 2, 3, 4, 5]);
    grid.update_child_count(&data);
    let mut ctx = TestCtx;
    let (size, insets) = grid.layout(&mut ctx, &bc(100, 100), &data);
    let expected = [(0, 0), (10, 0), (20, 0), (0, 10), (10, 10)];
    for (i, (x, y)) in expected.iter().enumerate() {
        assert_eq!(grid.child_at(i).origin, Some(Point { x: *x, y: *y }));
    }
    assert_eq!(size, Size { width: 30, height: 20 });
    assert_eq!(insets, Insets { x0: 0, y0: 0, x1: 0, y1: 0 });
}

#[test]
fn layout_reports_overflow_as_paint_insets() {
    // Two 10-by-10 items side by side in a container only 15 wide: the
    // reported size is clamped while the overflow shows up in the insets.
    let (f, _made) = factory(10, 10, 0);
    let mut grid: GridView<TestChild, TestFactory> =
        GridView::new(f).with_minor_axis_count(2);
    let data = items(&[1, 2]);
    grid.update_child_count(&data);
    let mut ctx = TestCtx;
    let (size, insets) = grid.layout(&mut ctx, &bc(15, 10), &data);
    assert_eq!(size, Size { width: 15, height: 10 });
    assert_eq!(insets, Insets { x0: 0, y0: 0, x1: 5, y1: 0 });
}

#[test]
fn wrap_mode_measures_a_probe_child() {
    // 10-wide items in a 35-wide container: three to a line.
    let (f, _made) = factory(10, 10, 0);
    let mut grid: GridView<TestChild, TestFactory> = GridView::new(f).wrap();
    let data = items(&[1, 2, 3, 4, 5]);
    grid.update_child_count(&data);
    let mut ctx = TestCtx;
    let (size, _insets) = grid.layout(&mut ctx, &bc(35, 100), &data);
    let expected = [(0, 0), (10, 0), (20, 0), (0, 10), (10, 10)];
    for (i, (x, y)) in expected.iter().enumerate() {
        assert_eq!(grid.child_at(i).origin, Some(Point { x: *x, y: *y }));
    }
    assert_eq!(size, Size { width: 30, height: 20 });
}

#[test]
fn wrap_mode_survives_a_zero_sized_probe() {
    // One item whose child measures to zero in both dimensions: no fault,
    // one item per line, a degenerate zero-size layout.
    let (f, _made) = factory(0, 0, 0);
    let mut grid: GridView<TestChild, TestFactory> = GridView::new(f).wrap();
    let data = items(&[7]);
    grid.update_child_count(&data);
    let mut ctx = TestCtx;
    let (size, insets) = grid.layout(&mut ctx, &bc(35, 100), &data);
    assert_eq!(grid.child_at(0).origin, Some(Point { x: 0, y: 0 }));
    assert_eq!(size, Size { width: 0, height: 0 });
    assert_eq!(insets, Insets { x0: 0, y0: 0, x1: 0, y1: 0 });
}

#[test]
fn empty_collection_lays_out_to_nothing() {
    let (f, made) = factory(10, 10, 0);
    let mut grid: GridView<TestChild, TestFactory> = GridView::new(f);
    let data = items(&[]);
    assert!(!grid.update_child_count(&data));
    let mut ctx = TestCtx;
    let (size, insets) = grid.layout(&mut ctx, &bc(100, 100), &data);
    assert_eq!(size, Size { width: 0, height: 0 });
    assert_eq!(insets, Insets { x0: 0, y0: 0, x1: 0, y1: 0 });
    assert_eq!(made.get(), 0);
}

#[test]
fn horizontal_layout_swaps_the_axes() {
    // Horizontally the major axis is the width: lines run top to bottom,
    // wrapping moves right. Vertical spacing 1 separates items in a line,
    // horizontal spacing 2 separates the lines.
    let (f, _made) = factory(10, 10, 0);
    let mut grid: GridView<TestChild, TestFactory> = GridView::new(f)
        .horizontal()
        .with_minor_axis_count(2)
        .with_vertical_spacing(1)
        .with_horizontal_spacing(2);
    let data = items(&[1, 2, 3]);
    grid.update_child_count(&data);
    let mut ctx = TestCtx;
    let (size, _insets) = grid.layout(&mut ctx, &bc(100, 100), &data);
    assert_eq!(grid.child_at(0).origin, Some(Point { x: 0, y: 0 }));
    assert_eq!(grid.child_at(1).origin, Some(Point { x: 0, y: 11 }));
    assert_eq!(grid.child_at(2).origin, Some(Point { x: 12, y: 0 }));
    assert_eq!(size, Size { width: 22, height: 21 });
}

#[test]
fn layout_with_fewer_children_than_items_stops_gracefully() {
    let (f, _made) = factory(10, 10, 0);
    let mut grid: GridView<TestChild, TestFactory> =
        GridView::new(f).with_minor_axis_count(2);
    grid.update_child_count(&items(&[1, 2]));
    // The collection grew without a reconciliation: only the paired
    // children are laid out.
    let data = items(&[1, 2, 3, 4]);
    let mut ctx = TestCtx;
    let (size, _insets) = grid.layout(&mut ctx, &bc(100, 100), &data);
    assert_eq!(grid.children_len(), 2);
    assert_eq!(size, Size { width: 20, height: 10 });
}
