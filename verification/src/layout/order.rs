//! The order in which a span or a paragraph line places its items, how a
//! paragraph breaks lines, and how a grid or a table breaks its items into rows.
use vstd::prelude::*;
use crate::layout::util::Trinary;
use crate::layout::container::LayoutControl;

verus! {

/// The rank of a side: the negative side first, then the middle, then the
/// positive side.
pub open spec fn spec_rank(t: Trinary) -> int {
    match t {
        Trinary::Neg => 0,
        Trinary::Mid => 1,
        Trinary::Pos => 2,
    }
}

fn rank(t: Trinary) -> (r: u8)
    ensures
        r == spec_rank(t),
{
    match t {
        Trinary::Neg => 0,
        Trinary::Mid => 1,
        Trinary::Pos => 2,
    }
}

/// Item `x` is placed before item `y`: its side comes first, or they are on the
/// same side and `x` has the smaller index (the larger one when the direction
/// is reversed).
pub open spec fn spec_before(sides: Seq<Trinary>, reversed: bool, x: int, y: int) -> bool {
    ||| spec_rank(sides[x]) < spec_rank(sides[y])
    ||| spec_rank(sides[x]) == spec_rank(sides[y]) && (if reversed { x > y } else { x < y })
}

/// Whether pass `t` of an index walk has visited index `j`: the walk goes up
/// from 0, or down from the last index when reversed.
pub open spec fn spec_visited(n: int, reversed: bool, t: int, j: int) -> bool {
    if reversed { j >= n - t } else { j < t }
}

/// The order in which a span places its items, given the side of each item's
/// anchor along the span's direction: items are ordered by their side, then by
/// their index (by their reverse index when the direction is reversed).
///
/// The result lists every index exactly once.
pub fn span_order(sides: &Vec<Trinary>, reversed: bool) -> (order: Vec<usize>)
    ensures
        forall|i: int| 0 <= i < order.len() ==> order[i] < sides.len(),
        forall|j: int| 0 <= j < sides.len() ==> #[trigger] order@.contains(j as usize),
        forall|i1: int, i2: int|
            0 <= i1 < i2 < order.len() ==> spec_before(sides@, reversed, order[i1] as int, order[i2] as int),
        order@.no_duplicates(),
{
    let n = sides.len();
    let mut order: Vec<usize> = Vec::new();
    let mut r: u8 = 0;
    while r < 3
        invariant
            n == sides.len(),
            r <= 3,
            forall|i: int| 0 <= i < order.len() ==> order[i] < n,
            forall|i: int| 0 <= i < order.len() ==> spec_rank(sides@[order[i] as int]) < r,
            forall|j: int| 0 <= j < n && spec_rank(sides@[j]) < r ==> #[trigger] order@.contains(j as usize),
            forall|i1: int, i2: int|
                0 <= i1 < i2 < order.len() ==> spec_before(sides@, reversed, order[i1] as int, order[i2] as int),
        decreases 3 - r,
    {
        let mut t: usize = 0;
        while t < n
            invariant
                n == sides.len(),
                r < 3,
                t <= n,
                forall|i: int| 0 <= i < order.len() ==> order[i] < n,
                forall|i: int| 0 <= i < order.len() ==> {
                    ||| spec_rank(sides@[order[i] as int]) < r
                    ||| spec_rank(sides@[order[i] as int]) == r && spec_visited(n as int, reversed, t as int, order[i] as int)
                },
                forall|j: int| 0 <= j < n && (spec_rank(sides@[j]) < r
                    || spec_rank(sides@[j]) == r && spec_visited(n as int, reversed, t as int, j))
                    ==> #[trigger] order@.contains(j as usize),
                forall|i1: int, i2: int|
                    0 <= i1 < i2 < order.len() ==> spec_before(sides@, reversed, order[i1] as int, order[i2] as int),
            decreases n - t,
        {
            let k = if reversed { n - 1 - t } else { t };
            if rank(sides[k]) == r {
                let ghost old_order = order@;
                order.push(k);
                proof {
                    assert(order@[order@.len() - 1] == k);
                    assert forall|j: int| 0 <= j < n && (spec_rank(sides@[j]) < r
                        || spec_rank(sides@[j]) == r && spec_visited(n as int, reversed, t + 1, j))
                        implies #[trigger] order@.contains(j as usize) by {
                        if j != k as int {
                            assert(old_order.contains(j as usize));
                            let i = choose|i: int| 0 <= i < old_order.len() && old_order[i] == j as usize;
                            assert(order@[i] == j as usize);
                        }
                    }
                }
            }
            t = t + 1;
        }
        r = r + 1;
    }
    assert forall|i1: int, i2: int| 0 <= i1 < order.len() && 0 <= i2 < order.len() && i1 != i2
        implies order@[i1] != order@[i2] by {
        if i1 < i2 {
            assert(spec_before(sides@, reversed, order[i1] as int, order[i2] as int));
        } else {
            assert(spec_before(sides@, reversed, order[i2] as int, order[i1] as int));
        }
    }
    order
}

/// Whether an item ends its row early.
pub open spec fn spec_breaks(c: LayoutControl) -> bool {
    c == LayoutControl::Linebreak || c == LayoutControl::LinebreakMarker
}

/// The rows closed after the first `k` items of a grid or table with
/// `columns` columns, the number of items placed, and where the open row
/// starts. Every item but a `LinebreakMarker` takes a cell; a row closes when
/// it has `columns` cells or after a line break.
pub open spec fn spec_rows_after(controls: Seq<LayoutControl>, columns: int, k: int) -> (Seq<(int, int)>, int, int)
    decreases k,
{
    if k <= 0 {
        (Seq::empty(), 0, 0)
    } else {
        let (rows, placed, start) = spec_rows_after(controls, columns, k - 1);
        let c = controls[k - 1];
        let placed2 = if c == LayoutControl::LinebreakMarker { placed } else { placed + 1 };
        if placed2 - start >= columns || spec_breaks(c) {
            (rows.push((start, placed2)), placed2, placed2)
        } else {
            (rows, placed2, start)
        }
    }
}

/// The rows of a grid or table: ranges of placed cells, with the open row
/// closed at the end if it has cells.
pub open spec fn spec_rows(controls: Seq<LayoutControl>, columns: int) -> Seq<(int, int)> {
    let (rows, placed, start) = spec_rows_after(controls, columns, controls.len() as int);
    if placed > start { rows.push((start, placed)) } else { rows }
}

/// How a grid or a table breaks its items into rows: each row is the range of
/// the placed cells in it (`LinebreakMarker`s take no cell), see [`spec_rows`].
///
/// Rows are counted in cells, so a row after a `LinebreakMarker` starts at the
/// next cell and every cell is in a row. (Counting the next row's start in
/// items instead, markers included, would leave cells out of every row after a
/// marker and can go below zero when markers come first.)
pub fn grid_rows(controls: &Vec<LayoutControl>, columns: usize) -> (rows: Vec<(usize, usize)>)
    ensures
        rows@.len() == spec_rows(controls@, columns as int).len(),
        forall|i: int| 0 <= i < rows@.len() ==> rows@[i].0 == spec_rows(controls@, columns as int)[i].0
            && rows@[i].1 == spec_rows(controls@, columns as int)[i].1,
{
    let mut rows: Vec<(usize, usize)> = Vec::new();
    let mut placed: usize = 0;
    let mut start: usize = 0;
    let mut k: usize = 0;
    while k < controls.len()
        invariant
            k <= controls.len(),
            start <= placed <= k,
            spec_rows_after(controls@, columns as int, k as int).1 == placed,
            spec_rows_after(controls@, columns as int, k as int).2 == start,
            rows@.len() == spec_rows_after(controls@, columns as int, k as int).0.len(),
            forall|i: int| 0 <= i < rows@.len() ==> rows@[i].0 == spec_rows_after(controls@, columns as int, k as int).0[i].0
                && rows@[i].1 == spec_rows_after(controls@, columns as int, k as int).0[i].1,
        decreases controls.len() - k,
    {
        let c = controls[k];
        if c != LayoutControl::LinebreakMarker {
            placed = placed + 1;
        }
        if placed - start >= columns || c.is_linebreak() {
            rows.push((start, placed));
            start = placed;
        }
        k = k + 1;
    }
    if placed > start {
        rows.push((start, placed));
    }
    rows
}

/// The rows a grid or table closes cover the placed cells in order: the first
/// starts at `0`, each starts where the previous one ends, and the last ends
/// where the open row starts; no row has more than `columns` cells (one, if
/// `columns` is `0`), and the open row has fewer than `columns` cells, or none.
pub proof fn lemma_rows_cover(controls: Seq<LayoutControl>, columns: int, k: int)
    requires
        0 <= k <= controls.len(),
    ensures
        ({
            let (rows, placed, start) = spec_rows_after(controls, columns, k);
            &&& 0 <= start <= placed <= k
            &&& placed - start < columns || (placed == start)
            &&& rows.len() > 0 ==> rows[0].0 == 0 && rows[rows.len() - 1].1 == start
            &&& rows.len() == 0 ==> start == 0
            &&& forall|i: int| 0 <= i < rows.len() - 1 ==> #[trigger] rows[i].1 == rows[i + 1].0
            &&& forall|i: int| 0 <= i < rows.len() ==> 0 <= #[trigger] rows[i].1 - rows[i].0 <= if columns > 1 { columns } else { 1 }
        }),
    decreases k,
{
    if k > 0 {
        lemma_rows_cover(controls, columns, k - 1);
    }
}

/// The column of the `k`-th item of a table that sizes its columns by their
/// content: items fill columns `0, 1, ...` in turn, starting over after the
/// last column or after a line break. `LinebreakMarker`s count as items here.
pub open spec fn spec_column_of(controls: Seq<LayoutControl>, columns: int, k: int) -> int
    decreases k,
{
    if k <= 0 {
        0
    } else {
        let prev = spec_column_of(controls, columns, k - 1);
        if prev + 1 >= columns || spec_breaks(controls[k - 1]) { 0 } else { prev + 1 }
    }
}

/// The column of each item of a table that sizes its columns by their
/// content, see [`spec_column_of`].
pub fn table_columns(controls: &Vec<LayoutControl>, columns: usize) -> (cols: Vec<usize>)
    requires
        columns > 0,
    ensures
        cols@.len() == controls@.len(),
        forall|k: int| 0 <= k < cols@.len() ==> cols@[k] == spec_column_of(controls@, columns as int, k),
        forall|k: int| 0 <= k < cols@.len() ==> cols@[k] < columns,
{
    let mut cols: Vec<usize> = Vec::new();
    let mut index: usize = 0;
    let mut k: usize = 0;
    while k < controls.len()
        invariant
            columns > 0,
            k <= controls.len(),
            cols@.len() == k,
            index < columns,
            index == spec_column_of(controls@, columns as int, k as int),
            forall|j: int| 0 <= j < k ==> cols@[j] == spec_column_of(controls@, columns as int, j),
            forall|j: int| 0 <= j < k ==> cols@[j] < columns,
        decreases controls.len() - k,
    {
        cols.push(index);
        if index + 1 >= columns || controls[k].is_linebreak() {
            index = 0;
        } else {
            index = index + 1;
        }
        k = k + 1;
    }
    cols
}

/// What a paragraph does with one item.
#[derive(Debug, Clone, Copy, PartialEq, Eq, Structural)]
pub struct LineStep {
    /// The current line closes before this item.
    pub new_line: bool,
    /// The item takes space on its line; a `LinebreakMarker` only gives the
    /// closed line its height.
    pub placed: bool,
    /// The line closes after this item.
    pub break_after: bool,
}

/// How a paragraph treats an item: the line closes before it when the item
/// does not fit (`overflows`), when it is a `LinebreakMarker`, or when the item
/// before it was a `Linebreak`; every item but a `LinebreakMarker` is placed;
/// a `Linebreak` closes the line after itself.
pub fn paragraph_step(control: LayoutControl, overflows: bool, after_linebreak: bool) -> (r: LineStep)
    ensures
        r == (LineStep {
            new_line: overflows || control == LayoutControl::LinebreakMarker || after_linebreak,
            placed: control != LayoutControl::LinebreakMarker,
            break_after: control == LayoutControl::Linebreak,
        }),
{
    let marker = control == LayoutControl::LinebreakMarker;
    LineStep {
        new_line: overflows || marker || after_linebreak,
        placed: !marker,
        break_after: control == LayoutControl::Linebreak,
    }
}

} // verus!
