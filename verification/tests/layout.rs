use aoui::layout::util::{Axis, LayoutDir, Alignment, Binary, Trinary, row_alignment, orthogonal};
use aoui::layout::order::{span_order, grid_rows, table_columns, paragraph_step, LineStep};
use aoui::layout::container::{LayoutControl, trim};
use aoui::layout::direction::{Direction, StretchDir, X, Y, Rev, Stretch};
use aoui::layout::layouts::{BoundsLayout, DynamicTableLayout, StackLayout, SpanLayout, ParagraphLayout};
use aoui::units::{Size, Size2, SizeUnit};

const DIRS: [LayoutDir; 4] = [LayoutDir::LeftToRight, LayoutDir::RightToLeft, LayoutDir::BottomToTop, LayoutDir::TopToBottom];

#[test]
fn layout_dir_flip_and_transpose() {
    assert_eq!(LayoutDir::LeftToRight.flip(), LayoutDir::RightToLeft);
    assert_eq!(LayoutDir::TopToBottom.flip(), LayoutDir::BottomToTop);
    assert_eq!(LayoutDir::LeftToRight.transpose(), LayoutDir::BottomToTop);
    assert_eq!(LayoutDir::RightToLeft.transpose(), LayoutDir::TopToBottom);
    for d in DIRS {
        assert_eq!(d.flip().flip(), d);
        assert_eq!(d.transpose().transpose(), d);
        assert_eq!(d.flip().transpose(), d.transpose().flip());
        assert_eq!(Axis::from(d.flip()), Axis::from(d));
        assert_ne!(Axis::from(d.transpose()), Axis::from(d));
        assert_ne!(d.flip().is_reversed(), d.is_reversed());
        assert_eq!(d.transpose().is_reversed(), d.is_reversed());
    }
}

#[test]
fn layout_conversions() {
    assert_eq!(Axis::from(false), Axis::Horizontal);
    assert_eq!(Axis::from(true), Axis::Vertical);
    assert_eq!(Axis::default(), Axis::Horizontal);
    assert_eq!(Binary::from(LayoutDir::RightToLeft), Binary::Lo);
    assert_eq!(Binary::from(LayoutDir::BottomToTop), Binary::Hi);
    assert_eq!(Trinary::from(Alignment::Left), Trinary::Neg);
    assert_eq!(Trinary::from(Alignment::Top), Trinary::Pos);
    assert_eq!(Trinary::from(Alignment::Center), Trinary::Mid);
    assert!(Trinary::Neg < Trinary::Mid && Trinary::Mid < Trinary::Pos);
}

#[test]
fn alignment_transpose_is_an_involution() {
    let all = [Alignment::Center, Alignment::Bottom, Alignment::Top, Alignment::Left, Alignment::Right];
    assert_eq!(Alignment::Bottom.transpose(), Alignment::Top);
    assert_eq!(Alignment::Left.transpose(), Alignment::Right);
    for a in all {
        assert_eq!(a.transpose().transpose(), a);
        assert_eq!(a.transpose() == a, a == Alignment::Center);
    }
}

#[test]
fn direction_reversal_and_buckets() {
    let sides = (Trinary::Neg, Trinary::Pos);
    assert!(!X::reversed());
    assert!(Rev::<X>::reversed());
    assert!(!Rev::<Rev<Y>>::reversed());
    assert_eq!(X::bucket(sides), Trinary::Neg);
    assert_eq!(Y::bucket(sides), Trinary::Pos);
    assert_eq!(Rev::<X>::bucket(sides), Trinary::Pos);
    assert_eq!(Rev::<Y>::bucket((Trinary::Mid, Trinary::Mid)), Trinary::Mid);
    assert_eq!(Stretch::<Rev<X>>::bucket(sides), Trinary::Pos);
    assert!(Stretch::<X>::stretch());
    assert!(!Rev::<Y>::stretch());
}

#[test]
fn control_linebreak() {
    assert!(LayoutControl::Linebreak.is_linebreak());
    assert!(LayoutControl::LinebreakMarker.is_linebreak());
    assert!(!LayoutControl::WhiteSpace.is_linebreak());
    assert_eq!(LayoutControl::default(), LayoutControl::Normal);
}

#[test]
fn trim_strips_white_space_at_both_ends() {
    let (n, w, l) = (LayoutControl::Normal, LayoutControl::WhiteSpace, LayoutControl::Linebreak);
    let items = [w, w, n, w, l, w];
    assert_eq!(trim(&items), &[n, w, l]);
    assert_eq!(trim(trim(&items)), trim(&items));
    let spaces = [w, w];
    assert!(trim(&spaces).is_empty());
    let none: [LayoutControl; 0] = [];
    assert!(trim(&none).is_empty());
    let inner = [n, w, n];
    assert_eq!(trim(&inner), &inner);
    assert_eq!(trim(&[w, n]), &[n]);
}

#[test]
fn bounds_layout_constructors() {
    let p = BoundsLayout::PADDING();
    assert_eq!(p.fixed, [false, false]);
    assert_eq!(p.min, Size2::ZERO());
    assert_eq!(p.max, Size2::MAX());
    let d = BoundsLayout::default();
    assert_eq!(d.max, Size2::MAX());
    let m = Size2::pixels(10.0f32.to_bits(), 20.0f32.to_bits());
    let a = BoundsLayout::from_max(m);
    assert_eq!((a.min, a.max), (Size2::ZERO(), m));
    assert_eq!(a.fixed, [false, false]);
    let b = BoundsLayout::from_min(m);
    assert_eq!((b.min, b.max), (m, Size2::MAX()));
    let lo = Size::new(SizeUnit::Em, 1.0f32.to_bits());
    let hi = Size::new(SizeUnit::Em, 4.0f32.to_bits());
    let x = BoundsLayout::x_bounds(lo, hi);
    assert_eq!(x.fixed, [false, true]);
    assert_eq!(x.min, Size2::splat(lo));
    let y = BoundsLayout::y_bounds(lo, hi);
    assert_eq!(y.fixed, [true, false]);
    assert_eq!(y.max, Size2::new(hi, hi));
}

#[test]
fn dynamic_table_layout_fields() {
    let t = DynamicTableLayout { columns: 3, row_dir: LayoutDir::LeftToRight, column_dir: LayoutDir::TopToBottom, stretch: true };
    assert_eq!(t.columns, 3);
    assert_eq!(t.row_dir.transpose(), LayoutDir::BottomToTop);
}

fn stack_dir<D: Direction>(_: &StackLayout<D>) -> (bool, Trinary) {
    (D::reversed(), D::bucket((Trinary::Neg, Trinary::Pos)))
}

fn span_dir<D: StretchDir>(_: &SpanLayout<D>) -> (bool, bool) {
    (D::reversed(), D::stretch())
}

fn paragraph_dirs<D1: StretchDir, D2: Direction>(_: &ParagraphLayout<D1, D2>) -> (bool, bool, bool) {
    (D1::reversed(), D1::stretch(), D2::reversed())
}

#[test]
fn stack_span_and_paragraph_directions() {
    assert_eq!(stack_dir(&StackLayout::HSTACK()), (false, Trinary::Neg));
    assert_eq!(stack_dir(&StackLayout::VSTACK()), (true, Trinary::Neg));
    assert_eq!(stack_dir(&StackLayout::<Rev<X>>::new()), (true, Trinary::Pos));
    assert_eq!(span_dir(&SpanLayout::HBOX()), (false, false));
    assert_eq!(span_dir(&SpanLayout::VBOX()), (true, false));
    assert_eq!(span_dir(&SpanLayout::HBOX().with_stretch()), (false, true));
    assert_eq!(span_dir(&SpanLayout::<Rev<X>>::new().with_stretch()), (true, true));
    assert_eq!(paragraph_dirs(&ParagraphLayout::PARAGRAPH()), (false, false, true));
    assert_eq!(paragraph_dirs(&ParagraphLayout::PARAGRAPH().with_stretch()), (false, true, true));
    assert_eq!(paragraph_dirs(&ParagraphLayout::<Rev<X>, Y>::new()), (true, false, false));
}

#[test]
fn span_order_groups_by_side_then_index() {
    let sides = vec![Trinary::Pos, Trinary::Neg, Trinary::Mid, Trinary::Neg, Trinary::Pos];
    assert_eq!(span_order(&sides, false), vec![1, 3, 2, 0, 4]);
    assert_eq!(span_order(&sides, true), vec![3, 1, 2, 4, 0]);
    assert_eq!(span_order(&vec![], false), Vec::<usize>::new());
    assert_eq!(span_order(&vec![Trinary::Mid; 3], true), vec![2, 1, 0]);
}

#[test]
fn row_alignment_of_short_rows() {
    assert_eq!(row_alignment(LayoutDir::LeftToRight, Alignment::Left), 0);
    assert_eq!(row_alignment(LayoutDir::RightToLeft, Alignment::Left), 2);
    assert_eq!(row_alignment(LayoutDir::RightToLeft, Alignment::Center), 1);
    assert_eq!(row_alignment(LayoutDir::TopToBottom, Alignment::Top), 0);
    assert_eq!(row_alignment(LayoutDir::BottomToTop, Alignment::Top), 2);
    for d in DIRS {
        for a in [Alignment::Center, Alignment::Bottom, Alignment::Top, Alignment::Left, Alignment::Right] {
            assert_eq!(row_alignment(d.flip(), a), 2 - row_alignment(d, a));
            assert_eq!(row_alignment(d, a.transpose()), 2 - row_alignment(d, a));
        }
    }
}

#[test]
fn grid_rows_break_at_columns_and_line_breaks() {
    let n = LayoutControl::Normal;
    assert_eq!(grid_rows(&vec![n; 5], 2), vec![(0, 2), (2, 4), (4, 5)]);
    assert_eq!(grid_rows(&vec![n, LayoutControl::Linebreak, n, n, n], 3), vec![(0, 2), (2, 5)]);
    assert_eq!(grid_rows(&vec![n, LayoutControl::LinebreakMarker, n], 3), vec![(0, 1), (1, 2)]);
    assert_eq!(grid_rows(&vec![n, n, LayoutControl::LinebreakMarker], 2), vec![(0, 2), (2, 2)]);
    assert_eq!(grid_rows(&vec![n, n], 0), vec![(0, 1), (1, 2)]);
    assert_eq!(grid_rows(&vec![], 4), Vec::<(usize, usize)>::new());
}

#[test]
fn table_columns_wrap_and_restart_after_breaks() {
    let n = LayoutControl::Normal;
    assert_eq!(table_columns(&vec![n; 5], 2), vec![0, 1, 0, 1, 0]);
    assert_eq!(table_columns(&vec![n, LayoutControl::Linebreak, n, n], 3), vec![0, 1, 0, 1]);
    assert_eq!(table_columns(&vec![n, LayoutControl::LinebreakMarker, n], 3), vec![0, 1, 0]);
    assert_eq!(table_columns(&vec![n; 3], 1), vec![0, 0, 0]);
}

#[test]
fn orthogonal_directions() {
    assert!(orthogonal(LayoutDir::LeftToRight, LayoutDir::TopToBottom));
    assert!(orthogonal(LayoutDir::BottomToTop, LayoutDir::RightToLeft));
    assert!(!orthogonal(LayoutDir::LeftToRight, LayoutDir::RightToLeft));
    assert!(!orthogonal(LayoutDir::TopToBottom, LayoutDir::TopToBottom));
}

#[test]
fn paragraph_steps() {
    let n = LayoutControl::Normal;
    assert_eq!(paragraph_step(n, false, false), LineStep { new_line: false, placed: true, break_after: false });
    assert_eq!(paragraph_step(n, true, false), LineStep { new_line: true, placed: true, break_after: false });
    assert_eq!(paragraph_step(n, false, true), LineStep { new_line: true, placed: true, break_after: false });
    assert_eq!(paragraph_step(LayoutControl::Linebreak, false, false), LineStep { new_line: false, placed: true, break_after: true });
    assert_eq!(paragraph_step(LayoutControl::LinebreakMarker, false, false), LineStep { new_line: true, placed: false, break_after: false });
}
