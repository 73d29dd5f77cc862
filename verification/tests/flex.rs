use aoui::flex::util::{
    Axis, FlexDir, Alignment, Stacking, SpanAlign, SpriteAnchor, FlexControl, L2R, R2L, B2T, T2B, LO, HI,
};

const FLEX_DIRS: [FlexDir; 4] = [FlexDir::LeftToRight, FlexDir::RightToLeft, FlexDir::BottomToTop, FlexDir::TopToBottom];

#[test]
fn flex_dir_laws_on_values() {
    assert_eq!(Axis::Horizontal.rev(), Axis::Vertical);
    assert_eq!(Axis::Vertical.rev().rev(), Axis::Vertical);
    for d in FLEX_DIRS {
        assert_eq!(d.flip().flip(), d);
        assert_eq!(d.transpose().transpose(), d);
        assert_eq!(Axis::from(d.transpose()), Axis::from(d).rev());
        assert_ne!(d.flip().is_reversed(), d.is_reversed());
        assert_eq!(Stacking::from(d) == Stacking::Lo, d.is_reversed());
    }
    assert_eq!(FlexDir::BottomToTop.transpose(), FlexDir::LeftToRight);
    assert_eq!(FlexDir::TopToBottom.flip(), FlexDir::BottomToTop);
}

#[test]
fn flex_dir_numbering() {
    assert_eq!(FlexDir::from_u8(L2R), FlexDir::LeftToRight);
    assert_eq!(FlexDir::from_u8(R2L), FlexDir::RightToLeft);
    assert_eq!(FlexDir::from_u8(B2T), FlexDir::BottomToTop);
    assert_eq!(FlexDir::from_u8(T2B), FlexDir::TopToBottom);
    assert_eq!(Stacking::from_u8(LO), Stacking::Lo);
    assert_eq!(Stacking::from_u8(HI), Stacking::Hi);
    assert_eq!(Axis::from(true), Axis::Vertical);
}

#[test]
fn span_align_of_anchors() {
    assert_eq!(Axis::Horizontal.span_align(&SpriteAnchor::TopLeft), SpanAlign::Neg);
    assert_eq!(Axis::Vertical.span_align(&SpriteAnchor::TopLeft), SpanAlign::Pos);
    assert_eq!(Axis::Horizontal.span_align(&SpriteAnchor::Center), SpanAlign::Mid);
    assert_eq!(Axis::Vertical.span_align(&SpriteAnchor::BottomRight), SpanAlign::Neg);
    assert_eq!(SpanAlign::from(Alignment::Right), SpanAlign::Pos);
    assert_eq!(SpanAlign::from(Alignment::Bottom), SpanAlign::Neg);
    assert_eq!(Alignment::Top.transpose(), Alignment::Bottom);
    assert_eq!(Alignment::Center.transpose(), Alignment::Center);
}

#[test]
fn flex_control_linebreak() {
    assert!(FlexControl::Linebreak.is_linebreak());
    assert!(FlexControl::LinebreakMarker.is_linebreak());
    assert!(!FlexControl::Normal.is_linebreak());
    assert_eq!(FlexControl::default(), FlexControl::Normal);
}
