use aoui::dsl::util::{AouiSpacialConsts, OneOrTwo};
use aoui::flex::util::SpriteAnchor;
use aoui::layout::util::{Alignment, LayoutDir};
use aoui::anim::Playback;
use aoui::dimension::{Dimension, DimensionType, DimensionData, DimensionMutItem, DimensionMutReadOnlyItem};
use aoui::units::{Size, Size2, SizeUnit, FontSize, Vec2Bits};

#[test]
fn spacial_consts_name_anchors_alignments_and_directions() {
    assert_eq!(AouiSpacialConsts::Top.to_anchor(), SpriteAnchor::TopCenter);
    assert_eq!(AouiSpacialConsts::Left.to_anchor(), SpriteAnchor::CenterLeft);
    assert_eq!(AouiSpacialConsts::BottomRight.to_anchor(), SpriteAnchor::BottomRight);
    assert_eq!(AouiSpacialConsts::Right.to_alignment(), Alignment::Right);
    assert_eq!(AouiSpacialConsts::Center.to_alignment(), Alignment::Center);
    assert_eq!(AouiSpacialConsts::TopToBottom.to_layout_dir(), LayoutDir::TopToBottom);
    assert_eq!(AouiSpacialConsts::LeftToRight.to_layout_dir(), LayoutDir::LeftToRight);
    assert_eq!(OneOrTwo(3).0, 3);
}

#[test]
fn playback_once() {
    assert!(Playback::default().is_once());
    assert!(!Playback::Loop.is_once());
    assert!(!Playback::Repeat.is_once());
}

#[test]
fn dimension_kinds() {
    let px = Dimension::pixels(Vec2Bits { x: 2.0f32.to_bits(), y: 3.0f32.to_bits() });
    assert!(px.is_owned());
    assert!(!px.is_copied());
    assert_eq!(px.dimension, DimensionType::Owned(Size2::pixels(2.0f32.to_bits(), 3.0f32.to_bits())));
    assert!(Dimension::COPIED().is_copied());
    assert_eq!(Dimension::default(), Dimension::COPIED());
    assert_eq!(Dimension::INHERIT().dimension, DimensionType::Owned(Size2::FULL()));
    let em = Dimension::owned(Size2::ZERO()).with_preserve_aspect(true).with_em(FontSize::Ems(2));
    assert_eq!(em.font_size, FontSize::Ems(2));
    assert!(!em.preserve_aspect);
    let dynamic = Dimension { dimension: DimensionType::Dynamic, ..Dimension::COPIED() };
    let data = DimensionData { size: Vec2Bits { x: 1, y: 2 }, aspect: 0, em: 0 };
    let item = DimensionMutItem { source: &dynamic, dynamic: &data };
    assert!(!item.is_owned() && !item.is_copied());
    assert_eq!(item.size(), Vec2Bits { x: 1, y: 2 });
    let ro = DimensionMutReadOnlyItem { source: &px, dynamic: &data };
    assert!(ro.is_owned() && !ro.is_copied());
    assert_eq!(ro.size(), Vec2Bits { x: 1, y: 2 });
    assert_eq!(Dimension::percentage(Vec2Bits { x: 1, y: 1 }).dimension, DimensionType::Owned(Size2::percent(1, 1)));
}

#[test]
fn font_size_from_size() {
    assert_eq!(FontSize::from_size(Size::new(SizeUnit::Pixels, 12.0f32.to_bits())), FontSize::Pixels(12.0f32.to_bits()));
    assert_eq!(FontSize::from_size(Size::new(SizeUnit::Em, 2.0f32.to_bits())), FontSize::Ems(2.0f32.to_bits()));
    assert_eq!(FontSize::from_size(Size::new(SizeUnit::Rem, 1.5f32.to_bits())), FontSize::Rems(1.5f32.to_bits()));
    assert_ne!(FontSize::from_size(Size::new(SizeUnit::Em, 3)), FontSize::Rems(3));
}
