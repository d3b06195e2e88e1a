use kms_render::rotation::RenderingRotation;
use kms_render::PhysicalSize;

#[test]
fn zero_rotation_is_identity() {
    let size = PhysicalSize::new(1920, 1080);
    assert_eq!(RenderingRotation::NoRotation.degrees(), 0);
    assert_eq!(RenderingRotation::NoRotation.translation_after_rotation(size), (0, 0));
}

#[test]
fn quarter_turn_degrees() {
    assert_eq!(RenderingRotation::Rotate90.degrees(), 90);
    assert_eq!(RenderingRotation::Rotate180.degrees(), 180);
    assert_eq!(RenderingRotation::Rotate270.degrees(), 270);
}

#[test]
fn quarter_turn_translations_keep_content_in_bounds() {
    let size = PhysicalSize::new(1920, 1080);
    assert_eq!(RenderingRotation::Rotate90.translation_after_rotation(size), (1920, 0));
    assert_eq!(RenderingRotation::Rotate180.translation_after_rotation(size), (1920, 1080));
    assert_eq!(RenderingRotation::Rotate270.translation_after_rotation(size), (0, 1080));
}

#[test]
fn translations_on_a_narrow_display() {
    let size = PhysicalSize::new(600, 1024);
    assert_eq!(RenderingRotation::NoRotation.translation_after_rotation(size), (0, 0));
    assert_eq!(RenderingRotation::Rotate90.translation_after_rotation(size), (600, 0));
    assert_eq!(RenderingRotation::Rotate180.translation_after_rotation(size), (600, 1024));
    assert_eq!(RenderingRotation::Rotate270.translation_after_rotation(size), (0, 1024));
}
