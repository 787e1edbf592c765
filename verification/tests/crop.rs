use cloudinary::transformation::aspect_ratio::AspectRatio;
use cloudinary::transformation::crop_mode::CropMode;
use cloudinary::transformation::gravity::Gravity;

#[test]
fn test_fill_by_width() {
    assert_eq!(
        CropMode::FillByWidth { width: 100, ar: None, gravity: None }.to_segment(),
        "c_fill,w_100"
    );
    assert_eq!(
        CropMode::FillByWidth { width: 100, ar: Some(AspectRatio::Ignore), gravity: None }
            .to_segment(),
        "fl_ignore_aspect_ratio,c_fill,w_100"
    );

    assert_eq!(
        CropMode::FillByWidth {
            width: 100,
            ar: Some(AspectRatio::Sides(16, 9)),
            gravity: Some(Gravity::North),
        }
        .to_segment(),
        "ar_16:9,c_fill,g_north,w_100"
    );
}

#[test]
fn test_fill_by_height() {
    assert_eq!(
        CropMode::FillByHeight { height: 100, ar: None, gravity: None }.to_segment(),
        "c_fill,h_100"
    );
    assert_eq!(
        CropMode::FillByHeight { height: 100, ar: Some(AspectRatio::Ignore), gravity: None }
            .to_segment(),
        "fl_ignore_aspect_ratio,c_fill,h_100"
    );

    assert_eq!(
        CropMode::FillByHeight {
            height: 100,
            ar: Some(AspectRatio::Sides(16, 9)),
            gravity: Some(Gravity::North),
        }
        .to_segment(),
        "ar_16:9,c_fill,g_north,h_100"
    );
}

#[test]
fn test_fill() {
    assert_eq!(
        CropMode::Fill { width: 100, height: 100, gravity: None }.to_segment(),
        "c_fill,w_100,h_100"
    );
    assert_eq!(
        CropMode::Fill { width: 100, height: 100, gravity: Some(Gravity::AutoClassic) }
            .to_segment(),
        "c_fill,g_auto:classic,w_100,h_100"
    );
}
