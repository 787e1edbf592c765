use cloudinary::transformation::aspect_ratio::AspectRatio;
use cloudinary::transformation::pad_mode::PadMode;
use cloudinary::transformation::parse::ParseError;
use cloudinary::transformation::resize_mode::ResizeMode;
use cloudinary::transformation::{Image, Transformations};

#[test]
fn from_url_with_transformations() {
    let image = Image::try_from_url(
        "https://res.cloudinary.com/i/image/upload/c_scale,h_800,q_auto/v1233456678/path/name.jpg",
    )
    .unwrap();

    assert_eq!(image.cloud_name, "i");
    assert_eq!(image.public_id, "path/name");
    assert_eq!(image.get_format(), Some("jpg".to_string()));
}

#[test]
fn from_url_without_transformations() {
    let image = Image::try_from_url(
        "https://res.cloudinary.com/cloud/image/upload/v1233456678/path/with%20space/name.png",
    )
    .unwrap();

    assert_eq!(image.cloud_name, "cloud");
    assert_eq!(image.public_id, "path/with%20space/name");
    assert_eq!(image.get_format(), Some("png".to_string()));
}

#[test]
fn from_url_without_version() {
    let image = Image::try_from_url(
        "https://res.cloudinary.com/test/image/upload/path/with%20space/name.png",
    )
    .unwrap();

    assert_eq!(image.cloud_name, "test");
    assert_eq!(image.public_id, "path/with%20space/name");
    assert_eq!(image.get_format(), Some("png".to_string()));
}

#[test]
fn set_format() {
    let mut image = Image::new("test".into(), "path/name".into());
    image.set_format("png");
    assert_eq!(
        image.build(),
        "https://res.cloudinary.com/test/image/upload/path/name.png"
    );
}

#[test]
fn replace_format() {
    let mut image = Image::try_from_url(
        "https://res.cloudinary.com/i/image/upload/c_scale,h_800,q_auto/path/name.jpg",
    )
    .unwrap();

    image.set_format("png");
    assert_eq!(
        image.build(),
        "https://res.cloudinary.com/i/image/upload/path/name.png"
    );
}

#[test]
fn add_scale() {
    let image = Image::new("test".into(), "path/name".into()).add_transformation(
        Transformations::Resize(ResizeMode::Scale { width: 100, height: 100, liquid: None }),
    );
    assert_eq!(
        image.build(),
        "https://res.cloudinary.com/test/image/upload/c_scale,w_100,h_100/path/name"
    );
}

#[test]
fn add_scale_by_width() {
    let image = Image::new("test".into(), "path/name".into()).add_transformation(
        Transformations::Resize(ResizeMode::ScaleByWidth { width: 100, ar: None, liquid: None }),
    );
    assert_eq!(
        image.build(),
        "https://res.cloudinary.com/test/image/upload/c_scale,w_100/path/name"
    );
}

#[test]
fn add_scale_by_height() {
    let image_url = Image::new("test".into(), "path/name".into())
        .add_transformation(Transformations::Resize(ResizeMode::ScaleByHeight {
            height: 100,
            ar: None,
            liquid: None,
        }))
        .build();
    assert_eq!(
        image_url,
        "https://res.cloudinary.com/test/image/upload/c_scale,h_100/path/name"
    );
}

#[test]
fn add_scale_by_width_with_aspect_ratio() {
    let image = Image::new("test".into(), "path/name".into()).add_transformation(
        Transformations::Resize(ResizeMode::ScaleByWidth {
            width: 100,
            ar: Some(AspectRatio::Sides(16, 9)),
            liquid: None,
        }),
    );
    assert_eq!(
        image.build(),
        "https://res.cloudinary.com/test/image/upload/ar_16:9,c_scale,w_100/path/name"
    );
}

#[test]
fn add_scale_by_height_with_aspect_ratio() {
    let image = Image::new("test".into(), "path/name".into()).add_transformation(
        Transformations::Resize(ResizeMode::ScaleByHeight {
            height: 100,
            ar: Some(AspectRatio::Result("0.5".to_string())),
            liquid: None,
        }),
    );
    assert_eq!(
        image.build(),
        "https://res.cloudinary.com/test/image/upload/ar_0.5,c_scale,h_100/path/name"
    );
}

#[test]
fn add_scale_by_width_with_aspect_ratio_and_liquid() {
    let image_url = Image::new("test".into(), "path/name".into())
        .add_transformation(Transformations::Resize(ResizeMode::ScaleByWidth {
            width: 100,
            ar: Some(AspectRatio::Sides(16, 9)),
            liquid: Some(()),
        }))
        .build();
    assert_eq!(
        image_url,
        "https://res.cloudinary.com/test/image/upload/ar_16:9,c_scale,w_100,g_liquid/path/name"
    );
}

#[test]
fn scale_ignore_aspect_ratio() {
    let image_url = Image::new("test".into(), "path/name".into())
        .add_transformation(Transformations::Resize(ResizeMode::ScaleByWidth {
            width: 100,
            ar: Some(AspectRatio::Ignore),
            liquid: None,
        }))
        .build();
    assert_eq!(
        image_url,
        "https://res.cloudinary.com/test/image/upload/fl_ignore_aspect_ratio,c_scale,w_100/path/name"
    );
}

#[test]
fn from_url_with_dots_in_transformation() {
    let image =
        Image::try_from_url("https://res.cloudinary.com/test/image/upload/ar_0.5,foo/1.jpg")
            .unwrap();

    assert_eq!(image.cloud_name, "test");
    assert_eq!(image.public_id, "1");
    assert_eq!(image.get_format(), Some("jpg".to_string()));
}

#[test]
fn from_url_with_dots_in_public_id() {
    let image =
        Image::try_from_url("https://res.cloudinary.com/test/image/upload/ar_0.5,foo/1.2.jpg")
            .unwrap();

    assert_eq!(image.cloud_name, "test");
    assert_eq!(image.public_id, "1.2");
    assert_eq!(image.get_format(), Some("jpg".to_string()));
}

#[test]
fn from_url_without_extension() {
    let image = Image::try_from_url(
        "https://res.cloudinary.com/test/image/upload/ar_0.5,foo/v1640995200/1",
    )
    .unwrap();

    assert_eq!(image.cloud_name, "test");
    assert_eq!(image.public_id, "1");
    assert_eq!(image.get_format(), None);
}

#[test]
fn pad_mode() {
    let image_url = Image::new("test".into(), "path/name".into())
        .add_transformation(Transformations::Pad(PadMode::PadByWidth {
            width: 100,
            ar: None,
            background: None,
            gravity: None,
        }))
        .build();
    assert_eq!(
        image_url,
        "https://res.cloudinary.com/test/image/upload/c_pad,w_100/path/name"
    );
}

#[test]
fn liquid_rescale_with_aspect_ratio_order() {
    let image_url = Image::new("test".into(), "path/name".into())
        .add_transformation(Transformations::Resize(ResizeMode::ScaleByWidth {
            width: 100,
            ar: Some(AspectRatio::Sides(16, 9)),
            liquid: Some(()),
        }))
        .build();
    assert_eq!(
        image_url,
        "https://res.cloudinary.com/test/image/upload/ar_16:9,c_scale,w_100,g_liquid/path/name"
    );
}

#[test]
fn format_replacement_keeps_one_extension() {
    let mut image = Image::new("test".into(), "path/name".into());
    image.set_format("jpg");
    image.set_format("png");
    let url = image.build();
    assert!(url.ends_with("path/name.png"));
    assert_eq!(url.matches("path/name").count(), 1);
    assert_eq!(
        url,
        "https://res.cloudinary.com/test/image/upload/path/name.png"
    );
}

#[test]
fn round_trip_without_transformations() {
    let mut image = Image::new("demo".into(), "sample".into());
    image.set_format("gif");
    let url = image.build();
    let parsed = Image::try_from_url(url.as_str()).unwrap();
    assert_eq!(parsed.cloud_name, "demo");
    assert_eq!(parsed.public_id, "sample");
    assert_eq!(parsed.get_format(), Some("gif".to_string()));

    let bare = Image::new("demo".into(), "sample".into()).build();
    let parsed = Image::try_from_url(bare.as_str()).unwrap();
    assert_eq!(parsed.cloud_name, "demo");
    assert_eq!(parsed.public_id, "sample");
    assert_eq!(parsed.get_format(), None);
}

#[test]
fn render_is_deterministic() {
    let t = Transformations::Pad(PadMode::Pad {
        width: 10,
        height: 20,
        background: None,
        gravity: None,
    });
    assert_eq!(t.to_segment(), t.to_segment());
}

#[test]
fn parse_empty_input() {
    assert_eq!(Image::try_from_url("").unwrap_err(), ParseError::EmptyInput);
}

#[test]
fn parse_foreign_host() {
    assert_eq!(
        Image::try_from_url("https://example.com/test/image/upload/a.jpg").unwrap_err(),
        ParseError::NotThisService
    );
}

#[test]
fn parse_missing_scheme() {
    assert_eq!(
        Image::try_from_url("res.cloudinary.com/test/image/upload/a.jpg").unwrap_err(),
        ParseError::NotThisService
    );
}

#[test]
fn parse_unsupported_asset_kind() {
    assert_eq!(
        Image::try_from_url("https://res.cloudinary.com/test/video/upload/a.jpg").unwrap_err(),
        ParseError::UnsupportedAssetKind
    );
}

#[test]
fn parse_invalid_delivery_mode() {
    assert_eq!(
        Image::try_from_url("https://res.cloudinary.com/test/image/download/a.jpg").unwrap_err(),
        ParseError::InvalidDeliveryMode
    );
}

#[test]
fn parse_missing_namespace() {
    assert_eq!(
        Image::try_from_url("https://res.cloudinary.com").unwrap_err(),
        ParseError::MissingNamespace
    );
    assert_eq!(
        Image::try_from_url("https://res.cloudinary.com//image/upload/a.jpg").unwrap_err(),
        ParseError::MissingNamespace
    );
}

#[test]
fn parse_missing_asset_id() {
    assert_eq!(
        Image::try_from_url("https://res.cloudinary.com/test/image/upload").unwrap_err(),
        ParseError::MissingAssetId
    );
    assert_eq!(
        Image::try_from_url("https://res.cloudinary.com/test/image/upload/c_scale,w_100")
            .unwrap_err(),
        ParseError::MissingAssetId
    );
}

#[test]
fn end_to_end_resize_by_width() {
    let image = Image::new("test".into(), "path/name".into()).add_transformation(
        Transformations::Resize(ResizeMode::ScaleByWidth {
            width: 100,
            ar: Some(AspectRatio::Sides(16, 9)),
            liquid: Some(()),
        }),
    );
    assert_eq!(
        image.build(),
        "https://res.cloudinary.com/test/image/upload/ar_16:9,c_scale,w_100,g_liquid/path/name"
    );
}

#[test]
fn large_width_renders_in_full() {
    let image = Image::new("test".into(), "i".into()).add_transformation(
        Transformations::Resize(ResizeMode::ScaleByWidth {
            width: 4294967295,
            ar: None,
            liquid: None,
        }),
    );
    assert_eq!(
        image.build(),
        "https://res.cloudinary.com/test/image/upload/c_scale,w_4294967295/i"
    );
}
