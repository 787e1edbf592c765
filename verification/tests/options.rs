use cloudinary::transformation::crop_mode::CropMode;
use cloudinary::transformation::pad_mode::PadMode;
use cloudinary::transformation::Transformations;
use cloudinary::upload::{
    AccessModes, AllowedHeaders, BackgroundRemoval, Categorizations, DeliveryType, Moderation,
    OptionalParameters, RawConvert, ResourceTypes, ResponsiveBreakpoints,
};

#[test]
fn public_id() {
    assert_eq!(
        OptionalParameters::PublicId("id".to_string()).get_pair(),
        ("public_id".to_string(), "id".to_string())
    )
}

#[test]
fn public_id_prefix() {
    assert_eq!(
        OptionalParameters::PublicIdPrefix("prefix".to_string()).get_pair(),
        ("public_id_prefix".to_string(), "prefix".to_string())
    )
}

#[test]
fn display_name() {
    assert_eq!(
        OptionalParameters::DisplayName("name".to_string()).get_pair(),
        ("display_name".to_string(), "name".to_string())
    )
}

#[test]
fn asset_folder() {
    assert_eq!(
        OptionalParameters::AssetFolder("folder".to_string()).get_pair(),
        ("asset_folder".to_string(), "folder".to_string())
    )
}

#[test]
fn use_asset_folder_as_public_id_prefix() {
    assert_eq!(
        OptionalParameters::UseAssetFolderAsPublicIdPrefix(true).get_pair(),
        (
            "use_asset_folder_as_public_id_prefix".to_string(),
            "true".to_string()
        )
    )
}

#[test]
fn folder() {
    assert_eq!(
        OptionalParameters::Folder("value".to_string()).get_pair(),
        ("folder".to_string(), "value".to_string())
    )
}

#[test]
fn use_filename() {
    assert_eq!(
        OptionalParameters::UseFileName(false).get_pair(),
        ("use_filename".to_string(), "false".to_string())
    )
}

#[test]
fn use_filename_as_display_name() {
    assert_eq!(
        OptionalParameters::UseFilenameAsDisplayName(false).get_pair(),
        (
            "use_filename_as_display_name".to_string(),
            "false".to_string()
        )
    )
}

#[test]
fn unique_filename() {
    assert_eq!(
        OptionalParameters::UniqueFilename(true).get_pair(),
        ("unique_filename".to_string(), "true".to_string())
    )
}

#[test]
fn filename_override() {
    assert_eq!(
        OptionalParameters::FilenameOverride("value".to_string()).get_pair(),
        ("filename_override".to_string(), "value".to_string())
    )
}

#[test]
fn resource_type() {
    assert_eq!(
        OptionalParameters::ResourceType(ResourceTypes::Raw).get_pair(),
        ("resource_type".to_string(), "raw".to_string())
    );
    assert_eq!(
        OptionalParameters::ResourceType(ResourceTypes::Auto).get_pair(),
        ("resource_type".to_string(), "auto".to_string())
    );
    assert_eq!(
        OptionalParameters::ResourceType(ResourceTypes::Image).get_pair(),
        ("resource_type".to_string(), "image".to_string())
    );
    assert_eq!(
        OptionalParameters::ResourceType(ResourceTypes::Video).get_pair(),
        ("resource_type".to_string(), "video".to_string())
    );
}

#[test]
fn type_() {
    assert_eq!(
        OptionalParameters::Type(DeliveryType::Authenticated).get_pair(),
        ("type".to_string(), "authenticated".to_string())
    );
    assert_eq!(
        OptionalParameters::Type(DeliveryType::Private).get_pair(),
        ("type".to_string(), "private".to_string())
    );
    assert_eq!(
        OptionalParameters::Type(DeliveryType::Upload).get_pair(),
        ("type".to_string(), "upload".to_string())
    );
}

#[test]
fn access_control() {
    assert_eq!(
        OptionalParameters::AccessControl("control".to_string()).get_pair(),
        ("access_control".to_string(), "control".to_string())
    );
}

#[test]
fn access_mode() {
    assert_eq!(
        OptionalParameters::AccessMode(AccessModes::Authenticated).get_pair(),
        ("access_mode".to_string(), "authenticated".to_string())
    );
    assert_eq!(
        OptionalParameters::AccessMode(AccessModes::Public).get_pair(),
        ("access_mode".to_string(), "public".to_string())
    );
}

#[test]
fn discard_original_filename() {
    assert_eq!(
        OptionalParameters::DiscardOriginalFilename(true).get_pair(),
        ("discard_original_filename".to_string(), "true".to_string())
    );
}

#[test]
fn overwrite() {
    assert_eq!(
        OptionalParameters::Overwrite(true).get_pair(),
        ("overwrite".to_string(), "true".to_string())
    );
}

#[test]
fn tags() {
    let tags = vec!["one".to_string(), "two".to_string()];
    assert_eq!(
        OptionalParameters::Tags(tags).get_pair(),
        ("tags".to_string(), "one,two".to_string())
    );
}

#[test]
fn context() {
    let ctx = vec![
        ("one".to_string(), "two".to_string()),
        ("1".to_string(), "2".to_string()),
    ];
    assert_eq!(
        OptionalParameters::Context(ctx).get_pair(),
        ("context".to_string(), "one=two|1=2".to_string())
    );
}

#[test]
fn metadata() {
    let md = vec![
        ("one".to_string(), "two".to_string()),
        ("1".to_string(), "2".to_string()),
    ];
    assert_eq!(
        OptionalParameters::Metadata(md).get_pair(),
        ("metadata".to_string(), "one=two|1=2".to_string())
    );
}

#[test]
fn clear_invalid() {
    assert_eq!(
        OptionalParameters::ClearInvalid(true).get_pair(),
        ("clear_invalid".to_string(), "true".to_string())
    );
}

#[test]
fn colors() {
    assert_eq!(
        OptionalParameters::Colors(true).get_pair(),
        ("colors".to_string(), "true".to_string())
    );
}

#[test]
fn faces() {
    assert_eq!(
        OptionalParameters::Faces(true).get_pair(),
        ("faces".to_string(), "true".to_string())
    );
}

#[test]
fn quality_analysis() {
    assert_eq!(
        OptionalParameters::QualityAnalysis(true).get_pair(),
        ("quality_analysis".to_string(), "true".to_string())
    );
}

#[test]
fn accessibility_analysis() {
    assert_eq!(
        OptionalParameters::AccessibilityAnalysis(true).get_pair(),
        ("accessibility_analysis".to_string(), "true".to_string())
    );
}

#[test]
fn cinemagraph_analysis() {
    assert_eq!(
        OptionalParameters::CinemagraphAnalysis(true).get_pair(),
        ("cinemagraph_analysis".to_string(), "true".to_string())
    );
}

#[test]
fn media_metadata() {
    assert_eq!(
        OptionalParameters::MediaMetadata(true).get_pair(),
        ("media_metadata".to_string(), "true".to_string())
    );
}

#[test]
fn phash() {
    assert_eq!(
        OptionalParameters::Phash(true).get_pair(),
        ("phash".to_string(), "true".to_string())
    );
}

#[test]
fn responsive_breakpoints() {
    let breakpoints: Vec<ResponsiveBreakpoints> = vec![
        ResponsiveBreakpoints::new(true),
        ResponsiveBreakpoints {
            create_derived: false,
            format: Some(String::from("foo")),
            transformation: Some(String::from("tar")),
            max_width: Some(2),
            min_width: Some(1),
            bytes_step: Some(3),
            max_images: Some(4),
        },
    ];
    assert_eq!(
        OptionalParameters::ResponsiveBreakpoints(breakpoints).get_pair(),
        (
            "responsive_breakpoints".to_string(),
            "['{\"create_derived\":true}', '{\"create_derived\":false,\"format\":\"foo\",\"transformation\":\"tar\",\"max_width\":2,\"min_width\":1,\"bytes_step\":3,\"max_images\":4}']".to_string()
        )
    );
}

#[test]
fn auto_tagging() {
    assert_eq!(
        OptionalParameters::AutoTagging("0.4".to_string()).get_pair(),
        ("auto_tagging".to_string(), "0.4".to_string())
    );
}

#[test]
fn categorization() {
    assert_eq!(
        OptionalParameters::Categorization(Categorizations::Imagga).get_pair(),
        ("categorization".to_string(), "imagga_tagging".to_string())
    );
}

#[test]
fn detection() {
    assert_eq!(
        OptionalParameters::Detection("yolo".to_string()).get_pair(),
        ("detection".to_string(), "yolo".to_string())
    );
}

#[test]
fn auto_chaptering() {
    assert_eq!(
        OptionalParameters::AutoChaptering(true).get_pair(),
        ("auto_chaptering".to_string(), "true".to_string())
    );
}

#[test]
fn auto_transcription() {
    assert_eq!(
        OptionalParameters::AutoTranscription(false).get_pair(),
        ("auto_transcription".to_string(), "false".to_string())
    );
}

#[test]
fn ocr() {
    assert_eq!(
        OptionalParameters::Ocr.get_pair(),
        ("ocr".to_string(), "adv_ocr".to_string())
    );
}

#[test]
fn visual_search() {
    assert_eq!(
        OptionalParameters::VisualSearch(false).get_pair(),
        ("visual_search".to_string(), "false".to_string())
    );
}

#[test]
fn eager() {
    let transformations: Vec<Transformations> = vec![
        Transformations::Crop(CropMode::Fill { width: 1, height: 2, gravity: None }),
        Transformations::Pad(PadMode::Pad {
            width: 3,
            height: 4,
            background: None,
            gravity: None,
        }),
    ];
    assert_eq!(
        OptionalParameters::Eager(transformations).get_pair(),
        ("eager".to_string(), "c_fill,w_1,h_2|c_pad,w_3,h_4".to_string())
    );
}

#[test]
fn eager_async() {
    assert_eq!(
        OptionalParameters::EagerAsync(true).get_pair(),
        ("eager_async".to_string(), "true".to_string())
    );
}

#[test]
fn eager_notification_url() {
    assert_eq!(
        OptionalParameters::EagerNotificationUrl("localhost:3000".to_string()).get_pair(),
        (
            "eager_notification_url".to_string(),
            "localhost:3000".to_string()
        )
    );
}

#[test]
fn transformation() {
    let transformations: Vec<Transformations> = vec![
        Transformations::Crop(CropMode::Fill { width: 1, height: 2, gravity: None }),
        Transformations::Pad(PadMode::Pad {
            width: 3,
            height: 4,
            background: None,
            gravity: None,
        }),
    ];

    assert_eq!(
        OptionalParameters::Transformation(transformations).get_pair(),
        (
            "transformation".to_string(),
            "c_fill,w_1,h_2/c_pad,w_3,h_4".to_string()
        )
    );
}

#[test]
fn format() {
    assert_eq!(
        OptionalParameters::Format("jpg".to_string()).get_pair(),
        ("format".to_string(), "jpg".to_string())
    );
}

#[test]
fn custom_coordinates() {
    assert_eq!(
        OptionalParameters::CustomCoordinates([4, 3, 2, 1]).get_pair(),
        ("custom_coordinates".to_string(), "4,3,2,1".to_string())
    );
}

#[test]
fn regions() {
    let data = vec![
        ("name".to_string(), vec![[1, 2], [3, 4]]),
        ("name2".to_string(), vec![[9, 8], [7, 6]]),
    ];
    assert_eq!(
        OptionalParameters::Regions(data).get_pair(),
        (
            "regions".to_string(),
            "{\"name\":[[1,2],[3,4]],\"name2\":[[9,8],[7,6]]}".to_string()
        )
    );
}

#[test]
fn face_coordinates() {
    assert_eq!(
        OptionalParameters::FaceCoordinates(Vec::from([[1, 2, 3, 4], [9, 8, 7, 6]])).get_pair(),
        ("face_coordinates".to_string(), "1,2,3,4|9,8,7,6".to_string())
    );
}

#[test]
fn allowed_formats() {
    assert_eq!(
        OptionalParameters::AllowedFormats(Vec::from(["jpg".to_string(), "gif".to_string()]))
            .get_pair(),
        ("allowed_formats".to_string(), "jpg,gif".to_string())
    );
}

#[test]
fn async_() {
    assert_eq!(
        OptionalParameters::Async(true).get_pair(),
        ("async".to_string(), "true".to_string())
    );
}

#[test]
fn backup() {
    assert_eq!(
        OptionalParameters::Backup(true).get_pair(),
        ("backup".to_string(), "true".to_string())
    );
}

#[test]
fn callback() {
    assert_eq!(
        OptionalParameters::Callback("localhost:3000".to_string()).get_pair(),
        ("callback".to_string(), "localhost:3000".to_string())
    );
}

#[test]
fn eval() {
    assert_eq!(
        OptionalParameters::Eval("Look ma I am Javascript".to_string()).get_pair(),
        ("eval".to_string(), "Look ma I am Javascript".to_string())
    );
}

#[test]
fn on_success() {
    assert_eq!(
        OptionalParameters::OnSuccess("Look ma I am Javascript, again".to_string()).get_pair(),
        (
            "on_success".to_string(),
            "Look ma I am Javascript, again".to_string()
        )
    );
}

#[test]
fn headers() {
    assert_eq!(
        OptionalParameters::Headers(Vec::from([AllowedHeaders::Link(
            "<localhost:3000>;".to_string()
        )]))
        .get_pair(),
        ("headers".to_string(), "Link: <localhost:3000>;".to_string())
    );
}

#[test]
fn invalidate() {
    assert_eq!(
        OptionalParameters::Invalidate(true).get_pair(),
        ("invalidate".to_string(), "true".to_string())
    );
}

#[test]
fn moderation() {
    let moderation = vec![Moderation::Duplicate("0.1".to_string())];
    assert_eq!(
        OptionalParameters::Moderation(moderation).get_pair(),
        ("moderation".to_string(), "duplicate:0.1".to_string())
    );
}

#[test]
fn multiple_moderation() {
    let moderation = vec![Moderation::Duplicate("0.1".to_string()), Moderation::Manual];
    assert_eq!(
        OptionalParameters::Moderation(moderation).get_pair(),
        ("moderation".to_string(), "duplicate:0.1|manual".to_string())
    );
}

#[test]
fn notification_url() {
    assert_eq!(
        OptionalParameters::NotificationUrl("localhost:3000".to_string()).get_pair(),
        ("notification_url".to_string(), "localhost:3000".to_string())
    )
}

#[test]
fn proxy() {
    assert_eq!(
        OptionalParameters::Proxy("localhost:3000".to_string()).get_pair(),
        ("proxy".to_string(), "localhost:3000".to_string())
    )
}

#[test]
fn return_delete_token() {
    assert_eq!(
        OptionalParameters::ReturnDeleteToken(false).get_pair(),
        ("return_delete_token".to_string(), "false".to_string())
    )
}

#[test]
fn background_removal() {
    assert_eq!(
        OptionalParameters::BackgroundRemoval(BackgroundRemoval::Pixelz).get_pair(),
        ("background_removal".to_string(), "pixelz".to_string())
    )
}

#[test]
fn raw_convert() {
    assert_eq!(
        OptionalParameters::RawConvert(RawConvert::ExtractText).get_pair(),
        ("raw_convert".to_string(), "extract_text".to_string())
    )
}

#[test]
fn moderation_equality_ignores_threshold() {
    assert_eq!(
        Moderation::Duplicate("0.1".to_string()),
        Moderation::Duplicate("0.9".to_string())
    );
    assert_ne!(Moderation::Manual, Moderation::Webpurify);
}

#[test]
fn breakpoints_json_escapes_strings() {
    let b = ResponsiveBreakpoints {
        create_derived: false,
        format: Some("a\"b\\c".to_string()),
        transformation: None,
        max_width: None,
        min_width: None,
        bytes_step: None,
        max_images: None,
    };
    assert_eq!(
        b.to_json(),
        "{\"create_derived\":false,\"format\":\"a\\\"b\\\\c\"}"
    );
}
