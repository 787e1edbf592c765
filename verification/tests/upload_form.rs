use cloudinary::upload::{OptionalParameters, Upload};
use cloudinary::Cloudinary;

#[test]
fn upload_form_fields_without_options() {
    let upload = Upload::new("key".to_string(), "cloud".to_string(), "secret".to_string());
    let fields = upload.build_form_fields(&vec![], "123");
    assert_eq!(
        fields,
        vec![
            (
                "signature".to_string(),
                "e2c57d943270b436ba686ed58218eed245ec23a1".to_string()
            ),
            ("api_key".to_string(), "key".to_string()),
            ("timestamp".to_string(), "123".to_string()),
        ]
    );
}

#[test]
fn upload_form_fields_with_public_id() {
    let upload = Upload::new("key".to_string(), "cloud".to_string(), "secret".to_string());
    let options = vec![OptionalParameters::PublicId("file.jpg".to_string())];
    let fields = upload.build_form_fields(&options, "123");
    assert_eq!(
        fields,
        vec![
            ("public_id".to_string(), "file.jpg".to_string()),
            (
                "signature".to_string(),
                "3d5b4fac39419ab815918b9319f2a9d44361da77".to_string()
            ),
            ("api_key".to_string(), "key".to_string()),
            ("timestamp".to_string(), "123".to_string()),
        ]
    );
}

#[test]
fn upload_form_fields_exclude_resource_type_from_signature() {
    let upload = Upload::new("key".to_string(), "cloud".to_string(), "secret".to_string());
    let options = vec![
        OptionalParameters::PublicId("file.jpg".to_string()),
        OptionalParameters::ResourceType(cloudinary::upload::ResourceTypes::Raw),
    ];
    let fields = upload.build_form_fields(&options, "123");
    // the resource type is a form field but does not change the signature
    assert_eq!(fields[0], ("public_id".to_string(), "file.jpg".to_string()));
    assert_eq!(fields[1], ("resource_type".to_string(), "raw".to_string()));
    assert_eq!(
        fields[2],
        (
            "signature".to_string(),
            "3d5b4fac39419ab815918b9319f2a9d44361da77".to_string()
        )
    );
}

#[test]
fn upload_endpoints() {
    let upload = Upload::new("key".to_string(), "cloud".to_string(), "secret".to_string());
    assert_eq!(
        upload.upload_url(),
        "https://api.cloudinary.com/v1_1/cloud/image/upload"
    );
    assert_eq!(
        upload.destroy_url(),
        "https://api.cloudinary.com/v1_1/cloud/image/destroy"
    );
}

#[test]
fn cloudinary_form_fields() {
    let cloudinary = Cloudinary::new("key".to_string(), "cloud".to_string(), "secret".to_string());
    let options = vec![
        ("public_id".to_string(), "x".to_string()),
        ("resource_type".to_string(), "raw".to_string()),
    ];
    let fields = cloudinary.build_form_fields(&options, "123");
    assert_eq!(
        fields,
        vec![
            ("api_key".to_string(), "key".to_string()),
            ("timestamp".to_string(), "123".to_string()),
            ("resource_type".to_string(), "raw".to_string()),
            (
                "signature".to_string(),
                "45f949ce5142be0ea03b010b9bbf3d1505584e1c".to_string()
            ),
            ("public_id".to_string(), "x".to_string()),
        ]
    );
}

#[test]
fn tag_list_url() {
    assert_eq!(
        cloudinary::tags::tag_list_url("cloud", "kitten"),
        "https://res.cloudinary.com/cloud/image/list/kitten.json"
    );
}
