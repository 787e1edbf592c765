use cloudinary::transformation::gravity::Gravity;

#[test]
fn test_gravity_to_string() {
    assert_eq!(Gravity::NorthEast.to_token(), "g_north_east");
    assert_eq!(Gravity::North.to_token(), "g_north");
    assert_eq!(Gravity::NorthWest.to_token(), "g_north_west");
    assert_eq!(Gravity::West.to_token(), "g_west");
    assert_eq!(Gravity::SouthWest.to_token(), "g_south_west");
    assert_eq!(Gravity::South.to_token(), "g_south");
    assert_eq!(Gravity::SouthEast.to_token(), "g_south_east");
    assert_eq!(Gravity::East.to_token(), "g_east");
    assert_eq!(Gravity::Center.to_token(), "g_center");
    assert_eq!(Gravity::AdvEyes.to_token(), "g_adv_eyes");
    assert_eq!(Gravity::AdvFace.to_token(), "g_adv_face");
    assert_eq!(Gravity::AdvFaces.to_token(), "g_adv_faces");
    assert_eq!(Gravity::Custom.to_token(), "g_custom");
    assert_eq!(Gravity::CustomFace.to_token(), "g_custom:face");
    assert_eq!(Gravity::CustomAdvFace.to_token(), "g_custom:adv_face");
    assert_eq!(Gravity::CustomAdvFaces.to_token(), "g_custom:adv_faces");
    assert_eq!(Gravity::CustomFaces.to_token(), "g_custom:faces");
    assert_eq!(Gravity::Face.to_token(), "g_face");
    assert_eq!(Gravity::FaceCenter.to_token(), "g_face:center");
    assert_eq!(Gravity::FaceAuto.to_token(), "g_face:auto");
    assert_eq!(Gravity::Faces.to_token(), "g_faces");
    assert_eq!(Gravity::FacesCenter.to_token(), "g_faces:center");
    assert_eq!(Gravity::FacesAuto.to_token(), "g_faces:auto");
    assert_eq!(Gravity::OcrText.to_token(), "g_ocr_text");
    assert_eq!(Gravity::AutoSubject.to_token(), "g_auto:subject");
    assert_eq!(Gravity::AutoClassic.to_token(), "g_auto:classic");
}
