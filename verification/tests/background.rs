use cloudinary::transformation::background::{Auto, AutoModes, Background, Color, Direction, Number};
use cloudinary::transformation::named_color::NamedColor;

#[test]
fn color() {
    assert_eq!(Color::Named(NamedColor::Black).to_token(), "black");
    assert_eq!(Color::RGB(2, 10, 255).to_token(), "rgb:020aff");
    assert_eq!(Color::RGBA(10, 100, 110, 111).to_token(), "rgb:0a646e6f");
}

#[test]
fn auto() {
    assert_eq!(
        Auto { mode: None, number: None, direction: None, palette: None }.to_token(),
        "auto"
    );

    assert_eq!(
        Auto { mode: Some(AutoModes::Border), number: None, direction: None, palette: None }
            .to_token(),
        "auto:border"
    );

    assert_eq!(
        Auto { mode: Some(AutoModes::Predominant), number: None, direction: None, palette: None }
            .to_token(),
        "auto:predominant"
    );

    assert_eq!(
        Auto {
            mode: Some(AutoModes::BorderContrast),
            number: None,
            direction: None,
            palette: None
        }
        .to_token(),
        "auto:border_contrast"
    );

    assert_eq!(
        Auto {
            mode: Some(AutoModes::PredominantContrast),
            number: None,
            direction: None,
            palette: None
        }
        .to_token(),
        "auto:predominant_contrast"
    );

    assert_eq!(
        Auto {
            mode: Some(AutoModes::PredominantGradient),
            number: None,
            direction: None,
            palette: None
        }
        .to_token(),
        "auto:predominant_gradient"
    );

    assert_eq!(
        Auto {
            mode: Some(AutoModes::PredominantGradientContrast),
            number: None,
            direction: None,
            palette: None
        }
        .to_token(),
        "auto:predominant_gradient_contrast"
    );

    assert_eq!(
        Auto {
            mode: Some(AutoModes::BorderGradient),
            number: None,
            direction: None,
            palette: None
        }
        .to_token(),
        "auto:border_gradient"
    );

    assert_eq!(
        Auto {
            mode: Some(AutoModes::BorderGradientContrast),
            number: None,
            direction: None,
            palette: None
        }
        .to_token(),
        "auto:border_gradient_contrast"
    );

    assert_eq!(
        Auto {
            mode: Some(AutoModes::Border),
            number: Some(Number::Two),
            direction: None,
            palette: None
        }
        .to_token(),
        "auto:border:2"
    );

    assert_eq!(
        Auto {
            mode: Some(AutoModes::Border),
            number: Some(Number::Two),
            direction: Some(Direction::Horizontal),
            palette: None
        }
        .to_token(),
        "auto:border:2:horizontal"
    );
}

#[test]
fn background() {
    assert_eq!(
        Background::Color(Color::Named(NamedColor::Black)).to_token(),
        "b_black"
    );
    assert_eq!(Background::Color(Color::RGB(2, 10, 255)).to_token(), "b_rgb:020aff");
    assert_eq!(
        Background::Color(Color::RGBA(10, 100, 110, 111)).to_token(),
        "b_rgb:0a646e6f"
    );

    assert_eq!(
        Background::Auto(Auto { mode: None, number: None, direction: None, palette: None })
            .to_token(),
        "b_auto"
    );

    assert_eq!(
        Background::Auto(Auto {
            mode: Some(AutoModes::Border),
            number: None,
            direction: None,
            palette: None
        })
        .to_token(),
        "b_auto:border"
    );

    assert_eq!(
        Background::Auto(Auto {
            mode: Some(AutoModes::Predominant),
            number: None,
            direction: None,
            palette: None
        })
        .to_token(),
        "b_auto:predominant"
    );

    assert_eq!(
        Background::Auto(Auto {
            mode: Some(AutoModes::BorderContrast),
            number: None,
            direction: None,
            palette: None
        })
        .to_token(),
        "b_auto:border_contrast"
    );

    assert_eq!(
        Background::Auto(Auto {
            mode: Some(AutoModes::PredominantContrast),
            number: None,
            direction: None,
            palette: None
        })
        .to_token(),
        "b_auto:predominant_contrast"
    );

    assert_eq!(
        Background::Auto(Auto {
            mode: Some(AutoModes::PredominantGradient),
            number: None,
            direction: None,
            palette: None
        })
        .to_token(),
        "b_auto:predominant_gradient"
    );

    assert_eq!(
        Background::Auto(Auto {
            mode: Some(AutoModes::PredominantGradientContrast),
            number: None,
            direction: None,
            palette: None
        })
        .to_token(),
        "b_auto:predominant_gradient_contrast"
    );
}
