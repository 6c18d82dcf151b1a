use font_families::codegen::weight_token;
use font_families::error::FontError;
use font_families::face::{read_metadata, classify_style, classify_weight, FaceStyle, RawFace};
use font_families::variant::{
    FontStyle, FontWeight, BLACK_BITS, BOLD_BITS, EXTRA_BOLD_BITS, EXTRA_LIGHT_BITS, LIGHT_BITS,
    MEDIUM_BITS, NORMAL_BITS, SEMI_BOLD_BITS, THIN_BITS,
};

fn all_weights() -> Vec<(FontWeight, f32, &'static str)> {
    vec![
        (FontWeight::Thin, 100.0, "FontWeight.Thin"),
        (FontWeight::ExtraLight, 200.0, "FontWeight.ExtraLight"),
        (FontWeight::Light, 300.0, "FontWeight.Light"),
        (FontWeight::Normal, 400.0, "FontWeight.Normal"),
        (FontWeight::Medium, 500.0, "FontWeight.Medium"),
        (FontWeight::SemiBold, 600.0, "FontWeight.SemiBold"),
        (FontWeight::Bold, 700.0, "FontWeight.Bold"),
        (FontWeight::ExtraBold, 800.0, "FontWeight.ExtraBold"),
        (FontWeight::Black, 900.0, "FontWeight.Black"),
    ]
}

#[test]
fn weight_bits_are_those_of_the_hundreds() {
    assert_eq!(THIN_BITS, 100.0f32.to_bits());
    assert_eq!(EXTRA_LIGHT_BITS, 200.0f32.to_bits());
    assert_eq!(LIGHT_BITS, 300.0f32.to_bits());
    assert_eq!(NORMAL_BITS, 400.0f32.to_bits());
    assert_eq!(MEDIUM_BITS, 500.0f32.to_bits());
    assert_eq!(SEMI_BOLD_BITS, 600.0f32.to_bits());
    assert_eq!(BOLD_BITS, 700.0f32.to_bits());
    assert_eq!(EXTRA_BOLD_BITS, 800.0f32.to_bits());
    assert_eq!(BLACK_BITS, 900.0f32.to_bits());
}

#[test]
fn nine_weights_are_recognized() {
    for (weight, number, _) in all_weights() {
        assert_eq!(classify_weight(number.to_bits()), Ok(weight));
        assert_eq!(FontWeight::from_bits(number.to_bits()), Some(weight));
        assert_eq!(weight.bits(), number.to_bits());
    }
}

#[test]
fn other_weights_are_errors() {
    for number in [0.0f32, 1.0, 99.0, 100.5, 350.0, 399.99997, 400.00003, 450.0, 950.0, 1000.0, -400.0] {
        assert_eq!(classify_weight(number.to_bits()), Err(FontError::UnrecognizedWeight));
        assert_eq!(FontWeight::from_bits(number.to_bits()), None);
    }
    assert_eq!(classify_weight(400), Err(FontError::UnrecognizedWeight));
    assert_eq!(classify_weight(f32::NAN.to_bits()), Err(FontError::UnrecognizedWeight));
    assert_eq!(classify_weight(u32::MAX), Err(FontError::UnrecognizedWeight));
}

#[test]
fn weight_tokens_are_fixed_and_distinct() {
    let weights = all_weights();
    for (weight, _, token) in &weights {
        assert_eq!(weight_token(*weight), *token);
    }
    for (i, (_, _, a)) in weights.iter().enumerate() {
        for (j, (_, _, b)) in weights.iter().enumerate() {
            assert_eq!(a == b, i == j);
        }
    }
}

#[test]
fn only_italic_is_italic() {
    assert_eq!(classify_style(FaceStyle::Italic), FontStyle::Italic);
    assert_eq!(classify_style(FaceStyle::Normal), FontStyle::Normal);
    assert_eq!(classify_style(FaceStyle::Oblique), FontStyle::Normal);
}

#[test]
fn a_face_is_classified_by_weight_and_style() {
    let face = RawFace {
        family_name: String::from("Roboto"),
        weight_bits: 700.0f32.to_bits(),
        style: FaceStyle::Italic,
    };
    let metadata = read_metadata(Some(face)).unwrap();
    assert_eq!(metadata.family_name, "Roboto");
    assert_eq!(metadata.weight, FontWeight::Bold);
    assert_eq!(metadata.style, FontStyle::Italic);
}

#[test]
fn a_missing_face_is_unreadable() {
    assert_eq!(read_metadata(None), Err(FontError::UnreadableFont));
}

#[test]
fn a_face_of_unknown_weight_is_refused() {
    let face = RawFace {
        family_name: String::from("Roboto"),
        weight_bits: 650.0f32.to_bits(),
        style: FaceStyle::Normal,
    };
    assert_eq!(read_metadata(Some(face)), Err(FontError::UnrecognizedWeight));
}

#[test]
fn cloning_a_raw_face_keeps_it() {
    let face = RawFace {
        family_name: String::from("Inter"),
        weight_bits: 300.0f32.to_bits(),
        style: FaceStyle::Oblique,
    };
    assert_eq!(face.clone(), face);
}
