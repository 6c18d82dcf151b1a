use std::sync::Arc;

use font_families::codegen::declarations;
use font_families::error::FontError;
use font_families::face::{read_metadata, FaceStyle, RawFace};
use font_families::scan::{get_fonts_in_resource, LoadedFile};
use font_families::variant::{FontStyle, FontWeight};
use font_kit::font::Font;
use font_kit::properties::Style;

/// The first face of a font container as font-kit reports it.
fn load_face(data: Vec<u8>) -> Option<RawFace> {
    let font = Font::from_bytes(Arc::new(data), 0).ok()?;
    let properties = font.properties();
    let style = match properties.style {
        Style::Normal => FaceStyle::Normal,
        Style::Italic => FaceStyle::Italic,
        Style::Oblique => FaceStyle::Oblique,
    };
    Some(RawFace {
        family_name: font.family_name(),
        weight_bits: properties.weight.0.to_bits(),
        style,
    })
}

fn put16(out: &mut Vec<u8>, value: u16) {
    out.extend_from_slice(&value.to_be_bytes());
}

fn put32(out: &mut Vec<u8>, value: u32) {
    out.extend_from_slice(&value.to_be_bytes());
}

fn zeros(out: &mut Vec<u8>, count: usize) {
    out.resize(out.len() + count, 0);
}

fn head_table(italic: bool) -> Vec<u8> {
    let mut t = Vec::new();
    put32(&mut t, 0x0001_0000);
    put32(&mut t, 0x0001_0000);
    put32(&mut t, 0);
    put32(&mut t, 0x5F0F_3CF5);
    put16(&mut t, 0);
    put16(&mut t, 1000);
    zeros(&mut t, 16 + 8);
    put16(&mut t, if italic { 2 } else { 0 });
    put16(&mut t, 8);
    put16(&mut t, 2);
    put16(&mut t, 0);
    put16(&mut t, 0);
    t
}

fn hhea_table() -> Vec<u8> {
    let mut t = Vec::new();
    put32(&mut t, 0x0001_0000);
    put16(&mut t, 800);
    put16(&mut t, 0xFF38);
    put16(&mut t, 0);
    put16(&mut t, 500);
    zeros(&mut t, 6);
    put16(&mut t, 1);
    zeros(&mut t, 4 + 8 + 2);
    put16(&mut t, 1);
    t
}

fn maxp_table() -> Vec<u8> {
    let mut t = Vec::new();
    put32(&mut t, 0x0001_0000);
    put16(&mut t, 1);
    zeros(&mut t, 26);
    t
}

fn os2_table(weight: u16, italic: bool, oblique: bool) -> Vec<u8> {
    let mut selection: u16 = 0;
    if italic {
        selection |= 1;
    }
    if oblique {
        selection |= 0x200;
    }
    if selection == 0 {
        selection = 0x40;
    }
    let mut t = Vec::new();
    put16(&mut t, 0);
    put16(&mut t, 500);
    put16(&mut t, weight);
    put16(&mut t, 5);
    zeros(&mut t, 2 + 20 + 2 + 10 + 16);
    t.extend_from_slice(b"    ");
    put16(&mut t, selection);
    put16(&mut t, 0);
    put16(&mut t, 0);
    put16(&mut t, 800);
    put16(&mut t, 0xFF38);
    put16(&mut t, 0);
    put16(&mut t, 800);
    put16(&mut t, 200);
    t
}

fn cmap_table() -> Vec<u8> {
    let mut t = Vec::new();
    for value in [0u16, 1, 3, 1, 0, 12] {
        put16(&mut t, value);
    }
    for value in [4u16, 24, 0, 2, 2, 0, 0, 0xFFFF, 0, 0xFFFF, 1, 0] {
        put16(&mut t, value);
    }
    t
}

fn name_table(family: &str) -> Vec<u8> {
    let records = [(1u16, family), (2, "Regular"), (4, family), (6, family)];
    let mut strings: Vec<u8> = Vec::new();
    let mut t = Vec::new();
    put16(&mut t, 0);
    put16(&mut t, records.len() as u16);
    put16(&mut t, (6 + 12 * records.len()) as u16);
    for (id, text) in records {
        let mut encoded: Vec<u8> = Vec::new();
        for unit in text.encode_utf16() {
            put16(&mut encoded, unit);
        }
        for value in [3u16, 1, 0x409, id, encoded.len() as u16, strings.len() as u16] {
            put16(&mut t, value);
        }
        strings.extend_from_slice(&encoded);
    }
    t.extend_from_slice(&strings);
    t
}

fn post_table() -> Vec<u8> {
    let mut t = Vec::new();
    put32(&mut t, 0x0003_0000);
    zeros(&mut t, 28);
    t
}

/// A TrueType font of one empty glyph that names `family` and states `weight`.
fn tiny_font(family: &str, weight: u16, italic: bool, oblique: bool) -> Vec<u8> {
    let tables: Vec<(&[u8; 4], Vec<u8>)> = vec![
        (b"OS/2", os2_table(weight, italic, oblique)),
        (b"cmap", cmap_table()),
        (b"glyf", vec![0, 0, 0, 0]),
        (b"head", head_table(italic)),
        (b"hhea", hhea_table()),
        (b"hmtx", vec![0x01, 0xF4, 0, 0]),
        (b"loca", vec![0, 0, 0, 0]),
        (b"maxp", maxp_table()),
        (b"name", name_table(family)),
        (b"post", post_table()),
    ];
    let count = tables.len();
    let mut font = Vec::new();
    put32(&mut font, 0x0001_0000);
    put16(&mut font, count as u16);
    put16(&mut font, 128);
    put16(&mut font, 3);
    put16(&mut font, (count * 16 - 128) as u16);
    let mut offset = 12 + 16 * count;
    let mut body: Vec<u8> = Vec::new();
    for (tag, data) in &tables {
        font.extend_from_slice(&tag[..]);
        put32(&mut font, 0);
        put32(&mut font, offset as u32);
        put32(&mut font, data.len() as u32);
        body.extend_from_slice(data);
        let padding = (4 - data.len() % 4) % 4;
        zeros(&mut body, padding);
        offset += data.len() + padding;
    }
    font.extend_from_slice(&body);
    font
}

fn file(name: &str, data: Vec<u8>) -> LoadedFile {
    LoadedFile { file_name: String::from(name), face: load_face(data) }
}

#[test]
fn metadata_of_a_bold_font() {
    let metadata = read_metadata(load_face(tiny_font("Roboto", 700, false, false))).unwrap();
    assert_eq!(metadata.family_name, "Roboto");
    assert_eq!(metadata.weight, FontWeight::Bold);
    assert_eq!(metadata.style, FontStyle::Normal);
}

#[test]
fn metadata_of_an_italic_font() {
    let metadata = read_metadata(load_face(tiny_font("Open Sans", 300, true, false))).unwrap();
    assert_eq!(metadata.family_name, "Open Sans");
    assert_eq!(metadata.weight, FontWeight::Light);
    assert_eq!(metadata.style, FontStyle::Italic);
}

#[test]
fn an_oblique_font_counts_as_normal() {
    let face = load_face(tiny_font("Inter", 400, false, true)).unwrap();
    assert_eq!(face.style, FaceStyle::Oblique);
    assert_eq!(face.weight_bits, 400.0f32.to_bits());
    let metadata = read_metadata(Some(face)).unwrap();
    assert_eq!(metadata.style, FontStyle::Normal);
    assert_eq!(metadata.weight, FontWeight::Normal);
}

#[test]
fn every_hundred_is_read_as_its_weight() {
    let expected = [
        (100u16, FontWeight::Thin),
        (200, FontWeight::ExtraLight),
        (300, FontWeight::Light),
        (400, FontWeight::Normal),
        (500, FontWeight::Medium),
        (600, FontWeight::SemiBold),
        (700, FontWeight::Bold),
        (800, FontWeight::ExtraBold),
        (900, FontWeight::Black),
    ];
    for (number, weight) in expected {
        let metadata = read_metadata(load_face(tiny_font("Lato", number, false, false))).unwrap();
        assert_eq!(metadata.weight, weight);
    }
}

#[test]
fn a_weight_between_the_hundreds_is_refused() {
    for number in [0u16, 1, 350, 401, 650, 950, 1000] {
        assert_eq!(
            read_metadata(load_face(tiny_font("Lato", number, false, false))),
            Err(FontError::UnrecognizedWeight)
        );
    }
}

#[test]
fn bytes_that_are_no_font_are_unreadable() {
    assert_eq!(read_metadata(load_face(Vec::new())), Err(FontError::UnreadableFont));
    assert_eq!(
        read_metadata(load_face(vec![1, 2, 3, 4, 5, 6, 7, 8])),
        Err(FontError::UnreadableFont)
    );
    assert_eq!(
        read_metadata(load_face(b"this is a text file, not a font".to_vec())),
        Err(FontError::UnreadableFont)
    );
}

#[test]
fn a_truncated_font_is_unreadable() {
    let mut data = tiny_font("Roboto", 700, false, false);
    data.truncate(40);
    assert_eq!(read_metadata(load_face(data)), Err(FontError::UnreadableFont));
}

#[test]
fn two_fonts_of_one_family_are_grouped_from_their_files() {
    let files = vec![
        file("roboto_bold.ttf", tiny_font("Roboto", 700, false, false)),
        file("notes.txt", b"not a font".to_vec()),
        file("roboto_italic.ttf", tiny_font("Roboto", 400, true, false)),
    ];
    let group = get_fonts_in_resource(&files).unwrap();
    assert_eq!(group.len(), 1);
    let family = &group.families()[0];
    assert_eq!(family.name, "Roboto");
    assert_eq!(family.variants.len(), 2);
    assert_eq!(family.variants[0].resource_name, "roboto_bold");
    assert_eq!(family.variants[0].weight, FontWeight::Bold);
    assert_eq!(family.variants[0].style, FontStyle::Normal);
    assert_eq!(family.variants[1].resource_name, "roboto_italic");
    assert_eq!(family.variants[1].weight, FontWeight::Normal);
    assert_eq!(family.variants[1].style, FontStyle::Italic);
}

#[test]
fn a_ttf_file_that_is_no_font_fails_the_aggregation() {
    let files = vec![
        file("roboto_bold.ttf", tiny_font("Roboto", 700, false, false)),
        file("broken.ttf", b"not a font".to_vec()),
        file("roboto_italic.ttf", tiny_font("Roboto", 400, true, false)),
    ];
    assert!(matches!(get_fonts_in_resource(&files), Err(FontError::UnreadableFont)));
    assert_eq!(declarations(&files), Err(FontError::UnreadableFont));
}

#[test]
fn declarations_are_generated_from_font_files() {
    let files = vec![
        file("roboto_bold.ttf", tiny_font("Roboto", 700, false, false)),
        file("open_sans_light.otf", tiny_font("Open Sans", 300, false, false)),
        file("roboto_italic.ttf", tiny_font("Roboto", 400, true, false)),
    ];
    let expected = "val RobotoFontFamily = FontFamily(\r\n\
                    \tFont(R.font.roboto_bold, FontWeight.Bold),\r\n\
                    \tFont(R.font.roboto_italic, FontWeight.Normal, FontStyle.Italic)\r\n\
                    )\r\n\r\n\r\n\
                    val OpenSansFontFamily = FontFamily(\r\n\
                    \tFont(R.font.open_sans_light, FontWeight.Light)\r\n\
                    )\r\n\r\n\r\n";
    assert_eq!(declarations(&files), Ok(String::from(expected)));
}

#[test]
fn a_font_of_unknown_weight_fails_the_aggregation() {
    let files = vec![file("odd.woff", tiny_font("Odd", 450, false, false))];
    assert!(matches!(get_fonts_in_resource(&files), Err(FontError::UnrecognizedWeight)));
}
