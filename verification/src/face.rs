//! What a font container says of its first face, and how that is classified.
//!
//! Loading a container is left to the caller: a face comes in as the plain
//! values that the loader reported.

use crate::error::FontError;
use crate::variant::{FontStyle, FontWeight};
use vstd::prelude::*;

verus! {

/// The style that a font container reports for a face.
#[derive(Clone, Copy, Debug, PartialEq, Eq, Structural)]
pub enum FaceStyle {
    Normal,
    Italic,
    Oblique,
}

/// A face as its container reports it, before anything is classified.
#[derive(Debug, PartialEq, Eq)]
pub struct RawFace {
    pub family_name: String,
    /// The weight, a single-precision number, as its bits.
    pub weight_bits: u32,
    pub style: FaceStyle,
}

/// A raw face with its family name as a sequence of characters.
pub ghost struct RawFaceView {
    pub family_name: Seq<char>,
    pub weight_bits: u32,
    pub style: FaceStyle,
}

impl View for RawFace {
    type V = RawFaceView;

    open spec fn view(&self) -> RawFaceView {
        RawFaceView {
            family_name: self.family_name@,
            weight_bits: self.weight_bits,
            style: self.style,
        }
    }
}

impl Clone for RawFace {
    fn clone(&self) -> (r: RawFace)
        ensures
            r@ == self@,
    {
        RawFace {
            family_name: self.family_name.clone(),
            weight_bits: self.weight_bits,
            style: self.style,
        }
    }
}

/// The family, the weight and the style of a font's first face.
#[derive(Debug, PartialEq, Eq)]
pub struct FaceMetadata {
    pub family_name: String,
    pub weight: FontWeight,
    pub style: FontStyle,
}

/// Face metadata with the family name as a sequence of characters.
pub ghost struct FaceMetadataView {
    pub family_name: Seq<char>,
    pub weight: FontWeight,
    pub style: FontStyle,
}

impl View for FaceMetadata {
    type V = FaceMetadataView;

    open spec fn view(&self) -> FaceMetadataView {
        FaceMetadataView {
            family_name: self.family_name@,
            weight: self.weight,
            style: self.style,
        }
    }
}

impl Clone for FaceMetadata {
    fn clone(&self) -> (r: FaceMetadata)
        ensures
            r@ == self@,
    {
        FaceMetadata {
            family_name: self.family_name.clone(),
            weight: self.weight,
            style: self.style,
        }
    }
}

/// Only a face reported as italic is italic: an oblique face counts as normal.
pub open spec fn style_of(style: FaceStyle) -> FontStyle {
    match style {
        FaceStyle::Italic => FontStyle::Italic,
        FaceStyle::Normal => FontStyle::Normal,
        FaceStyle::Oblique => FontStyle::Normal,
    }
}

/// What is made of a face, or of the lack of one where the container could
/// not be read: the weight must be one of the nine, exactly.
pub open spec fn metadata_of(face: Option<RawFaceView>) -> Result<FaceMetadataView, FontError> {
    match face {
        None => Err(FontError::UnreadableFont),
        Some(raw) => match FontWeight::spec_from_bits(raw.weight_bits) {
            None => Err(FontError::UnrecognizedWeight),
            Some(weight) => Ok(
                FaceMetadataView {
                    family_name: raw.family_name,
                    weight,
                    style: style_of(raw.style),
                },
            ),
        },
    }
}

/// The view of a classification's outcome.
pub open spec fn metadata_view(r: Result<FaceMetadata, FontError>) -> Result<
    FaceMetadataView,
    FontError,
> {
    match r {
        Ok(metadata) => Ok(metadata@),
        Err(e) => Err(e),
    }
}

/// The view of a face that may be missing.
pub open spec fn face_view(face: Option<RawFace>) -> Option<RawFaceView> {
    match face {
        Some(raw) => Some(raw@),
        None => None,
    }
}

/// The weight that these bits state, or the error that they state none.
pub fn classify_weight(bits: u32) -> (r: Result<FontWeight, FontError>)
    ensures
        r == match FontWeight::spec_from_bits(bits) {
            Some(weight) => Ok::<FontWeight, FontError>(weight),
            None => Err(FontError::UnrecognizedWeight),
        },
{
    match FontWeight::from_bits(bits) {
        Some(weight) => Ok(weight),
        None => Err(FontError::UnrecognizedWeight),
    }
}

/// Italic or not.
pub fn classify_style(style: FaceStyle) -> (r: FontStyle)
    ensures
        r == style_of(style),
{
    match style {
        FaceStyle::Italic => FontStyle::Italic,
        FaceStyle::Normal => FontStyle::Normal,
        FaceStyle::Oblique => FontStyle::Normal,
    }
}

/// Reads family, weight and style out of what a loader reported of a font's
/// first face, `None` standing for a container that it could not read. The
/// family name is taken as it is. The weight must be one of the nine, to the
/// bit: nothing is rounded, and nothing is taken for normal by default.
pub fn read_metadata(face: Option<RawFace>) -> (r: Result<FaceMetadata, FontError>)
    ensures
        metadata_view(r) == metadata_of(face_view(face)),
{
    match face {
        None => Err(FontError::UnreadableFont),
        Some(raw) => {
            match classify_weight(raw.weight_bits) {
                Err(e) => Err(e),
                Ok(weight) => Ok(
                    FaceMetadata {
                        family_name: raw.family_name,
                        weight,
                        style: classify_style(raw.style),
                    },
                ),
            }
        },
    }
}

} // verus!
