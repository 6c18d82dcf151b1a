//! One font file as generated code sees it: its family, its resource name,
//! its weight and its style.

use vstd::prelude::*;

verus! {

/// The nine weights that generated code can name.
#[derive(Clone, Copy, Debug, PartialEq, Eq, Structural)]
pub enum FontWeight {
    Thin,
    ExtraLight,
    Light,
    Normal,
    Medium,
    SemiBold,
    Bold,
    ExtraBold,
    Black,
}

/// A variant is upright or italic; nothing else is told apart.
#[derive(Clone, Copy, Debug, PartialEq, Eq, Structural)]
pub enum FontStyle {
    Normal,
    Italic,
}

/// One font file of a family.
#[derive(Debug, PartialEq, Eq)]
pub struct FontVariant {
    /// The family that the font's first face names.
    pub family_name: String,
    /// The file name without its extension.
    pub resource_name: String,
    pub weight: FontWeight,
    pub style: FontStyle,
}

/// A font variant with its two names as sequences of characters.
pub ghost struct FontVariantView {
    pub family_name: Seq<char>,
    pub resource_name: Seq<char>,
    pub weight: FontWeight,
    pub style: FontStyle,
}

impl View for FontVariant {
    type V = FontVariantView;

    open spec fn view(&self) -> FontVariantView {
        FontVariantView {
            family_name: self.family_name@,
            resource_name: self.resource_name@,
            weight: self.weight,
            style: self.style,
        }
    }
}

impl Clone for FontVariant {
    fn clone(&self) -> (r: FontVariant)
        ensures
            r@ == self@,
    {
        FontVariant {
            family_name: self.family_name.clone(),
            resource_name: self.resource_name.clone(),
            weight: self.weight,
            style: self.style,
        }
    }
}

/// The single-precision number 100 as bits, and so on to 900: a font states
/// its weight as such a number.
pub const THIN_BITS: u32 = 0x42C8_0000;

pub const EXTRA_LIGHT_BITS: u32 = 0x4348_0000;

pub const LIGHT_BITS: u32 = 0x4396_0000;

pub const NORMAL_BITS: u32 = 0x43C8_0000;

pub const MEDIUM_BITS: u32 = 0x43FA_0000;

pub const SEMI_BOLD_BITS: u32 = 0x4416_0000;

pub const BOLD_BITS: u32 = 0x442F_0000;

pub const EXTRA_BOLD_BITS: u32 = 0x4448_0000;

pub const BLACK_BITS: u32 = 0x4461_0000;

impl FontWeight {
    /// The bits of the single-precision number that stands for this weight.
    pub open spec fn spec_bits(self) -> u32 {
        match self {
            FontWeight::Thin => THIN_BITS,
            FontWeight::ExtraLight => EXTRA_LIGHT_BITS,
            FontWeight::Light => LIGHT_BITS,
            FontWeight::Normal => NORMAL_BITS,
            FontWeight::Medium => MEDIUM_BITS,
            FontWeight::SemiBold => SEMI_BOLD_BITS,
            FontWeight::Bold => BOLD_BITS,
            FontWeight::ExtraBold => EXTRA_BOLD_BITS,
            FontWeight::Black => BLACK_BITS,
        }
    }

    /// The weight that is stated by exactly these bits, if there is one.
    pub open spec fn spec_from_bits(bits: u32) -> Option<FontWeight> {
        if bits == THIN_BITS {
            Some(FontWeight::Thin)
        } else if bits == EXTRA_LIGHT_BITS {
            Some(FontWeight::ExtraLight)
        } else if bits == LIGHT_BITS {
            Some(FontWeight::Light)
        } else if bits == NORMAL_BITS {
            Some(FontWeight::Normal)
        } else if bits == MEDIUM_BITS {
            Some(FontWeight::Medium)
        } else if bits == SEMI_BOLD_BITS {
            Some(FontWeight::SemiBold)
        } else if bits == BOLD_BITS {
            Some(FontWeight::Bold)
        } else if bits == EXTRA_BOLD_BITS {
            Some(FontWeight::ExtraBold)
        } else if bits == BLACK_BITS {
            Some(FontWeight::Black)
        } else {
            None
        }
    }

    /// The bits of the single-precision number that stands for this weight.
    #[verifier::when_used_as_spec(spec_bits)]
    pub fn bits(self) -> (r: u32)
        ensures
            r == self.spec_bits(),
    {
        match self {
            FontWeight::Thin => THIN_BITS,
            FontWeight::ExtraLight => EXTRA_LIGHT_BITS,
            FontWeight::Light => LIGHT_BITS,
            FontWeight::Normal => NORMAL_BITS,
            FontWeight::Medium => MEDIUM_BITS,
            FontWeight::SemiBold => SEMI_BOLD_BITS,
            FontWeight::Bold => BOLD_BITS,
            FontWeight::ExtraBold => EXTRA_BOLD_BITS,
            FontWeight::Black => BLACK_BITS,
        }
    }

    /// The weight that is stated by exactly these bits, if there is one.
    #[verifier::when_used_as_spec(spec_from_bits)]
    pub fn from_bits(bits: u32) -> (r: Option<FontWeight>)
        ensures
            r == FontWeight::spec_from_bits(bits),
    {
        if bits == THIN_BITS {
            Some(FontWeight::Thin)
        } else if bits == EXTRA_LIGHT_BITS {
            Some(FontWeight::ExtraLight)
        } else if bits == LIGHT_BITS {
            Some(FontWeight::Light)
        } else if bits == NORMAL_BITS {
            Some(FontWeight::Normal)
        } else if bits == MEDIUM_BITS {
            Some(FontWeight::Medium)
        } else if bits == SEMI_BOLD_BITS {
            Some(FontWeight::SemiBold)
        } else if bits == BOLD_BITS {
            Some(FontWeight::Bold)
        } else if bits == EXTRA_BOLD_BITS {
            Some(FontWeight::ExtraBold)
        } else if bits == BLACK_BITS {
            Some(FontWeight::Black)
        } else {
            None
        }
    }

    /// A weight is found again from its bits, and bits state a weight only if
    /// they are that weight's bits: no other number is taken for a weight.
    pub proof fn lemma_bits_round_trip(weight: FontWeight, bits: u32)
        ensures
            FontWeight::spec_from_bits(weight.spec_bits()) == Some(weight),
            FontWeight::spec_from_bits(bits) == Some(weight) <==> bits == weight.spec_bits(),
    {
    }
}

} // verus!
