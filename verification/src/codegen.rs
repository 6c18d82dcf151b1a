//! The Jetpack Compose declarations of font families.

use crate::error::FontError;
use crate::family::{Family, FamilyGroup, FamilyView};
use crate::scan::{aggregated, get_fonts_in_resource, LoadedFile, LoadedFileView};
use crate::variant::{FontStyle, FontVariant, FontVariantView, FontWeight};
use vstd::prelude::*;

verus! {

/// What convert_case makes of `name` when it converts it to Pascal case.
pub uninterp spec fn pascal_case_of(name: Seq<char>) -> Seq<char>;

/// The name of the value that declares a family: the family name in Pascal
/// case, then `FontFamily`.
pub open spec fn variable_name_of(family_name: Seq<char>) -> Seq<char> {
    pascal_case_of(family_name) + "FontFamily"@
}

/// How Jetpack Compose names a weight.
pub open spec fn weight_token_of(weight: FontWeight) -> Seq<char> {
    match weight {
        FontWeight::Thin => "FontWeight.Thin"@,
        FontWeight::ExtraLight => "FontWeight.ExtraLight"@,
        FontWeight::Light => "FontWeight.Light"@,
        FontWeight::Normal => "FontWeight.Normal"@,
        FontWeight::Medium => "FontWeight.Medium"@,
        FontWeight::SemiBold => "FontWeight.SemiBold"@,
        FontWeight::Bold => "FontWeight.Bold"@,
        FontWeight::ExtraBold => "FontWeight.ExtraBold"@,
        FontWeight::Black => "FontWeight.Black"@,
    }
}

/// The call that declares one variant: the resource and the weight, and for
/// an italic variant the italic style as a third argument.
pub open spec fn variant_line_of(variant: FontVariantView) -> Seq<char> {
    "\tFont(R.font."@ + variant.resource_name + ", "@ + weight_token_of(variant.weight) + (
    match variant.style {
        FontStyle::Italic => ", FontStyle.Italic"@,
        FontStyle::Normal => Seq::<char>::empty(),
    }) + ")"@
}

/// The line of the variant at `i`: its call, a comma unless it is the last of
/// its family, and the line's end.
pub open spec fn terminated_line_of(variants: Seq<FontVariantView>, i: int) -> Seq<char> {
    variant_line_of(variants[i]) + (if i + 1 < variants.len() {
        ","@
    } else {
        Seq::<char>::empty()
    }) + "\r\n"@
}

/// The lines of all variants of a family, in their order.
pub open spec fn variant_lines_of(variants: Seq<FontVariantView>) -> Seq<char> {
    Seq::new(variants.len(), |i: int| terminated_line_of(variants, i)).flatten()
}

/// The declaration of one family, with the blank lines that part it from the next.
pub open spec fn family_block_of(variable_name: Seq<char>, variants: Seq<FontVariantView>) -> Seq<
    char,
> {
    "val "@ + variable_name + " = FontFamily(\r\n"@ + variant_lines_of(variants) + ")"@
        + "\r\n\r\n\r\n"@
}

/// The declarations of all families, in the order of the group.
pub open spec fn template_of(families: Seq<FamilyView>) -> Seq<char> {
    families.map_values(
        |family: FamilyView| family_block_of(variable_name_of(family.name), family.variants),
    ).flatten()
}

/// No two weights share a token: the token tells the weight.
pub proof fn lemma_weight_token_injective(a: FontWeight, b: FontWeight)
    requires
        weight_token_of(a) == weight_token_of(b),
    ensures
        a == b,
{
    reveal_strlit("FontWeight.Thin");
    reveal_strlit("FontWeight.ExtraLight");
    reveal_strlit("FontWeight.Light");
    reveal_strlit("FontWeight.Normal");
    reveal_strlit("FontWeight.Medium");
    reveal_strlit("FontWeight.SemiBold");
    reveal_strlit("FontWeight.Bold");
    reveal_strlit("FontWeight.ExtraBold");
    reveal_strlit("FontWeight.Black");
    assert("FontWeight.Thin"@.len() == 15 && "FontWeight.Thin"@[11] == 'T');
    assert("FontWeight.ExtraLight"@.len() == 21 && "FontWeight.ExtraLight"@[11] == 'E');
    assert("FontWeight.Light"@.len() == 16 && "FontWeight.Light"@[11] == 'L');
    assert("FontWeight.Normal"@.len() == 17 && "FontWeight.Normal"@[11] == 'N');
    assert("FontWeight.Medium"@.len() == 17 && "FontWeight.Medium"@[11] == 'M');
    assert("FontWeight.SemiBold"@.len() == 19 && "FontWeight.SemiBold"@[11] == 'S');
    assert("FontWeight.Bold"@.len() == 15 && "FontWeight.Bold"@[11] == 'B');
    assert("FontWeight.ExtraBold"@.len() == 20 && "FontWeight.ExtraBold"@[11] == 'E');
    assert("FontWeight.Black"@.len() == 16 && "FontWeight.Black"@[11] == 'B');
    assert(weight_token_of(a).len() == weight_token_of(b).len());
    assert(weight_token_of(a)[11] == weight_token_of(b)[11]);
}

/// A family of one variant is declared on three lines, and its one variant
/// line ends without a comma.
pub proof fn lemma_single_variant_block(variable_name: Seq<char>, variant: FontVariantView)
    ensures
        family_block_of(variable_name, seq![variant]) == "val "@ + variable_name
            + " = FontFamily(\r\n"@ + variant_line_of(variant) + "\r\n"@ + ")"@
            + "\r\n\r\n\r\n"@,
{
    let variants = seq![variant];
    let lines = Seq::new(variants.len(), |i: int| terminated_line_of(variants, i));
    lines.lemma_flatten_singleton();
}

/// Converts to Pascal case through convert_case: `Casing::to_case` with
/// `Case::Pascal`, which splits the name into words at its default
/// boundaries, capitalizes each word and joins them with nothing between.
/// The result depends on the characters alone and is known here by its name.
#[verifier::external_body]
fn to_pascal_case(name: &str) -> (r: String)
    ensures
        r@ == pascal_case_of(name@),
{
    convert_case::Casing::to_case(&name, convert_case::Case::Pascal)
}

/// How Jetpack Compose names a weight.
pub fn weight_token(weight: FontWeight) -> (r: &'static str)
    ensures
        r@ == weight_token_of(weight),
{
    match weight {
        FontWeight::Thin => "FontWeight.Thin",
        FontWeight::ExtraLight => "FontWeight.ExtraLight",
        FontWeight::Light => "FontWeight.Light",
        FontWeight::Normal => "FontWeight.Normal",
        FontWeight::Medium => "FontWeight.Medium",
        FontWeight::SemiBold => "FontWeight.SemiBold",
        FontWeight::Bold => "FontWeight.Bold",
        FontWeight::ExtraBold => "FontWeight.ExtraBold",
        FontWeight::Black => "FontWeight.Black",
    }
}

/// The call that declares one variant.
pub fn variant_line(variant: &FontVariant) -> (r: String)
    ensures
        r@ == variant_line_of(variant@),
{
    let mut line = String::new();
    line.append("\tFont(R.font.");
    line.append(variant.resource_name.as_str());
    line.append(", ");
    line.append(weight_token(variant.weight));
    match variant.style {
        FontStyle::Italic => {
            line.append(", FontStyle.Italic");
        },
        FontStyle::Normal => {},
    }
    line.append(")");
    line
}

/// The declaration of one family under the name `variable_name`.
pub fn family_block(variable_name: &str, variants: &Vec<FontVariant>) -> (r: String)
    ensures
        r@ == family_block_of(variable_name@, variants@.map_values(|v: FontVariant| v@)),
{
    let ghost views = variants@.map_values(|v: FontVariant| v@);
    let ghost lines = Seq::new(views.len(), |i: int| terminated_line_of(views, i));
    let mut code = String::new();
    code.append("val ");
    code.append(variable_name);
    code.append(" = FontFamily(\r\n");
    let ghost head = code@;
    let mut index: usize = 0;
    while index < variants.len()
        invariant
            index <= variants.len(),
            views == variants@.map_values(|v: FontVariant| v@),
            lines == Seq::new(views.len(), |i: int| terminated_line_of(views, i)),
            code@ == head + lines.take(index as int).flatten(),
        decreases variants.len() - index,
    {
        let line = variant_line(&variants[index]);
        code.append(line.as_str());
        if index != variants.len() - 1 {
            code.append(",");
        }
        code.append("\r\n");
        proof {
            assert(lines.take(index + 1) =~= lines.take(index as int).push(lines[index as int]));
            lines.take(index as int).lemma_flatten_push(lines[index as int]);
        }
        index += 1;
    }
    assert(lines.take(index as int) =~= lines);
    code.append(")");
    code.append("\r\n\r\n\r\n");
    code
}

/// The name under which a family is declared, given its name in Pascal case.
pub fn family_variable(pascal_name: &str) -> (r: String)
    ensures
        r@ == pascal_name@ + "FontFamily"@,
{
    let mut name = String::new();
    name.append(pascal_name);
    name.append("FontFamily");
    name
}

/// The name under which the family `name` is declared.
pub fn font_family_name_to_variable_name(name: &str) -> (r: String)
    ensures
        r@ == variable_name_of(name@),
{
    let pascal = to_pascal_case(name);
    family_variable(pascal.as_str())
}

/// The declarations of all families of `fonts`, one block for each, in the
/// order of the group.
pub fn template_fonts_for_jetpack_compose(fonts: &FamilyGroup) -> (code: String)
    ensures
        code@ == template_of(fonts@),
{
    let families = fonts.families();
    let ghost blocks = fonts@.map_values(
        |family: FamilyView| family_block_of(variable_name_of(family.name), family.variants),
    );
    let mut code = String::new();
    let mut index: usize = 0;
    while index < families.len()
        invariant
            index <= families.len(),
            families@.map_values(|f: Family| f@) == fonts@,
            blocks == fonts@.map_values(
                |family: FamilyView|
                    family_block_of(variable_name_of(family.name), family.variants),
            ),
            code@ == blocks.take(index as int).flatten(),
        decreases families.len() - index,
    {
        let family = &families[index];
        let variable_name = font_family_name_to_variable_name(family.name.as_str());
        let block = family_block(variable_name.as_str(), &family.variants);
        code.append(block.as_str());
        proof {
            assert(blocks.take(index + 1) =~= blocks.take(index as int).push(
                blocks[index as int],
            ));
            blocks.take(index as int).lemma_flatten_push(blocks[index as int]);
        }
        index += 1;
    }
    assert(blocks.take(index as int) =~= blocks);
    code
}

/// The declarations of the families of the files, or the error of the first
/// font file that fails: then there is no text at all.
pub open spec fn declarations_of(files: Seq<LoadedFileView>) -> Result<Seq<char>, FontError> {
    match aggregated(files) {
        Ok(families) => Ok(template_of(families)),
        Err(e) => Err(e),
    }
}

/// The view of a generation's outcome.
pub open spec fn text_view(r: Result<String, FontError>) -> Result<Seq<char>, FontError> {
    match r {
        Ok(text) => Ok(text@),
        Err(e) => Err(e),
    }
}

/// Declares the families of the font files among `files`, whose faces are
/// given. One font file that fails leaves no text.
pub fn declarations(files: &Vec<LoadedFile>) -> (r: Result<String, FontError>)
    ensures
        text_view(r) == declarations_of(files@.map_values(|f: LoadedFile| f@)),
{
    match get_fonts_in_resource(files) {
        Ok(group) => Ok(template_fonts_for_jetpack_compose(&group)),
        Err(e) => Err(e),
    }
}

} // verus!
