//! File names: their normal form, their extension, and the resource name by
//! which generated code refers to a font file.

use crate::text::{chars_of, string_of, tail_is};
use vstd::prelude::*;
use vstd::utf8::is_ascii_chars;

verus! {

/// The two characters that a normal file name does not hold.
pub open spec fn is_separator(c: char) -> bool {
    c == '-' || c == ' '
}

/// A separator becomes an underscore; every other character stays.
pub open spec fn without_separator(c: char) -> char {
    if is_separator(c) {
        '_'
    } else {
        c
    }
}

/// `A` to `Z` become `a` to `z`; every other character stays.
pub open spec fn ascii_lowercase(c: char) -> char {
    if 'A' <= c <= 'Z' {
        ((c as u8) + 32) as char
    } else {
        c
    }
}

/// What `str::to_lowercase` returns for the characters `s`.
pub uninterp spec fn unicode_lowercase_of(s: Seq<char>) -> Seq<char>;

/// The lowercase form of a name. An ASCII name is lowered letter by letter;
/// any other name is lowered as Unicode prescribes for the whole string.
pub open spec fn lowercased(s: Seq<char>) -> Seq<char> {
    if is_ascii_chars(s) {
        s.map_values(|c: char| ascii_lowercase(c))
    } else {
        unicode_lowercase_of(s)
    }
}

/// The name with every separator replaced by an underscore.
pub open spec fn separators_replaced(s: Seq<char>) -> Seq<char> {
    s.map_values(|c: char| without_separator(c))
}

/// The normal form of a file name: lowercase, with no hyphen and no space.
pub open spec fn normalized_name(s: Seq<char>) -> Seq<char> {
    separators_replaced(lowercased(s))
}

/// Whether no character of `s` is a separator.
pub open spec fn has_no_separator(s: Seq<char>) -> bool {
    forall|i: int| 0 <= i < s.len() ==> !is_separator(#[trigger] s[i])
}

/// Whether no character of `s` is one of `A` to `Z`.
pub open spec fn has_no_capital(s: Seq<char>) -> bool {
    forall|i: int| 0 <= i < s.len() ==> !('A' <= #[trigger] s[i] <= 'Z')
}

/// The position of the last dot of `name`, if it has one.
pub open spec fn last_dot(name: Seq<char>) -> Option<int>
    decreases name.len(),
{
    if name.len() == 0 {
        None
    } else if name.last() == '.' {
        Some(name.len() - 1)
    } else {
        last_dot(name.drop_last())
    }
}

/// Where the extension of `name` is cut off: at its last dot, unless that dot
/// is the first character (a hidden file) or the name is `..`.
pub open spec fn extension_dot(name: Seq<char>) -> Option<int> {
    match last_dot(name) {
        Some(dot) => if dot == 0 || name == seq!['.', '.'] {
            None
        } else {
            Some(dot)
        },
        None => None,
    }
}

/// The extension of a file name: what follows the dot that cuts it off.
pub open spec fn extension_of(name: Seq<char>) -> Option<Seq<char>> {
    match extension_dot(name) {
        Some(dot) => Some(name.skip(dot + 1)),
        None => None,
    }
}

/// The file name without its extension and the dot before it.
pub open spec fn stem_of(name: Seq<char>) -> Seq<char> {
    match extension_dot(name) {
        Some(dot) => name.take(dot),
        None => name,
    }
}

/// The extensions of the font containers that are recognised, compared as
/// they are stored: `TTF` is not among them.
pub open spec fn known_font_extension(ext: Seq<char>) -> bool {
    ext == "otf"@ || ext == "ttf"@ || ext == "woff"@ || ext == "woff2"@
}

/// Whether a file of this name counts as a font file.
pub open spec fn is_font_file_name(name: Seq<char>) -> bool {
    match extension_of(name) {
        Some(ext) => known_font_extension(ext),
        None => false,
    }
}

/// `last_dot` finds a dot that no dot follows, and finds one wherever there is one.
pub proof fn lemma_last_dot(name: Seq<char>)
    ensures
        match last_dot(name) {
            Some(dot) => {
                &&& 0 <= dot < name.len()
                &&& name[dot] == '.'
                &&& forall|j: int| dot < j < name.len() ==> name[j] != '.'
            },
            None => forall|j: int| 0 <= j < name.len() ==> name[j] != '.',
        },
    decreases name.len(),
{
    if name.len() > 0 && name.last() != '.' {
        let front = name.drop_last();
        lemma_last_dot(front);
        assert forall|j: int| 0 <= j < front.len() implies front[j] == name[j] by {}
    }
}

/// A position that holds a dot, with no dot behind it, is the last dot.
pub proof fn lemma_last_dot_is(name: Seq<char>, dot: int)
    requires
        0 <= dot < name.len(),
        name[dot] == '.',
        forall|j: int| dot < j < name.len() ==> name[j] != '.',
    ensures
        last_dot(name) == Some(dot),
{
    lemma_last_dot(name);
}

/// Lowering an ASCII name changes no position but those of `A` to `Z`, and
/// leaves an ASCII name.
pub proof fn lemma_lowercased_ascii(name: Seq<char>)
    requires
        is_ascii_chars(name),
    ensures
        lowercased(name).len() == name.len(),
        forall|i: int| 0 <= i < name.len() ==> lowercased(name)[i] == ascii_lowercase(name[i]),
        is_ascii_chars(lowercased(name)),
{
}

/// An ASCII name with no capital letter, no hyphen and no space is its own
/// normal form.
pub proof fn lemma_normal_name_is_fixed(name: Seq<char>)
    requires
        is_ascii_chars(name),
        has_no_capital(name),
        has_no_separator(name),
    ensures
        normalized_name(name) == name,
{
    assert(normalized_name(name) =~= name);
}

/// The normal form of an ASCII name is an ASCII name with no capital letter,
/// no hyphen and no space.
pub proof fn lemma_normalized_ascii(name: Seq<char>)
    requires
        is_ascii_chars(name),
    ensures
        is_ascii_chars(normalized_name(name)),
        has_no_capital(normalized_name(name)),
        has_no_separator(normalized_name(name)),
        normalized_name(name).len() == name.len(),
{
    lemma_lowercased_ascii(name);
}

/// Normalizing a name that is already normal changes nothing, for every ASCII name.
pub proof fn lemma_normalize_idempotent(name: Seq<char>)
    requires
        is_ascii_chars(name),
    ensures
        normalized_name(normalized_name(name)) == normalized_name(name),
{
    lemma_normalized_ascii(name);
    lemma_normal_name_is_fixed(normalized_name(name));
}

/// Whatever the name: where its lowercase form holds no hyphen and no space,
/// normalizing it is lowercasing it.
pub proof fn lemma_normalize_is_lowercase(name: Seq<char>)
    requires
        has_no_separator(lowercased(name)),
    ensures
        normalized_name(name) == lowercased(name),
{
    assert(separators_replaced(lowercased(name)) =~= lowercased(name));
}

/// An ASCII name with no hyphen and no space is normalized by lowercasing alone.
pub proof fn lemma_normalize_safe_name(name: Seq<char>)
    requires
        is_ascii_chars(name),
        has_no_separator(name),
    ensures
        normalized_name(name) == lowercased(name),
{
    lemma_lowercased_ascii(name);
    lemma_normalize_is_lowercase(name);
}

/// No normal form holds a hyphen or a space, whatever the name.
pub proof fn lemma_normalized_has_no_separator(name: Seq<char>)
    ensures
        has_no_separator(normalized_name(name)),
        normalized_name(name).len() == lowercased(name).len(),
{
}

/// The normal form of an ASCII name has the same dots at the same places, so
/// it is cut at the same dot.
proof fn lemma_normalize_keeps_dot(name: Seq<char>)
    requires
        is_ascii_chars(name),
    ensures
        normalized_name(name).len() == name.len(),
        forall|i: int|
            0 <= i < name.len() ==> (#[trigger] normalized_name(name)[i] == '.' <==> name[i]
                == '.'),
        extension_dot(normalized_name(name)) == extension_dot(name),
{
    lemma_lowercased_ascii(name);
    let normal = normalized_name(name);
    lemma_last_dot(name);
    lemma_last_dot(normal);
    if let Some(dot) = last_dot(name) {
        lemma_last_dot_is(normal, dot);
    }
    if name == seq!['.', '.'] {
        assert(normal =~= seq!['.', '.']);
    }
    if normal == seq!['.', '.'] {
        assert(name =~= seq!['.', '.']);
    }
}

/// Normalizing an ASCII font file name keeps its extension, and the resource
/// name of the normal form is the normal form of the resource name.
pub proof fn lemma_normalize_keeps_font_extension(name: Seq<char>)
    requires
        is_ascii_chars(name),
        is_font_file_name(name),
    ensures
        extension_of(normalized_name(name)) == extension_of(name),
        is_font_file_name(normalized_name(name)),
        stem_of(normalized_name(name)) == normalized_name(stem_of(name)),
{
    reveal_strlit("otf");
    reveal_strlit("ttf");
    reveal_strlit("woff");
    reveal_strlit("woff2");
    lemma_lowercased_ascii(name);
    lemma_normalize_keeps_dot(name);
    let normal = normalized_name(name);
    let dot = extension_dot(name)->0;
    lemma_last_dot(name);
    let ext = name.skip(dot + 1);
    assert forall|i: int| 0 <= i < ext.len() implies #[trigger] normal.skip(dot + 1)[i]
        == ext[i] by {
        assert(ext[i] == name[dot + 1 + i]);
    }
    let stem = name.take(dot);
    assert(is_ascii_chars(stem));
    lemma_lowercased_ascii(stem);
    assert(normal.take(dot) =~= normalized_name(stem));
}

/// Once an ASCII font file has its normal name, its resource name holds no
/// hyphen, no space and no capital letter.
pub proof fn lemma_resource_name_of_normal_name(name: Seq<char>)
    requires
        is_ascii_chars(name),
        is_font_file_name(name),
    ensures
        has_no_separator(stem_of(normalized_name(name))),
        has_no_capital(stem_of(normalized_name(name))),
{
    lemma_lowercased_ascii(name);
    lemma_normalize_keeps_dot(name);
    lemma_last_dot(normalized_name(name));
}

/// Lowercases through `str::to_lowercase`, which applies the Unicode lowercase
/// mapping to the whole string. The result depends on the characters alone;
/// nothing else is claimed of it.
#[verifier::external_body]
fn unicode_lowercase(s: &str) -> (r: String)
    ensures
        r@ == unicode_lowercase_of(s@),
{
    s.to_lowercase()
}

fn ascii_lower(c: char) -> (r: char)
    ensures
        r == ascii_lowercase(c),
{
    if 'A' <= c && c <= 'Z' {
        ((c as u8) + 32) as char
    } else {
        c
    }
}

/// Lowercases a name.
pub fn lowercase(name: &str) -> (r: String)
    ensures
        r@ == lowercased(name@),
{
    if name.is_ascii() {
        let chars = chars_of(name);
        let mut lowered: Vec<char> = Vec::new();
        let mut i: usize = 0;
        while i < chars.len()
            invariant
                i <= chars.len(),
                lowered@ == chars@.take(i as int).map_values(|c: char| ascii_lowercase(c)),
            decreases chars.len() - i,
        {
            lowered.push(ascii_lower(chars[i]));
            i += 1;
        }
        string_of(&lowered, 0, lowered.len())
    } else {
        unicode_lowercase(name)
    }
}

/// Replaces every hyphen and every space of `name` by an underscore.
pub fn replace_separators(name: &str) -> (r: String)
    ensures
        r@ == separators_replaced(name@),
{
    let chars = chars_of(name);
    let mut replaced: Vec<char> = Vec::new();
    let mut i: usize = 0;
    while i < chars.len()
        invariant
            i <= chars.len(),
            replaced@ == separators_replaced(chars@.take(i as int)),
        decreases chars.len() - i,
    {
        let c = chars[i];
        if c == '-' || c == ' ' {
            replaced.push('_');
        } else {
            replaced.push(c);
        }
        i += 1;
    }
    string_of(&replaced, 0, replaced.len())
}

/// The normal form of a file name: the whole name in lowercase, extension
/// included, with every hyphen and every space replaced by an underscore.
pub fn normalize(filename: &str) -> (r: String)
    ensures
        r@ == normalized_name(filename@),
{
    let lowered = lowercase(filename);
    replace_separators(lowered.as_str())
}

/// The index of the dot that cuts the extension off, found from the end.
fn find_extension_dot(chars: &Vec<char>) -> (r: Option<usize>)
    ensures
        match r {
            Some(dot) => extension_dot(chars@) == Some(dot as int) && dot < chars.len(),
            None => extension_dot(chars@) is None,
        },
{
    let mut i: usize = chars.len();
    while i > 0
        invariant
            i <= chars.len(),
            forall|j: int| i <= j < chars.len() ==> chars@[j] != '.',
        decreases i,
    {
        i -= 1;
        if chars[i] == '.' {
            proof {
                lemma_last_dot_is(chars@, i as int);
            }
            if i == 0 || (chars.len() == 2 && chars[0] == '.') {
                assert(i != 0 ==> chars@ =~= seq!['.', '.']);
                return None;
            }
            assert(chars@ != seq!['.', '.']);
            return Some(i);
        }
    }
    proof {
        lemma_last_dot(chars@);
    }
    None
}

/// The extension of a file name, if it has one.
pub fn file_extension(name: &str) -> (r: Option<String>)
    ensures
        match r {
            Some(ext) => extension_of(name@) == Some(ext@),
            None => extension_of(name@) is None,
        },
{
    let chars = chars_of(name);
    match find_extension_dot(&chars) {
        Some(dot) => Some(string_of(&chars, dot + 1, chars.len())),
        None => None,
    }
}

/// Whether `chars[from..]` is the extension of a recognised font container.
fn is_font_extension_from(chars: &Vec<char>, from: usize) -> (r: bool)
    requires
        from <= chars.len(),
    ensures
        r == known_font_extension(chars@.skip(from as int)),
{
    tail_is(chars, from, "otf") || tail_is(chars, from, "ttf") || tail_is(chars, from, "woff")
        || tail_is(chars, from, "woff2")
}

/// Whether `ext` is the extension of a recognised font container.
pub fn is_font_extension(ext: &str) -> (r: bool)
    ensures
        r == known_font_extension(ext@),
{
    let chars = chars_of(ext);
    assert(chars@.skip(0) == ext@);
    is_font_extension_from(&chars, 0)
}

/// Whether a file of this name counts as a font file.
pub fn has_font_extension(name: &str) -> (r: bool)
    ensures
        r == is_font_file_name(name@),
{
    let chars = chars_of(name);
    match find_extension_dot(&chars) {
        Some(dot) => is_font_extension_from(&chars, dot + 1),
        None => false,
    }
}

/// The name by which generated code refers to the file: the file name without
/// its extension.
pub fn resource_name(name: &str) -> (r: String)
    ensures
        r@ == stem_of(name@),
{
    let chars = chars_of(name);
    match find_extension_dot(&chars) {
        Some(dot) => {
            string_of(&chars, 0, dot)
        },
        None => {
            string_of(&chars, 0, chars.len())
        },
    }
}

} // verus!
