//! From the files of a directory to the families of its fonts: which files
//! count, how they are renamed, and how their faces are grouped.

use crate::error::FontError;
use crate::face::{
    face_view, metadata_of, read_metadata, FaceMetadata, FaceMetadataView, RawFace, RawFaceView,
};
use crate::family::{
    families_well_formed, family_map, lemma_with_variant_map, lemma_with_variant_well_formed,
    with_variant, FamilyGroup, FamilyView,
};
use crate::filename::{
    has_font_extension, is_font_file_name, lemma_normalize_idempotent,
    lemma_normalize_keeps_font_extension, normalize, normalized_name, resource_name, stem_of,
};
use crate::variant::{FontVariant, FontVariantView};
use vstd::prelude::*;
use vstd::utf8::is_ascii_chars;

verus! {

/// One renaming of a file within its directory.
#[derive(Debug, PartialEq, Eq)]
pub struct Rename {
    pub from: String,
    pub to: String,
}

/// A renaming with both names as sequences of characters.
pub ghost struct RenameView {
    pub from: Seq<char>,
    pub to: Seq<char>,
}

impl View for Rename {
    type V = RenameView;

    open spec fn view(&self) -> RenameView {
        RenameView { from: self.from@, to: self.to@ }
    }
}

impl Clone for Rename {
    fn clone(&self) -> (r: Rename)
        ensures
            r@ == self@,
    {
        Rename { from: self.from.clone(), to: self.to.clone() }
    }
}

/// A file of the directory with the face that was loaded from it, `None`
/// where none could be loaded.
#[derive(Debug, PartialEq, Eq)]
pub struct LoadedFile {
    pub file_name: String,
    pub face: Option<RawFace>,
}

/// A loaded file with its name as a sequence of characters.
pub ghost struct LoadedFileView {
    pub file_name: Seq<char>,
    pub face: Option<RawFaceView>,
}

impl View for LoadedFile {
    type V = LoadedFileView;

    open spec fn view(&self) -> LoadedFileView {
        LoadedFileView { file_name: self.file_name@, face: face_view(self.face) }
    }
}

impl Clone for LoadedFile {
    fn clone(&self) -> (r: LoadedFile)
        ensures
            r@ == self@,
    {
        let face = match &self.face {
            Some(raw) => Some(raw.clone()),
            None => None,
        };
        LoadedFile { file_name: self.file_name.clone(), face }
    }
}

/// The names as sequences of characters.
pub open spec fn names_of(names: Seq<String>) -> Seq<Seq<char>> {
    names.map_values(|name: String| name@)
}

/// Whether one of the names is that of a font file.
pub open spec fn contains_font_file(names: Seq<Seq<char>>) -> bool {
    exists|i: int| 0 <= i < names.len() && is_font_file_name(#[trigger] names[i])
}

/// A file is renamed where it is a font file whose name is not normal.
pub open spec fn needs_rename(name: Seq<char>) -> bool {
    is_font_file_name(name) && normalized_name(name) != name
}

/// The renamings that bring the font files of a directory to their normal
/// names, in the order of the files.
pub open spec fn rename_plan(names: Seq<Seq<char>>) -> Seq<RenameView> {
    names.filter(|name: Seq<char>| needs_rename(name)).map_values(
        |name: Seq<char>| RenameView { from: name, to: normalized_name(name) },
    )
}

/// The variant that a font file stands for.
pub open spec fn variant_from(file_name: Seq<char>, metadata: FaceMetadataView) -> FontVariantView {
    FontVariantView {
        family_name: metadata.family_name,
        resource_name: stem_of(file_name),
        weight: metadata.weight,
        style: metadata.style,
    }
}

/// The families after one more file: unchanged by a file that is no font
/// file; else with the file's variant added, or the error of its face.
pub open spec fn with_file(families: Seq<FamilyView>, file: LoadedFileView) -> Result<
    Seq<FamilyView>,
    FontError,
> {
    if !is_font_file_name(file.file_name) {
        Ok(families)
    } else {
        match metadata_of(file.face) {
            Err(e) => Err(e),
            Ok(metadata) => Ok(with_variant(families, variant_from(file.file_name, metadata))),
        }
    }
}

/// The families of the files, taken in order; the error of the first font
/// file whose face fails, if one fails.
pub open spec fn aggregated(files: Seq<LoadedFileView>) -> Result<Seq<FamilyView>, FontError>
    decreases files.len(),
{
    if files.len() == 0 {
        Ok(Seq::empty())
    } else {
        match aggregated(files.drop_last()) {
            Err(e) => Err(e),
            Ok(families) => with_file(families, files.last()),
        }
    }
}

/// The view of an aggregation's outcome.
pub open spec fn group_view(r: Result<FamilyGroup, FontError>) -> Result<
    Seq<FamilyView>,
    FontError,
> {
    match r {
        Ok(group) => Ok(group@),
        Err(e) => Err(e),
    }
}

/// Once a file has failed, the files behind it change nothing.
pub proof fn lemma_aggregated_error_stays(files: Seq<LoadedFileView>, n: int)
    requires
        0 <= n <= files.len(),
        aggregated(files.take(n)) is Err,
    ensures
        aggregated(files) == aggregated(files.take(n)),
    decreases files.len() - n,
{
    if n < files.len() {
        assert(files.take(n + 1).drop_last() =~= files.take(n));
        lemma_aggregated_error_stays(files, n + 1);
    } else {
        assert(files.take(n) =~= files);
    }
}

/// Every aggregation that succeeds gives a well-formed group.
pub proof fn lemma_aggregated_well_formed(files: Seq<LoadedFileView>)
    ensures
        aggregated(files) matches Ok(families) ==> families_well_formed(families),
    decreases files.len(),
{
    if files.len() > 0 {
        lemma_aggregated_well_formed(files.drop_last());
        if let Ok(families) = aggregated(files.drop_last()) {
            if is_font_file_name(files.last().file_name) {
                if let Ok(metadata) = metadata_of(files.last().face) {
                    lemma_with_variant_well_formed(
                        families,
                        variant_from(files.last().file_name, metadata),
                    );
                }
            }
        }
    }
}

/// The variant that a file brings: none unless it is a font file whose face
/// is sound.
pub open spec fn variant_of_file(file: LoadedFileView) -> Option<FontVariantView> {
    if is_font_file_name(file.file_name) {
        match metadata_of(file.face) {
            Ok(metadata) => Some(variant_from(file.file_name, metadata)),
            Err(_) => None,
        }
    } else {
        None
    }
}

/// The variants that the files bring to the family `name`, in the order of
/// the files.
pub open spec fn variants_of_family(files: Seq<LoadedFileView>, name: Seq<char>) -> Seq<
    FontVariantView,
> {
    files.filter_map(
        |file: LoadedFileView|
            match variant_of_file(file) {
                Some(variant) => if variant.family_name == name {
                    Some(variant)
                } else {
                    None
                },
                None => None,
            },
    )
}

/// Where aggregation succeeds, the group is the grouping of the files by
/// family: it has a family exactly where a file brings a variant to it, and
/// maps the family to the variants of its files, in the order of the files.
pub proof fn lemma_aggregated_groups_by_family(files: Seq<LoadedFileView>, name: Seq<char>)
    requires
        aggregated(files) is Ok,
    ensures
        family_map(aggregated(files)->Ok_0).contains_key(name) <==> variants_of_family(
            files,
            name,
        ).len() > 0,
        family_map(aggregated(files)->Ok_0).contains_key(name) ==> family_map(
            aggregated(files)->Ok_0,
        )[name] == variants_of_family(files, name),
    decreases files.len(),
{
    if files.len() > 0 {
        let front = files.drop_last();
        let before = aggregated(front)->Ok_0;
        lemma_aggregated_groups_by_family(front, name);
        lemma_aggregated_well_formed(front);
        if let Some(variant) = variant_of_file(files.last()) {
            lemma_with_variant_map(before, variant);
            if variant.family_name == name {
                assert(variants_of_family(files, name) =~= variants_of_family(front, name).push(
                    variant,
                ));
                if !family_map(before).contains_key(name) {
                    assert(variants_of_family(front, name) =~= Seq::<FontVariantView>::empty());
                }
            }
        }
    }
}

/// Families keep their places: the families of the first `n` files stand at
/// the front of the group of all files, in the same order. So the families
/// of a group stand in the order in which the files first name them.
pub proof fn lemma_aggregated_keeps_order(files: Seq<LoadedFileView>, n: int)
    requires
        aggregated(files) is Ok,
        0 <= n <= files.len(),
    ensures
        aggregated(files.take(n)) is Ok,
        aggregated(files.take(n))->Ok_0.len() <= aggregated(files)->Ok_0.len(),
        forall|i: int|
            0 <= i < aggregated(files.take(n))->Ok_0.len() ==> (#[trigger] aggregated(
                files.take(n),
            )->Ok_0[i]).name == aggregated(files)->Ok_0[i].name,
    decreases files.len() - n,
{
    if n < files.len() {
        let front = files.drop_last();
        assert(front.take(n) =~= files.take(n));
        lemma_aggregated_keeps_order(front, n);
    } else {
        assert(files.take(n) =~= files);
    }
}

/// The names of a directory once the renamings of its plan are made, as
/// long as no two files end up under one name.
pub open spec fn renamed_names(names: Seq<Seq<char>>) -> Seq<Seq<char>> {
    names.map_values(
        |name: Seq<char>|
            if is_font_file_name(name) {
                normalized_name(name)
            } else {
                name
            },
    )
}

/// Every renaming of a plan takes a font file of the directory to its normal
/// name, which is not the name that it has.
pub proof fn lemma_rename_plan_sound(names: Seq<Seq<char>>, i: int)
    requires
        0 <= i < rename_plan(names).len(),
    ensures
        names.contains(rename_plan(names)[i].from),
        is_font_file_name(rename_plan(names)[i].from),
        rename_plan(names)[i].to == normalized_name(rename_plan(names)[i].from),
        rename_plan(names)[i].to != rename_plan(names)[i].from,
{
    let needs = |name: Seq<char>| needs_rename(name);
    let renamed = names.filter(needs);
    names.lemma_filter_pred(needs, i);
    assert(renamed.contains(renamed[i]));
    names.lemma_filter_contains_rev(needs, renamed[i]);
}

/// Where no name needs a renaming, the plan is empty.
pub proof fn lemma_rename_plan_empty(names: Seq<Seq<char>>)
    requires
        forall|i: int| 0 <= i < names.len() ==> !needs_rename(#[trigger] names[i]),
    ensures
        rename_plan(names) == Seq::<RenameView>::empty(),
    decreases names.len(),
{
    reveal(Seq::filter);
    if names.len() > 0 {
        let front = names.drop_last();
        assert forall|i: int| 0 <= i < front.len() implies !needs_rename(#[trigger] front[i]) by {
            assert(front[i] == names[i]);
        }
        lemma_rename_plan_empty(front);
    }
}

/// Renaming settles: in a directory of ASCII names, once the renamings are
/// made, the same files count as font files and none of them is renamed again.
pub proof fn lemma_renaming_settles(names: Seq<Seq<char>>)
    requires
        forall|i: int| 0 <= i < names.len() ==> is_ascii_chars(#[trigger] names[i]),
    ensures
        rename_plan(renamed_names(names)) == Seq::<RenameView>::empty(),
        forall|i: int|
            0 <= i < names.len() ==> (is_font_file_name(#[trigger] renamed_names(names)[i])
                <==> is_font_file_name(names[i])),
{
    let renamed = renamed_names(names);
    assert forall|i: int| 0 <= i < names.len() implies !needs_rename(#[trigger] renamed[i]) && (
    is_font_file_name(renamed[i]) <==> is_font_file_name(names[i])) by {
        if is_font_file_name(names[i]) {
            lemma_normalize_keeps_font_extension(names[i]);
            lemma_normalize_idempotent(names[i]);
        }
    }
    lemma_rename_plan_empty(renamed);
}

/// A directory without font files: no font is found in it, nothing is
/// renamed, and its group of families is empty.
pub proof fn lemma_no_font_files(files: Seq<LoadedFileView>)
    requires
        forall|i: int| 0 <= i < files.len() ==> !is_font_file_name((#[trigger] files[i]).file_name),
    ensures
        !contains_font_file(files.map_values(|file: LoadedFileView| file.file_name)),
        rename_plan(files.map_values(|file: LoadedFileView| file.file_name)) == Seq::<
            RenameView,
        >::empty(),
        aggregated(files) == Ok::<Seq<FamilyView>, FontError>(Seq::empty()),
    decreases files.len(),
{
    reveal(Seq::filter);
    let names = files.map_values(|file: LoadedFileView| file.file_name);
    assert forall|i: int| 0 <= i < names.len() implies !is_font_file_name(#[trigger] names[i]) by {
        assert(names[i] == files[i].file_name);
    }
    if files.len() > 0 {
        let front = files.drop_last();
        assert forall|i: int| 0 <= i < front.len() implies !is_font_file_name(
            (#[trigger] front[i]).file_name,
        ) by {
            assert(front[i] == files[i]);
        }
        lemma_no_font_files(front);
        assert(names.drop_last() =~= front.map_values(|file: LoadedFileView| file.file_name));
    }
}

/// The first font file whose face fails decides the whole: aggregation fails
/// with the error of that face, whatever stands behind it. So a font file
/// that cannot be read, behind font files whose faces are sound, fails the
/// aggregation as unreadable.
pub proof fn lemma_first_failure_decides(files: Seq<LoadedFileView>, i: int)
    requires
        0 <= i < files.len(),
        is_font_file_name(files[i].file_name),
        metadata_of(files[i].face) is Err,
        forall|j: int|
            0 <= j < i && is_font_file_name((#[trigger] files[j]).file_name) ==> metadata_of(
                files[j].face,
            ) is Ok,
    ensures
        aggregated(files) == Err::<Seq<FamilyView>, FontError>(metadata_of(files[i].face)->Err_0),
        files[i].face is None ==> aggregated(files) == Err::<Seq<FamilyView>, FontError>(
            FontError::UnreadableFont,
        ),
{
    lemma_prefix_succeeds(files, i);
    assert(files.take(i + 1).drop_last() =~= files.take(i));
    lemma_aggregated_error_stays(files, i + 1);
}

/// As long as every font file has a face with a known weight, aggregation succeeds.
pub proof fn lemma_prefix_succeeds(files: Seq<LoadedFileView>, n: int)
    requires
        0 <= n <= files.len(),
        forall|j: int|
            0 <= j < n && is_font_file_name((#[trigger] files[j]).file_name) ==> metadata_of(
                files[j].face,
            ) is Ok,
    ensures
        aggregated(files.take(n)) is Ok,
    decreases n,
{
    if n > 0 {
        lemma_prefix_succeeds(files, n - 1);
        assert(files.take(n).drop_last() =~= files.take(n - 1));
    }
}

/// Whether a directory with these file names holds at least one font file.
pub fn folder_contains_fonts(file_names: &Vec<String>) -> (r: bool)
    ensures
        r == contains_font_file(names_of(file_names@)),
{
    let mut i: usize = 0;
    while i < file_names.len()
        invariant
            i <= file_names.len(),
            forall|j: int| 0 <= j < i ==> !is_font_file_name(#[trigger] names_of(file_names@)[j]),
        decreases file_names.len() - i,
    {
        if has_font_extension(file_names[i].as_str()) {
            assert(is_font_file_name(names_of(file_names@)[i as int]));
            return true;
        }
        i += 1;
    }
    false
}

/// The renamings that bring the font files among `file_names` to their normal
/// names: one for each font file whose name is not normal yet, in the order
/// of the files. A file that is no font file is left alone.
pub fn rename_fonts_for_android(file_names: &Vec<String>) -> (plan: Vec<Rename>)
    ensures
        plan@.map_values(|r: Rename| r@) == rename_plan(names_of(file_names@)),
{
    let ghost names = names_of(file_names@);
    let mut plan: Vec<Rename> = Vec::new();
    let mut i: usize = 0;
    while i < file_names.len()
        invariant
            i <= file_names.len(),
            names == names_of(file_names@),
            plan@.map_values(|r: Rename| r@) == rename_plan(names.take(i as int)),
        decreases file_names.len() - i,
    {
        let name = &file_names[i];
        let ghost before = plan@.map_values(|r: Rename| r@);
        proof {
            reveal(Seq::filter);
            assert(names.take(i + 1).drop_last() =~= names.take(i as int));
        }
        if has_font_extension(name.as_str()) {
            let normal = normalize(name.as_str());
            if normal != *name {
                plan.push(Rename { from: name.clone(), to: normal });
                assert(plan@.map_values(|r: Rename| r@) =~= before.push(
                    RenameView { from: name@, to: normalized_name(name@) },
                ));
            }
        }
        i += 1;
    }
    assert(names.take(i as int) =~= names);
    plan
}

/// The variant that the font file `file_name` stands for, given the metadata
/// of its face.
pub fn font_variant(file_name: &str, metadata: FaceMetadata) -> (variant: FontVariant)
    ensures
        variant@ == variant_from(file_name@, metadata@),
{
    FontVariant {
        family_name: metadata.family_name,
        resource_name: resource_name(file_name),
        weight: metadata.weight,
        style: metadata.style,
    }
}

/// Takes one more file into the group. A file that is no font file changes
/// nothing. A font file adds its variant, or fails with the error of its
/// face and leaves the group as it was.
pub fn add_file(group: &mut FamilyGroup, file_name: &str, face: Option<RawFace>) -> (r: Result<
    (),
    FontError,
>)
    ensures
        match r {
            Ok(_) => with_file(
                old(group)@,
                (LoadedFileView { file_name: file_name@, face: face_view(face) }),
            ) == Ok::<Seq<FamilyView>, FontError>(final(group)@),
            Err(e) => with_file(
                old(group)@,
                (LoadedFileView { file_name: file_name@, face: face_view(face) }),
            ) == Err::<Seq<FamilyView>, FontError>(e) && final(group)@ == old(group)@,
        },
        families_well_formed(old(group)@) ==> families_well_formed(final(group)@),
{
    if !has_font_extension(file_name) {
        return Ok(());
    }
    match read_metadata(face) {
        Err(e) => Err(e),
        Ok(metadata) => {
            group.insert(font_variant(file_name, metadata));
            Ok(())
        },
    }
}

/// Groups the faces of the font files among `files` by family: families in
/// the order in which they first appear, the variants of a family in the
/// order of their files. The first font file whose face is missing or states
/// no known weight fails the whole.
pub fn get_fonts_in_resource(files: &Vec<LoadedFile>) -> (r: Result<FamilyGroup, FontError>)
    ensures
        group_view(r) == aggregated(files@.map_values(|f: LoadedFile| f@)),
        r matches Ok(group) ==> families_well_formed(group@),
{
    let ghost views = files@.map_values(|f: LoadedFile| f@);
    let mut group = FamilyGroup::new();
    let mut i: usize = 0;
    while i < files.len()
        invariant
            i <= files.len(),
            views == files@.map_values(|f: LoadedFile| f@),
            aggregated(views.take(i as int)) == Ok::<Seq<FamilyView>, FontError>(group@),
            families_well_formed(group@),
        decreases files.len() - i,
    {
        let file = &files[i];
        proof {
            assert(views.take(i + 1).drop_last() =~= views.take(i as int));
        }
        let face = match &file.face {
            Some(raw) => Some(raw.clone()),
            None => None,
        };
        match add_file(&mut group, file.file_name.as_str(), face) {
            Ok(_) => {},
            Err(e) => {
                proof {
                    lemma_aggregated_error_stays(views, i + 1);
                }
                return Err(e);
            },
        }
        i += 1;
    }
    assert(views.take(i as int) =~= views);
    Ok(group)
}

} // verus!
