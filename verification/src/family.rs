//! Font variants grouped by family, families kept in the order in which they
//! first appeared.

use crate::variant::{FontVariant, FontVariantView};
use vstd::prelude::*;

verus! {

/// A family and its variants, in the order in which they were added.
#[derive(Debug, PartialEq, Eq)]
pub struct Family {
    pub name: String,
    pub variants: Vec<FontVariant>,
}

/// A family as a name and a sequence of variant views.
pub ghost struct FamilyView {
    pub name: Seq<char>,
    pub variants: Seq<FontVariantView>,
}

impl View for Family {
    type V = FamilyView;

    open spec fn view(&self) -> FamilyView {
        FamilyView { name: self.name@, variants: self.variants@.map_values(|v: FontVariant| v@) }
    }
}

impl Clone for Family {
    fn clone(&self) -> (r: Family)
        ensures
            r@ == self@,
    {
        let mut variants: Vec<FontVariant> = Vec::new();
        let mut i: usize = 0;
        while i < self.variants.len()
            invariant
                i <= self.variants.len(),
                variants@.map_values(|v: FontVariant| v@) == self.variants@.take(
                    i as int,
                ).map_values(|v: FontVariant| v@),
            decreases self.variants.len() - i,
        {
            let ghost before = variants@.map_values(|v: FontVariant| v@);
            variants.push(self.variants[i].clone());
            assert(self.variants@.take(i + 1).map_values(|v: FontVariant| v@) =~= before.push(
                self.variants@[i as int]@,
            ));
            i += 1;
        }
        assert(self.variants@.take(i as int) =~= self.variants@);
        Family { name: self.name.clone(), variants }
    }
}

/// Whether one of the families has this name.
pub open spec fn has_family(families: Seq<FamilyView>, name: Seq<char>) -> bool {
    exists|i: int| 0 <= i < families.len() && (#[trigger] families[i]).name == name
}

/// The place of the family of this name, where there is one.
pub open spec fn family_index(families: Seq<FamilyView>, name: Seq<char>) -> int {
    choose|i: int| 0 <= i < families.len() && (#[trigger] families[i]).name == name
}

/// What holds of every group: no two families share a name, no family is
/// empty, and every variant names the family that it stands in.
pub open spec fn families_well_formed(families: Seq<FamilyView>) -> bool {
    &&& forall|i: int, j: int|
        0 <= i < j < families.len() ==> (#[trigger] families[i]).name != (
        #[trigger] families[j]).name
    &&& forall|i: int| 0 <= i < families.len() ==> (#[trigger] families[i]).variants.len() > 0
    &&& forall|i: int, k: int|
        0 <= i < families.len() && 0 <= k < families[i].variants.len() ==> (
        #[trigger] families[i].variants[k]).family_name == families[i].name
}

/// The families after one more variant: appended to its family where that
/// exists, else the only variant of a new family at the end.
pub open spec fn with_variant(families: Seq<FamilyView>, variant: FontVariantView) -> Seq<
    FamilyView,
> {
    if has_family(families, variant.family_name) {
        let i = family_index(families, variant.family_name);
        families.update(
            i,
            FamilyView { name: families[i].name, variants: families[i].variants.push(variant) },
        )
    } else {
        families.push(FamilyView { name: variant.family_name, variants: seq![variant] })
    }
}

/// The mapping that a group stands for: from each family name to the variants
/// of that family.
pub open spec fn family_map(families: Seq<FamilyView>) -> Map<Seq<char>, Seq<FontVariantView>> {
    Map::new(
        |name: Seq<char>| has_family(families, name),
        |name: Seq<char>| families[family_index(families, name)].variants,
    )
}

/// Adding a variant keeps a group well formed.
pub proof fn lemma_with_variant_well_formed(families: Seq<FamilyView>, variant: FontVariantView)
    requires
        families_well_formed(families),
    ensures
        families_well_formed(with_variant(families, variant)),
{
}

/// In a well-formed group a family is found under its name, at its place.
pub proof fn lemma_family_index(families: Seq<FamilyView>, i: int)
    requires
        families_well_formed(families),
        0 <= i < families.len(),
    ensures
        has_family(families, families[i].name),
        family_index(families, families[i].name) == i,
{
}

/// Adding a variant, told of the mapping: the variant is appended to the
/// variants of its family, which are none as long as the family is unknown,
/// and no other family changes.
pub proof fn lemma_with_variant_map(families: Seq<FamilyView>, variant: FontVariantView)
    requires
        families_well_formed(families),
    ensures
        family_map(with_variant(families, variant)) == family_map(families).insert(
            variant.family_name,
            (if family_map(families).contains_key(variant.family_name) {
                family_map(families)[variant.family_name]
            } else {
                Seq::empty()
            }).push(variant),
        ),
{
    let after = with_variant(families, variant);
    let name = variant.family_name;
    let known = has_family(families, name);
    let expected = family_map(families).insert(
        name,
        (if known {
            family_map(families)[name]
        } else {
            Seq::empty()
        }).push(variant),
    );
    lemma_with_variant_well_formed(families, variant);
    let place = if known {
        family_index(families, name)
    } else {
        families.len() as int
    };
    lemma_family_index(after, place);
    assert forall|key: Seq<char>| has_family(after, key) <==> (key == name || has_family(
        families,
        key,
    )) by {
        if has_family(families, key) {
            let i = family_index(families, key);
            assert(after[i].name == families[i].name);
        }
    }
    assert forall|key: Seq<char>| has_family(after, key) implies #[trigger] family_map(
        after,
    )[key] == expected[key] by {
        if key != name {
            lemma_family_index(after, family_index(families, key));
        }
    }
}

/// The families of a directory and their variants.
pub struct FamilyGroup {
    families: Vec<Family>,
}

impl View for FamilyGroup {
    type V = Seq<FamilyView>;

    closed spec fn view(&self) -> Seq<FamilyView> {
        self.families@.map_values(|f: Family| f@)
    }
}

impl FamilyGroup {
    #[verifier::type_invariant]
    spec fn well_formed(self) -> bool {
        families_well_formed(self@)
    }

    /// The group without families.
    pub fn new() -> (group: FamilyGroup)
        ensures
            group@ == Seq::<FamilyView>::empty(),
            families_well_formed(group@),
    {
        FamilyGroup { families: Vec::new() }
    }

    /// The number of families.
    pub fn len(&self) -> (n: usize)
        ensures
            n == self@.len(),
    {
        self.families.len()
    }

    /// Whether the group has no family.
    pub fn is_empty(&self) -> (r: bool)
        ensures
            r == (self@.len() == 0),
    {
        self.families.len() == 0
    }

    /// The families, in the order in which they first appeared. Every group
    /// is well formed, and here it says so.
    pub fn families(&self) -> (r: &Vec<Family>)
        ensures
            r@.map_values(|f: Family| f@) == self@,
            families_well_formed(self@),
    {
        proof {
            use_type_invariant(self);
        }
        &self.families
    }

    /// The variants of the family of this name, if the group has it.
    pub fn get(&self, family_name: &str) -> (r: Option<&Vec<FontVariant>>)
        ensures
            match r {
                Some(variants) => family_map(self@).contains_key(family_name@)
                    && variants@.map_values(|v: FontVariant| v@) == family_map(
                    self@,
                )[family_name@],
                None => !family_map(self@).contains_key(family_name@),
            },
    {
        let name = family_name.to_owned();
        match self.position(&name) {
            Some(i) => Some(&self.families[i].variants),
            None => None,
        }
    }

    /// The place of the family of this name, if there is one.
    fn position(&self, name: &String) -> (r: Option<usize>)
        ensures
            match r {
                Some(i) => has_family(self@, name@) && i == family_index(self@, name@) && i
                    < self@.len(),
                None => !has_family(self@, name@),
            },
    {
        proof {
            use_type_invariant(self);
        }
        let mut i: usize = 0;
        while i < self.families.len()
            invariant
                i <= self.families.len(),
                self.families.len() == self@.len(),
                families_well_formed(self@),
                forall|j: int| 0 <= j < i ==> (#[trigger] self@[j]).name != name@,
            decreases self.families.len() - i,
        {
            if self.families[i].name == *name {
                assert(self@[i as int].name == name@);
                return Some(i);
            }
            i += 1;
        }
        None
    }

    /// Adds a variant: to its family where the group has it, else as the only
    /// variant of a new family behind the others.
    pub fn insert(&mut self, variant: FontVariant)
        ensures
            final(self)@ == with_variant(old(self)@, variant@),
            families_well_formed(final(self)@),
    {
        proof {
            use_type_invariant(&*self);
            lemma_with_variant_well_formed(self@, variant@);
        }
        let ghost before = self@;
        let ghost added = variant@;
        let found = self.position(&variant.family_name);
        let mut families: Vec<Family> = Vec::new();
        std::mem::swap(&mut families, &mut self.families);
        match found {
            Some(i) => {
                let ghost family = families@[i as int]@;
                families[i].variants.push(variant);
                assert(families@[i as int]@.variants =~= family.variants.push(added));
                assert(families@.map_values(|f: Family| f@) =~= with_variant(before, added));
            },
            None => {
                let name = variant.family_name.clone();
                let mut variants: Vec<FontVariant> = Vec::new();
                variants.push(variant);
                assert(variants@.map_values(|v: FontVariant| v@) =~= seq![added]);
                families.push(Family { name, variants });
                assert(families@.map_values(|f: Family| f@) =~= with_variant(before, added));
            },
        }
        self.families = families;
    }
}

} // verus!
