//! Reading the processor model out of the kernel's CPU information, and
//! recognizing the Bay Trail processor family.
//!
//! Bay Trail processors need a kernel workaround on these devices, so
//! the system report flags them.  A processor belongs to the family
//! when its model name contains one of the known model numbers.

use vstd::prelude::*;

use crate::sysinfo::text::{
    contains, spec_contains, spec_split, spec_split_once, spec_starts_with, spec_trim, split,
    split_once, starts_with, trim, views_of, Separator,
};

verus! {

/// The model numbers of the Bay Trail processor family.
pub open spec fn spec_bay_trail_models() -> Seq<Seq<char>> {
    seq![
        "A1020"@, "E3805"@, "E3815"@, "E3825"@, "E3826"@, "E3827"@, "E3845"@, "J1750"@,
        "J1800"@, "J1850"@, "J1900"@, "J2850"@, "J2900"@, "N2805"@, "N2806"@, "N2807"@,
        "N2808"@, "N2810"@, "N2815"@, "N2820"@, "N2830"@, "N2840"@, "N2910"@, "N2920"@,
        "N2930"@, "N2940"@, "N3510"@, "N3520"@, "N3530"@, "N3540"@, "Z3735D"@, "Z3735E"@,
        "Z3735F"@, "Z3735G"@, "Z3736F"@, "Z3736G"@, "Z3740"@, "Z3740D"@, "Z3745"@, "Z3745D"@,
        "Z3770"@, "Z3770D"@, "Z3775"@, "Z3775D"@, "Z3785"@, "Z3795"@,
    ]
}

/// The model numbers of the Bay Trail processor family, as values.
fn bay_trail_models() -> (r: Vec<&'static str>)
    ensures
        views_of(r@) == spec_bay_trail_models(),
{
    let r = vec![
        "A1020", "E3805", "E3815", "E3825", "E3826", "E3827", "E3845", "J1750", "J1800",
        "J1850", "J1900", "J2850", "J2900", "N2805", "N2806", "N2807", "N2808", "N2810",
        "N2815", "N2820", "N2830", "N2840", "N2910", "N2920", "N2930", "N2940", "N3510",
        "N3520", "N3530", "N3540", "Z3735D", "Z3735E", "Z3735F", "Z3735G", "Z3736F", "Z3736G",
        "Z3740", "Z3740D", "Z3745", "Z3745D", "Z3770", "Z3770D", "Z3775", "Z3775D", "Z3785",
        "Z3795",
    ];
    proof {
        assert(views_of(r@) =~= spec_bay_trail_models());
    }
    r
}

/// Holds when one of the model names names a Bay Trail processor.
pub open spec fn spec_is_bay_trail(models: Seq<Seq<char>>) -> bool {
    exists|i: int, j: int|
        0 <= i < models.len() && 0 <= j < spec_bay_trail_models().len() && spec_contains(
            models[i],
            spec_bay_trail_models()[j],
        )
}

/// The views of a list of model names.
pub open spec fn model_views(models: Seq<String>) -> Seq<Seq<char>> {
    Seq::new(models.len(), |i: int| models[i]@)
}

/// Decides whether one of the model names names a Bay Trail processor.
pub fn is_bay_trail(model_names: &Vec<String>) -> (r: bool)
    ensures
        r == spec_is_bay_trail(model_views(model_names@)),
{
    let table = bay_trail_models();
    let mut i: usize = 0;
    while i < model_names.len()
        invariant
            0 <= i <= model_names@.len(),
            views_of(table@) == spec_bay_trail_models(),
            forall|k: int, j: int|
                0 <= k < i && 0 <= j < spec_bay_trail_models().len() ==> !spec_contains(
                    model_views(model_names@)[k],
                    spec_bay_trail_models()[j],
                ),
        decreases model_names@.len() - i,
    {
        let mut j: usize = 0;
        while j < table.len()
            invariant
                0 <= i < model_names@.len(),
                0 <= j <= table@.len(),
                views_of(table@) == spec_bay_trail_models(),
                forall|l: int|
                    0 <= l < j ==> !spec_contains(
                        model_views(model_names@)[i as int],
                        spec_bay_trail_models()[l],
                    ),
            decreases table@.len() - j,
        {
            if contains(model_names[i].as_str(), table[j]) {
                proof {
                    assert(model_views(model_names@)[i as int] == model_names@[i as int]@);
                    assert(views_of(table@)[j as int] == table@[j as int]@);
                }
                return true;
            }
            proof {
                assert(model_views(model_names@)[i as int] == model_names@[i as int]@);
                assert(views_of(table@)[j as int] == table@[j as int]@);
            }
            j = j + 1;
        }
        i = i + 1;
    }
    proof {
        assert forall|k: int| 0 <= k < model_names@.len() implies model_views(model_names@)[k]
            == model_names@[k]@ by {}
    }
    false
}

/// The processor model of one CPU-information line: the trimmed text
/// after the colon, for a line that begins with the model-name key.
pub open spec fn spec_model_name(line: Seq<char>) -> Option<Seq<char>> {
    if spec_starts_with(line, "model name"@) {
        match spec_split_once(line, Separator::Exact(':')) {
            Some((_, value)) => Some(spec_trim(value)),
            None => None,
        }
    } else {
        None
    }
}

/// The processor models of all CPU-information lines, in order: one
/// entry per processor.
pub open spec fn spec_model_names(lines: Seq<Seq<char>>) -> Seq<Seq<char>>
    decreases lines.len(),
{
    if lines.len() == 0 {
        Seq::empty()
    } else {
        match spec_model_name(lines[0]) {
            Some(name) => seq![name] + spec_model_names(lines.drop_first()),
            None => spec_model_names(lines.drop_first()),
        }
    }
}

/// Reads the processor model names out of the CPU-information text: the
/// value of every line that begins with the model-name key.
pub fn model_names_from_text(text: &str) -> (r: Vec<String>)
    ensures
        model_views(r@) == spec_model_names(spec_split(text@, Separator::Exact('\n'))),
{
    let lines = split(text, Separator::Exact('\n'));
    let ghost all = views_of(lines@);
    let mut r: Vec<String> = Vec::new();
    let mut i: usize = 0;
    proof {
        assert(all.skip(0) =~= all);
        assert(model_views(r@) =~= Seq::<Seq<char>>::empty());
        assert(model_views(r@) + spec_model_names(all) =~= spec_model_names(all));
    }
    while i < lines.len()
        invariant
            0 <= i <= lines@.len(),
            all == views_of(lines@),
            spec_model_names(all) == model_views(r@) + spec_model_names(all.skip(i as int)),
        decreases lines@.len() - i,
    {
        proof {
            assert(all.skip(i as int).drop_first() =~= all.skip(i + 1));
            assert(all.skip(i as int)[0] == all[i as int]);
        }
        let line = lines[i];
        if starts_with(line, "model name") {
            match split_once(line, Separator::Exact(':')) {
                Some((_, value)) => {
                    let name = trim(value);
                    r.push(name.to_owned());
                    proof {
                        assert(model_views(r@) =~= model_views(r@.drop_last()) + seq![name@]);
                    }
                },
                None => {},
            }
        }
        i = i + 1;
    }
    proof {
        assert(all.skip(i as int) =~= Seq::<Seq<char>>::empty());
        assert(model_views(r@) + spec_model_names(all.skip(i as int)) =~= model_views(r@));
    }
    r
}

/// What the system report records of the processor: whether it belongs
/// to the Bay Trail family, and the model name of its first CPU.
#[derive(Clone, Debug, PartialEq, Eq)]
pub struct CpuInfo {
    is_bay_trail: bool,
    model_name: Option<String>,
}

impl CpuInfo {
    /// Builds the record from the model names of the processors, as
    /// [`model_names_from_text`] reads them.
    pub fn from_model_names(model_names: &Vec<String>) -> (r: Self)
        ensures
            r.spec_is_bay_trail() == spec_is_bay_trail(model_views(model_names@)),
            model_names@.len() == 0 ==> r.spec_model_name() is None,
            model_names@.len() > 0 ==> (r.spec_model_name() matches Some(first) && first
                == model_names@[0]@),
    {
        CpuInfo {
            is_bay_trail: is_bay_trail(model_names),
            model_name: if model_names.len() > 0 {
                Some(model_names[0].clone())
            } else {
                None
            },
        }
    }

    /// Whether the processor belongs to the Bay Trail family.
    pub closed spec fn spec_is_bay_trail(self) -> bool {
        self.is_bay_trail
    }

    /// The recorded model name.
    pub closed spec fn spec_model_name(self) -> Option<Seq<char>> {
        match self.model_name {
            Some(name) => Some(name@),
            None => None,
        }
    }

    /// Whether the processor belongs to the Bay Trail family.
    pub fn is_bay_trail(&self) -> (r: bool)
        ensures
            r == self.spec_is_bay_trail(),
    {
        self.is_bay_trail
    }

    /// The model name of the first processor, if one was recorded.
    pub fn model_name(&self) -> (r: Option<&str>)
        ensures
            match r {
                Some(name) => self.spec_model_name() == Some(name@),
                None => self.spec_model_name() is None,
            },
    {
        match &self.model_name {
            Some(name) => Some(name.as_str()),
            None => None,
        }
    }
}

} // verus!
