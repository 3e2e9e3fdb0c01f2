//! Parser for the memory-information file of the kernel.
//!
//! Each line has the shape `key: value` or `key: value kB`; a plain
//! value counts as bytes, one with the kibibyte unit is scaled by 1024.
//! Lines of any other shape, and values too large for the machine word,
//! are skipped.

use vstd::prelude::*;
use vstd::string::StrSliceExecFns;

use crate::sysinfo::text::{
    digits_val, is_digit, parse_usize, spec_split, spec_split_once, spec_trim, split,
    split_once, trim, Separator,
};

verus! {

/// Bytes in one kibibyte.
pub const KIB: usize = 1024;

/// Holds for a text that spells a decimal number fitting the machine
/// word.
pub open spec fn spec_valid_number(s: Seq<char>) -> bool {
    s.len() > 0 && (forall|i: int| 0 <= i < s.len() ==> is_digit(s[i])) && digits_val(s)
        <= usize::MAX
}

/// The byte value of the value part of one line: a plain number, or a
/// number with the kibibyte unit, scaled; nothing for any other shape
/// or when the scaled value does not fit the machine word.
pub open spec fn spec_mem_value(raw: Seq<char>) -> Option<usize> {
    let v = spec_trim(raw);
    match spec_split_once(v, Separator::Exact(' ')) {
        None => if spec_valid_number(v) {
            Some(digits_val(v) as usize)
        } else {
            None
        },
        Some((num, unit)) => {
            let n = spec_trim(num);
            if spec_valid_number(n) && spec_trim(unit) == "kB"@ && KIB * digits_val(n)
                <= usize::MAX {
                Some((KIB * digits_val(n)) as usize)
            } else {
                None
            }
        },
    }
}

/// The entry of one line: its trimmed key and its byte value, if the
/// line has the `key: value` shape.
pub open spec fn spec_mem_entry(line: Seq<char>) -> Option<(Seq<char>, usize)> {
    match spec_split_once(line, Separator::Exact(':')) {
        None => None,
        Some((key, raw)) => match spec_mem_value(raw) {
            None => None,
            Some(v) => Some((spec_trim(key), v)),
        },
    }
}

/// The entries of all lines that parse, in order.
pub open spec fn spec_meminfo(lines: Seq<Seq<char>>) -> Seq<(Seq<char>, usize)>
    decreases lines.len(),
{
    if lines.len() == 0 {
        Seq::empty()
    } else {
        match spec_mem_entry(lines[0]) {
            Some(e) => seq![e] + spec_meminfo(lines.drop_first()),
            None => spec_meminfo(lines.drop_first()),
        }
    }
}

/// The entry a lookup finds: the last one with the given key, as a
/// collection into a map would keep it.
pub open spec fn spec_lookup_last(entries: Seq<(Seq<char>, usize)>, key: Seq<char>) -> Option<
    usize,
>
    decreases entries.len(),
{
    if entries.len() == 0 {
        None
    } else if entries.last().0 == key {
        Some(entries.last().1)
    } else {
        spec_lookup_last(entries.drop_last(), key)
    }
}

/// The models of a list of parsed entries.
pub open spec fn entry_views(entries: Seq<(String, usize)>) -> Seq<(Seq<char>, usize)> {
    Seq::new(entries.len(), |i: int| (entries[i].0@, entries[i].1))
}

/// The parsed entries of the memory-information file.
#[derive(Debug)]
pub struct MemInfo(Vec<(String, usize)>);

impl View for MemInfo {
    type V = Seq<(Seq<char>, usize)>;

    closed spec fn view(&self) -> Seq<(Seq<char>, usize)> {
        entry_views(self.0@)
    }
}

/// A lookup from the back finds the last entry with the key.
proof fn lemma_lookup_last_at(entries: Seq<(Seq<char>, usize)>, key: Seq<char>, i: int)
    requires
        0 <= i < entries.len(),
        entries[i].0 == key,
        forall|j: int| i < j < entries.len() ==> entries[j].0 != key,
    ensures
        spec_lookup_last(entries, key) == Some(entries[i].1),
    decreases entries.len(),
{
    if i < entries.len() - 1 {
        lemma_lookup_last_at(entries.drop_last(), key, i);
    }
}

/// A lookup of a key that no entry has finds nothing.
proof fn lemma_lookup_last_none(entries: Seq<(Seq<char>, usize)>, key: Seq<char>)
    requires
        forall|j: int| 0 <= j < entries.len() ==> entries[j].0 != key,
    ensures
        spec_lookup_last(entries, key) is None,
    decreases entries.len(),
{
    if entries.len() > 0 {
        lemma_lookup_last_none(entries.drop_last(), key);
    }
}

impl MemInfo {
    /// The value recorded under the given key, if the file had one; the
    /// last occurrence wins.
    pub fn get(&self, key: &str) -> (r: Option<usize>)
        ensures
            r == spec_lookup_last(self@, key@),
    {
        let mut i: usize = self.0.len();
        while i > 0
            invariant
                0 <= i <= self.0@.len(),
                forall|j: int| i <= j < self.0@.len() ==> self@[j].0 != key@,
            decreases i,
        {
            i = i - 1;
            if crate::sysinfo::text::str_eq(self.0[i].0.as_str(), key) {
                proof {
                    lemma_lookup_last_at(self@, key@, i as int);
                }
                return Some(self.0[i].1);
            }
        }
        proof {
            lemma_lookup_last_none(self@, key@);
        }
        None
    }
}

/// The byte value of the value part of one line, decided.
fn mem_value(raw: &str) -> (r: Option<usize>)
    ensures
        r == spec_mem_value(raw@),
{
    let v = trim(raw);
    match split_once(v, Separator::Exact(' ')) {
        None => parse_usize(v),
        Some((num, unit)) => {
            let n = trim(num);
            let u = trim(unit);
            if !crate::sysinfo::text::str_eq(u, "kB") {
                return None;
            }
            match parse_usize(n) {
                None => None,
                Some(value) => {
                    if value > usize::MAX / KIB {
                        proof {
                            assert(KIB * value > usize::MAX) by (nonlinear_arith)
                                requires
                                    value as int > usize::MAX as int / 1024,
                                    KIB == 1024,
                            ;
                        }
                        None
                    } else {
                        proof {
                            assert(KIB * value <= usize::MAX) by (nonlinear_arith)
                                requires
                                    value as int <= usize::MAX as int / 1024,
                                    KIB == 1024,
                            ;
                        }
                        Some(KIB * value)
                    }
                },
            }
        },
    }
}

/// Parses the text of the memory-information file: every line of the
/// `key: value` shape becomes an entry, in order; the rest are skipped.
pub fn meminfo_from_text(text: &str) -> (m: MemInfo)
    ensures
        m@ == spec_meminfo(spec_split(text@, Separator::Exact('\n'))),
{
    let lines = split(text, Separator::Exact('\n'));
    let ghost all = crate::sysinfo::text::views_of(lines@);
    let mut entries: Vec<(String, usize)> = Vec::new();
    let mut i: usize = 0;
    proof {
        assert(all.skip(0) =~= all);
        assert(entry_views(entries@) =~= Seq::<(Seq<char>, usize)>::empty());
        assert(entry_views(entries@) + spec_meminfo(all) =~= spec_meminfo(all));
    }
    while i < lines.len()
        invariant
            0 <= i <= lines@.len(),
            all == crate::sysinfo::text::views_of(lines@),
            spec_meminfo(all) == entry_views(entries@) + spec_meminfo(all.skip(i as int)),
        decreases lines@.len() - i,
    {
        let line = lines[i];
        proof {
            assert(all.skip(i as int).drop_first() =~= all.skip(i + 1));
            assert(all.skip(i as int)[0] == all[i as int]);
        }
        match split_once(line, Separator::Exact(':')) {
            None => {},
            Some((key, raw)) => {
                match mem_value(raw) {
                    None => {},
                    Some(value) => {
                        let trimmed = trim(key);
                        entries.push((trimmed.to_owned(), value));
                        proof {
                            assert(entry_views(entries@) =~= entry_views(entries@.drop_last())
                                + seq![(trimmed@, value)]);
                        }
                    },
                }
            },
        }
        i = i + 1;
    }
    proof {
        assert(all.skip(i as int) =~= Seq::<Seq<char>>::empty());
        assert(entry_views(entries@) + spec_meminfo(all.skip(i as int)) =~= entry_views(
            entries@,
        ));
    }
    MemInfo(entries)
}

} // verus!
