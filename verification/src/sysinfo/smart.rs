//! Parsers for the output of the disk self-assessment tool.

use vstd::prelude::*;
use vstd::string::StrSliceExecFns;

use crate::sysinfo::text::{
    spec_split, spec_split_once, spec_starts_with, spec_trim, split, split_once, starts_with,
    trim, views_of, Separator,
};

verus! {

/// The line prefix that carries the overall self-assessment result.
pub const SMART_STATUS_PREFIX: &'static str =
    "SMART overall-health self-assessment test result:";

/// The device name of one scan line: the first whitespace-separated
/// token of the trimmed line, if the line is not blank.
pub open spec fn spec_device(line: Seq<char>) -> Option<Seq<char>> {
    let t = spec_trim(line);
    if t.len() == 0 {
        None
    } else {
        match spec_split_once(t, Separator::Whitespace) {
            Some((first, _)) => Some(first),
            None => Some(t),
        }
    }
}

/// The device names of all scan lines, in order.
pub open spec fn spec_devices(lines: Seq<Seq<char>>) -> Seq<Seq<char>>
    decreases lines.len(),
{
    if lines.len() == 0 {
        Seq::empty()
    } else {
        match spec_device(lines[0]) {
            Some(d) => seq![d] + spec_devices(lines.drop_first()),
            None => spec_devices(lines.drop_first()),
        }
    }
}

/// The views of a list of strings.
pub open spec fn string_views(v: Seq<String>) -> Seq<Seq<char>> {
    Seq::new(v.len(), |i: int| v[i]@)
}

/// Reads the scanned device names out of the scan output: the first
/// token of every non-blank line.
pub fn get_devices_from_text(text: &str) -> (r: Vec<String>)
    ensures
        string_views(r@) == spec_devices(spec_split(text@, Separator::Exact('\n'))),
{
    let lines = split(text, Separator::Exact('\n'));
    let ghost all = views_of(lines@);
    let mut r: Vec<String> = Vec::new();
    let mut i: usize = 0;
    proof {
        assert(all.skip(0) =~= all);
        assert(string_views(r@) =~= Seq::<Seq<char>>::empty());
        assert(string_views(r@) + spec_devices(all) =~= spec_devices(all));
    }
    while i < lines.len()
        invariant
            0 <= i <= lines@.len(),
            all == views_of(lines@),
            spec_devices(all) == string_views(r@) + spec_devices(all.skip(i as int)),
        decreases lines@.len() - i,
    {
        proof {
            assert(all.skip(i as int).drop_first() =~= all.skip(i + 1));
            assert(all.skip(i as int)[0] == all[i as int]);
        }
        let t = trim(lines[i]);
        if t.unicode_len() > 0 {
            let device = match split_once(t, Separator::Whitespace) {
                Some((first, _)) => first,
                None => t,
            };
            r.push(device.to_owned());
            proof {
                assert(string_views(r@) =~= string_views(r@.drop_last()) + seq![device@]);
            }
        }
        i = i + 1;
    }
    proof {
        assert(all.skip(i as int) =~= Seq::<Seq<char>>::empty());
        assert(string_views(r@) + spec_devices(all.skip(i as int)) =~= string_views(r@));
    }
    r
}

/// The reported status of one health line: the trimmed text between the
/// first and second colon, for a line whose trimmed text begins with
/// the status prefix.
pub open spec fn spec_check(lines: Seq<Seq<char>>) -> Option<Seq<char>>
    decreases lines.len(),
{
    if lines.len() == 0 {
        None
    } else if spec_starts_with(spec_trim(lines[0]), SMART_STATUS_PREFIX@) && spec_split(
        lines[0],
        Separator::Exact(':'),
    ).len() >= 2 {
        Some(spec_trim(spec_split(lines[0], Separator::Exact(':'))[1]))
    } else {
        spec_check(lines.drop_first())
    }
}

/// Reads the overall self-assessment status out of the health output:
/// the text after the colon of the first line that carries the status
/// prefix.
pub fn check_device_from_text(text: &str) -> (r: Option<String>)
    ensures
        match r {
            Some(status) => spec_check(spec_split(text@, Separator::Exact('\n'))) == Some(
                status@,
            ),
            None => spec_check(spec_split(text@, Separator::Exact('\n'))) is None,
        },
{
    let lines = split(text, Separator::Exact('\n'));
    let ghost all = views_of(lines@);
    let mut i: usize = 0;
    proof {
        assert(all.skip(0) =~= all);
    }
    while i < lines.len()
        invariant
            0 <= i <= lines@.len(),
            all == views_of(lines@),
            all == spec_split(text@, Separator::Exact('\n')),
            spec_check(all) == spec_check(all.skip(i as int)),
        decreases lines@.len() - i,
    {
        proof {
            assert(all.skip(i as int).drop_first() =~= all.skip(i + 1));
            assert(all.skip(i as int)[0] == all[i as int]);
        }
        let line = lines[i];
        if starts_with(trim(line), SMART_STATUS_PREFIX) {
            let parts = split(line, Separator::Exact(':'));
            if parts.len() >= 2 {
                let status = trim(parts[1]);
                proof {
                    assert(line@ == all.skip(i as int)[0]);
                    assert(views_of(parts@).len() == parts@.len());
                    assert(spec_split(line@, Separator::Exact(':'))[1] == views_of(parts@)[1]);
                    assert(views_of(parts@)[1] == parts@[1]@);
                    assert(spec_check(all.skip(i as int)) == Some(spec_trim(parts@[1]@)));
                }
                return Some(status.to_owned());
            }
        }
        i = i + 1;
    }
    proof {
        assert(all.skip(i as int) =~= Seq::<Seq<char>>::empty());
    }
    None
}

} // verus!
