//! Parser for the mount table of the kernel.
//!
//! Each line of the table has six whitespace-separated fields: device,
//! mount point, file-system type, the comma-separated mount flags, and
//! two numbers.  Lines of any other shape are skipped.

use vstd::prelude::*;

use crate::sysinfo::text::{
    digits_val, is_digit, parse_usize, spec_split, spec_split_once, spec_tokens, split,
    split_once, str_eq, tokens, views_of, Separator,
};

verus! {

/// Information about a mounted file system.
#[derive(Clone, Debug, PartialEq, Eq)]
pub struct Mount {
    /// The mounted device.
    pub device: String,
    /// Where the device is mounted.
    pub mountpoint: String,
    /// The type of the file system.
    pub filesystem: String,
    /// The mount flags: each a key, with a value where the flag has one.
    pub flags: Vec<(String, Option<String>)>,
    /// The dump frequency field.
    pub freq: u32,
    /// The fsck pass-number field.
    pub pass_no: u32,
}

/// Mathematical model of a [`Mount`].
#[verifier::ext_equal]
pub struct MountModel {
    pub device: Seq<char>,
    pub mountpoint: Seq<char>,
    pub filesystem: Seq<char>,
    pub flags: Seq<(Seq<char>, Option<Seq<char>>)>,
    pub freq: u32,
    pub pass_no: u32,
}

/// The models of a list of mount flags.
pub open spec fn flag_views(flags: Seq<(String, Option<String>)>) -> Seq<
    (Seq<char>, Option<Seq<char>>),
> {
    Seq::new(
        flags.len(),
        |i: int|
            (
                flags[i].0@,
                match flags[i].1 {
                    Some(v) => Some(v@),
                    None => None,
                },
            ),
    )
}

impl View for Mount {
    type V = MountModel;

    open spec fn view(&self) -> MountModel {
        MountModel {
            device: self.device@,
            mountpoint: self.mountpoint@,
            filesystem: self.filesystem@,
            flags: flag_views(self.flags@),
            freq: self.freq,
            pass_no: self.pass_no,
        }
    }
}

/// One mount flag: the part before the first `=` and the rest, or the
/// whole part as a valueless flag.
pub open spec fn spec_flag(part: Seq<char>) -> (Seq<char>, Option<Seq<char>>) {
    match spec_split_once(part, Separator::Exact('=')) {
        None => (part, None),
        Some((key, value)) => (key, Some(value)),
    }
}

/// The mount flags of the comma-separated flags field.
pub open spec fn spec_flags(parts: Seq<Seq<char>>) -> Seq<(Seq<char>, Option<Seq<char>>)>
    decreases parts.len(),
{
    if parts.len() == 0 {
        Seq::empty()
    } else {
        seq![spec_flag(parts[0])] + spec_flags(parts.drop_first())
    }
}

/// Holds for a text that spells a decimal number fitting a `u32`.
pub open spec fn spec_valid_u32(s: Seq<char>) -> bool {
    s.len() > 0 && (forall|i: int| 0 <= i < s.len() ==> is_digit(s[i])) && digits_val(s)
        <= u32::MAX
}

/// The mount of one line of the table, if the line has exactly six
/// fields with parsable numbers.
pub open spec fn spec_mount(line: Seq<char>) -> Option<MountModel> {
    let fields = spec_tokens(line);
    if fields.len() == 6 && spec_valid_u32(fields[4]) && spec_valid_u32(fields[5]) {
        Some(
            MountModel {
                device: fields[0],
                mountpoint: fields[1],
                filesystem: fields[2],
                flags: spec_flags(spec_split(fields[3], Separator::Exact(','))),
                freq: digits_val(fields[4]) as u32,
                pass_no: digits_val(fields[5]) as u32,
            },
        )
    } else {
        None
    }
}

/// The mounts of all lines that parse, in order.
pub open spec fn spec_mounts(lines: Seq<Seq<char>>) -> Seq<MountModel>
    decreases lines.len(),
{
    if lines.len() == 0 {
        Seq::empty()
    } else {
        match spec_mount(lines[0]) {
            Some(m) => seq![m] + spec_mounts(lines.drop_first()),
            None => spec_mounts(lines.drop_first()),
        }
    }
}

/// The models of a list of mounts.
pub open spec fn mount_views(mounts: Seq<Mount>) -> Seq<MountModel> {
    Seq::new(mounts.len(), |i: int| mounts[i]@)
}

/// Parses the comma-separated flags field.
fn flags_of(raw: &str) -> (r: Vec<(String, Option<String>)>)
    ensures
        flag_views(r@) == spec_flags(spec_split(raw@, Separator::Exact(','))),
{
    let parts = split(raw, Separator::Exact(','));
    let ghost all = views_of(parts@);
    let mut r: Vec<(String, Option<String>)> = Vec::new();
    let mut i: usize = 0;
    proof {
        assert(all.skip(0) =~= all);
        assert(flag_views(r@) =~= Seq::<(Seq<char>, Option<Seq<char>>)>::empty());
        assert(flag_views(r@) + spec_flags(all) =~= spec_flags(all));
    }
    while i < parts.len()
        invariant
            0 <= i <= parts@.len(),
            all == views_of(parts@),
            spec_flags(all) == flag_views(r@) + spec_flags(all.skip(i as int)),
        decreases parts@.len() - i,
    {
        proof {
            assert(all.skip(i as int).drop_first() =~= all.skip(i + 1));
            assert(all.skip(i as int)[0] == all[i as int]);
        }
        let part = parts[i];
        let flag = match split_once(part, Separator::Exact('=')) {
            None => (part.to_owned(), None),
            Some((key, value)) => (key.to_owned(), Some(value.to_owned())),
        };
        r.push(flag);
        proof {
            assert(flag_views(r@) =~= flag_views(r@.drop_last()) + seq![spec_flag(part@)]);
        }
        i = i + 1;
    }
    proof {
        assert(all.skip(i as int) =~= Seq::<Seq<char>>::empty());
        assert(flag_views(r@) + spec_flags(all.skip(i as int)) =~= flag_views(r@));
    }
    r
}

/// Parses a number field into a `u32`.
fn parse_u32(s: &str) -> (r: Option<u32>)
    ensures
        match r {
            Some(v) => spec_valid_u32(s@) && v == digits_val(s@),
            None => !spec_valid_u32(s@),
        },
{
    match parse_usize(s) {
        None => None,
        Some(v) => {
            if v <= u32::MAX as usize {
                Some(v as u32)
            } else {
                None
            }
        },
    }
}

/// Parses one line of the mount table.
pub fn mount_from_line(line: &str) -> (r: Option<Mount>)
    ensures
        match r {
            Some(m) => spec_mount(line@) == Some(m@),
            None => spec_mount(line@) is None,
        },
{
    let fields = tokens(line);
    if fields.len() != 6 {
        return None;
    }
    let freq = match parse_u32(fields[4]) {
        Some(v) => v,
        None => {
            return None;
        },
    };
    let pass_no = match parse_u32(fields[5]) {
        Some(v) => v,
        None => {
            return None;
        },
    };
    let m = Mount {
        device: fields[0].to_owned(),
        mountpoint: fields[1].to_owned(),
        filesystem: fields[2].to_owned(),
        flags: flags_of(fields[3]),
        freq,
        pass_no,
    };
    proof {
        assert(views_of(fields@)[0] == fields@[0]@);
        assert(views_of(fields@)[1] == fields@[1]@);
        assert(views_of(fields@)[2] == fields@[2]@);
        assert(views_of(fields@)[3] == fields@[3]@);
        assert(views_of(fields@)[4] == fields@[4]@);
        assert(views_of(fields@)[5] == fields@[5]@);
        assert(m@ =~= spec_mount(line@)->0);
    }
    Some(m)
}

/// Parses the text of the mount table: every line with six fields
/// becomes a mount, in order; the rest are skipped.
pub fn mounts_from_text(text: &str) -> (r: Vec<Mount>)
    ensures
        mount_views(r@) == spec_mounts(spec_split(text@, Separator::Exact('\n'))),
{
    let lines = split(text, Separator::Exact('\n'));
    let ghost all = views_of(lines@);
    let mut r: Vec<Mount> = Vec::new();
    let mut i: usize = 0;
    proof {
        assert(all.skip(0) =~= all);
        assert(mount_views(r@) =~= Seq::<MountModel>::empty());
        assert(mount_views(r@) + spec_mounts(all) =~= spec_mounts(all));
    }
    while i < lines.len()
        invariant
            0 <= i <= lines@.len(),
            all == views_of(lines@),
            spec_mounts(all) == mount_views(r@) + spec_mounts(all.skip(i as int)),
        decreases lines@.len() - i,
    {
        proof {
            assert(all.skip(i as int).drop_first() =~= all.skip(i + 1));
            assert(all.skip(i as int)[0] == all[i as int]);
        }
        match mount_from_line(lines[i]) {
            None => {},
            Some(m) => {
                r.push(m);
                proof {
                    assert(mount_views(r@) =~= mount_views(r@.drop_last()) + seq![
                        r@.last()@,
                    ]);
                }
            },
        }
        i = i + 1;
    }
    proof {
        assert(all.skip(i as int) =~= Seq::<Seq<char>>::empty());
        assert(mount_views(r@) + spec_mounts(all.skip(i as int)) =~= mount_views(r@));
    }
    r
}

/// Holds when the flags carry the given key.
pub open spec fn spec_has_flag(flags: Seq<(Seq<char>, Option<Seq<char>>)>, key: Seq<char>) -> bool {
    exists|i: int| 0 <= i < flags.len() && flags[i].0 == key
}

/// Whether the root file system is mounted read-only: read off the
/// first mount of the root mount point, or nothing when the table has
/// none.
pub open spec fn spec_root_ro(mounts: Seq<MountModel>) -> Option<bool>
    decreases mounts.len(),
{
    if mounts.len() == 0 {
        None
    } else if mounts[0].mountpoint == "/"@ {
        Some(spec_has_flag(mounts[0].flags, "ro"@))
    } else {
        spec_root_ro(mounts.drop_first())
    }
}

/// Decides whether the flags carry the given key.
fn has_flag(flags: &Vec<(String, Option<String>)>, key: &str) -> (r: bool)
    ensures
        r == spec_has_flag(flag_views(flags@), key@),
{
    let mut i: usize = 0;
    while i < flags.len()
        invariant
            0 <= i <= flags@.len(),
            forall|j: int| 0 <= j < i ==> flags@[j].0@ != key@,
        decreases flags@.len() - i,
    {
        if str_eq(flags[i].0.as_str(), key) {
            proof {
                assert(flag_views(flags@)[i as int].0 == key@);
            }
            return true;
        }
        i = i + 1;
    }
    proof {
        assert forall|j: int| 0 <= j < flags@.len() implies flag_views(flags@)[j].0 != key@ by {
            assert(flag_views(flags@)[j].0 == flags@[j].0@);
        }
    }
    false
}

/// Determines whether the root file system is mounted read-only: the
/// first mount of the root mount point decides; nothing when the table
/// holds none, which the caller reports as its error.
pub fn root_mounted_ro(mounts: &Vec<Mount>) -> (r: Option<bool>)
    ensures
        r == spec_root_ro(mount_views(mounts@)),
{
    let ghost all = mount_views(mounts@);
    let mut i: usize = 0;
    proof {
        assert(all.skip(0) =~= all);
    }
    while i < mounts.len()
        invariant
            0 <= i <= mounts@.len(),
            all == mount_views(mounts@),
            spec_root_ro(all) == spec_root_ro(all.skip(i as int)),
        decreases mounts@.len() - i,
    {
        proof {
            assert(all.skip(i as int).drop_first() =~= all.skip(i + 1));
            assert(all.skip(i as int)[0] == all[i as int]);
        }
        if str_eq(mounts[i].mountpoint.as_str(), "/") {
            let ro = has_flag(&mounts[i].flags, "ro");
            return Some(ro);
        }
        i = i + 1;
    }
    proof {
        assert(all.skip(i as int) =~= Seq::<MountModel>::empty());
    }
    None
}

} // verus!
