//! Parser for the kernel command line.
//!
//! The command line is a list of whitespace-separated items; an item of
//! the shape `key=value` becomes a keyed entry, any other item a bare
//! key without a value.

use vstd::prelude::*;

use crate::sysinfo::text::{spec_split_once, spec_tokens, split_once, tokens, views_of, Separator};

verus! {

/// One parsed item: the part before the first `=` with the rest as its
/// value, or the whole item as a bare key.
pub open spec fn spec_cmdline_item(item: Seq<char>) -> (Seq<char>, Option<Seq<char>>) {
    match spec_split_once(item, Separator::Exact('=')) {
        None => (item, None),
        Some((key, value)) => (key, Some(value)),
    }
}

/// All parsed items of the command line, in order.
pub open spec fn spec_cmdline(items: Seq<Seq<char>>) -> Seq<(Seq<char>, Option<Seq<char>>)>
    decreases items.len(),
{
    if items.len() == 0 {
        Seq::empty()
    } else {
        seq![spec_cmdline_item(items[0])] + spec_cmdline(items.drop_first())
    }
}

/// The models of a list of parsed items.
pub open spec fn item_views(items: Seq<(String, Option<String>)>) -> Seq<
    (Seq<char>, Option<Seq<char>>),
> {
    Seq::new(
        items.len(),
        |i: int|
            (
                items[i].0@,
                match items[i].1 {
                    Some(v) => Some(v@),
                    None => None,
                },
            ),
    )
}

/// Parses the kernel command line into its keyed items.
pub fn cmdline_from_text(text: &str) -> (r: Vec<(String, Option<String>)>)
    ensures
        item_views(r@) == spec_cmdline(spec_tokens(text@)),
{
    let items = tokens(text);
    let ghost all = views_of(items@);
    let mut r: Vec<(String, Option<String>)> = Vec::new();
    let mut i: usize = 0;
    proof {
        assert(all.skip(0) =~= all);
        assert(item_views(r@) =~= Seq::<(Seq<char>, Option<Seq<char>>)>::empty());
        assert(item_views(r@) + spec_cmdline(all) =~= spec_cmdline(all));
    }
    while i < items.len()
        invariant
            0 <= i <= items@.len(),
            all == views_of(items@),
            spec_cmdline(all) == item_views(r@) + spec_cmdline(all.skip(i as int)),
        decreases items@.len() - i,
    {
        proof {
            assert(all.skip(i as int).drop_first() =~= all.skip(i + 1));
            assert(all.skip(i as int)[0] == all[i as int]);
        }
        let item = items[i];
        let parsed = match split_once(item, Separator::Exact('=')) {
            None => (item.to_owned(), None),
            Some((key, value)) => (key.to_owned(), Some(value.to_owned())),
        };
        r.push(parsed);
        proof {
            assert(item_views(r@) =~= item_views(r@.drop_last()) + seq![spec_cmdline_item(
                item@,
            )]);
        }
        i = i + 1;
    }
    proof {
        assert(all.skip(i as int) =~= Seq::<Seq<char>>::empty());
        assert(item_views(r@) + spec_cmdline(all.skip(i as int)) =~= item_views(r@));
    }
    r
}

} // verus!
