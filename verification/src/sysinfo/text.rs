//! Small text operations that the system-information parsers share:
//! splitting, trimming, prefix tests and decimal parsing, each proved
//! against a direct specification over character sequences.

use vstd::prelude::*;
use vstd::string::StrSliceExecFns;

verus! {

/// Holds for the ASCII whitespace characters.
pub open spec fn is_space(c: char) -> bool {
    c == ' ' || c == '\t' || c == '\n' || c == '\r' || c == '\x0b' || c == '\x0c'
}

/// Where a split separates: at one exact character, or at every
/// whitespace character.
#[derive(Clone, Copy, Debug, PartialEq, Eq, Structural)]
pub enum Separator {
    /// Split at every occurrence of this character.
    Exact(char),
    /// Split at every whitespace character.
    Whitespace,
}

/// Whether the character separates under the given separator.
pub open spec fn spec_separates(sep: Separator, c: char) -> bool {
    match sep {
        Separator::Exact(x) => c == x,
        Separator::Whitespace => is_space(c),
    }
}

/// Whether the character separates, decided.
pub fn separates(sep: Separator, c: char) -> (r: bool)
    ensures
        r == spec_separates(sep, c),
{
    match sep {
        Separator::Exact(x) => c == x,
        Separator::Whitespace => c == ' ' || c == '\t' || c == '\n' || c == '\r' || c == '\x0b'
            || c == '\x0c',
    }
}

/// The parts of the text between the separating characters, in order;
/// one more part than separators, empty parts kept.
pub open spec fn spec_split(s: Seq<char>, sep: Separator) -> Seq<Seq<char>>
    decreases s.len(),
{
    if s.len() == 0 {
        seq![Seq::<char>::empty()]
    } else if spec_separates(sep, s[0]) {
        seq![Seq::<char>::empty()] + spec_split(s.drop_first(), sep)
    } else {
        let rest = spec_split(s.drop_first(), sep);
        seq![seq![s[0]] + rest[0]] + rest.drop_first()
    }
}

/// A split has one more part than the text has separators; never none.
pub proof fn lemma_split_len(s: Seq<char>, sep: Separator)
    ensures
        spec_split(s, sep).len() >= 1,
    decreases s.len(),
{
    if s.len() > 0 {
        lemma_split_len(s.drop_first(), sep);
    }
}

/// Splitting a text that starts with a separator-free stretch up to a
/// separator at `j` yields that stretch and then the split of the rest.
proof fn lemma_split_step(s: Seq<char>, sep: Separator, j: int)
    requires
        0 <= j < s.len(),
        spec_separates(sep, s[j]),
        forall|i: int| 0 <= i < j ==> !spec_separates(sep, s[i]),
    ensures
        spec_split(s, sep) == seq![s.take(j)] + spec_split(s.skip(j + 1), sep),
    decreases j,
{
    lemma_split_len(s.drop_first(), sep);
    if j == 0 {
        assert(s.take(0) =~= Seq::<char>::empty());
        assert(s.skip(1) =~= s.drop_first());
        assert(spec_split(s, sep) =~= seq![s.take(0)] + spec_split(s.skip(1), sep));
    } else {
        lemma_split_step(s.drop_first(), sep, j - 1);
        let rest = spec_split(s.drop_first(), sep);
        assert(s.drop_first().take(j - 1) =~= s.take(j).drop_first());
        assert(s.drop_first().skip(j) =~= s.skip(j + 1));
        assert(rest[0] == s.drop_first().take(j - 1));
        assert(seq![s[0]] + rest[0] =~= s.take(j));
        assert(rest.drop_first() =~= spec_split(s.skip(j + 1), sep));
        assert(spec_split(s, sep) =~= seq![s.take(j)] + spec_split(s.skip(j + 1), sep));
    }
}

/// Splitting a separator-free text yields the text as its one part.
proof fn lemma_split_whole(s: Seq<char>, sep: Separator)
    requires
        forall|i: int| 0 <= i < s.len() ==> !spec_separates(sep, s[i]),
    ensures
        spec_split(s, sep) == seq![s],
    decreases s.len(),
{
    if s.len() > 0 {
        lemma_split_whole(s.drop_first(), sep);
        assert(seq![s[0]] + s.drop_first() =~= s);
        assert(spec_split(s, sep) =~= seq![s]);
    } else {
        assert(s =~= Seq::<char>::empty());
        assert(spec_split(s, sep) =~= seq![s]);
    }
}

/// The views of a list of string slices.
pub open spec fn views_of(parts: Seq<&str>) -> Seq<Seq<char>> {
    Seq::new(parts.len(), |i: int| parts[i]@)
}

/// Splits the text at its separating characters; empty parts are kept,
/// so the result holds exactly the parts of [`spec_split`].
pub fn split<'a>(s: &'a str, sep: Separator) -> (parts: Vec<&'a str>)
    ensures
        views_of(parts@) == spec_split(s@, sep),
{
    let n = s.unicode_len();
    let mut parts: Vec<&'a str> = Vec::new();
    let mut start: usize = 0;
    let mut i: usize = 0;
    proof {
        assert(s@.skip(0) =~= s@);
        assert(views_of(parts@) =~= Seq::<Seq<char>>::empty());
        assert(views_of(parts@) + spec_split(s@, sep) =~= spec_split(s@, sep));
    }
    while i < n
        invariant
            0 <= start <= i <= n,
            n == s@.len(),
            forall|k: int| start <= k < i ==> !spec_separates(sep, s@[k]),
            spec_split(s@, sep) == views_of(parts@) + spec_split(s@.skip(start as int), sep),
        decreases n - i,
    {
        let c = s.get_char(i);
        if separates(sep, c) {
            let part = s.substring_char(start, i);
            parts.push(part);
            proof {
                let tail = s@.skip(start as int);
                lemma_split_step(tail, sep, i - start);
                assert(tail.take(i - start) =~= s@.subrange(start as int, i as int));
                assert(tail.skip(i - start + 1) =~= s@.skip(i + 1));
                assert(views_of(parts@) =~= views_of(parts@.drop_last()) + seq![part@]);
                assert(spec_split(s@, sep) =~= views_of(parts@) + spec_split(
                    s@.skip(i + 1),
                    sep,
                ));
            }
            start = i + 1;
        }
        i = i + 1;
    }
    let last = s.substring_char(start, n);
    parts.push(last);
    proof {
        let tail = s@.skip(start as int);
        lemma_split_whole(tail, sep);
        assert(tail =~= s@.subrange(start as int, n as int));
        assert(views_of(parts@) =~= views_of(parts@.drop_last()) + seq![last@]);
        assert(views_of(parts@) =~= spec_split(s@, sep));
    }
    parts
}

/// The text before and after the first separating character, if the
/// text has one.
pub open spec fn spec_split_once(s: Seq<char>, sep: Separator) -> Option<(Seq<char>, Seq<char>)> {
    if spec_split(s, sep).len() >= 2 {
        Some(
            (
                spec_split(s, sep)[0],
                s.skip(spec_split(s, sep)[0].len() as int + 1),
            ),
        )
    } else {
        None
    }
}

/// Splits the text at the first separating character, into the part
/// before and the whole rest after it.
pub fn split_once<'a>(s: &'a str, sep: Separator) -> (r: Option<(&'a str, &'a str)>)
    ensures
        match r {
            Some((before, after)) => spec_split_once(s@, sep) == Some((before@, after@)),
            None => spec_split_once(s@, sep) is None,
        },
{
    let n = s.unicode_len();
    let mut i: usize = 0;
    while i < n
        invariant
            0 <= i <= n,
            n == s@.len(),
            forall|k: int| 0 <= k < i ==> !spec_separates(sep, s@[k]),
        decreases n - i,
    {
        let c = s.get_char(i);
        if separates(sep, c) {
            let before = s.substring_char(0, i);
            let after = s.substring_char(i + 1, n);
            proof {
                lemma_split_step(s@, sep, i as int);
                lemma_split_len(s@.skip(i + 1), sep);
                assert(spec_split(s@, sep)[0] == s@.take(i as int));
                assert(before@ =~= s@.take(i as int));
                assert(after@ =~= s@.skip(i + 1));
            }
            return Some((before, after));
        }
        i = i + 1;
    }
    proof {
        lemma_split_whole(s@, sep);
    }
    None
}

/// The text with its leading whitespace removed.
pub open spec fn spec_trim_start(s: Seq<char>) -> Seq<char>
    decreases s.len(),
{
    if s.len() > 0 && is_space(s[0]) {
        spec_trim_start(s.drop_first())
    } else {
        s
    }
}

/// The text with its trailing whitespace removed.
pub open spec fn spec_trim_end(s: Seq<char>) -> Seq<char>
    decreases s.len(),
{
    if s.len() > 0 && is_space(s.last()) {
        spec_trim_end(s.drop_last())
    } else {
        s
    }
}

/// The text with leading and trailing whitespace removed.
pub open spec fn spec_trim(s: Seq<char>) -> Seq<char> {
    spec_trim_end(spec_trim_start(s))
}

/// Trimming the start skips exactly the leading whitespace.
proof fn lemma_trim_start_skip(s: Seq<char>, a: int)
    requires
        0 <= a <= s.len(),
        forall|i: int| 0 <= i < a ==> is_space(s[i]),
        a < s.len() ==> !is_space(s[a]),
    ensures
        spec_trim_start(s) == s.skip(a),
    decreases a,
{
    if a == 0 {
        assert(s.skip(0) =~= s);
    } else {
        lemma_trim_start_skip(s.drop_first(), a - 1);
        assert(s.drop_first().skip(a - 1) =~= s.skip(a));
    }
}

/// Trimming the end keeps exactly what stands before the trailing
/// whitespace.
proof fn lemma_trim_end_take(s: Seq<char>, b: int)
    requires
        0 <= b <= s.len(),
        forall|i: int| b <= i < s.len() ==> is_space(s[i]),
        b > 0 ==> !is_space(s[b - 1]),
    ensures
        spec_trim_end(s) == s.take(b),
    decreases s.len() - b,
{
    if b == s.len() {
        assert(s.take(b) =~= s);
    } else {
        lemma_trim_end_take(s.drop_last(), b);
        assert(s.drop_last().take(b) =~= s.take(b));
    }
}

/// Removes leading and trailing whitespace from the text.
pub fn trim<'a>(s: &'a str) -> (r: &'a str)
    ensures
        r@ == spec_trim(s@),
{
    let n = s.unicode_len();
    let mut a: usize = 0;
    while a < n && separates(Separator::Whitespace, s.get_char(a))
        invariant
            0 <= a <= n,
            n == s@.len(),
            forall|k: int| 0 <= k < a ==> is_space(s@[k]),
        decreases n - a,
    {
        a = a + 1;
    }
    let mut b: usize = n;
    while b > a && separates(Separator::Whitespace, s.get_char(b - 1))
        invariant
            a <= b <= n,
            n == s@.len(),
            forall|k: int| 0 <= k < a ==> is_space(s@[k]),
            a < n ==> !is_space(s@[a as int]),
            forall|k: int| b <= k < n ==> is_space(s@[k]),
        decreases b,
    {
        b = b - 1;
    }
    let r = s.substring_char(a, b);
    proof {
        lemma_trim_start_skip(s@, a as int);
        let tail = s@.skip(a as int);
        lemma_trim_end_take(tail, b - a);
        assert(tail.take(b - a) =~= s@.subrange(a as int, b as int));
    }
    r
}

/// The nonempty parts of a list of parts, in order.
pub open spec fn spec_nonempty(parts: Seq<Seq<char>>) -> Seq<Seq<char>>
    decreases parts.len(),
{
    if parts.len() == 0 {
        Seq::empty()
    } else if parts[0].len() > 0 {
        seq![parts[0]] + spec_nonempty(parts.drop_first())
    } else {
        spec_nonempty(parts.drop_first())
    }
}

/// The whitespace-separated tokens of the text, in order.
pub open spec fn spec_tokens(s: Seq<char>) -> Seq<Seq<char>> {
    spec_nonempty(spec_split(s, Separator::Whitespace))
}

/// Splits the text into its whitespace-separated tokens.
pub fn tokens<'a>(s: &'a str) -> (r: Vec<&'a str>)
    ensures
        views_of(r@) == spec_tokens(s@),
{
    let parts = split(s, Separator::Whitespace);
    let ghost all = views_of(parts@);
    let mut r: Vec<&'a str> = Vec::new();
    let mut i: usize = 0;
    proof {
        assert(all.skip(0) =~= all);
        assert(views_of(r@) + spec_nonempty(all) =~= spec_nonempty(all));
    }
    while i < parts.len()
        invariant
            0 <= i <= parts@.len(),
            all == views_of(parts@),
            spec_nonempty(all) == views_of(r@) + spec_nonempty(all.skip(i as int)),
        decreases parts@.len() - i,
    {
        let part = parts[i];
        proof {
            assert(all.skip(i as int).drop_first() =~= all.skip(i + 1));
            assert(all.skip(i as int)[0] == all[i as int]);
        }
        if part.unicode_len() > 0 {
            r.push(part);
            proof {
                assert(views_of(r@) =~= views_of(r@.drop_last()) + seq![part@]);
            }
        }
        i = i + 1;
    }
    proof {
        assert(all.skip(i as int) =~= Seq::<Seq<char>>::empty());
        assert(views_of(r@) =~= views_of(r@) + spec_nonempty(all.skip(i as int)));
    }
    r
}

/// Holds for a decimal digit.
pub open spec fn is_digit(c: char) -> bool {
    '0' <= c && c <= '9'
}

/// The value of one digit; a character that is no digit counts zero.
pub open spec fn digit_of(c: char) -> nat {
    if is_digit(c) {
        (c as int - '0' as int) as nat
    } else {
        0
    }
}

/// The number that the digits spell in decimal.
pub open spec fn digits_val(s: Seq<char>) -> nat
    decreases s.len(),
{
    if s.len() == 0 {
        0
    } else {
        digits_val(s.drop_last()) * 10 + digit_of(s.last())
    }
}

/// Appending digits never shrinks the spelled number.
proof fn lemma_digits_val_grows(s: Seq<char>, i: int)
    requires
        0 <= i <= s.len(),
    ensures
        digits_val(s.take(i)) <= digits_val(s),
    decreases s.len() - i,
{
    if i < s.len() {
        lemma_digits_val_grows(s, i + 1);
        let p = s.take(i + 1);
        assert(p.drop_last() =~= s.take(i));
        assert(p.last() == s[i]);
        assert(digits_val(s.take(i)) <= digits_val(s.take(i)) * 10 + digit_of(s[i]))
            by (nonlinear_arith);
    } else {
        assert(s.take(i) =~= s);
    }
}

/// Parses a decimal number: the value of the digits if the text is
/// nonempty, all digits, and the value fits the machine word; nothing
/// otherwise.
pub fn parse_usize(s: &str) -> (r: Option<usize>)
    ensures
        match r {
            Some(v) => s@.len() > 0 && (forall|i: int| 0 <= i < s@.len() ==> is_digit(s@[i]))
                && v == digits_val(s@),
            None => s@.len() == 0 || (exists|i: int| 0 <= i < s@.len() && !is_digit(s@[i]))
                || digits_val(s@) > usize::MAX,
        },
{
    let n = s.unicode_len();
    if n == 0 {
        return None;
    }
    let mut acc: usize = 0;
    let mut i: usize = 0;
    while i < n
        invariant
            0 <= i <= n,
            n == s@.len(),
            forall|k: int| 0 <= k < i ==> is_digit(s@[k]),
            acc == digits_val(s@.take(i as int)),
        decreases n - i,
    {
        let c = s.get_char(i);
        if !('0' <= c && c <= '9') {
            return None;
        }
        let d = (c as u32 - '0' as u32) as usize;
        proof {
            assert(s@.take(i + 1).drop_last() =~= s@.take(i as int));
            assert(s@.take(i + 1).last() == s@[i as int]);
        }
        if acc > (usize::MAX - d) / 10 {
            proof {
                assert(acc * 10 + d > usize::MAX) by (nonlinear_arith)
                    requires
                        acc > (usize::MAX - d) / 10,
                        d <= 9,
                ;
                lemma_digits_val_grows(s@, i + 1);
            }
            return None;
        }
        proof {
            assert(acc * 10 + d <= usize::MAX) by (nonlinear_arith)
                requires
                    acc <= (usize::MAX - d) / 10,
                    d <= 9,
            ;
        }
        acc = acc * 10 + d;
        i = i + 1;
    }
    proof {
        assert(s@.take(n as int) =~= s@);
    }
    Some(acc)
}

/// Holds when the text begins with the given prefix.
pub open spec fn spec_starts_with(s: Seq<char>, prefix: Seq<char>) -> bool {
    s.len() >= prefix.len() && s.take(prefix.len() as int) == prefix
}

/// Decides whether the text begins with the given prefix.
pub fn starts_with(s: &str, prefix: &str) -> (r: bool)
    ensures
        r == spec_starts_with(s@, prefix@),
{
    let n = s.unicode_len();
    let p = prefix.unicode_len();
    if n < p {
        proof {
            assert(!spec_starts_with(s@, prefix@));
        }
        return false;
    }
    let mut i: usize = 0;
    while i < p
        invariant
            0 <= i <= p,
            p == prefix@.len(),
            n == s@.len(),
            n >= p,
            forall|k: int| 0 <= k < i ==> s@[k] == prefix@[k],
        decreases p - i,
    {
        if s.get_char(i) != prefix.get_char(i) {
            proof {
                assert(s@.take(p as int)[i as int] != prefix@[i as int]);
            }
            return false;
        }
        i = i + 1;
    }
    proof {
        assert(s@.take(p as int) =~= prefix@);
    }
    true
}

/// Holds when the text contains the given pattern as a substring.
pub open spec fn spec_contains(s: Seq<char>, pattern: Seq<char>) -> bool {
    exists|i: int|
        0 <= i <= s.len() - pattern.len() && #[trigger] s.subrange(i, i + pattern.len() as int)
            == pattern
}

/// Decides whether the text contains the given pattern as a substring.
pub fn contains(s: &str, pattern: &str) -> (r: bool)
    ensures
        r == spec_contains(s@, pattern@),
{
    let n = s.unicode_len();
    let p = pattern.unicode_len();
    if p > n {
        return false;
    }
    if p == 0 {
        proof {
            assert(spec_contains(s@, pattern@)) by {
                assert(s@.subrange(0, 0 + pattern@.len() as int) =~= pattern@);
            }
        }
        return true;
    }
    let mut i: usize = 0;
    while i <= n - p
        invariant
            0 <= i <= n - p + 1,
            0 < p <= n,
            n == s@.len(),
            p == pattern@.len(),
            forall|k: int| 0 <= k < i ==> #[trigger] s@.subrange(k, k + p as int) != pattern@,
        decreases n - p + 1 - i,
    {
        let tail = s.substring_char(i, n);
        if starts_with(tail, pattern) {
            proof {
                assert(tail@.take(p as int) =~= s@.subrange(i as int, i + p as int));
            }
            return true;
        }
        proof {
            assert(tail@.take(p as int) =~= s@.subrange(i as int, i + p as int));
        }
        i = i + 1;
    }
    false
}

/// Decides whether two texts are equal.
pub fn str_eq(a: &str, b: &str) -> (r: bool)
    ensures
        r == (a@ == b@),
{
    let owned_a = a.to_owned();
    let owned_b = b.to_owned();
    owned_a == owned_b
}

} // verus!
