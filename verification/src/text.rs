//! Character and string helpers used by the severity parser, the
//! specification parser and the matching engine: case-insensitive
//! comparison, prefix test, whitespace trimming and separator splitting,
//! each with a sequence-level model.

use vstd::prelude::*;
use vstd::string::*;

verus! {

/// Code point of `c` with an ASCII upper-case letter folded to lower case.
pub open spec fn lower_code(c: char) -> int {
    if 65 <= c as u32 && c as u32 <= 90 {
        c as u32 + 32
    } else {
        c as u32 as int
    }
}

/// ASCII-case-insensitive equality of two character sequences.
pub open spec fn seq_eq_icase(a: Seq<char>, b: Seq<char>) -> bool {
    a.len() == b.len() && forall|i: int|
        0 <= i < a.len() ==> lower_code(#[trigger] a[i]) == lower_code(b[i])
}

/// `p` is a prefix of `s`.
pub open spec fn is_prefix(p: Seq<char>, s: Seq<char>) -> bool {
    p.len() <= s.len() && s.subrange(0, p.len() as int) == p
}

/// The characters with the Unicode `White_Space` property, the set that
/// `str::trim` removes.
pub open spec fn is_space_char(c: char) -> bool {
    let u = c as u32;
    (9 <= u && u <= 13) || u == 32 || u == 0x85 || u == 0xA0 || u == 0x1680
        || (0x2000 <= u && u <= 0x200A) || u == 0x2028 || u == 0x2029 || u == 0x202F
        || u == 0x205F || u == 0x3000
}

/// `s` without its leading whitespace.
pub open spec fn trim_start_spec(s: Seq<char>) -> Seq<char>
    decreases s.len(),
{
    if s.len() > 0 && is_space_char(s[0]) {
        trim_start_spec(s.subrange(1, s.len() as int))
    } else {
        s
    }
}

/// `s` without its trailing whitespace.
pub open spec fn trim_end_spec(s: Seq<char>) -> Seq<char>
    decreases s.len(),
{
    if s.len() > 0 && is_space_char(s[s.len() - 1]) {
        trim_end_spec(s.subrange(0, s.len() - 1))
    } else {
        s
    }
}

/// `s` without leading and trailing whitespace, as `str::trim` leaves it.
pub open spec fn trim_spec(s: Seq<char>) -> Seq<char> {
    trim_end_spec(trim_start_spec(s))
}

/// The tokens of `s` between occurrences of `sep`, in order. Splitting the
/// empty sequence gives one empty token; every separator ends the token
/// before it, so a trailing separator produces a final empty token. This is
/// how `str::split` tokenizes.
pub open spec fn split_on(s: Seq<char>, sep: char) -> Seq<Seq<char>>
    decreases s.len(),
{
    if s.len() == 0 {
        seq![Seq::<char>::empty()]
    } else {
        let init = split_on(s.subrange(0, s.len() - 1), sep);
        let c = s[s.len() - 1];
        if c == sep {
            init.push(Seq::<char>::empty())
        } else {
            init.update(init.len() - 1, init[init.len() - 1].push(c))
        }
    }
}

/// Splitting yields at least one token.
pub proof fn lemma_split_on_nonempty(s: Seq<char>, sep: char)
    ensures
        split_on(s, sep).len() >= 1,
    decreases s.len(),
{
    if s.len() > 0 {
        lemma_split_on_nonempty(s.subrange(0, s.len() - 1), sep);
    }
}

/// Whether `c` is whitespace in the sense of [`is_space_char`].
pub fn is_space(c: char) -> (r: bool)
    ensures
        r == is_space_char(c),
{
    let u = c as u32;
    (9 <= u && u <= 13) || u == 32 || u == 0x85 || u == 0xA0 || u == 0x1680
        || (0x2000 <= u && u <= 0x200A) || u == 0x2028 || u == 0x2029 || u == 0x202F
        || u == 0x205F || u == 0x3000
}

/// ASCII-case-insensitive comparison of two strings.
pub fn str_eq_ignore_case(a: &str, b: &str) -> (r: bool)
    ensures
        r == seq_eq_icase(a@, b@),
{
    let na = a.unicode_len();
    let nb = b.unicode_len();
    if na != nb {
        return false;
    }
    let mut i: usize = 0;
    while i < na
        invariant
            na == a@.len(),
            na == b@.len(),
            0 <= i <= na,
            forall|j: int| 0 <= j < i ==> lower_code(#[trigger] a@[j]) == lower_code(b@[j]),
        decreases na - i,
    {
        let ca = a.get_char(i) as u32;
        let cb = b.get_char(i) as u32;
        let la: u32 = if 65 <= ca && ca <= 90 { ca + 32 } else { ca };
        let lb: u32 = if 65 <= cb && cb <= 90 { cb + 32 } else { cb };
        if la != lb {
            return false;
        }
        i = i + 1;
    }
    true
}

/// Whether `s` starts with `p`.
pub fn str_starts_with(s: &str, p: &str) -> (r: bool)
    ensures
        r == is_prefix(p@, s@),
{
    let np = p.unicode_len();
    let ns = s.unicode_len();
    if np > ns {
        return false;
    }
    let mut i: usize = 0;
    while i < np
        invariant
            np == p@.len(),
            ns == s@.len(),
            np <= ns,
            0 <= i <= np,
            forall|j: int| 0 <= j < i ==> s@[j] == p@[j],
        decreases np - i,
    {
        if s.get_char(i) != p.get_char(i) {
            proof {
                assert(s@.subrange(0, p@.len() as int)[i as int] == s@[i as int]);
            }
            return false;
        }
        i = i + 1;
    }
    proof {
        assert(s@.subrange(0, p@.len() as int) =~= p@);
    }
    true
}

/// If the first `a` characters of `s` are whitespace and the next one, if
/// any, is not, then trimming the start of `s` drops exactly those `a`
/// characters.
proof fn lemma_trim_start_at(s: Seq<char>, a: int)
    requires
        0 <= a <= s.len(),
        forall|i: int| 0 <= i < a ==> is_space_char(#[trigger] s[i]),
        a < s.len() ==> !is_space_char(s[a]),
    ensures
        trim_start_spec(s) == s.subrange(a, s.len() as int),
    decreases a,
{
    if a == 0 {
        assert(s.subrange(0, s.len() as int) =~= s);
    } else {
        let rest = s.subrange(1, s.len() as int);
        assert forall|i: int| 0 <= i < a - 1 implies is_space_char(#[trigger] rest[i]) by {
            assert(rest[i] == s[i + 1]);
        }
        lemma_trim_start_at(rest, a - 1);
        assert(rest.subrange(a - 1, rest.len() as int) =~= s.subrange(a, s.len() as int));
    }
}

/// If the characters of `s` from `b` on are whitespace and the one before
/// `b`, if any, is not, then trimming the end of `s` keeps exactly the
/// first `b` characters.
proof fn lemma_trim_end_at(s: Seq<char>, b: int)
    requires
        0 <= b <= s.len(),
        forall|i: int| b <= i < s.len() ==> is_space_char(#[trigger] s[i]),
        b > 0 ==> !is_space_char(s[b - 1]),
    ensures
        trim_end_spec(s) == s.subrange(0, b),
    decreases s.len(),
{
    if b == s.len() {
        if s.len() > 0 {
            assert(!is_space_char(s[s.len() - 1]));
        }
        assert(s.subrange(0, s.len() as int) =~= s);
    } else {
        let init = s.subrange(0, s.len() - 1);
        assert(is_space_char(s[s.len() - 1]));
        assert forall|i: int| b <= i < init.len() implies is_space_char(#[trigger] init[i]) by {
            assert(init[i] == s[i]);
        }
        if b > 0 {
            assert(init[b - 1] == s[b - 1]);
        }
        lemma_trim_end_at(init, b);
        assert(init.subrange(0, b) =~= s.subrange(0, b));
    }
}

/// `s` without leading and trailing whitespace.
pub fn trim_str<'a>(s: &'a str) -> (r: &'a str)
    ensures
        r@ == trim_spec(s@),
{
    let n = s.unicode_len();
    let mut a: usize = 0;
    while a < n && is_space(s.get_char(a))
        invariant
            n == s@.len(),
            0 <= a <= n,
            forall|i: int| 0 <= i < a ==> is_space_char(#[trigger] s@[i]),
        decreases n - a,
    {
        a = a + 1;
    }
    let mut b: usize = n;
    while b > a && is_space(s.get_char(b - 1))
        invariant
            n == s@.len(),
            0 <= a <= b <= n,
            forall|i: int| 0 <= i < a ==> is_space_char(#[trigger] s@[i]),
            a < n ==> !is_space_char(s@[a as int]),
            forall|i: int| b <= i < n ==> is_space_char(#[trigger] s@[i]),
        decreases b,
    {
        b = b - 1;
    }
    let r = s.substring_char(a, b);
    proof {
        lemma_trim_start_at(s@, a as int);
        let mid = s@.subrange(a as int, s@.len() as int);
        assert forall|i: int| (b - a) <= i < mid.len() implies is_space_char(
            #[trigger] mid[i],
        ) by {
            assert(mid[i] == s@[i + a]);
        }
        if b > a {
            assert(mid[b - a - 1] == s@[b - 1]);
        }
        lemma_trim_end_at(mid, b - a);
        assert(mid.subrange(0, b - a) =~= s@.subrange(a as int, b as int));
    }
    r
}

/// The views of a sequence of string slices.
pub open spec fn str_views(ts: Seq<&str>) -> Seq<Seq<char>> {
    ts.map_values(|t: &str| t@)
}

/// The tokens of `s` between occurrences of `sep`, in order, as
/// [`split_on`] describes them.
pub fn split_str<'a>(s: &'a str, sep: char) -> (r: Vec<&'a str>)
    ensures
        str_views(r@) == split_on(s@, sep),
        r@.len() >= 1,
{
    let n = s.unicode_len();
    let mut r: Vec<&'a str> = Vec::new();
    let mut start: usize = 0;
    let mut j: usize = 0;
    proof {
        assert(s@.subrange(0, 0) =~= Seq::<char>::empty());
        assert(str_views(r@) =~= Seq::<Seq<char>>::empty());
        assert(str_views(r@).push(s@.subrange(0, 0)) =~= split_on(s@.subrange(0, 0), sep));
    }
    while j < n
        invariant
            n == s@.len(),
            0 <= start <= j <= n,
            str_views(r@).push(s@.subrange(start as int, j as int)) =~= split_on(
                s@.subrange(0, j as int),
                sep,
            ),
        decreases n - j,
    {
        let c = s.get_char(j);
        proof {
            let pre = s@.subrange(0, j as int);
            let pre1 = s@.subrange(0, j + 1 as int);
            assert(pre1.subrange(0, pre1.len() - 1) =~= pre);
            assert(pre1[pre1.len() - 1] == s@[j as int]);
        }
        if c == sep {
            let tok = s.substring_char(start, j);
            r.push(tok);
            proof {
                assert(str_views(r@) =~= str_views(r@.subrange(0, r@.len() - 1)).push(tok@));
                assert(s@.subrange(j + 1 as int, j + 1 as int) =~= Seq::<char>::empty());
            }
            start = j + 1;
        } else {
            proof {
                let prev = str_views(r@).push(s@.subrange(start as int, j as int));
                lemma_split_on_nonempty(s@.subrange(0, j as int), sep);
                assert(s@.subrange(start as int, j as int).push(s@[j as int]) =~= s@.subrange(
                    start as int,
                    j + 1 as int,
                ));
                assert(prev.update(prev.len() - 1, prev[prev.len() - 1].push(s@[j as int]))
                    =~= str_views(r@).push(s@.subrange(start as int, j + 1 as int)));
            }
        }
        j = j + 1;
    }
    let tok = s.substring_char(start, n);
    r.push(tok);
    proof {
        assert(s@.subrange(0, n as int) =~= s@);
        assert(str_views(r@) =~= str_views(r@.subrange(0, r@.len() - 1)).push(tok@));
    }
    r
}

} // verus!
