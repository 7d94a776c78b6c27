//! Normalisation of process-environment values for OAuth client ids and flags.
//!
//! Reading the environment is the host's job; these functions decide what a
//! raw value means.

use vstd::prelude::*;

use crate::opt_view;

verus! {

broadcast use vstd::string::group_string_axioms;

/// Whether `c` has the Unicode `White_Space` property (the set that
/// `char::is_whitespace` and `str::trim` use).
pub open spec fn is_white_space(c: char) -> bool {
    ||| ('\u{9}' <= c && c <= '\u{d}')
    ||| c == ' '
    ||| c == '\u{85}'
    ||| c == '\u{a0}'
    ||| c == '\u{1680}'
    ||| ('\u{2000}' <= c && c <= '\u{200a}')
    ||| c == '\u{2028}'
    ||| c == '\u{2029}'
    ||| c == '\u{202f}'
    ||| c == '\u{205f}'
    ||| c == '\u{3000}'
}

/// `s` without its leading white space.
pub open spec fn trim_start(s: Seq<char>) -> Seq<char>
    decreases s.len(),
{
    if s.len() > 0 && is_white_space(s[0]) {
        trim_start(s.drop_first())
    } else {
        s
    }
}

/// `s` without its trailing white space.
pub open spec fn trim_end(s: Seq<char>) -> Seq<char>
    decreases s.len(),
{
    if s.len() > 0 && is_white_space(s.last()) {
        trim_end(s.drop_last())
    } else {
        s
    }
}

/// `s` without leading and trailing white space.
pub open spec fn trim(s: Seq<char>) -> Seq<char> {
    trim_end(trim_start(s))
}

/// What an environment value means as an optional setting: its trimmed
/// text, or nothing when it is unset, empty or all white space.
pub open spec fn nonempty_value(raw: Option<Seq<char>>) -> Option<Seq<char>> {
    match raw {
        Some(v) => if trim(v).len() == 0 {
            None
        } else {
            Some(trim(v))
        },
        None => None,
    }
}

/// ASCII lower case of a character's code; other characters are unchanged.
pub open spec fn ascii_lower(c: char) -> int {
    if 'A' <= c && c <= 'Z' {
        (c as int) + 32
    } else {
        c as int
    }
}

/// `a` and `b` are equal up to ASCII case (`str::eq_ignore_ascii_case`).
pub open spec fn eq_ignore_ascii_case(a: Seq<char>, b: Seq<char>) -> bool {
    &&& a.len() == b.len()
    &&& forall|i: int| 0 <= i < a.len() ==> ascii_lower(#[trigger] a[i]) == ascii_lower(b[i])
}

/// Whether an environment value turns a flag on: it is set and is `1`
/// or `true` in any ASCII case. No trimming is done.
pub open spec fn truthy_value(raw: Option<Seq<char>>) -> bool {
    match raw {
        Some(v) => v == "1"@ || eq_ignore_ascii_case(v, "true"@),
        None => false,
    }
}

/// The characters of `s`, in order.
pub fn chars_of(s: &str) -> (res: Vec<char>)
    ensures
        res@ == s@,
{
    let mut out: Vec<char> = Vec::new();
    for c in it: s.chars()
        invariant
            it.seq() == s@,
            out@ == it.seq().take(it.index() as int),
    {
        out.push(c);
    }
    out
}

/// Whether `c` has the Unicode `White_Space` property.
pub fn is_white_space_char(c: char) -> (res: bool)
    ensures
        res == is_white_space(c),
{
    ('\u{9}' <= c && c <= '\u{d}') || c == ' ' || c == '\u{85}' || c == '\u{a0}' || c
        == '\u{1680}' || ('\u{2000}' <= c && c <= '\u{200a}') || c == '\u{2028}' || c
        == '\u{2029}' || c == '\u{202f}' || c == '\u{205f}' || c == '\u{3000}'
}

/// `s` without leading and trailing white space.
pub fn trim_text(s: &str) -> (res: String)
    ensures
        res@ == trim(s@),
{
    let cs = chars_of(s);
    let n = cs.len();
    let mut i: usize = 0;
    assert(s@.subrange(0, n as int) =~= s@);
    while i < n && is_white_space_char(cs[i])
        invariant
            cs@ == s@,
            n == cs.len(),
            i <= n,
            trim_start(s@) == trim_start(s@.subrange(i as int, n as int)),
        decreases n - i,
    {
        assert(s@.subrange(i as int, n as int).drop_first() =~= s@.subrange(
            i + 1,
            n as int,
        ));
        i = i + 1;
    }
    assert(trim_start(s@) == s@.subrange(i as int, n as int));
    let mut j: usize = n;
    while j > i && is_white_space_char(cs[j - 1])
        invariant
            cs@ == s@,
            n == cs.len(),
            i <= j <= n,
            trim(s@) == trim_end(s@.subrange(i as int, j as int)),
        decreases j - i,
    {
        assert(s@.subrange(i as int, j as int).drop_last() =~= s@.subrange(
            i as int,
            j - 1,
        ));
        j = j - 1;
    }
    assert(trim(s@) == s@.subrange(i as int, j as int));
    s.substring_char(i, j).to_owned()
}

/// `a` and `b` are equal up to ASCII case.
fn ascii_case_eq(a: char, b: char) -> (res: bool)
    ensures
        res == (ascii_lower(a) == ascii_lower(b)),
{
    let la: u32 = if 'A' <= a && a <= 'Z' {
        (a as u32) + 32
    } else {
        a as u32
    };
    let lb: u32 = if 'A' <= b && b <= 'Z' {
        (b as u32) + 32
    } else {
        b as u32
    };
    la == lb
}

/// An optional setting from a raw environment value: the trimmed value, or
/// `None` when the value is unset, empty or white space only.
pub fn nonempty(raw: Option<String>) -> (res: Option<String>)
    ensures
        opt_view(res) == nonempty_value(opt_view(raw)),
{
    match raw {
        Some(v) => {
            let t = trim_text(v.as_str());
            if t.as_str().is_empty() {
                None
            } else {
                Some(t)
            }
        },
        None => None,
    }
}

/// Whether a raw environment value turns a flag on: `1`, or `true` in any
/// ASCII case.
pub fn truthy(raw: Option<String>) -> (res: bool)
    ensures
        res == truthy_value(opt_view(raw)),
{
    proof {
        reveal_strlit("1");
        reveal_strlit("true");
    }
    match raw {
        Some(v) => {
            let cs = chars_of(v.as_str());
            if cs.len() == 1 {
                let r = cs[0] == '1';
                assert(r == (v@ == "1"@)) by {
                    if r {
                        assert(v@ =~= "1"@);
                    }
                }
                assert(!eq_ignore_ascii_case(v@, "true"@));
                r
            } else if cs.len() == 4 {
                let r = ascii_case_eq(cs[0], 't') && ascii_case_eq(cs[1], 'r') && ascii_case_eq(
                    cs[2],
                    'u',
                ) && ascii_case_eq(cs[3], 'e');
                assert(v@ != "1"@);
                assert(r == eq_ignore_ascii_case(v@, "true"@)) by {
                    if r {
                        assert forall|i: int| 0 <= i < 4 implies ascii_lower(#[trigger] v@[i])
                            == ascii_lower("true"@[i]) by {
                            if i == 0 {
                            } else if i == 1 {
                            } else if i == 2 {
                            } else {
                            }
                        }
                    } else {
                        if eq_ignore_ascii_case(v@, "true"@) {
                            assert(ascii_lower(v@[0]) == ascii_lower("true"@[0]));
                            assert(ascii_lower(v@[1]) == ascii_lower("true"@[1]));
                            assert(ascii_lower(v@[2]) == ascii_lower("true"@[2]));
                            assert(ascii_lower(v@[3]) == ascii_lower("true"@[3]));
                        }
                    }
                }
                r
            } else {
                assert(v@.len() != 1 && v@.len() != 4);
                false
            }
        },
        None => false,
    }
}

/// The Unicode `White_Space` code points, as listed in Unicode's
/// PropList.txt (the set behind `char::is_whitespace` and `str::trim`).
pub open spec fn unicode_white_space(c: char) -> bool {
    let v = c as u32;
    ||| 0x9 <= v <= 0xd
    ||| v == 0x20
    ||| v == 0x85
    ||| v == 0xa0
    ||| v == 0x1680
    ||| 0x2000 <= v <= 0x200a
    ||| v == 0x2028
    ||| v == 0x2029
    ||| v == 0x202f
    ||| v == 0x205f
    ||| v == 0x3000
}

/// The two descriptions of `White_Space` agree.
proof fn white_space_sets_agree(c: char)
    ensures
        is_white_space(c) <==> unicode_white_space(c),
{
    let v = c as u32;
    assert(('\u{9}' <= c && c <= '\u{d}') <==> (0x9 <= v && v <= 0xd));
    assert((c == ' ') <==> (v == 0x20));
    assert((c == '\u{85}') <==> (v == 0x85));
    assert((c == '\u{a0}') <==> (v == 0xa0));
    assert((c == '\u{1680}') <==> (v == 0x1680));
    assert(('\u{2000}' <= c && c <= '\u{200a}') <==> (0x2000 <= v && v <= 0x200a));
    assert((c == '\u{2028}') <==> (v == 0x2028));
    assert((c == '\u{2029}') <==> (v == 0x2029));
    assert((c == '\u{202f}') <==> (v == 0x202f));
    assert((c == '\u{205f}') <==> (v == 0x205f));
    assert((c == '\u{3000}') <==> (v == 0x3000));
}

proof fn trim_start_push(s: Seq<char>, c: char)
    ensures
        trim_start(s).len() > 0 ==> trim_start(s.push(c)) == trim_start(s).push(c),
        trim_start(s).len() == 0 ==> trim_start(s.push(c)) == if is_white_space(c) {
            Seq::<char>::empty()
        } else {
            seq![c]
        },
    decreases s.len(),
{
    if s.len() == 0 {
        assert(s.push(c) =~= seq![c]);
        assert(seq![c].drop_first() =~= Seq::<char>::empty());
        assert(trim_start(Seq::<char>::empty()) == Seq::<char>::empty());
        if is_white_space(c) {
            assert(trim_start(seq![c]) == trim_start(seq![c].drop_first()));
        } else {
            assert(trim_start(seq![c]) == seq![c]);
        }
    } else if is_white_space(s[0]) {
        assert(s.push(c).drop_first() =~= s.drop_first().push(c));
        trim_start_push(s.drop_first(), c);
    } else {
    }
}

proof fn trim_end_push(t: Seq<char>, c: char)
    ensures
        is_white_space(c) ==> trim_end(t.push(c)) == trim_end(t),
        !is_white_space(c) ==> trim_end(t.push(c)) == t.push(c),
{
    assert(t.push(c).drop_last() =~= t);
}

/// A `White_Space` character at either end of a value is trimmed away.
pub proof fn white_space_is_trimmed(s: Seq<char>, c: char)
    requires
        unicode_white_space(c),
    ensures
        trim(s.push(c)) == trim(s),
        trim(seq![c] + s) == trim(s),
        nonempty_value(Some(s.push(c))) == nonempty_value(Some(s)),
        nonempty_value(Some(seq![c] + s)) == nonempty_value(Some(s)),
{
    assert(is_white_space(c));
    trim_start_push(s, c);
    if trim_start(s).len() > 0 {
        trim_end_push(trim_start(s), c);
    } else {
        assert(trim_start(s) =~= Seq::<char>::empty());
    }
    assert((seq![c] + s).drop_first() =~= s);
}

/// Any other character at the end of a value is kept: the trimmed value ends
/// with it.
pub proof fn other_chars_are_kept(s: Seq<char>, c: char)
    requires
        !unicode_white_space(c),
    ensures
        trim(s.push(c)).len() > 0,
        trim(s.push(c)).last() == c,
        nonempty_value(Some(s.push(c))) == Some(trim(s.push(c))),
{
    assert(!is_white_space(c));
    trim_start_push(s, c);
    if trim_start(s).len() > 0 {
        trim_end_push(trim_start(s), c);
    } else {
        assert(seq![c].drop_last() =~= Seq::<char>::empty());
        assert(seq![c] =~= Seq::<char>::empty().push(c));
        trim_end_push(Seq::<char>::empty(), c);
    }
}

proof fn trim_start_shape(s: Seq<char>) -> (k: int)
    ensures
        0 <= k <= s.len(),
        trim_start(s) == s.subrange(k, s.len() as int),
        forall|i: int| 0 <= i < k ==> is_white_space(#[trigger] s[i]),
        k < s.len() ==> !is_white_space(s[k]),
    decreases s.len(),
{
    if s.len() > 0 && is_white_space(s[0]) {
        let k0 = trim_start_shape(s.drop_first());
        assert(s.drop_first().subrange(k0, s.drop_first().len() as int) =~= s.subrange(
            k0 + 1,
            s.len() as int,
        ));
        assert forall|i: int| 0 <= i < k0 + 1 implies is_white_space(#[trigger] s[i]) by {
            if i > 0 {
                assert(s[i] == s.drop_first()[i - 1]);
            }
        }
        assert(k0 + 1 < s.len() ==> s[k0 + 1] == s.drop_first()[k0]);
        k0 + 1
    } else {
        assert(s.subrange(0, s.len() as int) =~= s);
        0
    }
}

proof fn trim_end_shape(t: Seq<char>) -> (m: int)
    ensures
        0 <= m <= t.len(),
        trim_end(t) == t.subrange(0, m),
        forall|i: int| m <= i < t.len() ==> is_white_space(#[trigger] t[i]),
        m > 0 ==> !is_white_space(t[m - 1]),
    decreases t.len(),
{
    if t.len() > 0 && is_white_space(t.last()) {
        let m0 = trim_end_shape(t.drop_last());
        assert(t.drop_last().subrange(0, m0) =~= t.subrange(0, m0));
        assert forall|i: int| m0 <= i < t.len() implies is_white_space(#[trigger] t[i]) by {
            if i < t.len() - 1 {
                assert(t[i] == t.drop_last()[i]);
            }
        }
        assert(m0 > 0 ==> t[m0 - 1] == t.drop_last()[m0 - 1]);
        m0
    } else {
        assert(t.subrange(0, t.len() as int) =~= t);
        t.len() as int
    }
}

/// What `nonempty` gives for a set value: `None` exactly when every
/// character is `White_Space`; otherwise the slice of the value from its
/// first to its last other character, with only `White_Space` cut away.
pub proof fn nonempty_is_trimmed_slice(s: Seq<char>)
    ensures
        nonempty_value(Some(s)) is None <==> forall|i: int|
            0 <= i < s.len() ==> unicode_white_space(#[trigger] s[i]),
        nonempty_value(Some(s)) matches Some(t) ==> exists|a: int, b: int|
            {
                &&& 0 <= a < b <= s.len()
                &&& t == s.subrange(a, b)
                &&& !unicode_white_space(s[a])
                &&& !unicode_white_space(s[b - 1])
                &&& forall|i: int| 0 <= i < a ==> unicode_white_space(#[trigger] s[i])
                &&& forall|i: int| b <= i < s.len() ==> unicode_white_space(#[trigger] s[i])
            },
        nonempty_value(None) is None,
{
    let k = trim_start_shape(s);
    let u = s.subrange(k, s.len() as int);
    let m = trim_end_shape(u);
    assert(u.subrange(0, m) =~= s.subrange(k, k + m));
    assert forall|i: int| k + m <= i < s.len() implies is_white_space(#[trigger] s[i]) by {
        assert(s[i] == u[i - k]);
    }
    if m > 0 {
        assert(s[k + m - 1] == u[m - 1]);
        white_space_sets_agree(s[k + m - 1]);
        white_space_sets_agree(s[k]);
        assert(!(forall|i: int| 0 <= i < s.len() ==> unicode_white_space(#[trigger] s[i]))) by {
            assert(!unicode_white_space(s[k + m - 1]));
        }
        assert(trim(s).len() > 0);
        let t = trim(s);
        assert(t == s.subrange(k, k + m));
        assert forall|i: int| 0 <= i < k implies unicode_white_space(#[trigger] s[i]) by {
            assert(is_white_space(s[i]));
        }
        assert forall|i: int| k + m <= i < s.len() implies unicode_white_space(#[trigger] s[i]) by {
            assert(is_white_space(s[i]));
        }
        assert(!unicode_white_space(s[k]));
    } else {
        assert(trim(s).len() == 0);
        assert forall|i: int| 0 <= i < s.len() implies unicode_white_space(#[trigger] s[i]) by {
            assert(is_white_space(s[i]));
        }
    }
}

/// What turns a flag on: `1`, or the four letters of `true` each in either
/// case; nothing else, and not an unset variable.
pub proof fn truthy_is_one_or_true(v: Seq<char>)
    ensures
        truthy_value(Some(v)) <==> (v == seq!['1'] || (v.len() == 4 && (v[0] == 't' || v[0] == 'T')
            && (v[1] == 'r' || v[1] == 'R') && (v[2] == 'u' || v[2] == 'U') && (v[3] == 'e'
            || v[3] == 'E'))),
        !truthy_value(None),
{
    reveal_strlit("1");
    reveal_strlit("true");
    assert("1"@ =~= seq!['1']);
    if v.len() == 4 {
        let t = "true"@;
        assert(ascii_lower(t[0]) == 't' as int);
        assert(ascii_lower(t[1]) == 'r' as int);
        assert(ascii_lower(t[2]) == 'u' as int);
        assert(ascii_lower(t[3]) == 'e' as int);
        if eq_ignore_ascii_case(v, t) {
            assert(ascii_lower(v[0]) == ascii_lower(t[0]));
            assert(ascii_lower(v[1]) == ascii_lower(t[1]));
            assert(ascii_lower(v[2]) == ascii_lower(t[2]));
            assert(ascii_lower(v[3]) == ascii_lower(t[3]));
        }
        if (v[0] == 't' || v[0] == 'T') && (v[1] == 'r' || v[1] == 'R') && (v[2] == 'u' || v[2]
            == 'U') && (v[3] == 'e' || v[3] == 'E') {
            assert forall|i: int| 0 <= i < v.len() implies ascii_lower(#[trigger] v[i])
                == ascii_lower(t[i]) by {
                if i == 0 {
                } else if i == 1 {
                } else if i == 2 {
                } else {
                }
            }
        }
    }
}

} // verus!
