use vstd::prelude::*;

verus! {

/// A release number of the form `major.minor.patch`.
#[derive(Clone, Copy, PartialEq, Eq, Structural, Debug)]
pub struct SemanticVersion {
    pub major: u64,
    pub minor: u64,
    pub patch: u64,
}

/// A version text that is not three dot-separated decimal numerals of 64 bits each.
#[derive(Clone, Copy, PartialEq, Eq, Structural, Debug)]
pub struct VersionParseError;

pub open spec fn is_digit(c: char) -> bool {
    '0' <= c && c <= '9'
}

pub open spec fn digit_value(c: char) -> nat {
    (c as int - '0' as int) as nat
}

/// The number that a string of decimal digits denotes.
pub open spec fn decimal_value(s: Seq<char>) -> nat
    decreases s.len(),
{
    if s.len() == 0 {
        0
    } else {
        decimal_value(s.drop_last()) * 10 + digit_value(s.last())
    }
}

/// A non-empty run of decimal digits.
pub open spec fn is_numeral(s: Seq<char>) -> bool {
    s.len() > 0 && forall|k: int| 0 <= k < s.len() ==> is_digit(#[trigger] s[k])
}

/// The pieces of `s` between its dots, in order; a text with `d` dots has `d + 1` pieces.
pub open spec fn split_dots(s: Seq<char>) -> Seq<Seq<char>>
    decreases s.len(),
{
    if s.len() == 0 {
        seq![Seq::<char>::empty()]
    } else {
        let p = split_dots(s.drop_last());
        if s.last() == '.' {
            p.push(Seq::<char>::empty())
        } else {
            p.update(p.len() - 1, p.last().push(s.last()))
        }
    }
}

/// The value of one piece of a version text, if it is a numeral that fits in 64 bits.
pub open spec fn component_value(p: Seq<char>) -> Option<u64> {
    if is_numeral(p) && decimal_value(p) <= u64::MAX {
        Some(decimal_value(p) as u64)
    } else {
        None
    }
}

/// The version that a text spells, if it is exactly three numerals joined by dots.
pub open spec fn parse_version_spec(s: Seq<char>) -> Option<SemanticVersion> {
    let p = split_dots(s);
    if p.len() == 3 && component_value(p[0]) is Some && component_value(p[1]) is Some
        && component_value(p[2]) is Some {
        Some(
            SemanticVersion {
                major: component_value(p[0])->0,
                minor: component_value(p[1])->0,
                patch: component_value(p[2])->0,
            },
        )
    } else {
        None
    }
}

/// Precedence of versions: by major, then minor, then patch number.
pub open spec fn version_lt(a: SemanticVersion, b: SemanticVersion) -> bool {
    a.major < b.major || (a.major == b.major && (a.minor < b.minor || (a.minor == b.minor
        && a.patch < b.patch)))
}

pub open spec fn digit_char(d: nat) -> char {
    ('0' as int + d) as char
}

/// The shortest decimal numeral of `n`.
pub open spec fn decimal_text(n: nat) -> Seq<char>
    decreases n,
{
    if n < 10 {
        seq![digit_char(n)]
    } else {
        decimal_text(n / 10).push(digit_char(n % 10))
    }
}

/// The text `major.minor.patch` of a version.
pub open spec fn version_text(v: SemanticVersion) -> Seq<char> {
    decimal_text(v.major as nat) + seq!['.'] + decimal_text(v.minor as nat) + seq!['.']
        + decimal_text(v.patch as nat)
}

proof fn lemma_decimal_prefix_le(a: Seq<char>, b: Seq<char>)
    requires
        a.len() <= b.len(),
        b.subrange(0, a.len() as int) == a,
    ensures
        decimal_value(a) <= decimal_value(b),
    decreases b.len(),
{
    if a.len() < b.len() {
        let b1 = b.drop_last();
        assert(b1.subrange(0, a.len() as int) == a);
        lemma_decimal_prefix_le(a, b1);
    } else {
        assert(b == a);
    }
}

proof fn lemma_split_len(s: Seq<char>)
    ensures
        split_dots(s).len() >= 1,
    decreases s.len(),
{
    if s.len() > 0 {
        lemma_split_len(s.drop_last());
    }
}

/// The pieces of a prefix are kept by every longer prefix: all but the last unchanged,
/// the last one as a prefix of its counterpart.
proof fn lemma_split_prefix(s: Seq<char>, i: int, m: int)
    requires
        0 <= i <= m <= s.len(),
    ensures
        ({
            let p = split_dots(s.take(i));
            let q = split_dots(s.take(m));
            &&& p.len() <= q.len()
            &&& forall|k: int| 0 <= k < p.len() - 1 ==> q[k] == p[k]
            &&& p.last().len() <= q[p.len() - 1].len()
            &&& q[p.len() - 1].take(p.last().len() as int) == p.last()
        }),
    decreases m - i,
{
    lemma_split_len(s.take(i));
    lemma_split_len(s.take(m));
    if i < m {
        lemma_split_prefix(s, i, m - 1);
        let p = split_dots(s.take(i));
        let q0 = split_dots(s.take(m - 1));
        let q = split_dots(s.take(m));
        assert(s.take(m).drop_last() == s.take(m - 1));
        assert(s.take(m).last() == s[m - 1]);
        lemma_split_len(s.take(m - 1));
        if s[m - 1] != '.' {
            let j = p.len() - 1;
            if j == q0.len() - 1 {
                assert(q[j] == q0[j].push(s[m - 1]));
                assert(q[j].take(p.last().len() as int) == q0[j].take(p.last().len() as int));
            }
        }
    } else {
        let p = split_dots(s.take(i));
        assert(p.last().take(p.last().len() as int) =~= p.last());
    }
}

/// A non-numeral piece of the prefix `s.take(i)` that is already closed, or that ends in a
/// non-digit, or whose value is too large, makes the whole text unreadable.
proof fn lemma_piece_spoils(s: Seq<char>, i: int, k: int)
    requires
        0 <= i <= s.len(),
        0 <= k < split_dots(s.take(i)).len(),
        ({
            let p = split_dots(s.take(i));
            ||| (k < p.len() - 1 && component_value(p[k]) is None)
            ||| (p[k].len() > 0 && !is_digit(p[k].last()))
            ||| decimal_value(p[k]) > u64::MAX
        }),
    ensures
        parse_version_spec(s) is None,
{
    lemma_split_prefix(s, i, s.len() as int);
    assert(s.take(s.len() as int) == s);
    let p = split_dots(s.take(i));
    let q = split_dots(s);
    if q.len() == 3 {
        if k < p.len() - 1 {
            assert(q[k] == p[k]);
        } else {
            let t = q[k];
            assert(t.take(p[k].len() as int) == p[k]);
            if p[k].len() > 0 && !is_digit(p[k].last()) {
                assert(t[p[k].len() - 1] == p[k].last());
            }
            if decimal_value(p[k]) > u64::MAX {
                lemma_decimal_prefix_le(p[k], t);
            }
        }
    }
}

fn digit_str(d: u64) -> (r: &'static str)
    requires
        d < 10,
    ensures
        r@ == seq![digit_char(d as nat)],
{
    proof {
        reveal_strlit("0");
        reveal_strlit("1");
        reveal_strlit("2");
        reveal_strlit("3");
        reveal_strlit("4");
        reveal_strlit("5");
        reveal_strlit("6");
        reveal_strlit("7");
        reveal_strlit("8");
        reveal_strlit("9");
    }
    let r = if d == 0 {
        "0"
    } else if d == 1 {
        "1"
    } else if d == 2 {
        "2"
    } else if d == 3 {
        "3"
    } else if d == 4 {
        "4"
    } else if d == 5 {
        "5"
    } else if d == 6 {
        "6"
    } else if d == 7 {
        "7"
    } else if d == 8 {
        "8"
    } else {
        "9"
    };
    assert(r@ =~= seq![digit_char(d as nat)]);
    r
}

/// Appends the decimal numeral of `n` to `out`.
pub fn push_decimal(out: &mut String, n: u64)
    ensures
        final(out)@ == old(out)@ + decimal_text(n as nat),
    decreases n,
{
    if n >= 10 {
        push_decimal(out, n / 10);
    }
    out.append(digit_str(n % 10));
    proof {
        if n >= 10 {
            assert(decimal_text(n as nat) == decimal_text((n / 10) as nat).push(
                digit_char((n % 10) as nat),
            ));
        }
        assert(final(out)@ =~= old(out)@ + decimal_text(n as nat));
    }
}

/// The index of the first `a` or `b` in `s`, or its length when there is none.
pub open spec fn first_of(s: Seq<char>, a: char, b: char) -> nat
    decreases s.len(),
{
    if s.len() == 0 {
        0
    } else if s[0] == a || s[0] == b {
        0
    } else {
        1 + first_of(s.drop_first(), a, b)
    }
}

pub open spec fn is_ident_char(c: char) -> bool {
    is_digit(c) || ('a' <= c && c <= 'z') || ('A' <= c && c <= 'Z') || c == '-'
}

/// A dot-separated identifier of a pre-release or build suffix; a numeric one of a
/// pre-release has no leading zero.
pub open spec fn piece_ok(p: Seq<char>, pre: bool) -> bool {
    &&& p.len() > 0
    &&& forall|k: int| 0 <= k < p.len() ==> is_ident_char(#[trigger] p[k])
    &&& pre ==> !(is_numeral(p) && p.len() > 1 && p[0] == '0')
}

pub open spec fn dotted_ok(t: Seq<char>, pre: bool) -> bool {
    forall|k: int| 0 <= k < split_dots(t).len() ==> piece_ok(#[trigger] split_dots(t)[k], pre)
}

/// What may follow the numbers of a release version: nothing, `+build`, `-pre` or
/// `-pre+build`.
pub open spec fn suffix_ok(t: Seq<char>) -> bool {
    if t.len() == 0 {
        true
    } else if t[0] == '+' {
        dotted_ok(t.drop_first(), false)
    } else if t[0] == '-' {
        let r = t.drop_first();
        let k = first_of(r, '+', '+') as int;
        dotted_ok(r.take(k), true) && (k == r.len() || dotted_ok(r.skip(k + 1), false))
    } else {
        false
    }
}

/// The numbers of a release version text in full semantic-version form; pre-release and
/// build suffixes are checked and set aside.
pub open spec fn parse_release_version_spec(s: Seq<char>) -> Option<SemanticVersion> {
    let k = first_of(s, '-', '+') as int;
    if suffix_ok(s.skip(k)) {
        parse_version_spec(s.take(k))
    } else {
        None
    }
}

proof fn lemma_first_of(s: Seq<char>, a: char, b: char, i: int)
    requires
        0 <= i <= s.len(),
        forall|j: int| 0 <= j < i ==> s[j] != a && s[j] != b,
        i == s.len() || s[i] == a || s[i] == b,
    ensures
        first_of(s, a, b) == i,
    decreases i,
{
    if i > 0 {
        lemma_first_of(s.drop_first(), a, b, i - 1);
    }
}

proof fn lemma_first_of_hit(s: Seq<char>, a: char, b: char)
    requires
        first_of(s, a, b) < s.len(),
    ensures
        s[first_of(s, a, b) as int] == a || s[first_of(s, a, b) as int] == b,
    decreases s.len(),
{
    if s.len() > 0 && s[0] != a && s[0] != b {
        lemma_first_of_hit(s.drop_first(), a, b);
    }
}

/// The index of the first `a` or `b` in `text`, or its length.
fn find_first_of(text: &str, a: char, b: char) -> (r: usize)
    ensures
        r == first_of(text@, a, b),
        r <= text@.len(),
{
    let n = text.unicode_len();
    let mut i: usize = 0;
    while i < n
        invariant
            n == text@.len(),
            i <= n,
            forall|j: int| 0 <= j < i ==> text@[j] != a && text@[j] != b,
        decreases n - i,
    {
        let c = text.get_char(i);
        if c == a || c == b {
            proof {
                lemma_first_of(text@, a, b, i as int);
            }
            return i;
        }
        i = i + 1;
    }
    proof {
        lemma_first_of(text@, a, b, i as int);
    }
    i
}

/// Whether every dot-separated piece of `text` is a well-formed identifier.
fn dotted_valid(text: &str, pre: bool) -> (r: bool)
    ensures
        r == dotted_ok(text@, pre),
{
    let n = text.unicode_len();
    let ghost s = text@;
    let mut ok = true;
    let mut chars_ok = true;
    let mut all_digits = true;
    let mut first_zero = false;
    let mut cur_len: usize = 0;
    let mut i: usize = 0;
    proof {
        assert(s.take(0) =~= Seq::<char>::empty());
    }
    while i < n
        invariant
            n == s.len(),
            s == text@,
            i <= n,
            cur_len <= i,
            ({
                let p = split_dots(s.take(i as int));
                &&& p.len() >= 1
                &&& ok == (forall|k: int| 0 <= k < p.len() - 1 ==> piece_ok(#[trigger] p[k], pre))
                &&& chars_ok == (forall|j: int| 0 <= j < p.last().len() ==> is_ident_char(
                    #[trigger] p.last()[j],
                ))
                &&& all_digits == (forall|j: int| 0 <= j < p.last().len() ==> is_digit(
                    #[trigger] p.last()[j],
                ))
                &&& first_zero == (p.last().len() > 0 && p.last()[0] == '0')
                &&& cur_len == p.last().len()
            }),
        decreases n - i,
    {
        let c = text.get_char(i);
        let ghost p = split_dots(s.take(i as int));
        let ghost p1 = split_dots(s.take(i + 1));
        proof {
            assert(s.take(i + 1).drop_last() == s.take(i as int));
            assert(s.take(i + 1).last() == c);
        }
        if c == '.' {
            let last_ok = cur_len > 0 && chars_ok && (!pre || !(all_digits && cur_len > 1
                && first_zero));
            proof {
                assert(last_ok == piece_ok(p.last(), pre));
                assert(p1 == p.push(Seq::<char>::empty()));
                assert forall|k: int| 0 <= k < p1.len() - 1 implies #[trigger] p1[k] == p[k] by {}
                if ok && last_ok {
                    assert forall|k: int| 0 <= k < p1.len() - 1 implies piece_ok(
                        #[trigger] p1[k],
                        pre,
                    ) by {
                        if k < p.len() - 1 {
                            assert(p1[k] == p[k]);
                        }
                    }
                }
                if !ok {
                    let k = choose|k: int| 0 <= k < p.len() - 1 && !piece_ok(#[trigger] p[k], pre);
                    assert(p1[k] == p[k]);
                    assert(!piece_ok(p1[k], pre));
                }
                if !last_ok {
                    assert(p1[p.len() - 1] == p.last());
                    assert(!piece_ok(p1[p.len() - 1], pre));
                }
            }
            ok = ok && last_ok;
            chars_ok = true;
            all_digits = true;
            first_zero = false;
            cur_len = 0;
        } else {
            let ghost last1 = p.last().push(c);
            proof {
                assert(p1 == p.update(p.len() - 1, last1));
                assert(p1.last() == last1);
                assert forall|k: int| 0 <= k < p1.len() - 1 implies #[trigger] p1[k] == p[k] by {}
                if !chars_ok {
                    let j = choose|j: int| 0 <= j < p.last().len() && !is_ident_char(#[trigger] p.last()[j]);
                    assert(last1[j] == p.last()[j]);
                }
                if !all_digits {
                    let j = choose|j: int| 0 <= j < p.last().len() && !is_digit(#[trigger] p.last()[j]);
                    assert(last1[j] == p.last()[j]);
                }
                assert(forall|j: int| 0 <= j < p.last().len() ==> last1[j] == p.last()[j]);
                if !ok {
                    let k = choose|k: int| 0 <= k < p.len() - 1 && !piece_ok(#[trigger] p[k], pre);
                    assert(p1[k] == p[k]);
                    assert(!piece_ok(p1[k], pre));
                }
                assert(last1[p.last().len() as int] == c);
            }
            if cur_len == 0 {
                first_zero = c == '0';
            }
            chars_ok = chars_ok && ('0' <= c && c <= '9' || 'a' <= c && c <= 'z' || 'A' <= c && c
                <= 'Z' || c == '-');
            all_digits = all_digits && '0' <= c && c <= '9';
            cur_len = cur_len + 1;
            proof {
                if chars_ok {
                    assert forall|j: int| 0 <= j < last1.len() implies is_ident_char(
                        #[trigger] last1[j],
                    ) by {
                        if j < p.last().len() {
                            assert(last1[j] == p.last()[j]);
                        }
                    }
                }
                if all_digits {
                    assert forall|j: int| 0 <= j < last1.len() implies is_digit(
                        #[trigger] last1[j],
                    ) by {
                        if j < p.last().len() {
                            assert(last1[j] == p.last()[j]);
                        }
                    }
                }
                if !chars_ok {
                    assert(exists|j: int| 0 <= j < last1.len() && !is_ident_char(#[trigger] last1[j]));
                }
            }
        }
        i = i + 1;
    }
    proof {
        assert(s.take(n as int) == s);
    }
    let last_ok = cur_len > 0 && chars_ok && (!pre || !(all_digits && cur_len > 1 && first_zero));
    proof {
        let p = split_dots(s);
        assert(last_ok == piece_ok(p.last(), pre));
        if ok && last_ok {
            assert forall|k: int| 0 <= k < p.len() implies piece_ok(#[trigger] p[k], pre) by {
                if k < p.len() - 1 {
                } else {
                    assert(p[k] == p.last());
                }
            }
        }
        if !(ok && last_ok) {
            if !ok {
                let k = choose|k: int| 0 <= k < p.len() - 1 && !piece_ok(#[trigger] p[k], pre);
            }
            assert(!piece_ok(p[p.len() - 1], pre) || !ok);
        }
    }
    ok && last_ok
}

impl SemanticVersion {
    /// The text `major.minor.patch` of this version.
    pub fn to_text(&self) -> (r: String)
        ensures
            r@ == version_text(*self),
    {
        let mut out = String::new();
        push_decimal(&mut out, self.major);
        out.append(".");
        push_decimal(&mut out, self.minor);
        out.append(".");
        push_decimal(&mut out, self.patch);
        proof {
            reveal_strlit(".");
            assert(out@ =~= version_text(*self));
        }
        out
    }

    /// Reads a version from its text `major.minor.patch`.
    pub fn parse(text: &str) -> (r: Result<SemanticVersion, VersionParseError>)
        ensures
            match r {
                Ok(v) => parse_version_spec(text@) == Some(v),
                Err(_) => parse_version_spec(text@) is None,
            },
    {
        let n = text.unicode_len();
        let ghost s = text@;
        let mut done: Vec<u64> = Vec::new();
        let mut cur: u64 = 0;
        let mut cur_len: usize = 0;
        let mut i: usize = 0;
        proof {
            assert(s.take(0) =~= Seq::<char>::empty());
        }
        while i < n
            invariant
                n == s.len(),
                s == text@,
                0 <= i <= n,
                done@.len() <= 2,
                cur_len <= i,
                ({
                    let p = split_dots(s.take(i as int));
                    &&& p.len() == done@.len() + 1
                    &&& forall|k: int| 0 <= k < done@.len() ==> component_value(p[k]) == Some(
                        #[trigger] done@[k],
                    )
                    &&& forall|k: int| 0 <= k < p.last().len() ==> is_digit(#[trigger] p.last()[k])
                    &&& p.last().len() == cur_len
                    &&& decimal_value(p.last()) == cur
                }),
            decreases n - i,
        {
            let c = text.get_char(i);
            let ghost p = split_dots(s.take(i as int));
            let ghost p1 = split_dots(s.take(i + 1));
            proof {
                assert(s.take(i + 1).drop_last() == s.take(i as int));
                assert(s.take(i + 1).last() == c);
            }
            if c == '.' {
                if cur_len == 0 {
                    proof {
                        lemma_piece_spoils(s, i + 1, done@.len() as int);
                    }
                    return Err(VersionParseError);
                }
                if done.len() == 2 {
                    proof {
                        lemma_split_prefix(s, i + 1, s.len() as int);
                        assert(s.take(s.len() as int) == s);
                    }
                    return Err(VersionParseError);
                }
                proof {
                    assert(is_numeral(p.last()));
                }
                done.push(cur);
                cur = 0;
                cur_len = 0;
                proof {
                    assert forall|k: int| 0 <= k < done@.len() implies component_value(p1[k])
                        == Some(#[trigger] done@[k]) by {
                        if k < done@.len() - 1 {
                            assert(p1[k] == p[k]);
                        }
                    }
                }
            } else if '0' <= c && c <= '9' {
                let d = (c as u32 - '0' as u32) as u64;
                proof {
                    assert(p1.last() == p.last().push(c));
                    assert(p1.last().drop_last() == p.last());
                    assert(digit_value(c) == d);
                }
                if cur > (u64::MAX - d) / 10 {
                    proof {
                        assert(decimal_value(p1.last()) == cur * 10 + d);
                        assert(cur * 10 + d > u64::MAX) by (nonlinear_arith)
                            requires
                                cur > (u64::MAX - d) / 10,
                                d <= 9,
                        ;
                        lemma_piece_spoils(s, i + 1, done@.len() as int);
                    }
                    return Err(VersionParseError);
                }
                proof {
                    assert(cur * 10 + d <= u64::MAX) by (nonlinear_arith)
                        requires
                            cur <= (u64::MAX - d) / 10,
                            d <= 9,
                    ;
                }
                cur = cur * 10 + d;
                cur_len = cur_len + 1;
                proof {
                    assert forall|k: int| 0 <= k < done@.len() implies component_value(p1[k])
                        == Some(#[trigger] done@[k]) by {
                        assert(p1[k] == p[k]);
                    }
                    assert forall|k: int| 0 <= k < p1.last().len() implies is_digit(
                        #[trigger] p1.last()[k],
                    ) by {
                        if k < p.last().len() {
                            assert(p1.last()[k] == p.last()[k]);
                        }
                    }
                }
            } else {
                proof {
                    assert(p1.last() == p.last().push(c));
                    lemma_piece_spoils(s, i + 1, done@.len() as int);
                }
                return Err(VersionParseError);
            }
            i = i + 1;
        }
        proof {
            assert(s.take(n as int) == s);
        }
        if done.len() < 2 || cur_len == 0 {
            return Err(VersionParseError);
        }
        let ghost p = split_dots(s);
        proof {
            assert(component_value(p[0]) == Some(done@[0]));
            assert(component_value(p[1]) == Some(done@[1]));
            assert(is_numeral(p[2]));
        }
        Ok(SemanticVersion { major: done[0], minor: done[1], patch: cur })
    }

    /// Reads the numbers of a release version in full semantic-version form
    /// (`major.minor.patch`, then optionally `-pre.release` and `+build.data`); the suffixes
    /// must be well formed and are then set aside.
    pub fn parse_release(text: &str) -> (r: Result<SemanticVersion, VersionParseError>)
        ensures
            match r {
                Ok(v) => parse_release_version_spec(text@) == Some(v),
                Err(_) => parse_release_version_spec(text@) is None,
            },
    {
        let ghost s = text@;
        let n = text.unicode_len();
        let k = find_first_of(text, '-', '+');
        let ghost t = s.skip(k as int);
        let suffix_valid = if k == n {
            proof {
                assert(t.len() == 0);
            }
            true
        } else {
            let c = text.get_char(k);
            let after = text.substring_char(k + 1, n);
            proof {
                assert(t[0] == c);
                assert(after@ =~= t.drop_first());
            }
            if c == '+' {
                dotted_valid(after, false)
            } else {
                proof {
                    assert(c == '-') by {
                        lemma_first_of_hit(s, '-', '+');
                    }
                }
                let rn = after.unicode_len();
                let m = find_first_of(after, '+', '+');
                let pre = after.substring_char(0, m);
                proof {
                    assert(pre@ =~= after@.take(m as int));
                }
                let pre_ok = dotted_valid(pre, true);
                if m == rn {
                    pre_ok
                } else {
                    let build = after.substring_char(m + 1, rn);
                    proof {
                        assert(build@ =~= after@.skip(m + 1));
                    }
                    pre_ok && dotted_valid(build, false)
                }
            }
        };
        if !suffix_valid {
            return Err(VersionParseError);
        }
        let core = text.substring_char(0, k);
        proof {
            assert(core@ =~= s.take(k as int));
        }
        SemanticVersion::parse(core)
    }

    /// Whether this version precedes `other`.
    pub fn is_older_than(&self, other: &SemanticVersion) -> (r: bool)
        ensures
            r == version_lt(*self, *other),
    {
        self.major < other.major || (self.major == other.major && (self.minor < other.minor || (
        self.minor == other.minor && self.patch < other.patch)))
    }
}

} // verus!
