use vstd::prelude::*;
use vstd::string::*;

use crate::error::{is_validation_error, AppError};
use crate::text::chars_of;

verus! {

// ---------------------------------------------------------------------------
// Decimal numbers
// ---------------------------------------------------------------------------

/// `c` is one of the ASCII digits `0`..=`9`.
pub open spec fn is_ascii_digit(c: char) -> bool {
    '0' <= c && c <= '9'
}

/// Every character of `d` is an ASCII digit.
pub open spec fn all_digits(d: Seq<char>) -> bool {
    forall|i: int| 0 <= i < d.len() ==> is_ascii_digit(#[trigger] d[i])
}

/// The number written by the decimal digits `d` (most significant first).
pub open spec fn digits_value(d: Seq<char>) -> int
    decreases d.len(),
{
    if d.len() == 0 {
        0
    } else {
        digits_value(d.drop_last()) * 10 + (d.last() as int - '0' as int)
    }
}

/// What `u32::from_str` gives for `s`: an optional `+` sign followed by at least one
/// ASCII digit, whose value fits in a `u32`; anything else is refused.
pub open spec fn spec_parse_u32(s: Seq<char>) -> Option<u32> {
    let d = if s.len() > 0 && s[0] == '+' { s.drop_first() } else { s };
    if d.len() > 0 && all_digits(d) && digits_value(d) <= u32::MAX {
        Some(digits_value(d) as u32)
    } else {
        None
    }
}

proof fn lemma_digits_value_nonneg(d: Seq<char>)
    requires
        all_digits(d),
    ensures
        digits_value(d) >= 0,
    decreases d.len(),
{
    if d.len() > 0 {
        assert(is_ascii_digit(d[d.len() - 1]));
        lemma_digits_value_nonneg(d.drop_last());
    }
}

/// A prefix of a digit string never has a larger value than the whole string.
proof fn lemma_digits_value_prefix(d: Seq<char>, k: int)
    requires
        all_digits(d),
        0 <= k <= d.len(),
    ensures
        digits_value(d.take(k)) <= digits_value(d),
    decreases d.len(),
{
    if k < d.len() {
        assert(is_ascii_digit(d[d.len() - 1]));
        assert(d.drop_last().take(k) =~= d.take(k));
        lemma_digits_value_prefix(d.drop_last(), k);
        lemma_digits_value_nonneg(d.drop_last());
    } else {
        assert(d.take(k) =~= d);
    }
}

/// Parses a decimal `u32` the way `u32::from_str` does.
pub fn parse_u32(s: &[char]) -> (r: Option<u32>)
    ensures
        r == spec_parse_u32(s@),
{
    let n = s.len();
    let start: usize = if n > 0 && s[0] == '+' { 1 } else { 0 };
    let ghost d = if s@.len() > 0 && s@[0] == '+' { s@.drop_first() } else { s@ };
    assert(d =~= s@.subrange(start as int, n as int));
    if start == n {
        return None;
    }
    let mut acc: u64 = 0;
    let mut i: usize = start;
    while i < n
        invariant
            start <= i <= n,
            n == s@.len(),
            d =~= s@.subrange(start as int, n as int),
            d == (if s@.len() > 0 && s@[0] == '+' { s@.drop_first() } else { s@ }),
            d.len() > 0,
            all_digits(d.take(i - start)),
            acc as int == digits_value(d.take(i - start)),
            acc <= u32::MAX,
        decreases n - i,
    {
        let c = s[i];
        if !('0' <= c && c <= '9') {
            assert(d[i - start] == c);
            assert(!is_ascii_digit(d[i - start]));
            return None;
        }
        let dig = (c as u32 - '0' as u32) as u64;
        let ghost k = i - start;
        assert(d.take(k + 1).drop_last() =~= d.take(k));
        acc = acc * 10 + dig;
        i = i + 1;
        assert(all_digits(d.take(i - start))) by {
            assert forall|j: int| 0 <= j < d.take(i - start).len() implies is_ascii_digit(
                #[trigger] d.take(i - start)[j],
            ) by {
                if j < k {
                    assert(d.take(i - start)[j] == d.take(k)[j]);
                }
            }
        }
        if acc > u32::MAX as u64 {
            proof {
                if all_digits(d) {
                    lemma_digits_value_prefix(d, i - start);
                }
            }
            return None;
        }
    }
    assert(d.take(n - start) =~= d);
    Some(acc as u32)
}


// ---------------------------------------------------------------------------
// Release versions
// ---------------------------------------------------------------------------

/// `s` with every leading `v` removed.
pub open spec fn trim_leading_v(s: Seq<char>) -> Seq<char>
    decreases s.len(),
{
    if s.len() > 0 && s[0] == 'v' {
        trim_leading_v(s.drop_first())
    } else {
        s
    }
}

/// The part of `s` before its first `c` (all of `s` when `c` does not occur).
pub open spec fn before_first(s: Seq<char>, c: char) -> Seq<char>
    decreases s.len(),
{
    if s.len() == 0 {
        s
    } else if s[0] == c {
        Seq::empty()
    } else {
        seq![s[0]] + before_first(s.drop_first(), c)
    }
}

/// The pieces of `s` between occurrences of `c`, in order (`s.split(c)`); there is one
/// more piece than there are occurrences of `c`.
pub open spec fn split_on(s: Seq<char>, c: char) -> Seq<Seq<char>>
    decreases s.len(),
{
    if s.len() == 0 {
        seq![Seq::empty()]
    } else {
        let init = split_on(s.drop_last(), c);
        if s.last() == c {
            init.push(Seq::empty())
        } else {
            init.update(init.len() - 1, init.last().push(s.last()))
        }
    }
}

/// The core `MAJOR.MINOR.PATCH` text of a version string: leading `v`s removed and any
/// `-prerelease` suffix cut off.
pub open spec fn version_core(s: Seq<char>) -> Seq<char> {
    before_first(trim_leading_v(s), '-')
}

/// What parsing a version string gives: the three numbers, or the message of the
/// validation error.
pub open spec fn spec_parse_semver(s: Seq<char>) -> Result<(u32, u32, u32), Seq<char>> {
    let v = version_core(s);
    let p = split_on(v, '.');
    if p.len() != 3 {
        Err("Invalid version: "@ + v)
    } else if spec_parse_u32(p[0]) is None {
        Err("bad major"@)
    } else if spec_parse_u32(p[1]) is None {
        Err("bad minor"@)
    } else if spec_parse_u32(p[2]) is None {
        Err("bad patch"@)
    } else {
        Ok((spec_parse_u32(p[0])->0, spec_parse_u32(p[1])->0, spec_parse_u32(p[2])->0))
    }
}

/// `a` comes strictly before `b` in (major, minor, patch) order.
pub open spec fn version_lt(a: (u32, u32, u32), b: (u32, u32, u32)) -> bool {
    a.0 < b.0 || (a.0 == b.0 && (a.1 < b.1 || (a.1 == b.1 && a.2 < b.2)))
}

/// What checking an update from `current` to `candidate` gives: `Ok` when both parse
/// and the candidate is not older, otherwise the message of the validation error.
pub open spec fn spec_update_check(current: Seq<char>, candidate: Seq<char>) -> Result<(), Seq<char>> {
    match spec_parse_semver(candidate) {
        Err(m) => Err(m),
        Ok(c) => match spec_parse_semver(current) {
            Err(m) => Err(m),
            Ok(k) => if version_lt(c, k) {
                Err("Refusing downgrade from "@ + current + " to "@ + candidate)
            } else {
                Ok(())
            },
        },
    }
}

proof fn lemma_trim_leading_v(s: Seq<char>, k: int)
    requires
        0 <= k <= s.len(),
        forall|i: int| 0 <= i < k ==> s[i] == 'v',
        k == s.len() || s[k] != 'v',
    ensures
        trim_leading_v(s) == s.skip(k),
    decreases k,
{
    if k == 0 {
        assert(s.skip(0) =~= s);
    } else {
        assert(s.drop_first().skip(k - 1) =~= s.skip(k));
        lemma_trim_leading_v(s.drop_first(), k - 1);
    }
}

proof fn lemma_before_first(s: Seq<char>, c: char, j: int)
    requires
        0 <= j <= s.len(),
        forall|i: int| 0 <= i < j ==> s[i] != c,
        j == s.len() || s[j] == c,
    ensures
        before_first(s, c) == s.take(j),
    decreases j,
{
    if j == 0 {
        assert(s.take(0) =~= Seq::<char>::empty());
    } else {
        lemma_before_first(s.drop_first(), c, j - 1);
        assert(seq![s[0]] + s.drop_first().take(j - 1) =~= s.take(j));
    }
}

proof fn lemma_split_on_nonempty(s: Seq<char>, c: char)
    ensures
        split_on(s, c).len() >= 1,
    decreases s.len(),
{
    if s.len() > 0 {
        lemma_split_on_nonempty(s.drop_last(), c);
    }
}

/// The view of a list of character vectors as a list of character sequences.
pub open spec fn pieces_view(v: Seq<Vec<char>>) -> Seq<Seq<char>> {
    v.map_values(|p: Vec<char>| p@)
}

/// Splits `s` at every `c` (`split(c)` collected into a list).
pub fn split_chars(s: &[char], c: char) -> (pieces: Vec<Vec<char>>)
    ensures
        pieces_view(pieces@) == split_on(s@, c),
{
    let mut done: Vec<Vec<char>> = Vec::new();
    let mut cur: Vec<char> = Vec::new();
    let n = s.len();
    let mut i: usize = 0;
    assert(s@.take(0) =~= Seq::<char>::empty());
    assert(pieces_view(done@).push(cur@) =~= split_on(s@.take(0), c));
    while i < n
        invariant
            i <= n,
            n == s@.len(),
            pieces_view(done@).push(cur@) == split_on(s@.take(i as int), c),
        decreases n - i,
    {
        let ch = s[i];
        let ghost t = s@.take(i as int);
        assert(s@.take(i + 1).drop_last() =~= t);
        assert(s@.take(i + 1).last() == ch);
        proof {
            lemma_split_on_nonempty(t, c);
        }
        if ch == c {
            let finished = cur;
            done.push(finished);
            cur = Vec::new();
            assert(pieces_view(done@).push(cur@) =~= split_on(t, c).push(Seq::empty()));
        } else {
            cur.push(ch);
            let ghost init = split_on(t, c);
            assert(pieces_view(done@).push(cur@) =~= init.update(init.len() - 1, init.last().push(ch)));
        }
        i = i + 1;
    }
    assert(s@.take(n as int) =~= s@);
    done.push(cur);
    assert(pieces_view(done@) =~= split_on(s@, c));
    done
}

/// Parses a release version such as `v1.2.3` or `2.1.0-beta.1` into its three numbers.
pub fn parse_semver(v: &str) -> (r: Result<(u32, u32, u32), AppError>)
    ensures
        match r {
            Ok(t) => spec_parse_semver(v@) == Ok::<(u32, u32, u32), Seq<char>>(t),
            Err(e) => spec_parse_semver(v@) matches Err(m) && is_validation_error(e, m),
        },
{
    let all = chars_of(v);
    let n = all.len();
    // Skip the leading `v`s.
    let mut k: usize = 0;
    while k < n && all[k] == 'v'
        invariant
            k <= n,
            n == all@.len(),
            forall|i: int| 0 <= i < k ==> all@[i] == 'v',
        decreases n - k,
    {
        k = k + 1;
    }
    proof {
        lemma_trim_leading_v(v@, k as int);
    }
    // Find the end of the core: the first `-` after the `v`s.
    let mut e: usize = k;
    while e < n && all[e] != '-'
        invariant
            k <= e <= n,
            n == all@.len(),
            forall|i: int| k <= i < e ==> all@[i] != '-',
        decreases n - e,
    {
        e = e + 1;
    }
    let ghost rest = v@.skip(k as int);
    proof {
        assert forall|i: int| 0 <= i < e - k implies rest[i] != '-' by {
            assert(rest[i] == all@[k + i]);
        }
        lemma_before_first(rest, '-', e - k);
        assert(rest.take(e - k) =~= v@.subrange(k as int, e as int));
    }
    let core = v.substring_char(k, e);
    let core_chars = chars_of(core);
    assert(core@ == version_core(v@));
    let pieces = split_chars(core_chars.as_slice(), '.');
    if pieces.len() != 3 {
        let mut msg = String::from_str("Invalid version: ");
        msg.append(core);
        return Err(AppError::Validation(msg));
    }
    assert(pieces@[0]@ == split_on(core@, '.')[0]);
    assert(pieces@[1]@ == split_on(core@, '.')[1]);
    assert(pieces@[2]@ == split_on(core@, '.')[2]);
    let major = match parse_u32(pieces[0].as_slice()) {
        Some(x) => x,
        None => return Err(AppError::Validation(String::from_str("bad major"))),
    };
    let minor = match parse_u32(pieces[1].as_slice()) {
        Some(x) => x,
        None => return Err(AppError::Validation(String::from_str("bad minor"))),
    };
    let patch = match parse_u32(pieces[2].as_slice()) {
        Some(x) => x,
        None => return Err(AppError::Validation(String::from_str("bad patch"))),
    };
    Ok((major, minor, patch))
}

/// Whether version `a` comes strictly before version `b`.
pub fn version_less(a: (u32, u32, u32), b: (u32, u32, u32)) -> (r: bool)
    ensures
        r == version_lt(a, b),
{
    a.0 < b.0 || (a.0 == b.0 && (a.1 < b.1 || (a.1 == b.1 && a.2 < b.2)))
}

/// Refuses an update whose version is older than the running one. Both versions must
/// parse; the candidate is parsed first.
pub fn validate_update_version(current: &str, candidate: &str) -> (r: Result<(), AppError>)
    ensures
        match r {
            Ok(()) => spec_update_check(current@, candidate@) == Ok::<(), Seq<char>>(()),
            Err(e) => spec_update_check(current@, candidate@) matches Err(m) && is_validation_error(e, m),
        },
{
    let c = parse_semver(candidate)?;
    let k = parse_semver(current)?;
    if version_less(c, k) {
        let mut msg = String::from_str("Refusing downgrade from ");
        msg.append(current);
        msg.append(" to ");
        msg.append(candidate);
        return Err(AppError::Validation(msg));
    }
    Ok(())
}


// ---------------------------------------------------------------------------
// Laws of version checking
// ---------------------------------------------------------------------------

/// Reinstalling the running version is never refused: a version that parses may always
/// be updated to itself.
pub proof fn law_same_version_allowed(v: Seq<char>)
    requires
        spec_parse_semver(v) is Ok,
    ensures
        spec_update_check(v, v) == Ok::<(), Seq<char>>(()),
{
}

/// A candidate strictly older than the running version is refused.
pub proof fn law_downgrade_refused(current: Seq<char>, candidate: Seq<char>)
    requires
        spec_parse_semver(current) is Ok,
        spec_parse_semver(candidate) is Ok,
        version_lt(spec_parse_semver(candidate)->Ok_0, spec_parse_semver(current)->Ok_0),
    ensures
        spec_update_check(current, candidate) is Err,
{
}

/// The downgrade order is lexicographic on (major, minor, patch): of two versions that
/// parse, the update is refused exactly when the candidate's major is smaller, or the
/// majors agree and its minor is smaller, or majors and minors agree and its patch is
/// smaller. In particular a larger minor with the same major is accepted whatever the
/// patch numbers.
pub proof fn law_downgrade_order(current: Seq<char>, candidate: Seq<char>)
    requires
        spec_parse_semver(current) is Ok,
        spec_parse_semver(candidate) is Ok,
    ensures
        ({
            let c = spec_parse_semver(candidate)->Ok_0;
            let k = spec_parse_semver(current)->Ok_0;
            &&& spec_update_check(current, candidate) is Err <==> (c.0 < k.0 || (c.0 == k.0 && c.1
                < k.1) || (c.0 == k.0 && c.1 == k.1 && c.2 < k.2))
            &&& (c.0 == k.0 && c.1 > k.1) ==> spec_update_check(current, candidate) is Ok
            &&& (c.0 > k.0) ==> spec_update_check(current, candidate) is Ok
        }),
{
}

/// Allowed updates chain: if `a` may be updated to `b` and `b` to `c`, then `a` may be
/// updated to `c`.
pub proof fn law_update_transitive(a: Seq<char>, b: Seq<char>, c: Seq<char>)
    requires
        spec_update_check(a, b) is Ok,
        spec_update_check(b, c) is Ok,
    ensures
        spec_update_check(a, c) is Ok,
{
}

/// Of two versions that both parse, one may always be updated to the other.
pub proof fn law_update_total(a: Seq<char>, b: Seq<char>)
    requires
        spec_parse_semver(a) is Ok,
        spec_parse_semver(b) is Ok,
    ensures
        spec_update_check(a, b) is Ok || spec_update_check(b, a) is Ok,
{
}

/// A leading `v` does not change what a version parses to.
pub proof fn law_v_prefix_ignored(s: Seq<char>)
    ensures
        spec_parse_semver(seq!['v'] + s) == spec_parse_semver(s),
{
    assert((seq!['v'] + s).drop_first() =~= s);
}

proof fn lemma_trim_leading_v_append(s: Seq<char>, t: Seq<char>)
    requires
        t.len() == 0 || t[0] != 'v',
    ensures
        trim_leading_v(s + t) == (if trim_leading_v(s).len() == 0 { t } else { trim_leading_v(s) + t }),
    decreases s.len(),
{
    if s.len() == 0 {
        assert(s + t =~= t);
    } else if s[0] == 'v' {
        assert((s + t).drop_first() =~= s.drop_first() + t);
        lemma_trim_leading_v_append(s.drop_first(), t);
    } else {
    }
}

proof fn lemma_before_first_append(u: Seq<char>, c: char, x: Seq<char>)
    requires
        !u.contains(c),
    ensures
        before_first(u + seq![c] + x, c) == u,
    decreases u.len(),
{
    if u.len() == 0 {
        assert(u + seq![c] + x =~= seq![c] + x);
    } else {
        assert((u + seq![c] + x).drop_first() =~= u.drop_first() + seq![c] + x);
        assert(!u.drop_first().contains(c)) by {
            if u.drop_first().contains(c) {
                let i = choose|i: int| 0 <= i < u.drop_first().len() && u.drop_first()[i] == c;
                assert(u[i + 1] == c);
            }
        }
        lemma_before_first_append(u.drop_first(), c, x);
        assert(u[0] != c);
        assert(seq![u[0]] + u.drop_first() =~= u);
    }
}

proof fn lemma_trim_leading_v_no_new(s: Seq<char>, c: char)
    requires
        !s.contains(c),
    ensures
        !trim_leading_v(s).contains(c),
    decreases s.len(),
{
    if s.len() > 0 && s[0] == 'v' {
        assert(!s.drop_first().contains(c)) by {
            if s.drop_first().contains(c) {
                let i = choose|i: int| 0 <= i < s.drop_first().len() && s.drop_first()[i] == c;
                assert(s[i + 1] == c);
            }
        }
        lemma_trim_leading_v_no_new(s.drop_first(), c);
    }
}

/// A `-prerelease` suffix does not change what a version parses to.
pub proof fn law_prerelease_ignored(s: Seq<char>, x: Seq<char>)
    requires
        !s.contains('-'),
    ensures
        spec_parse_semver(s + seq!['-'] + x) == spec_parse_semver(s),
{
    let t = seq!['-'] + x;
    assert(s + seq!['-'] + x =~= s + t);
    lemma_trim_leading_v_append(s, t);
    lemma_trim_leading_v_no_new(s, '-');
    let u = trim_leading_v(s);
    assert(!u.contains('-'));
    lemma_before_first(u, '-', u.len() as int);
    assert(u.take(u.len() as int) =~= u);
    if u.len() == 0 {
        assert(before_first(t, '-') == Seq::<char>::empty());
    } else {
        assert(u + t =~= u + seq!['-'] + x);
        lemma_before_first_append(u, '-', x);
    }
}

/// The decimal digit character for `d` (`d < 10`).
pub open spec fn digit_char(d: nat) -> char {
    (d + '0' as nat) as char
}

/// The decimal rendering of `n`, without leading zeros.
pub open spec fn decimal(n: nat) -> Seq<char>
    decreases n,
{
    if n < 10 {
        seq![digit_char(n)]
    } else {
        decimal(n / 10).push(digit_char(n % 10))
    }
}

proof fn lemma_decimal(n: nat)
    ensures
        decimal(n).len() > 0,
        all_digits(decimal(n)),
        digits_value(decimal(n)) == n,
        decimal(n)[0] != '+',
    decreases n,
{
    assert(digit_char(n % 10) as int == (n % 10) + 48);
    if n < 10 {
        assert(digit_char(n) as int == n + 48);
        assert(decimal(n).drop_last() =~= Seq::<char>::empty());
        assert(digits_value(Seq::<char>::empty()) == 0);
        assert(decimal(n).last() == digit_char(n));
        assert('0' as int == 48);
        assert(digits_value(decimal(n)) == n);
    } else {
        lemma_decimal(n / 10);
        assert(n == (n / 10) * 10 + n % 10) by (nonlinear_arith);
        let d = decimal(n);
        assert(d.drop_last() =~= decimal(n / 10));
        assert(d.last() == digit_char(n % 10));
        assert('0' as int == 48);
        assert(digits_value(d) == digits_value(decimal(n / 10)) * 10 + (n % 10));
        assert(d[0] == decimal(n / 10)[0]);
        assert forall|i: int| 0 <= i < d.len() implies is_ascii_digit(#[trigger] d[i]) by {
            if i < d.len() - 1 {
                assert(d[i] == decimal(n / 10)[i]);
            }
        }
    }
}

proof fn lemma_digits_exclude(d: Seq<char>, c: char)
    requires
        all_digits(d),
        !is_ascii_digit(c),
    ensures
        !d.contains(c),
{
    if d.contains(c) {
        let i = choose|i: int| 0 <= i < d.len() && d[i] == c;
        assert(is_ascii_digit(d[i]));
    }
}

proof fn lemma_split_on_no_sep(y: Seq<char>, c: char)
    requires
        !y.contains(c),
    ensures
        split_on(y, c) == seq![y],
    decreases y.len(),
{
    if y.len() > 0 {
        assert(!y.drop_last().contains(c)) by {
            if y.drop_last().contains(c) {
                let i = choose|i: int| 0 <= i < y.drop_last().len() && y.drop_last()[i] == c;
                assert(y[i] == c);
            }
        }
        lemma_split_on_no_sep(y.drop_last(), c);
        assert(y.last() != c);
        assert(y.drop_last().push(y.last()) =~= y);
        assert(split_on(y, c) =~= seq![y]);
    } else {
        assert(y =~= Seq::<char>::empty());
    }
}

proof fn lemma_split_on_append(x: Seq<char>, c: char, y: Seq<char>)
    requires
        !y.contains(c),
    ensures
        split_on(x.push(c) + y, c) == split_on(x, c).push(y),
    decreases y.len(),
{
    if y.len() == 0 {
        assert(x.push(c) + y =~= x.push(c));
        assert(x.push(c).drop_last() =~= x);
        assert(y =~= Seq::<char>::empty());
    } else {
        assert(!y.drop_last().contains(c)) by {
            if y.drop_last().contains(c) {
                let i = choose|i: int| 0 <= i < y.drop_last().len() && y.drop_last()[i] == c;
                assert(y[i] == c);
            }
        }
        lemma_split_on_append(x, c, y.drop_last());
        assert((x.push(c) + y).drop_last() =~= x.push(c) + y.drop_last());
        assert((x.push(c) + y).last() == y.last());
        assert(y.last() != c);
        assert(y.drop_last().push(y.last()) =~= y);
        assert(split_on(x.push(c) + y, c) =~= split_on(x, c).push(y));
    }
}

/// A version written as `MAJOR.MINOR.PATCH` in decimal parses back to its three numbers.
pub proof fn law_decimal_version_round_trip(a: u32, b: u32, c: u32)
    ensures
        spec_parse_semver(decimal(a as nat) + seq!['.'] + decimal(b as nat) + seq!['.'] + decimal(
            c as nat,
        )) == Ok::<(u32, u32, u32), Seq<char>>((a, b, c)),
{
    let da = decimal(a as nat);
    let db = decimal(b as nat);
    let dc = decimal(c as nat);
    lemma_decimal(a as nat);
    lemma_decimal(b as nat);
    lemma_decimal(c as nat);
    let s = da + seq!['.'] + db + seq!['.'] + dc;
    assert(is_ascii_digit(da[0]));
    assert(s[0] == da[0]);
    assert(trim_leading_v(s) == s);
    assert forall|i: int| 0 <= i < s.len() implies s[i] != '-' by {
        if i < da.len() {
            assert(s[i] == da[i]);
            assert(is_ascii_digit(da[i]));
        } else if i == da.len() {
        } else if i < da.len() + 1 + db.len() {
            assert(s[i] == db[i - da.len() - 1]);
            assert(is_ascii_digit(db[i - da.len() - 1]));
        } else if i == da.len() + 1 + db.len() {
        } else {
            assert(s[i] == dc[i - da.len() - 2 - db.len()]);
            assert(is_ascii_digit(dc[i - da.len() - 2 - db.len()]));
        }
    }
    lemma_before_first(s, '-', s.len() as int);
    assert(s.take(s.len() as int) =~= s);
    assert(version_core(s) == s);
    lemma_digits_exclude(da, '.');
    lemma_digits_exclude(db, '.');
    lemma_digits_exclude(dc, '.');
    lemma_split_on_no_sep(da, '.');
    lemma_split_on_append(da, '.', db);
    assert(da.push('.') + db =~= da + seq!['.'] + db);
    lemma_split_on_append(da + seq!['.'] + db, '.', dc);
    assert((da + seq!['.'] + db).push('.') + dc =~= s);
    let p = split_on(s, '.');
    assert(p =~= seq![da, db, dc]);
    assert(spec_parse_u32(da) == Some(a));
    assert(spec_parse_u32(db) == Some(b));
    assert(spec_parse_u32(dc) == Some(c));
}


/// `u32::from_str` refuses the empty text, a lone `+`, and any text with a character
/// that is not an ASCII digit, apart from one leading `+`.
pub proof fn law_parse_u32_refuses(s: Seq<char>)
    ensures
        s.len() == 0 ==> spec_parse_u32(s) is None,
        s =~= seq!['+'] ==> spec_parse_u32(s) is None,
        forall|i: int|
            0 <= i < s.len() && (i > 0 || s[0] != '+') && !('0' <= #[trigger] s[i] && s[i] <= '9')
                ==> spec_parse_u32(s) is None,
{
    let d = if s.len() > 0 && s[0] == '+' { s.drop_first() } else { s };
    assert forall|i: int|
        0 <= i < s.len() && (i > 0 || s[0] != '+') && !('0' <= #[trigger] s[i] && s[i] <= '9')
            implies spec_parse_u32(s) is None by {
        if s.len() > 0 && s[0] == '+' {
            assert(d[i - 1] == s[i]);
            assert(!is_ascii_digit(d[i - 1]));
        } else {
            assert(d[i] == s[i]);
            assert(!is_ascii_digit(d[i]));
        }
    }
}

/// Every `u32`, written in decimal with or without a leading `+`, reads back as itself.
pub proof fn law_parse_u32_decimal(n: u32)
    ensures
        spec_parse_u32(decimal(n as nat)) == Some(n),
        spec_parse_u32(seq!['+'] + decimal(n as nat)) == Some(n),
{
    lemma_decimal(n as nat);
    assert((seq!['+'] + decimal(n as nat)).drop_first() =~= decimal(n as nat));
}

} // verus!
