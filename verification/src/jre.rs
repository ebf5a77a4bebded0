//! Probing a candidate Java runtime. The probe itself (spawning
//! `java -version`) happens at the boundary; the functions here interpret
//! what the process reported: they find the quoted version token on the
//! diagnostic output and derive the major version from it.

use vstd::prelude::*;
use crate::errors::ProvisionError;
use crate::strings::{chars_to_string, str_to_chars};

verus! {

/// A probed Java runtime: the version string it reported, the executable
/// path it was probed at, and the derived major version.
#[derive(Debug, Clone, PartialEq, Eq)]
pub struct JavaRuntimeVersion {
    pub version: String,
    pub path: String,
    pub major_version: i32,
}

/// Whether `c` is a decimal digit.
pub open spec fn is_digit(c: char) -> bool {
    48 <= c as u32 <= 57
}

/// The numeric value of a digit character.
pub open spec fn digit_val(c: char) -> int {
    c as u32 - 48
}

/// The numeric value of a digit string, most significant digit first.
pub open spec fn dec_value(s: Seq<char>) -> int
    decreases s.len(),
{
    if s.len() == 0 {
        0
    } else {
        dec_value(s.drop_last()) * 10 + digit_val(s.last())
    }
}

/// Whether every character of `s` is a decimal digit.
pub open spec fn all_digits(s: Seq<char>) -> bool {
    forall|k: int| 0 <= k < s.len() ==> is_digit(s[k])
}

/// The end of the maximal digit run starting at `i`.
pub open spec fn digit_run_end(s: Seq<char>, i: int) -> int
    decreases s.len() - i,
{
    if 0 <= i < s.len() && is_digit(s[i]) {
        digit_run_end(s, i + 1)
    } else {
        i
    }
}

/// Whether the version-number shape `digits '.' digits '.' digits` occurs
/// at position `i` (the trailing `_digits` of legacy strings needs no check:
/// it is optional).
pub open spec fn triple_match_at(s: Seq<char>, i: int) -> bool {
    let e1 = digit_run_end(s, i);
    let e2 = digit_run_end(s, e1 + 1);
    let e3 = digit_run_end(s, e2 + 1);
    &&& e1 > i
    &&& e1 < s.len()
    &&& s[e1] == '.'
    &&& e2 > e1 + 1
    &&& e2 < s.len()
    &&& s[e2] == '.'
    &&& e3 > e2 + 1
}

/// The leftmost position at or after `i` where the version-number shape
/// occurs.
pub open spec fn first_triple(s: Seq<char>, i: int) -> Option<int>
    decreases s.len() - i,
{
    if i < 0 || i >= s.len() {
        None
    } else if triple_match_at(s, i) {
        Some(i)
    } else {
        first_triple(s, i + 1)
    }
}

/// The position of the first `'.'` at or after `i`, or the length of `s`.
pub open spec fn first_dot(s: Seq<char>, i: int) -> int
    decreases s.len() - i,
{
    if i < 0 || i >= s.len() {
        s.len() as int
    } else if s[i] == '.' {
        i
    } else {
        first_dot(s, i + 1)
    }
}

/// The value of `s` read as an optionally signed decimal integer fitting in
/// an `i32`, as `str::parse::<i32>` reads it.
pub open spec fn parse_i32(s: Seq<char>) -> Option<int> {
    let digits = if s.len() > 0 && (s[0] == '+' || s[0] == '-') {
        s.skip(1)
    } else {
        s
    };
    if digits.len() == 0 || !all_digits(digits) {
        None
    } else {
        let v = if s.len() > 0 && s[0] == '-' {
            -dec_value(digits)
        } else {
            dec_value(digits)
        };
        if i32::MIN <= v <= i32::MAX {
            Some(v)
        } else {
            None
        }
    }
}

/// The major Java version encoded in a version string.
///
/// If the string contains `digits '.' digits '.' digits` (optionally
/// followed by `'_' digits`, as in legacy `1.8.0_291` strings), the major
/// version comes from that shape: the leading component, or the second
/// component when the leading one is `1` (legacy strings report major 8 as
/// `1.8`). Otherwise the part before the first `'.'` is read as a signed
/// integer. `None` when neither reading succeeds or the value overflows.
pub open spec fn major_version_of(s: Seq<char>) -> Option<int> {
    match first_triple(s, 0) {
        Some(i) => {
            let e1 = digit_run_end(s, i);
            let e2 = digit_run_end(s, e1 + 1);
            let d1 = dec_value(s.subrange(i, e1));
            let d2 = dec_value(s.subrange(e1 + 1, e2));
            let m = if d1 == 1 {
                d2
            } else {
                d1
            };
            if m <= i32::MAX {
                Some(m)
            } else {
                None
            }
        },
        None => parse_i32(s.take(first_dot(s, 0))),
    }
}

/// The digit run end lies between `i` and the length, covers only digits,
/// and stops at the first non-digit.
pub proof fn lemma_digit_run_end(s: Seq<char>, i: int)
    requires
        0 <= i <= s.len(),
    ensures
        i <= digit_run_end(s, i) <= s.len(),
        forall|k: int| i <= k < digit_run_end(s, i) ==> is_digit(s[k]),
        digit_run_end(s, i) < s.len() ==> !is_digit(s[digit_run_end(s, i)]),
    decreases s.len() - i,
{
    if i < s.len() && is_digit(s[i]) {
        lemma_digit_run_end(s, i + 1);
    }
}

/// A digit string has a non-negative value.
pub proof fn lemma_dec_value_nonneg(s: Seq<char>)
    requires
        all_digits(s),
    ensures
        dec_value(s) >= 0,
    decreases s.len(),
{
    if s.len() > 0 {
        assert(all_digits(s.drop_last()));
        lemma_dec_value_nonneg(s.drop_last());
    }
}

/// Maximal digit run starting at `i`, computed on a character vector.
fn digit_run_end_x(v: &Vec<char>, i: usize) -> (e: usize)
    requires
        i <= v@.len(),
    ensures
        e as int == digit_run_end(v@, i as int),
        i <= e <= v@.len(),
{
    let mut j = i;
    loop
        invariant
            i <= j <= v@.len(),
            digit_run_end(v@, i as int) == digit_run_end(v@, j as int),
        ensures
            j as int == digit_run_end(v@, i as int),
            i <= j <= v@.len(),
        decreases v@.len() - j,
    {
        if j >= v.len() {
            break ;
        }
        let d = v[j] as u32;
        if d < 48 || d > 57 {
            break ;
        }
        j = j + 1;
    }
    j
}

/// The digits of `v` between `from` and `to`, read as a number, when it is
/// at most `bound`.
fn parse_bounded_digits(v: &Vec<char>, from: usize, to: usize, bound: u64) -> (r: Option<u64>)
    requires
        from <= to <= v@.len(),
        bound <= u64::MAX / 16,
        forall|k: int| from <= k < to ==> is_digit(v@[k]),
    ensures
        ({
            let d = dec_value(v@.subrange(from as int, to as int));
            &&& r is Some <==> d <= bound
            &&& r matches Some(x) ==> x as int == d
        }),
{
    let mut acc: u64 = 0;
    let mut over: bool = false;
    let mut j = from;
    proof {
        assert(v@.subrange(from as int, from as int) =~= Seq::<char>::empty());
    }
    while j < to
        invariant
            from <= j <= to <= v@.len(),
            forall|k: int| from <= k < to ==> is_digit(v@[k]),
            bound <= u64::MAX / 16,
            !over ==> acc as int == dec_value(v@.subrange(from as int, j as int)) && acc
                <= bound,
            over ==> dec_value(v@.subrange(from as int, j as int)) > bound,
        decreases to - j,
    {
        let ghost pre = v@.subrange(from as int, j as int);
        let ghost cur = v@.subrange(from as int, j + 1);
        proof {
            assert(cur.drop_last() =~= pre);
            assert(cur.last() == v@[j as int]);
            assert(all_digits(pre));
            lemma_dec_value_nonneg(pre);
        }
        let d: u32 = v[j] as u32 - 48;
        if over {
            proof {
                assert(dec_value(cur) == dec_value(pre) * 10 + digit_val(v@[j as int]));
                assert(dec_value(pre) * 10 >= dec_value(pre)) by (nonlinear_arith)
                    requires
                        dec_value(pre) > 0,
                ;
            }
        } else {
            let next: u64 = acc * 10 + (d as u64);
            if next > bound {
                over = true;
            } else {
                acc = next;
            }
        }
        j = j + 1;
    }
    if over {
        None
    } else {
        Some(acc)
    }
}

/// Finds the leftmost occurrence of the version-number shape; returns its
/// start and the ends of its first two digit runs.
fn find_triple(v: &Vec<char>) -> (r: Option<(usize, usize, usize)>)
    ensures
        r is Some <==> first_triple(v@, 0) is Some,
        r matches Some(t) ==> {
            &&& first_triple(v@, 0) == Some(t.0 as int)
            &&& triple_match_at(v@, t.0 as int)
            &&& t.0 < v@.len()
            &&& t.0 < t.1 < v@.len()
            &&& t.1 + 1 < t.2 < v@.len()
            &&& t.1 as int == digit_run_end(v@, t.0 as int)
            &&& t.2 as int == digit_run_end(v@, t.1 + 1)
        },
{
    let n = v.len();
    let mut i: usize = 0;
    while i < n
        invariant
            i <= n,
            n == v@.len(),
            first_triple(v@, 0) == first_triple(v@, i as int),
        decreases n - i,
    {
        let e1 = digit_run_end_x(v, i);
        if e1 > i && e1 < n && v[e1] == '.' {
            let e2 = digit_run_end_x(v, e1 + 1);
            if e2 > e1 + 1 && e2 < n && v[e2] == '.' {
                let e3 = digit_run_end_x(v, e2 + 1);
                if e3 > e2 + 1 {
                    assert(triple_match_at(v@, i as int));
                    return Some((i, e1, e2));
                }
            }
        }
        assert(!triple_match_at(v@, i as int));
        i = i + 1;
    }
    None
}

/// Reads `v` between `from` and `to` as `str::parse::<i32>` would read that
/// slice: an optional sign followed by digits, fitting in an `i32`.
fn parse_i32_range(v: &Vec<char>, to: usize) -> (r: Option<i32>)
    requires
        to <= v@.len(),
    ensures
        r is Some <==> parse_i32(v@.take(to as int)) is Some,
        r matches Some(x) ==> parse_i32(v@.take(to as int)) == Some(x as int),
{
    let ghost s = v@.take(to as int);
    let negative: bool = to > 0 && v[0] == '-';
    let signed: bool = to > 0 && (v[0] == '+' || v[0] == '-');
    let start: usize = if signed {
        1
    } else {
        0
    };
    let ghost digits = if signed {
        s.skip(1)
    } else {
        s
    };
    proof {
        assert(digits =~= v@.subrange(start as int, to as int));
    }
    if start >= to {
        assert(digits.len() == 0);
        return None;
    }
    // Reject any non-digit character in the digit part.
    let mut j = start;
    while j < to
        invariant
            start <= j <= to <= v@.len(),
            ({
                let ss = v@.take(to as int);
                let dd = if ss.len() > 0 && (ss[0] == '+' || ss[0] == '-') {
                    ss.skip(1)
                } else {
                    ss
                };
                dd =~= v@.subrange(start as int, to as int)
            }),
            forall|k: int| start <= k < j ==> is_digit(v@[k]),
        decreases to - j,
    {
        let d = v[j] as u32;
        if d < 48 || d > 57 {
            proof {
                let ss = v@.take(to as int);
                let dd = if ss.len() > 0 && (ss[0] == '+' || ss[0] == '-') {
                    ss.skip(1)
                } else {
                    ss
                };
                assert(!is_digit(dd[j - start]));
                assert(!all_digits(dd));
            }
            return None;
        }
        j = j + 1;
    }
    assert(all_digits(digits));
    proof {
        lemma_dec_value_nonneg(digits);
    }
    if negative {
        // The magnitude of a negative value may be one past i32::MAX.
        match parse_bounded_digits(v, start, to, 2147483648u64) {
            None => {
                assert(-dec_value(digits) < i32::MIN);
                None
            },
            Some(m) => {
                if m == 2147483648u64 {
                    Some(i32::MIN)
                } else {
                    Some(-(m as i32))
                }
            },
        }
    } else {
        match parse_bounded_digits(v, start, to, i32::MAX as u64) {
            None => None,
            Some(m) => Some(m as i32),
        }
    }
}

/// Position of the first `'.'` in `v`, or its length.
fn first_dot_x(v: &Vec<char>) -> (e: usize)
    ensures
        e as int == first_dot(v@, 0),
        e <= v@.len(),
{
    let n = v.len();
    let mut i: usize = 0;
    while i < n
        invariant
            i <= n,
            n == v@.len(),
            first_dot(v@, 0) == first_dot(v@, i as int),
        decreases n - i,
    {
        if v[i] == '.' {
            return i;
        }
        i = i + 1;
    }
    n
}

/// Derives the major Java version from a reported version string:
/// `"1.8.0_291"` gives `8`, `"17.0.2"` gives `17`. Fails with
/// [`ProvisionError::VersionUnparseable`] exactly when no major version can
/// be read.
pub fn extract_java_version(version: &str) -> (r: Result<i32, ProvisionError>)
    ensures
        r is Ok <==> major_version_of(version@) is Some,
        r matches Ok(m) ==> major_version_of(version@) == Some(m as int),
        r matches Err(e) ==> e == ProvisionError::VersionUnparseable,
{
    let v = str_to_chars(version);
    match find_triple(&v) {
        Some((i, e1, e2)) => {
            proof {
                lemma_digit_run_end(v@, i as int);
                lemma_digit_run_end(v@, e1 + 1);
            }
            let d1 = parse_bounded_digits(&v, i, e1, i32::MAX as u64);
            let lead_is_one = match d1 {
                Some(x) => x == 1,
                None => false,
            };
            proof {
                lemma_dec_value_nonneg(v@.subrange(i as int, e1 as int));
                lemma_dec_value_nonneg(v@.subrange(e1 + 1, e2 as int));
            }
            if lead_is_one {
                match parse_bounded_digits(&v, e1 + 1, e2, i32::MAX as u64) {
                    Some(m) => Ok(m as i32),
                    None => Err(ProvisionError::VersionUnparseable),
                }
            } else {
                match d1 {
                    Some(m) => Ok(m as i32),
                    None => Err(ProvisionError::VersionUnparseable),
                }
            }
        },
        None => {
            let dot = first_dot_x(&v);
            match parse_i32_range(&v, dot) {
                Some(m) => {
                    assert(v@.take(first_dot(v@, 0)) == v@.take(dot as int));
                    Ok(m)
                },
                None => Err(ProvisionError::VersionUnparseable),
            }
        },
    }
}

/// Whether `c` is whitespace (the Unicode `White_Space` set, as matched by
/// a whitespace character class).
pub open spec fn is_space(c: char) -> bool {
    let w = c as u32;
    ||| w == 0x09
    ||| w == 0x0A
    ||| w == 0x0B
    ||| w == 0x0C
    ||| w == 0x0D
    ||| w == 0x20
    ||| w == 0x85
    ||| w == 0xA0
    ||| w == 0x1680
    ||| (0x2000 <= w && w <= 0x200A)
    ||| w == 0x2028
    ||| w == 0x2029
    ||| w == 0x202F
    ||| w == 0x205F
    ||| w == 0x3000
}

/// The end of the maximal whitespace run starting at `i`.
pub open spec fn space_run_end(s: Seq<char>, i: int) -> int
    decreases s.len() - i,
{
    if 0 <= i < s.len() && is_space(s[i]) {
        space_run_end(s, i + 1)
    } else {
        i
    }
}

/// The position of the first `'"'` at or after `i`, or the length of `s`.
pub open spec fn quote_end(s: Seq<char>, i: int) -> int
    decreases s.len() - i,
{
    if i < 0 || i >= s.len() {
        s.len() as int
    } else if s[i] == '"' {
        i
    } else {
        quote_end(s, i + 1)
    }
}

/// The version token captured when `version`, whitespace, and a non-empty
/// quoted string occur at position `i`: the pattern a version-reporting Java
/// runtime writes to its diagnostic output.
pub open spec fn version_capture_at(s: Seq<char>, i: int) -> Option<Seq<char>> {
    if 0 <= i && i + 7 <= s.len() && s.subrange(i, i + 7) == "version"@ {
        let w = space_run_end(s, i + 7);
        if w > i + 7 && w < s.len() && s[w] == '"' {
            let q = quote_end(s, w + 1);
            if q > w + 1 && q < s.len() {
                Some(s.subrange(w + 1, q))
            } else {
                None
            }
        } else {
            None
        }
    } else {
        None
    }
}

/// The leftmost version capture at or after `i`.
pub open spec fn first_version_capture(s: Seq<char>, i: int) -> Option<Seq<char>>
    decreases s.len() - i,
{
    if i < 0 || i >= s.len() {
        None
    } else if version_capture_at(s, i) is Some {
        version_capture_at(s, i)
    } else {
        first_version_capture(s, i + 1)
    }
}

/// The quoted version token in a runtime's diagnostic output, if any.
pub open spec fn version_token(s: Seq<char>) -> Option<Seq<char>> {
    first_version_capture(s, 0)
}

/// Whether `c` is whitespace, decided on the character code.
fn is_space_x(c: char) -> (r: bool)
    ensures
        r == is_space(c),
{
    let w = c as u32;
    w == 0x09 || w == 0x0A || w == 0x0B || w == 0x0C || w == 0x0D || w == 0x20 || w == 0x85 || w
        == 0xA0 || w == 0x1680 || (0x2000 <= w && w <= 0x200A) || w == 0x2028 || w == 0x2029 || w
        == 0x202F || w == 0x205F || w == 0x3000
}

/// Maximal whitespace run starting at `i`.
fn space_run_end_x(v: &Vec<char>, i: usize) -> (e: usize)
    requires
        i <= v@.len(),
    ensures
        e as int == space_run_end(v@, i as int),
        i <= e <= v@.len(),
{
    let mut j = i;
    loop
        invariant
            i <= j <= v@.len(),
            space_run_end(v@, i as int) == space_run_end(v@, j as int),
        ensures
            j as int == space_run_end(v@, i as int),
            i <= j <= v@.len(),
        decreases v@.len() - j,
    {
        if j >= v.len() {
            break ;
        }
        if !is_space_x(v[j]) {
            break ;
        }
        j = j + 1;
    }
    j
}

/// Position of the first `'"'` at or after `i`, or the length.
fn quote_end_x(v: &Vec<char>, i: usize) -> (e: usize)
    requires
        i <= v@.len(),
    ensures
        e as int == quote_end(v@, i as int),
        i <= e <= v@.len(),
{
    let mut j = i;
    loop
        invariant
            i <= j <= v@.len(),
            quote_end(v@, i as int) == quote_end(v@, j as int),
        ensures
            j as int == quote_end(v@, i as int),
            i <= j <= v@.len(),
        decreases v@.len() - j,
    {
        if j >= v.len() {
            break ;
        }
        if v[j] == '"' {
            break ;
        }
        j = j + 1;
    }
    j
}

/// Whether the seven characters of `version` occur at `i`.
fn version_word_at(v: &Vec<char>, i: usize) -> (r: bool)
    requires
        i + 7 <= v@.len(),
    ensures
        r == (v@.subrange(i as int, i + 7) == "version"@),
{
    let n = v.len();
    assert(i + 7 <= n);
    proof {
        reveal_strlit("version");
    }
    let r = v[i] == 'v' && v[i + 1] == 'e' && v[i + 2] == 'r' && v[i + 3] == 's' && v[i + 4]
        == 'i' && v[i + 5] == 'o' && v[i + 6] == 'n';
    proof {
        if r {
            assert(v@.subrange(i as int, i + 7) =~= "version"@);
        } else {
            assert(v@.subrange(i as int, i + 7) != "version"@) by {
                if v@.subrange(i as int, i + 7) == "version"@ {
                    assert(v@[i as int] == "version"@[0]);
                    assert(v@[i + 1] == "version"@[1]);
                    assert(v@[i + 2] == "version"@[2]);
                    assert(v@[i + 3] == "version"@[3]);
                    assert(v@[i + 4] == "version"@[4]);
                    assert(v@[i + 5] == "version"@[5]);
                    assert(v@[i + 6] == "version"@[6]);
                }
            }
        }
    }
    r
}

/// Finds the leftmost version capture; returns the bounds of the token
/// between the quotes.
fn find_version_capture(v: &Vec<char>) -> (r: Option<(usize, usize)>)
    ensures
        r is Some <==> version_token(v@) is Some,
        r matches Some(t) ==> {
            &&& t.0 <= t.1 <= v@.len()
            &&& version_token(v@) == Some(v@.subrange(t.0 as int, t.1 as int))
        },
{
    let n = v.len();
    let mut i: usize = 0;
    while i < n
        invariant
            i <= n,
            n == v@.len(),
            first_version_capture(v@, 0) == first_version_capture(v@, i as int),
        decreases n - i,
    {
        if n - i >= 7 && version_word_at(v, i) {
            let w = space_run_end_x(v, i + 7);
            if w > i + 7 && w < n && v[w] == '"' {
                let q = quote_end_x(v, w + 1);
                if q > w + 1 && q < n {
                    assert(version_capture_at(v@, i as int) == Some(
                        v@.subrange(w + 1, q as int),
                    ));
                    return Some((w + 1, q));
                }
            }
        }
        assert(version_capture_at(v@, i as int) is None);
        i = i + 1;
    }
    None
}

/// Interprets the outcome of probing a candidate Java executable with a
/// version request: `exit_success` reports whether the process exited
/// cleanly, `stderr_output` is what it wrote to its diagnostic stream
/// (where Java runtimes report their version). Fails with
/// [`ProvisionError::ProcessExitError`] on an unclean exit and with
/// [`ProvisionError::VersionUnparseable`] when no version can be read.
pub fn check_jre_impl(java_path: &str, exit_success: bool, stderr_output: &str) -> (r: Result<
    JavaRuntimeVersion,
    ProvisionError,
>)
    ensures
        !exit_success ==> (r matches Err(e) && e == ProvisionError::ProcessExitError),
        exit_success && version_token(stderr_output@) is None ==> (r matches Err(e) && e
            == ProvisionError::VersionUnparseable),
        exit_success && version_token(stderr_output@) is Some && major_version_of(
            version_token(stderr_output@).unwrap(),
        ) is None ==> (r matches Err(e) && e == ProvisionError::VersionUnparseable),
        exit_success && version_token(stderr_output@) is Some && major_version_of(
            version_token(stderr_output@).unwrap(),
        ) is Some ==> (r matches Ok(jv) && {
            &&& jv.version@ == version_token(stderr_output@).unwrap()
            &&& jv.path@ == java_path@
            &&& Some(jv.major_version as int) == major_version_of(
                version_token(stderr_output@).unwrap(),
            )
        }),
{
    if !exit_success {
        return Err(ProvisionError::ProcessExitError);
    }
    let chars = str_to_chars(stderr_output);
    match find_version_capture(&chars) {
        None => Err(ProvisionError::VersionUnparseable),
        Some((from, to)) => {
            let mut token: Vec<char> = Vec::new();
            let mut k = from;
            while k < to
                invariant
                    from <= k <= to <= chars@.len(),
                    token@ == chars@.subrange(from as int, k as int),
                decreases to - k,
            {
                token.push(chars[k]);
                k = k + 1;
                assert(token@ =~= chars@.subrange(from as int, k as int));
            }
            let version = chars_to_string(&token);
            match extract_java_version(version.as_str()) {
                Err(_) => Err(ProvisionError::VersionUnparseable),
                Ok(major) => Ok(
                    JavaRuntimeVersion {
                        version,
                        path: java_path.to_owned(),
                        major_version: major,
                    },
                ),
            }
        },
    }
}

/// Whether probing succeeded at all; the reading itself when it did. Probe
/// failures are an expected outcome when scanning candidate paths, so they
/// are reported as `None`, never propagated.
pub fn check_jre(java_path: &str, exit_success: bool, stderr_output: &str) -> (r: Option<
    JavaRuntimeVersion,
>)
    ensures
        r is Some <==> (exit_success && version_token(stderr_output@) is Some
            && major_version_of(version_token(stderr_output@).unwrap()) is Some),
        r matches Some(jv) ==> ({
            &&& jv.version@ == version_token(stderr_output@).unwrap()
            &&& jv.path@ == java_path@
            &&& Some(jv.major_version as int) == major_version_of(
                version_token(stderr_output@).unwrap(),
            )
        }),
{
    match check_jre_impl(java_path, exit_success, stderr_output) {
        Ok(jv) => Some(jv),
        Err(_) => None,
    }
}

/// Whether the probed runtime reports exactly the expected major version;
/// `false` on any probe failure.
pub fn test_jre(
    java_path: &str,
    exit_success: bool,
    stderr_output: &str,
    expected_major_version: i32,
) -> (r: bool)
    ensures
        r <==> (exit_success && version_token(stderr_output@) is Some && major_version_of(
            version_token(stderr_output@).unwrap(),
        ) == Some(expected_major_version as int)),
{
    match check_jre(java_path, exit_success, stderr_output) {
        Some(jv) => jv.major_version == expected_major_version,
        None => false,
    }
}

} // verus!
