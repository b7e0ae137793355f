//! Character-level helpers shared by the scanner, the compiler and the
//! expression parser.
use vstd::prelude::*;

use crate::fixed::fp_add;

verus! {

/// The characters of a string slice, in order.
pub fn chars_of(s: &str) -> (v: Vec<char>)
    ensures
        v@ == s@,
{
    let n: usize = s.unicode_len();
    let mut v: Vec<char> = Vec::new();
    let mut i: usize = 0;
    while i < n
        invariant
            i <= n,
            n == s@.len(),
            v@ == s@.subrange(0, i as int),
        decreases n - i,
    {
        v.push(s.get_char(i));
        i += 1;
        proof {
            assert(v@ =~= s@.subrange(0, i as int));
        }
    }
    proof {
        assert(v@ =~= s@);
    }
    v
}

/// Whether two character vectors hold the same sequence.
pub fn chars_match(a: &Vec<char>, b: &Vec<char>) -> (r: bool)
    ensures
        r == (a@ == b@),
{
    if a.len() != b.len() {
        proof {
            assert(a@ != b@);
        }
        return false;
    }
    let n: usize = a.len();
    let mut i: usize = 0;
    while i < n
        invariant
            i <= n,
            n == a@.len() == b@.len(),
            forall|j: int| 0 <= j < i ==> a@[j] == b@[j],
        decreases n - i,
    {
        if a[i] != b[i] {
            proof {
                assert(a@ != b@);
            }
            return false;
        }
        i += 1;
    }
    proof {
        assert(a@ =~= b@);
    }
    true
}

/// Whether a character vector holds exactly the characters of a pattern.
pub fn chars_match_str(v: &Vec<char>, pat: &str) -> (r: bool)
    ensures
        r == (v@ == pat@),
{
    let p = chars_of(pat);
    chars_match(v, &p)
}

/// Relies on std's `String::push`: appends exactly one character.
#[verifier::external_body]
pub fn push_char(s: &mut String, c: char) -> (r: ())
    ensures
        final(s)@ == old(s)@.push(c),
{
    s.push(c);
}

/// A `String` holding exactly the given characters.
pub fn string_of(v: &Vec<char>) -> (r: String)
    ensures
        r@ == v@,
{
    let mut s = String::new();
    let n: usize = v.len();
    let mut i: usize = 0;
    while i < n
        invariant
            i <= n,
            n == v@.len(),
            s@ == v@.subrange(0, i as int),
        decreases n - i,
    {
        push_char(&mut s, v[i]);
        i += 1;
        proof {
            assert(s@ =~= v@.subrange(0, i as int));
        }
    }
    proof {
        assert(s@ =~= v@);
    }
    s
}

/// A `String` holding the characters `v[a..b]`.
pub fn substring_chars(v: &Vec<char>, a: usize, b: usize) -> (r: String)
    requires
        a <= b <= v@.len(),
    ensures
        r@ == v@.subrange(a as int, b as int),
{
    let mut s = String::new();
    let mut i: usize = a;
    proof {
        assert(s@ =~= v@.subrange(a as int, a as int));
    }
    while i < b
        invariant
            a <= i <= b <= v@.len(),
            s@ == v@.subrange(a as int, i as int),
        decreases b - i,
    {
        push_char(&mut s, v[i]);
        i += 1;
        proof {
            assert(s@ =~= v@.subrange(a as int, i as int));
        }
    }
    s
}

/// Whether `c` is a decimal digit.
pub open spec fn spec_is_digit(c: char) -> bool {
    48 <= c as u32 <= 57
}

pub fn is_digit(c: char) -> (r: bool)
    ensures
        r == spec_is_digit(c),
{
    let u = c as u32;
    48 <= u && u <= 57
}

/// Whether `c` may start or continue an identifier.
pub open spec fn spec_is_ident_char(c: char) -> bool {
    (97 <= c as u32 <= 122) || (65 <= c as u32 <= 90) || c == '_' || spec_is_digit(c)
}

pub fn is_ident_char(c: char) -> (r: bool)
    ensures
        r == spec_is_ident_char(c),
{
    let u = c as u32;
    (97 <= u && u <= 122) || (65 <= u && u <= 90) || c == '_' || is_digit(c)
}

/// Numeric value of a decimal digit.
pub open spec fn spec_digit_value(c: char) -> int {
    c as u32 - 48
}

pub fn digit_value(c: char) -> (r: u32)
    requires
        spec_is_digit(c),
    ensures
        r == spec_digit_value(c),
        r <= 9,
{
    (c as u32) - 48
}

/// The character's code with an upper-case letter folded to lower case.
pub open spec fn spec_lower_u32(c: char) -> int {
    if 65 <= c as u32 <= 90 {
        c as u32 + 32
    } else {
        c as u32 as int
    }
}

/// Whether a character vector matches a pattern regardless of letter case.
pub fn chars_match_str_ci(v: &Vec<char>, pat: &str) -> (r: bool)
    ensures
        r == (v@.len() == pat@.len() && (forall|i: int|
            0 <= i < v@.len() ==> spec_lower_u32(v@[i]) == spec_lower_u32(pat@[i]))),
{
    let p = chars_of(pat);
    if v.len() != p.len() {
        return false;
    }
    let n: usize = v.len();
    let mut i: usize = 0;
    while i < n
        invariant
            i <= n,
            n == v@.len() == p@.len(),
            p@ == pat@,
            forall|j: int| 0 <= j < i ==> spec_lower_u32(v@[j]) == spec_lower_u32(p@[j]),
        decreases n - i,
    {
        let a: u32 = lower_u32(v[i]);
        let b: u32 = lower_u32(p[i]);
        if a != b {
            return false;
        }
        i += 1;
    }
    true
}

fn lower_u32(c: char) -> (r: u32)
    ensures
        r == spec_lower_u32(c),
{
    let u: u32 = c as u32;
    if 65 <= u && u <= 90 {
        u + 32
    } else {
        u
    }
}

/// Value of a hexadecimal digit, or -1 for any other character.
pub open spec fn spec_hex_digit_val(c: char) -> int {
    let u = c as u32;
    if 48 <= u <= 57 {
        u - 48
    } else if 97 <= u <= 102 {
        u - 87
    } else if 65 <= u <= 70 {
        u - 55
    } else {
        -1
    }
}

pub fn hex_digit_val(c: char) -> (r: i32)
    ensures
        r == spec_hex_digit_val(c),
        -1 <= r <= 15,
{
    let u: u32 = c as u32;
    if 48 <= u && u <= 57 {
        (u - 48) as i32
    } else if 97 <= u && u <= 102 {
        (u - 87) as i32
    } else if 65 <= u && u <= 70 {
        (u - 55) as i32
    } else {
        -1
    }
}

/// Left fold of decimal digits into a whole-unit fixed-point value, with
/// saturation: `acc' = sat(acc·10 + digit·FP_SCALE)`.
pub open spec fn spec_digits_value(s: Seq<char>, acc: int) -> int
    decreases s.len(),
{
    if s.len() == 0 {
        acc
    } else {
        spec_digits_value(
            s.drop_first(),
            crate::fixed::sat_i64(
                crate::fixed::sat_i64(acc * 10) + spec_digit_value(s[0]) * crate::fixed::FP_SCALE as int,
            ),
        )
    }
}

/// Fractional digits weighted by decreasing place value, six places deep.
pub open spec fn spec_frac_value(s: Seq<char>, place: int) -> int
    decreases s.len(),
{
    if s.len() == 0 || place == 0 {
        0
    } else {
        spec_digit_value(s[0]) * place + spec_frac_value(s.drop_first(), place / 10)
    }
}

/// Splitting a digit run splits the fold through its accumulator.
pub proof fn lemma_digits_value_concat(a: Seq<char>, b: Seq<char>, acc: int)
    ensures
        spec_digits_value(a + b, acc) == spec_digits_value(b, spec_digits_value(a, acc)),
    decreases a.len(),
{
    if a.len() == 0 {
        assert(a + b =~= b);
    } else {
        let acc2 = crate::fixed::sat_i64(
            crate::fixed::sat_i64(acc * 10) + spec_digit_value(a[0]) * crate::fixed::FP_SCALE as int,
        );
        assert((a + b).drop_first() =~= a.drop_first() + b);
        lemma_digits_value_concat(a.drop_first(), b, acc2);
    }
}

/// The place value left after consuming a prefix of fraction digits.
pub open spec fn spec_place_after(s: Seq<char>, place: int) -> int
    decreases s.len(),
{
    if s.len() == 0 {
        place
    } else {
        spec_place_after(s.drop_first(), place / 10)
    }
}

/// Splitting a fraction-digit run splits its weighted sum.
pub proof fn lemma_frac_value_concat(a: Seq<char>, b: Seq<char>, place: int)
    requires
        place >= 0,
    ensures
        spec_frac_value(a + b, place) == spec_frac_value(a, place) + spec_frac_value(
            b,
            spec_place_after(a, place),
        ),
    decreases a.len(),
{
    if a.len() == 0 {
        assert(a + b =~= b);
    } else {
        assert((a + b).drop_first() =~= a.drop_first() + b);
        lemma_frac_value_concat(a.drop_first(), b, place / 10);
        if place == 0 {
            lemma_place_after_zero(a);
            lemma_place_after_zero(a.drop_first());
        }
    }
}

/// With no place value left, no further place value arises.
pub proof fn lemma_place_after_zero(s: Seq<char>)
    ensures
        spec_place_after(s, 0) == 0,
    decreases s.len(),
{
    if s.len() > 0 {
        lemma_place_after_zero(s.drop_first());
    }
}

/// The fixed-point value of a decimal literal `digits[.digits]`.
pub open spec fn spec_decimal_value(s: Seq<char>) -> int {
    if exists|k: int| 0 <= k < s.len() && s[k] == '.' {
        let k = choose|k: int| 0 <= k < s.len() && s[k] == '.';
        crate::fixed::sat_i64(
            spec_digits_value(s.subrange(0, k), 0) + spec_frac_value(
                s.subrange(k + 1, s.len() as int),
                100_000,
            ),
        )
    } else {
        spec_digits_value(s, 0)
    }
}

/// The first position at or after `pos` whose character fails the
/// predicate (or the end of the sequence).
pub open spec fn spec_scan(s: Seq<char>, pos: int, pred: spec_fn(char) -> bool) -> int
    decreases s.len() - pos,
{
    if 0 <= pos < s.len() && pred(s[pos]) {
        spec_scan(s, pos + 1, pred)
    } else {
        pos
    }
}

/// A run of matching characters followed by the end or a mismatch is
/// exactly what `spec_scan` finds.
pub proof fn lemma_scan_characterize(s: Seq<char>, pos: int, end: int, pred: spec_fn(char) -> bool)
    requires
        0 <= pos <= end <= s.len(),
        forall|j: int| pos <= j < end ==> pred(s[j]),
        end == s.len() || !pred(s[end]),
    ensures
        end == spec_scan(s, pos, pred),
    decreases end - pos,
{
    if pos < end {
        lemma_scan_characterize(s, pos + 1, end, pred);
    }
}

/// The scan never moves backwards and stays in the sequence.
pub proof fn lemma_scan_bounds(s: Seq<char>, pos: int, pred: spec_fn(char) -> bool)
    requires
        0 <= pos <= s.len(),
    ensures
        pos <= spec_scan(s, pos, pred) <= s.len(),
    decreases s.len() - pos,
{
    if 0 <= pos < s.len() && pred(s[pos]) {
        lemma_scan_bounds(s, pos + 1, pred);
    }
}

/// The end of the digit run starting at `pos`.
pub open spec fn spec_digits_end(s: Seq<char>, pos: int) -> int {
    spec_scan(s, pos, |c: char| spec_is_digit(c))
}

/// The end of the decimal literal starting at `pos`: the integer digits,
/// then a fraction when a dot follows them.
pub open spec fn spec_decimal_end(s: Seq<char>, pos: int) -> int {
    let ie = spec_digits_end(s, pos);
    if ie < s.len() && s[ie] == '.' {
        spec_digits_end(s, ie + 1)
    } else {
        ie
    }
}

/// Whether the whole sequence is one decimal literal `digits[.digits]`.
pub open spec fn spec_is_decimal(s: Seq<char>) -> bool {
    s.len() > 0 && spec_is_digit(s[0]) && spec_decimal_end(s, 0) == s.len()
}

/// Parse a decimal literal `digits[.digits]` starting at `pos`, returning its
/// fixed-point value and the position one past its last character.
pub fn parse_decimal_prefix(v: &Vec<char>, pos: usize) -> (r: Option<(i64, usize)>)
    requires
        pos <= v@.len(),
    ensures
        (r is Some) == (pos < v@.len() && spec_is_digit(v@[pos as int])),
        match r {
            Some(p) => pos < p.1 <= v@.len() && spec_is_digit(v@[pos as int]) && p.1
                == spec_decimal_end(v@, pos as int) && p.0 == spec_decimal_value(
                v@.subrange(pos as int, p.1 as int),
            ),
            None => pos == v@.len() || !spec_is_digit(v@[pos as int]),
        },
{
    let n: usize = v.len();
    if pos == n || !is_digit(v[pos]) {
        return None;
    }
    let mut i: usize = pos;
    let mut acc: i64 = 0;
    proof {
        assert(v@.subrange(pos as int, pos as int) =~= Seq::<char>::empty());
    }
    while i < n && is_digit(v[i])
        invariant
            pos <= i <= n <= v@.len(),
            n == v@.len(),
            acc >= 0,
            acc == spec_digits_value(v@.subrange(pos as int, i as int), 0),
            forall|j: int| pos <= j < i ==> spec_is_digit(v@[j]),
        decreases n - i,
    {
        let d: u32 = digit_value(v[i]);
        let acc10: i64 = match acc.checked_mul(10) {
            Some(x) => x,
            None => i64::MAX,
        };
        let next: i64 = fp_add_digit(acc10, d);
        proof {
            reveal_with_fuel(spec_digits_value, 3);
            let prefix = v@.subrange(pos as int, i as int);
            let one = seq![v@[i as int]];
            assert(v@.subrange(pos as int, i as int + 1) =~= prefix + one);
            lemma_digits_value_concat(prefix, one, 0);
            assert(one.drop_first() =~= Seq::<char>::empty());
        }
        acc = next;
        i += 1;
    }
    if i < n && v[i] == '.' {
        let dot: usize = i;
        let fstart: usize = i + 1;
        let mut j: usize = fstart;
        let mut facc: u64 = 0;
        let mut place: u64 = 100_000;
        proof {
            assert(v@.subrange(fstart as int, fstart as int) =~= Seq::<char>::empty());
        }
        while j < n && is_digit(v[j])
            invariant
                fstart <= j <= n <= v@.len(),
                n == v@.len(),
                place == 100_000 || place == 10_000 || place == 1_000 || place == 100 || place
                    == 10 || place == 1 || place == 0,
                place >= 1 ==> facc + 10 * place <= 1_000_000,
                place == 0 ==> facc <= 999_999,
                facc == spec_frac_value(v@.subrange(fstart as int, j as int), 100_000),
                place == spec_place_after(v@.subrange(fstart as int, j as int), 100_000),
                forall|k: int| fstart <= k < j ==> spec_is_digit(v@[k]),
            decreases n - j,
        {
            let d: u32 = digit_value(v[j]);
            proof {
                reveal_with_fuel(spec_frac_value, 3);
                reveal_with_fuel(spec_place_after, 3);
                let prefix = v@.subrange(fstart as int, j as int);
                let one = seq![v@[j as int]];
                assert(v@.subrange(fstart as int, j as int + 1) =~= prefix + one);
                lemma_frac_value_concat(prefix, one, 100_000);
                lemma_place_concat(prefix, one, 100_000);
                assert(one.drop_first() =~= Seq::<char>::empty());
                assert((d as u64) * place <= 9 * place && (d as u64) * place <= 900_000) by (
                nonlinear_arith)
                    requires d <= 9 && place <= 100_000;
                assert(place == 0 ==> (d as u64) * place == 0) by (nonlinear_arith);
                assert((d as u64) * place == spec_digit_value(v@[j as int]) * place);
            }
            facc = facc + (d as u64) * place;
            place = place / 10;
            j += 1;
        }
        let val: i64 = fp_add(acc, facc as i64);
        proof {
            lemma_scan_characterize(v@, pos as int, i as int, |c: char| spec_is_digit(c));
            lemma_scan_characterize(v@, fstart as int, j as int, |c: char| spec_is_digit(c));
            let s = v@.subrange(pos as int, j as int);
            let kd: int = dot as int - pos as int;
            assert(s[kd] == '.');
            assert(forall|k: int|
                0 <= k < s.len() && k != kd ==> s[k] != '.' && spec_is_digit(s[k]));
            assert(exists|k: int| 0 <= k < s.len() && s[k] == '.');
            let kc = choose|k: int| 0 <= k < s.len() && s[k] == '.';
            assert(kc == kd);
            assert(s.subrange(0, kd) =~= v@.subrange(pos as int, dot as int));
            assert(s.subrange(kd + 1, s.len() as int) =~= v@.subrange(fstart as int, j as int));
        }
        Some((val, j))
    } else {
        proof {
            lemma_scan_characterize(v@, pos as int, i as int, |c: char| spec_is_digit(c));
            let s = v@.subrange(pos as int, i as int);
            assert(forall|k: int| 0 <= k < s.len() ==> spec_is_digit(s[k]) && s[k] != '.');
        }
        Some((acc, i))
    }
}

/// `sat(acc + d·FP_SCALE)` for a single digit.
fn fp_add_digit(acc: i64, d: u32) -> (r: i64)
    requires
        d <= 9,
    ensures
        r == crate::fixed::sat_i64(acc + (d as int) * crate::fixed::FP_SCALE as int),
{
    fp_add(acc, (d as i64) * crate::fixed::FP_SCALE)
}

/// Splitting a fraction-digit run splits the place-value fold.
pub proof fn lemma_place_concat(a: Seq<char>, b: Seq<char>, place: int)
    ensures
        spec_place_after(a + b, place) == spec_place_after(b, spec_place_after(a, place)),
    decreases a.len(),
{
    if a.len() == 0 {
        assert(a + b =~= b);
    } else {
        assert((a + b).drop_first() =~= a.drop_first() + b);
        lemma_place_concat(a.drop_first(), b, place / 10);
    }
}

} // verus!
