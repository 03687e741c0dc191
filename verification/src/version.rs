//! The ordering of version tokens.
//!
//! A token is either `master` or a dotted list of components. Each component
//! counts as the number it spells (an optional `+`, then decimal digits,
//! however many), and as 0 when it spells none. `master` is greater than
//! every other token. Two other tokens are ordered by their first differing
//! component, the larger number sorting first; when one token runs out of
//! components, the shorter one is the greater.

use crate::text::{chars_of, same_chars};
use std::cmp::Ordering;
use vstd::prelude::*;

verus! {

/// The token of the development build.
pub open spec fn master_token() -> Seq<char> {
    "master"@
}

/// Whether a character is a decimal digit.
pub open spec fn is_digit(c: char) -> bool {
    '0' <= c && c <= '9'
}

/// The number that a decimal digit stands for.
pub open spec fn digit_value(c: char) -> nat {
    (c as u32 - '0' as u32) as nat
}

/// Whether a text is made of decimal digits only.
pub open spec fn all_digits(s: Seq<char>) -> bool {
    forall|i: int| 0 <= i < s.len() ==> is_digit(#[trigger] s[i])
}

/// The number that a run of decimal digits spells.
pub open spec fn decimal(s: Seq<char>) -> nat
    decreases s.len(),
{
    if s.len() == 0 {
        0
    } else {
        decimal(s.drop_last()) * 10 + digit_value(s.last())
    }
}

/// Ten to the power of `n`.
pub open spec fn pow10(n: nat) -> nat
    decreases n,
{
    if n == 0 {
        1
    } else {
        10 * pow10((n - 1) as nat)
    }
}

/// A component without its optional leading `+`.
pub open spec fn unsigned_part(s: Seq<char>) -> Seq<char> {
    if s.len() > 0 && s[0] == '+' {
        s.skip(1)
    } else {
        s
    }
}

/// The number a component counts as: what it spells, or 0.
pub open spec fn component_value(s: Seq<char>) -> nat {
    let d = unsigned_part(s);
    if d.len() > 0 && all_digits(d) {
        decimal(d)
    } else {
        0
    }
}

/// The position of the first `.` in `s`, or the length of `s` if it has none.
pub open spec fn first_dot(s: Seq<char>) -> int
    decreases s.len(),
{
    if s.len() == 0 || s[0] == '.' {
        0
    } else {
        1 + first_dot(s.drop_first())
    }
}

/// The numbers of the components of a token, in order. Never empty.
pub open spec fn version_key(s: Seq<char>) -> Seq<nat>
    decreases s.len(),
{
    let d = first_dot(s);
    if 0 <= d < s.len() {
        seq![component_value(s.take(d))] + version_key(s.skip(d + 1))
    } else {
        seq![component_value(s)]
    }
}

/// The order of two component lists: -1, 0 or 1 as the first is less than,
/// equal to or greater than the second.
pub open spec fn compare_keys(a: Seq<nat>, b: Seq<nat>) -> int
    decreases a.len(),
{
    if a.len() == 0 && b.len() == 0 {
        0
    } else if a.len() == 0 {
        1
    } else if b.len() == 0 {
        -1
    } else if a[0] != b[0] {
        if b[0] < a[0] {
            -1
        } else {
            1
        }
    } else {
        compare_keys(a.drop_first(), b.drop_first())
    }
}

/// The order of two version tokens: -1, 0 or 1.
pub open spec fn compare_sign(a: Seq<char>, b: Seq<char>) -> int {
    if a == master_token() && b == master_token() {
        0
    } else if a == master_token() {
        1
    } else if b == master_token() {
        -1
    } else {
        compare_keys(version_key(a), version_key(b))
    }
}

/// A position with no `.` before it, which holds a `.` or ends the text, is
/// the first dot.
pub proof fn lemma_first_dot_is(s: Seq<char>, d: int)
    requires
        0 <= d <= s.len(),
        forall|k: int| 0 <= k < d ==> s[k] != '.',
        d < s.len() ==> s[d] == '.',
    ensures
        first_dot(s) == d,
    decreases s.len(),
{
    if s.len() > 0 && s[0] != '.' {
        lemma_first_dot_is(s.drop_first(), d - 1);
    }
}

/// Every token has at least one component.
pub proof fn lemma_version_key_nonempty(s: Seq<char>)
    ensures
        version_key(s).len() >= 1,
    decreases s.len(),
{
    let d = first_dot(s);
    if 0 <= d < s.len() {
        lemma_version_key_nonempty(s.skip(d + 1));
    }
}

/// A component made of digits, with or without a `+` in front, counts as the
/// number that the digits spell, however large it is.
pub proof fn lemma_component_counts_in_full(s: Seq<char>)
    requires
        unsigned_part(s).len() > 0,
        all_digits(unsigned_part(s)),
    ensures
        component_value(s) == decimal(unsigned_part(s)),
{
}

/// A run of digits with one more digit spells ten times its number and the
/// digit.
proof fn lemma_decimal_push(s: Seq<char>, c: char)
    ensures
        decimal(s.push(c)) == decimal(s) * 10 + digit_value(c),
        all_digits(s.push(c)) <==> all_digits(s) && is_digit(c),
{
    let t = s.push(c);
    assert(t.drop_last() =~= s);
    if all_digits(t) {
        assert(is_digit(t[s.len() as int]));
        assert forall|i: int| 0 <= i < s.len() implies is_digit(#[trigger] s[i]) by {
            assert(t[i] == s[i]);
        }
    }
}

/// A zero in front of a run of digits does not change its number.
proof fn lemma_leading_zero(s: Seq<char>)
    requires
        s.len() > 0,
        s[0] == '0',
    ensures
        decimal(s) == decimal(s.drop_first()),
    decreases s.len(),
{
    if s.len() > 1 {
        lemma_leading_zero(s.drop_last());
        assert(s.drop_last().drop_first() =~= s.drop_first().drop_last());
    } else {
        assert(decimal(s.drop_last()) == 0);
    }
}

/// A run of `n` digits spells a number below ten to the `n`, and, if it does
/// not start with a zero, one of at least ten to the `n - 1`.
proof fn lemma_decimal_bounds(s: Seq<char>)
    requires
        all_digits(s),
    ensures
        decimal(s) < pow10(s.len()),
        s.len() > 0 && s[0] != '0' ==> pow10((s.len() - 1) as nat) <= decimal(s),
    decreases s.len(),
{
    if s.len() > 0 {
        let init = s.drop_last();
        assert forall|i: int| 0 <= i < init.len() implies is_digit(#[trigger] init[i]) by {
            assert(init[i] == s[i]);
        }
        lemma_decimal_bounds(init);
        assert(is_digit(s[s.len() - 1]));
        if s.len() > 1 {
            assert(init[0] == s[0]);
        } else {
            assert(is_digit(s[0]));
        }
    }
}

/// Ten to a larger power is a larger number.
proof fn lemma_pow10_grows(m: nat, n: nat)
    requires
        m <= n,
    ensures
        1 <= pow10(m) <= pow10(n),
    decreases n,
{
    if m < n {
        lemma_pow10_grows(m, (n - 1) as nat);
    } else if n > 0 {
        lemma_pow10_grows((m - 1) as nat, (n - 1) as nat);
    }
}

/// Whether `s` holds, from `from` up to `to`, a run of digits that does not
/// start with a zero.
pub open spec fn plain_digits(s: Seq<char>, from: int, to: int) -> bool {
    &&& 0 <= from <= to <= s.len()
    &&& all_digits(s.subrange(from, to))
    &&& from < to ==> s[from] != '0'
}

/// Reads the component of `s` that starts at `start`. Gives where the number
/// it counts as is spelt, as a run of digits without zeros in front (an
/// empty run for 0), and the position of the `.` that ends the component (or
/// the length of `s`).
fn read_component(s: &Vec<char>, start: usize) -> (r: (usize, usize, usize))
    requires
        start <= s.len(),
    ensures
        r.2 == start + first_dot(s@.skip(start as int)),
        start <= r.0 <= r.1 <= r.2 <= s.len(),
        plain_digits(s@, r.0 as int, r.1 as int),
        decimal(s@.subrange(r.0 as int, r.1 as int)) == component_value(
            s@.subrange(start as int, r.2 as int),
        ),
{
    let len = s.len();
    let mut j: usize = start;
    if j < len && s[j] == '+' {
        j += 1;
    }
    let digits_start: usize = j;
    let mut valid: bool = true;
    while j < len && s[j] != '.'
        invariant
            len == s.len(),
            start <= digits_start <= j <= len,
            digits_start <= start + 1,
            digits_start == start + 1 ==> s@[start as int] == '+',
            digits_start == start ==> start == len || s@[start as int] != '+',
            forall|k: int| start <= k < j ==> s@[k] != '.',
            valid == all_digits(s@.subrange(digits_start as int, j as int)),
        decreases len - j,
    {
        let c = s[j];
        proof {
            let sub = s@.subrange(digits_start as int, j as int);
            assert(s@.subrange(digits_start as int, j as int + 1) =~= sub.push(c));
            lemma_decimal_push(sub, c);
        }
        if !(c >= '0' && c <= '9') {
            valid = false;
        }
        j += 1;
    }
    let end = j;
    proof {
        lemma_first_dot_is(s@.skip(start as int), end - start);
        let comp = s@.subrange(start as int, end as int);
        assert(unsigned_part(comp) =~= s@.subrange(digits_start as int, end as int));
    }
    if !valid || end == digits_start {
        assert(s@.subrange(end as int, end as int) =~= Seq::<char>::empty());
        return (end, end, end);
    }
    let mut from: usize = digits_start;
    while from < end && s[from] == '0'
        invariant
            digits_start <= from <= end <= s.len(),
            all_digits(s@.subrange(from as int, end as int)),
            decimal(s@.subrange(from as int, end as int)) == decimal(
                s@.subrange(digits_start as int, end as int),
            ),
        decreases end - from,
    {
        proof {
            let run = s@.subrange(from as int, end as int);
            assert(run.drop_first() =~= s@.subrange(from + 1, end as int));
            lemma_leading_zero(run);
            assert forall|i: int| 0 <= i < run.drop_first().len() implies is_digit(
                #[trigger] run.drop_first()[i],
            ) by {
                assert(run.drop_first()[i] == run[i + 1]);
            }
        }
        from += 1;
    }
    (from, end, end)
}

/// Compares the numbers that two runs of digits spell: -1, 0 or 1 as the
/// first is less than, equal to or greater than the second.
fn compare_runs(a: &Vec<char>, a_from: usize, a_to: usize, b: &Vec<char>, b_from: usize, b_to: usize) -> (r:
    i8)
    requires
        plain_digits(a@, a_from as int, a_to as int),
        plain_digits(b@, b_from as int, b_to as int),
    ensures
        r == -1 <==> decimal(a@.subrange(a_from as int, a_to as int)) < decimal(
            b@.subrange(b_from as int, b_to as int),
        ),
        r == 0 <==> decimal(a@.subrange(a_from as int, a_to as int)) == decimal(
            b@.subrange(b_from as int, b_to as int),
        ),
        r == 1 <==> decimal(a@.subrange(a_from as int, a_to as int)) > decimal(
            b@.subrange(b_from as int, b_to as int),
        ),
{
    let a_len = a_to - a_from;
    let b_len = b_to - b_from;
    let ghost a_run = a@.subrange(a_from as int, a_to as int);
    let ghost b_run = b@.subrange(b_from as int, b_to as int);
    if a_len != b_len {
        proof {
            // the longer run spells the larger number
            lemma_decimal_bounds(a_run);
            lemma_decimal_bounds(b_run);
            if a_len < b_len {
                lemma_pow10_grows(a_len as nat, (b_len - 1) as nat);
            } else {
                lemma_pow10_grows(b_len as nat, (a_len - 1) as nat);
            }
        }
        return if a_len < b_len {
            -1
        } else {
            1
        };
    }
    let mut sign: i8 = 0;
    let mut k: usize = 0;
    assert(a_run.take(0) =~= Seq::<char>::empty() && b_run.take(0) =~= Seq::<char>::empty());
    while k < a_len
        invariant
            k <= a_len,
            a_len == b_len,
            a_len == a_to - a_from,
            b_len == b_to - b_from,
            a_to <= a.len(),
            b_to <= b.len(),
            a_run == a@.subrange(a_from as int, a_to as int),
            b_run == b@.subrange(b_from as int, b_to as int),
            all_digits(a_run),
            all_digits(b_run),
            -1 <= sign <= 1,
            sign == -1 <==> decimal(a_run.take(k as int)) < decimal(b_run.take(k as int)),
            sign == 0 <==> decimal(a_run.take(k as int)) == decimal(b_run.take(k as int)),
        decreases a_len - k,
    {
        let x = a[a_from + k];
        let y = b[b_from + k];
        proof {
            assert(a_run.take(k + 1) =~= a_run.take(k as int).push(x));
            assert(b_run.take(k + 1) =~= b_run.take(k as int).push(y));
            lemma_decimal_push(a_run.take(k as int), x);
            lemma_decimal_push(b_run.take(k as int), y);
            assert(is_digit(a_run[k as int]) && is_digit(b_run[k as int]));
        }
        if sign == 0 {
            if x < y {
                sign = -1;
            } else if x > y {
                sign = 1;
            }
        }
        k += 1;
    }
    assert(a_run.take(a_len as int) =~= a_run && b_run.take(b_len as int) =~= b_run);
    sign
}

/// One step of the key of the rest of a token.
proof fn lemma_version_key_step(s: Seq<char>, start: int, end: int)
    requires
        0 <= start <= end <= s.len(),
        end == start + first_dot(s.skip(start)),
    ensures
        end < s.len() ==> version_key(s.skip(start)) == seq![
            component_value(s.subrange(start, end)),
        ] + version_key(s.skip(end + 1)),
        end == s.len() ==> version_key(s.skip(start)) == seq![
            component_value(s.subrange(start, end)),
        ],
{
    let rest = s.skip(start);
    let d = first_dot(rest);
    assert(rest.take(d) =~= s.subrange(start, end));
    if end < s.len() {
        assert(rest.skip(d + 1) =~= s.skip(end + 1));
    }
}

/// The order of two tokens given as characters: -1, 0 or 1.
pub fn order_sign(a: &Vec<char>, b: &Vec<char>) -> (r: i8)
    ensures
        r == compare_sign(a@, b@),
        -1 <= r <= 1,
{
    let master = chars_of("master");
    let a_is_master = same_chars(a, &master);
    let b_is_master = same_chars(b, &master);
    if a_is_master && b_is_master {
        return 0;
    }
    if a_is_master {
        return 1;
    }
    if b_is_master {
        return -1;
    }
    let mut pa: usize = 0;
    let mut pb: usize = 0;
    assert(a@.skip(0) =~= a@ && b@.skip(0) =~= b@);
    loop
        invariant
            pa <= a.len(),
            pb <= b.len(),
            compare_sign(a@, b@) == compare_keys(
                version_key(a@.skip(pa as int)),
                version_key(b@.skip(pb as int)),
            ),
        decreases a.len() - pa,
    {
        let (a_from, a_to, ea) = read_component(a, pa);
        let (b_from, b_to, eb) = read_component(b, pb);
        let numbers = compare_runs(a, a_from, a_to, b, b_from, b_to);
        proof {
            reveal_with_fuel(compare_keys, 3);
            lemma_version_key_step(a@, pa as int, ea as int);
            lemma_version_key_step(b@, pb as int, eb as int);
            let ka = version_key(a@.skip(pa as int));
            let kb = version_key(b@.skip(pb as int));
            if ea < a.len() {
                assert(ka.drop_first() =~= version_key(a@.skip(ea + 1)));
                lemma_version_key_nonempty(a@.skip(ea + 1));
            }
            if eb < b.len() {
                assert(kb.drop_first() =~= version_key(b@.skip(eb + 1)));
                lemma_version_key_nonempty(b@.skip(eb + 1));
            }
        }
        if numbers != 0 {
            // the larger number sorts first
            if numbers > 0 {
                return -1;
            } else {
                return 1;
            }
        }
        let a_more = ea < a.len();
        let b_more = eb < b.len();
        if !a_more && !b_more {
            return 0;
        }
        if !a_more {
            return 1;
        }
        if !b_more {
            return -1;
        }
        pa = ea + 1;
        pb = eb + 1;
    }
}

/// Compares two version tokens. `master` is greater than every other token;
/// other tokens are ordered by their first differing component, the larger
/// number first, and a token that runs out of components is the greater.
pub fn version_compare(a: &str, b: &str) -> (r: Ordering)
    ensures
        match r {
            Ordering::Less => compare_sign(a@, b@) == -1,
            Ordering::Equal => compare_sign(a@, b@) == 0,
            Ordering::Greater => compare_sign(a@, b@) == 1,
        },
{
    let av = chars_of(a);
    let bv = chars_of(b);
    let sign = order_sign(&av, &bv);
    if sign < 0 {
        Ordering::Less
    } else if sign > 0 {
        Ordering::Greater
    } else {
        Ordering::Equal
    }
}

proof fn lemma_compare_keys_antisymmetric(a: Seq<nat>, b: Seq<nat>)
    ensures
        compare_keys(a, b) == -compare_keys(b, a),
        -1 <= compare_keys(a, b) <= 1,
    decreases a.len(),
{
    if a.len() > 0 && b.len() > 0 && a[0] == b[0] {
        lemma_compare_keys_antisymmetric(a.drop_first(), b.drop_first());
    }
}

proof fn lemma_compare_keys_equal(a: Seq<nat>, b: Seq<nat>)
    ensures
        compare_keys(a, b) == 0 <==> a == b,
    decreases a.len(),
{
    if a.len() > 0 && b.len() > 0 && a[0] == b[0] {
        lemma_compare_keys_equal(a.drop_first(), b.drop_first());
        if a.drop_first() == b.drop_first() {
            assert(a =~= seq![a[0]] + a.drop_first());
            assert(b =~= seq![b[0]] + b.drop_first());
        }
    } else if a.len() == 0 && b.len() == 0 {
        assert(a =~= b);
    }
}

proof fn lemma_compare_keys_transitive(a: Seq<nat>, b: Seq<nat>, c: Seq<nat>)
    requires
        compare_keys(a, b) <= 0,
        compare_keys(b, c) <= 0,
    ensures
        compare_keys(a, c) <= 0,
        compare_keys(a, b) < 0 || compare_keys(b, c) < 0 ==> compare_keys(a, c) < 0,
    decreases a.len(),
{
    if a.len() > 0 && b.len() > 0 && c.len() > 0 && a[0] == b[0] && b[0] == c[0] {
        lemma_compare_keys_transitive(a.drop_first(), b.drop_first(), c.drop_first());
    }
}

/// Swapping the two tokens reverses their order, and a token is equal to
/// itself.
pub proof fn lemma_compare_antisymmetric(a: Seq<char>, b: Seq<char>)
    ensures
        compare_sign(a, b) == -compare_sign(b, a),
        -1 <= compare_sign(a, b) <= 1,
        compare_sign(a, a) == 0,
{
    lemma_compare_keys_antisymmetric(version_key(a), version_key(b));
    lemma_compare_keys_equal(version_key(a), version_key(a));
}

/// The order is transitive: if `a` is not after `b` and `b` is not after `c`,
/// then `a` is not after `c`, and strictly before it if either step is strict.
pub proof fn lemma_compare_transitive(a: Seq<char>, b: Seq<char>, c: Seq<char>)
    requires
        compare_sign(a, b) <= 0,
        compare_sign(b, c) <= 0,
    ensures
        compare_sign(a, c) <= 0,
        compare_sign(a, b) < 0 || compare_sign(b, c) < 0 ==> compare_sign(a, c) < 0,
{
    let m = master_token();
    lemma_compare_keys_equal(version_key(a), version_key(a));
    if a != m && b != m && c != m {
        lemma_compare_keys_transitive(version_key(a), version_key(b), version_key(c));
    }
}

/// `master` is greater than every other token.
pub proof fn lemma_master_is_greatest(other: Seq<char>)
    requires
        other != master_token(),
    ensures
        compare_sign(master_token(), other) == 1,
        compare_sign(other, master_token()) == -1,
{
}

/// Two tokens other than `master` are equal in the order exactly when their
/// components count as the same numbers.
pub proof fn lemma_compare_equal_keys(a: Seq<char>, b: Seq<char>)
    requires
        a != master_token(),
        b != master_token(),
    ensures
        compare_sign(a, b) == 0 <==> version_key(a) == version_key(b),
{
    lemma_compare_keys_equal(version_key(a), version_key(b));
}

/// Where two component lists differ, the first component in which they
/// differ decides, and the list with the larger number there is the lesser.
pub proof fn lemma_first_difference_decides(a: Seq<nat>, b: Seq<nat>, at: int)
    requires
        0 <= at < a.len(),
        at < b.len(),
        a[at] != b[at],
        forall|k: int| 0 <= k < at ==> a[k] == b[k],
    ensures
        compare_keys(a, b) == if b[at] < a[at] {
            -1int
        } else {
            1int
        },
    decreases at,
{
    if at > 0 {
        lemma_first_difference_decides(a.drop_first(), b.drop_first(), at - 1);
    }
}

/// Of two component lists that differ in no component, the one that runs
/// out of components first is the greater.
pub proof fn lemma_shorter_wins_ties(a: Seq<nat>, b: Seq<nat>)
    requires
        a.len() < b.len(),
        forall|k: int| 0 <= k < a.len() ==> a[k] == b[k],
    ensures
        compare_keys(a, b) == 1,
        compare_keys(b, a) == -1,
    decreases a.len(),
{
    if a.len() > 0 {
        lemma_shorter_wins_ties(a.drop_first(), b.drop_first());
    }
}

} // verus!
