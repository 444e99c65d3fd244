//! Checksum validators for structured identifiers: Luhn (mod 10) for payment
//! cards and Verhoeff for 12-digit Aadhaar numbers.

use vstd::prelude::*;
use crate::text::{chars_of, decimal_digits, ascii_digit_value};

verus! {

/// Contribution of one digit to the Luhn sum; every second digit from the right is doubled.
pub open spec fn luhn_term(d: int, doubled: bool) -> int {
    if doubled {
        if 2 * d > 9 { 2 * d - 9 } else { 2 * d }
    } else {
        d
    }
}

/// Luhn sum of `ds`, whose last digit is doubled exactly when `doubled` holds.
pub open spec fn luhn_sum(ds: Seq<int>, doubled: bool) -> int
    decreases ds.len(),
{
    if ds.len() == 0 {
        0
    } else {
        luhn_term(ds.last(), doubled) + luhn_sum(ds.drop_last(), !doubled)
    }
}

/// A card number passes the Luhn check: it has between 13 and 19 decimal digits
/// (other characters are ignored) and their Luhn sum is a multiple of 10.
pub open spec fn luhn_valid(s: Seq<char>) -> bool {
    let ds = decimal_digits(s);
    13 <= ds.len() <= 19 && luhn_sum(ds, false) % 10 == 0
}

proof fn lemma_luhn_sum_bounds(ds: Seq<int>, doubled: bool)
    requires
        forall|i: int| 0 <= i < ds.len() ==> 0 <= #[trigger] ds[i] <= 9,
    ensures
        0 <= luhn_sum(ds, doubled) <= 9 * ds.len(),
    decreases ds.len(),
{
    if ds.len() > 0 {
        lemma_luhn_sum_bounds(ds.drop_last(), !doubled);
    }
}

proof fn lemma_decimal_digits_push(s: Seq<char>, c: char)
    ensures
        decimal_digits(s.push(c)) == match ascii_digit_value(c) {
            Some(d) => decimal_digits(s).push(d),
            None => decimal_digits(s),
        },
{
    assert(s.push(c).drop_last() =~= s);
}

/// Collects the ASCII decimal digits of `s` as numbers.
fn digits_of(s: &str) -> (ds: Vec<u32>)
    ensures
        ds@.len() == decimal_digits(s@).len(),
        forall|i: int| 0 <= i < ds@.len() ==> ds@[i] as int == #[trigger] decimal_digits(s@)[i],
        forall|i: int| 0 <= i < ds@.len() ==> ds@[i] <= 9,
{
    let cs = chars_of(s);
    let mut ds: Vec<u32> = Vec::new();
    let mut i: usize = 0;
    while i < cs.len()
        invariant
            i <= cs@.len(),
            cs@ == s@,
            ds@.len() == decimal_digits(cs@.take(i as int)).len(),
            forall|k: int| 0 <= k < ds@.len() ==> ds@[k] as int == #[trigger] decimal_digits(cs@.take(i as int))[k],
            forall|k: int| 0 <= k < ds@.len() ==> ds@[k] <= 9,
        decreases cs@.len() - i,
    {
        let c = cs[i];
        proof {
            assert(cs@.take(i as int + 1) =~= cs@.take(i as int).push(c));
            lemma_decimal_digits_push(cs@.take(i as int), c);
        }
        if '0' <= c && c <= '9' {
            let d: u32 = (c as u32) - ('0' as u32);
            ds.push(d);
        }
        i = i + 1;
    }
    proof {
        assert(cs@.take(cs@.len() as int) =~= cs@);
    }
    ds
}

/// Validates a credit/debit payment card number using the Luhn checksum algorithm (mod 10).
pub fn validate_luhn(card_number: &str) -> (valid: bool)
    ensures
        valid == luhn_valid(card_number@),
{
    let digits = digits_of(card_number);
    let ghost ds = decimal_digits(card_number@);
    if digits.len() < 13 || digits.len() > 19 {
        return false;
    }
    let n = digits.len();
    let mut sum: u32 = 0;
    let mut double = false;
    let mut k: usize = 0;
    // Walk from the rightmost digit leftwards; after `k` steps `sum` holds the
    // Luhn sum of the last `k` digits.
    while k < n
        invariant
            n == digits@.len(),
            n <= 19,
            ds.len() == n,
            k <= n,
            forall|i: int| 0 <= i < n ==> digits@[i] as int == #[trigger] ds[i],
            forall|i: int| 0 <= i < n ==> ds[i] <= 9,
            double == (k % 2 == 1),
            sum as int == luhn_sum(ds.subrange(n - k, n as int), false),
            sum <= 9 * k,
        decreases n - k,
    {
        let digit = digits[n - 1 - k];
        let ghost tail = ds.subrange(n - k - 1, n as int);
        proof {
            assert(forall|i: int| 0 <= i < tail.len() ==> 0 <= #[trigger] tail[i] <= 9);
            lemma_luhn_sum_alternate(tail, false);
            assert(tail.drop_first() =~= ds.subrange(n - k, n as int));
            assert(tail[0] == ds[n - k - 1]);
        }
        if double {
            let doubled = digit * 2;
            sum = sum + if doubled > 9 { doubled - 9 } else { doubled };
        } else {
            sum = sum + digit;
        }
        double = !double;
        k = k + 1;
    }
    proof {
        assert(ds.subrange(0, n as int) =~= ds);
    }
    sum % 10 == 0
}

/// Adding a digit at the front of a digit string adds its term, doubled according
/// to the parity of the number of digits behind it.
proof fn lemma_luhn_sum_alternate(ds: Seq<int>, doubled: bool)
    requires
        ds.len() > 0,
    ensures
        luhn_sum(ds, doubled) == luhn_term(ds[0], if (ds.len() - 1) % 2 == 0 { doubled } else { !doubled })
            + luhn_sum(ds.drop_first(), doubled),
    decreases ds.len(),
{
    if ds.len() == 1 {
        assert(ds.drop_first() =~= Seq::<int>::empty());
        assert(ds.drop_last() =~= Seq::<int>::empty());
        assert(luhn_sum(ds.drop_first(), doubled) == 0);
        assert(luhn_sum(ds.drop_last(), !doubled) == 0);
        assert(ds.last() == ds[0]);
    } else {
        lemma_luhn_sum_alternate(ds.drop_last(), !doubled);
        assert(ds.drop_last().drop_first() =~= ds.drop_first().drop_last());
        assert(ds.drop_last()[0] == ds[0]);
        assert(ds.drop_first().last() == ds.last());
        assert(luhn_sum(ds.drop_first(), doubled) == luhn_term(ds.last(), doubled)
            + luhn_sum(ds.drop_first().drop_last(), !doubled));
        assert(((ds.len() - 1) % 2 == 0) == ((ds.len() - 2) % 2 != 0));
        assert(ds.drop_last().len() - 1 == ds.len() - 2);
    }
}

} // verus!

verus! {

/// Verhoeff multiplication table d(j, k) (the dihedral group D5).
pub open spec fn verhoeff_d_table() -> Seq<Seq<int>> {
    seq![
        seq![0, 1, 2, 3, 4, 5, 6, 7, 8, 9],
        seq![1, 2, 3, 4, 0, 6, 7, 8, 9, 5],
        seq![2, 3, 4, 0, 1, 7, 8, 9, 5, 6],
        seq![3, 4, 0, 1, 2, 8, 9, 5, 6, 7],
        seq![4, 0, 1, 2, 3, 9, 5, 6, 7, 8],
        seq![5, 9, 8, 7, 6, 0, 4, 3, 2, 1],
        seq![6, 5, 9, 8, 7, 1, 0, 4, 3, 2],
        seq![7, 6, 5, 9, 8, 2, 1, 0, 4, 3],
        seq![8, 7, 6, 5, 9, 3, 2, 1, 0, 4],
        seq![9, 8, 7, 6, 5, 4, 3, 2, 1, 0],
    ]
}

/// Verhoeff permutation table p(pos mod 8, digit).
pub open spec fn verhoeff_p_table() -> Seq<Seq<int>> {
    seq![
        seq![0, 1, 2, 3, 4, 5, 6, 7, 8, 9],
        seq![1, 5, 7, 6, 2, 8, 3, 0, 9, 4],
        seq![5, 8, 0, 3, 7, 9, 6, 1, 4, 2],
        seq![8, 9, 1, 6, 0, 4, 3, 5, 2, 7],
        seq![9, 4, 5, 3, 1, 2, 6, 8, 7, 0],
        seq![4, 2, 8, 6, 5, 7, 3, 9, 0, 1],
        seq![2, 7, 9, 3, 8, 0, 6, 4, 1, 5],
        seq![7, 0, 4, 6, 9, 1, 3, 2, 5, 8],
    ]
}

/// Verhoeff check state after consuming the last `n` digits of `ds`, right to left.
pub open spec fn verhoeff_state(ds: Seq<int>, n: nat) -> int
    decreases n,
{
    if n == 0 {
        0
    } else {
        let c = verhoeff_state(ds, (n - 1) as nat);
        let p = verhoeff_p_table()[((n - 1) % 8) as int][ds[ds.len() - n]];
        verhoeff_d_table()[c][p]
    }
}

/// An Aadhaar number passes the Verhoeff check: exactly 12 decimal digits (other
/// characters ignored), the first digit at least 2, and a final check state of 0.
pub open spec fn verhoeff_valid(s: Seq<char>) -> bool {
    let ds = decimal_digits(s);
    ds.len() == 12 && ds[0] >= 2 && verhoeff_state(ds, 12) == 0
}

fn verhoeff_d(j: usize, k: usize) -> (r: usize)
    requires
        j < 10,
        k < 10,
    ensures
        r as int == verhoeff_d_table()[j as int][k as int],
        r < 10,
{
    let table: [[usize; 10]; 10] = [
        [0, 1, 2, 3, 4, 5, 6, 7, 8, 9],
        [1, 2, 3, 4, 0, 6, 7, 8, 9, 5],
        [2, 3, 4, 0, 1, 7, 8, 9, 5, 6],
        [3, 4, 0, 1, 2, 8, 9, 5, 6, 7],
        [4, 0, 1, 2, 3, 9, 5, 6, 7, 8],
        [5, 9, 8, 7, 6, 0, 4, 3, 2, 1],
        [6, 5, 9, 8, 7, 1, 0, 4, 3, 2],
        [7, 6, 5, 9, 8, 2, 1, 0, 4, 3],
        [8, 7, 6, 5, 9, 3, 2, 1, 0, 4],
        [9, 8, 7, 6, 5, 4, 3, 2, 1, 0],
    ];
    table[j][k]
}

fn verhoeff_p(j: usize, k: usize) -> (r: usize)
    requires
        j < 8,
        k < 10,
    ensures
        r as int == verhoeff_p_table()[j as int][k as int],
        r < 10,
{
    let table: [[usize; 10]; 8] = [
        [0, 1, 2, 3, 4, 5, 6, 7, 8, 9],
        [1, 5, 7, 6, 2, 8, 3, 0, 9, 4],
        [5, 8, 0, 3, 7, 9, 6, 1, 4, 2],
        [8, 9, 1, 6, 0, 4, 3, 5, 2, 7],
        [9, 4, 5, 3, 1, 2, 6, 8, 7, 0],
        [4, 2, 8, 6, 5, 7, 3, 9, 0, 1],
        [2, 7, 9, 3, 8, 0, 6, 4, 1, 5],
        [7, 0, 4, 6, 9, 1, 3, 2, 5, 8],
    ];
    table[j][k]
}

/// Validates a 12-digit Indian Aadhaar number using the Verhoeff checksum algorithm.
pub fn validate_verhoeff(aadhaar_number: &str) -> (valid: bool)
    ensures
        valid == verhoeff_valid(aadhaar_number@),
{
    let digits = digits_of(aadhaar_number);
    let ghost ds = decimal_digits(aadhaar_number@);
    if digits.len() != 12 {
        return false;
    }
    // Aadhaar cannot begin with 0 or 1
    if digits[0] < 2 {
        return false;
    }
    let n = digits.len();
    let mut c: usize = 0;
    let mut i: usize = 0;
    while i < n
        invariant
            n == 12,
            n == digits@.len(),
            ds.len() == n,
            i <= n,
            forall|k: int| 0 <= k < n ==> digits@[k] as int == #[trigger] ds[k],
            forall|k: int| 0 <= k < n ==> digits@[k] <= 9,
            c < 10,
            c as int == verhoeff_state(ds, i as nat),
        decreases n - i,
    {
        let digit = digits[n - 1 - i] as usize;
        let p_val = verhoeff_p(i % 8, digit);
        c = verhoeff_d(c, p_val);
        i = i + 1;
    }
    c == 0
}

} // verus!

verus! {

proof fn lemma_decimal_digits_concat(a: Seq<char>, b: Seq<char>)
    ensures
        decimal_digits(a + b) == decimal_digits(a) + decimal_digits(b),
    decreases b.len(),
{
    if b.len() == 0 {
        assert(a + b =~= a);
        assert(decimal_digits(a) + decimal_digits(b) =~= decimal_digits(a));
    } else {
        lemma_decimal_digits_concat(a, b.drop_last());
        assert((a + b).drop_last() =~= a + b.drop_last());
        assert((a + b).last() == b.last());
        match ascii_digit_value(b.last()) {
            Some(d) => {
                assert(decimal_digits(a) + decimal_digits(b) =~= (decimal_digits(a) + decimal_digits(b.drop_last())).push(d));
            },
            None => {},
        }
    }
}

/// Separators do not matter to the checksums: inserting a character that is
/// not an ASCII digit anywhere in a number changes neither its Luhn nor its
/// Verhoeff validity (so "4111 1111 1111 1111" and "4111111111111111" are
/// judged alike).
pub proof fn law_checksums_ignore_separators(a: Seq<char>, b: Seq<char>, sep: char)
    requires
        ascii_digit_value(sep) is None,
    ensures
        luhn_valid(a + seq![sep] + b) == luhn_valid(a + b),
        verhoeff_valid(a + seq![sep] + b) == verhoeff_valid(a + b),
{
    lemma_decimal_digits_concat(a + seq![sep], b);
    lemma_decimal_digits_concat(a, seq![sep]);
    lemma_decimal_digits_concat(a, b);
    lemma_decimal_digits_push(Seq::<char>::empty(), sep);
    assert(Seq::<char>::empty().push(sep) =~= seq![sep]);
    assert(decimal_digits(Seq::<char>::empty()) =~= Seq::<int>::empty());
    assert(decimal_digits(seq![sep]) =~= Seq::<int>::empty());
    assert(decimal_digits(a + seq![sep]) =~= decimal_digits(a));
    assert(decimal_digits(a + seq![sep] + b) =~= decimal_digits(a + b));
}

/// Every row and every column of the Verhoeff multiplication table, and every
/// row of the permutation table, lists each digit once.
#[verifier::rlimit(100)]
proof fn lemma_verhoeff_tables_permute()
    ensures
        forall|j: int, a: int| 0 <= j < 10 && 0 <= a < 10 ==> 0 <= #[trigger] verhoeff_d_table()[j][a] < 10,
        forall|r: int, a: int| 0 <= r < 8 && 0 <= a < 10 ==> 0 <= #[trigger] verhoeff_p_table()[r][a] < 10,
        forall|j: int, a: int, b: int| 0 <= j < 10 && 0 <= a < 10 && 0 <= b < 10 && a != b
            ==> #[trigger] verhoeff_d_table()[j][a] != #[trigger] verhoeff_d_table()[j][b],
        forall|j: int, a: int, b: int| 0 <= j < 10 && 0 <= a < 10 && 0 <= b < 10 && a != b
            ==> #[trigger] verhoeff_d_table()[a][j] != #[trigger] verhoeff_d_table()[b][j],
        forall|r: int, a: int, b: int| 0 <= r < 8 && 0 <= a < 10 && 0 <= b < 10 && a != b
            ==> #[trigger] verhoeff_p_table()[r][a] != #[trigger] verhoeff_p_table()[r][b],
{
    let d = verhoeff_d_table();
    let p = verhoeff_p_table();
    assert forall|j: int, a: int| 0 <= j < 10 && 0 <= a < 10 implies 0 <= #[trigger] d[j][a] < 10 by {}
    assert forall|r: int, a: int| 0 <= r < 8 && 0 <= a < 10 implies 0 <= #[trigger] p[r][a] < 10 by {}
    assert forall|j: int, a: int, b: int| 0 <= j < 10 && 0 <= a < 10 && 0 <= b < 10 && a != b
        implies #[trigger] d[j][a] != #[trigger] d[j][b] by {}
    assert forall|j: int, a: int, b: int| 0 <= j < 10 && 0 <= a < 10 && 0 <= b < 10 && a != b
        implies #[trigger] d[a][j] != #[trigger] d[b][j] by {}
    assert forall|r: int, a: int, b: int| 0 <= r < 8 && 0 <= a < 10 && 0 <= b < 10 && a != b
        implies #[trigger] p[r][a] != #[trigger] p[r][b] by {}
}

/// All entries of a sequence are decimal digits.
pub open spec fn all_decimal(ds: Seq<int>) -> bool {
    forall|k: int| 0 <= k < ds.len() ==> 0 <= #[trigger] ds[k] <= 9
}

proof fn lemma_verhoeff_states_diverge(ds: Seq<int>, i: int, d: int, n: nat)
    requires
        all_decimal(ds),
        0 <= i < ds.len(),
        0 <= d <= 9,
        d != ds[i],
        n <= ds.len(),
    ensures
        0 <= verhoeff_state(ds, n) < 10,
        0 <= verhoeff_state(ds.update(i, d), n) < 10,
        n < ds.len() - i ==> verhoeff_state(ds, n) == verhoeff_state(ds.update(i, d), n),
        n >= ds.len() - i ==> verhoeff_state(ds, n) != verhoeff_state(ds.update(i, d), n),
    decreases n,
{
    lemma_verhoeff_tables_permute();
    if n > 0 {
        lemma_verhoeff_states_diverge(ds, i, d, (n - 1) as nat);
        let e = ds.update(i, d);
        let row = ((n - 1) % 8) as int;
        let k = ds.len() - n;
        assert(0 <= ds[k] <= 9);
        assert(0 <= e[k] <= 9);
        let c = verhoeff_state(ds, (n - 1) as nat);
        let ce = verhoeff_state(e, (n - 1) as nat);
        let x = verhoeff_p_table()[row][ds[k]];
        let y = verhoeff_p_table()[row][e[k]];
        assert(verhoeff_state(ds, n) == verhoeff_d_table()[c][x]);
        assert(verhoeff_state(e, n) == verhoeff_d_table()[ce][y]);
        if k == i {
            assert(x != y);
        }
    }
}

/// The Verhoeff check catches every single-digit error: changing one digit
/// of a digit sequence to another digit changes its final check state, so a
/// number that passes the check fails it after any one of its digits is
/// mistyped.
pub proof fn law_verhoeff_detects_single_digit_errors(ds: Seq<int>, i: int, d: int)
    requires
        all_decimal(ds),
        0 <= i < ds.len(),
        0 <= d <= 9,
        d != ds[i],
    ensures
        verhoeff_state(ds, ds.len()) != verhoeff_state(ds.update(i, d), ds.len()),
{
    lemma_verhoeff_states_diverge(ds, i, d, ds.len());
}

/// Whether the digit at index `i` of a sequence of length `len` is doubled in
/// a Luhn sum whose last digit is doubled exactly when `doubled` holds.
pub open spec fn luhn_doubled_at(len: int, i: int, doubled: bool) -> bool {
    if (len - 1 - i) % 2 == 0 { doubled } else { !doubled }
}

proof fn lemma_luhn_sum_update(ds: Seq<int>, i: int, d: int, doubled: bool)
    requires
        0 <= i < ds.len(),
    ensures
        luhn_sum(ds.update(i, d), doubled) - luhn_sum(ds, doubled)
            == luhn_term(d, luhn_doubled_at(ds.len() as int, i, doubled))
                - luhn_term(ds[i], luhn_doubled_at(ds.len() as int, i, doubled)),
    decreases ds.len(),
{
    let e = ds.update(i, d);
    if i == ds.len() - 1 {
        assert(e.drop_last() =~= ds.drop_last());
    } else {
        assert(e.drop_last() =~= ds.drop_last().update(i, d));
        lemma_luhn_sum_update(ds.drop_last(), i, d, !doubled);
        assert(luhn_doubled_at(ds.len() - 1, i, !doubled) == luhn_doubled_at(ds.len() as int, i, doubled));
    }
}

/// The Luhn check catches every single-digit error: changing one digit of a
/// digit sequence to another digit changes its Luhn sum modulo 10, so a card
/// number that passes the check fails it after any one of its digits is
/// mistyped.
pub proof fn law_luhn_detects_single_digit_errors(ds: Seq<int>, i: int, d: int)
    requires
        all_decimal(ds),
        0 <= i < ds.len(),
        0 <= d <= 9,
        d != ds[i],
    ensures
        luhn_sum(ds.update(i, d), false) % 10 != luhn_sum(ds, false) % 10,
{
    lemma_luhn_sum_update(ds, i, d, false);
    assert(0 <= ds[i] <= 9);
    let x = luhn_sum(ds, false);
    let y = luhn_sum(ds.update(i, d), false);
    assert(y - x != 0 && -9 <= y - x <= 9);
    assert(y % 10 != x % 10) by (nonlinear_arith)
        requires
            y - x != 0,
            -9 <= y - x <= 9,
    {
    }
}

} // verus!
