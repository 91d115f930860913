//! Number grouping, duration text and hex colour parsing.
use vstd::prelude::*;
use crate::text::{decimal, decimal_text, digit_char, digit_to_char, push_char};
use vstd::arithmetic::div_mod::{lemma_fundamental_div_mod, lemma_fundamental_div_mod_converse};

verus! {

/// The last three decimal digits of `n`, zero padded.
pub open spec fn three_digits(n: nat) -> Seq<char> {
    seq![digit_char((n / 100) % 10), digit_char((n / 10) % 10), digit_char(n % 10)]
}

/// Decimal notation of `n` with a `,` between each group of three digits,
/// counted from the least significant digit.
pub open spec fn grouped(n: nat) -> Seq<char>
    decreases n,
{
    if n < 1000 {
        decimal(n)
    } else {
        grouped(n / 1000) + seq![','] + three_digits(n)
    }
}

/// The characters of `s` other than the group separator.
pub open spec fn without_separators(s: Seq<char>) -> Seq<char> {
    s.filter(|c: char| c != ',')
}

fn push_three_digits(s: &mut String, n: u64)
    ensures
        final(s)@ == old(s)@ + three_digits(n as nat),
{
    push_char(s, digit_to_char((n / 100) % 10));
    push_char(s, digit_to_char((n / 10) % 10));
    push_char(s, digit_to_char(n % 10));
}

fn grouped_text(n: u64) -> (r: String)
    ensures
        r@ == grouped(n as nat),
    decreases n,
{
    if n < 1000 {
        decimal_text(n)
    } else {
        let mut r = grouped_text(n / 1000);
        push_char(&mut r, ',');
        push_three_digits(&mut r, n);
        r
    }
}

/// Decimal text of `num` with thousands separators (`1000000` gives `1,000,000`).
pub fn readable_number(num: u32) -> (r: String)
    ensures
        r@ == grouped(num as nat),
{
    grouped_text(num as u64)
}

proof fn lemma_digit_not_separator(d: nat)
    ensures
        digit_char(d) != ',',
{
}

proof fn lemma_decimal_small(n: nat)
    requires
        n < 1000,
    ensures
        1 <= decimal(n).len() <= 3,
        forall|k: int| 0 <= k < decimal(n).len() ==> decimal(n)[k] != ',',
{
    reveal_with_fuel(decimal, 3);
    if n >= 10 {
        lemma_digit_not_separator(n % 10);
        if n >= 100 {
            lemma_digit_not_separator((n / 10) % 10);
            lemma_digit_not_separator((n / 10) / 10);
        } else {
            lemma_digit_not_separator(n / 10);
        }
    } else {
        lemma_digit_not_separator(n);
    }
}

proof fn lemma_decimal_split(n: nat)
    requires
        n >= 1000,
    ensures
        decimal(n) == decimal(n / 1000) + three_digits(n),
{
    assert(n / 10 / 10 == n / 100) by {
        vstd::arithmetic::div_mod::lemma_div_denominator(n as int, 10, 10);
    }
    assert(n / 100 / 10 == n / 1000) by {
        vstd::arithmetic::div_mod::lemma_div_denominator(n as int, 100, 10);
    }
    assert(n / 10 >= 100);
    assert(n / 100 >= 10);
    assert(decimal(n) == decimal(n / 10).push(digit_char(n % 10)));
    assert(decimal(n / 10) == decimal(n / 100).push(digit_char((n / 10) % 10)));
    assert(decimal(n / 100) == decimal(n / 1000).push(digit_char((n / 100) % 10)));
    assert(decimal(n) =~= decimal(n / 1000) + three_digits(n));
}

proof fn lemma_short_without_separators(s: Seq<char>)
    requires
        s.len() <= 3,
        forall|k: int| 0 <= k < s.len() ==> s[k] != ',',
    ensures
        without_separators(s) == s,
{
    reveal_with_fuel(Seq::filter, 4);
    if s.len() >= 1 {
        assert(s.drop_last() =~= s.take(s.len() - 1));
        if s.len() >= 2 {
            assert(s.drop_last().drop_last() =~= s.take(s.len() - 2));
            if s.len() >= 3 {
                assert(s.drop_last().drop_last().drop_last() =~= Seq::<char>::empty());
            } else {
                assert(s.drop_last().drop_last() =~= Seq::<char>::empty());
            }
        } else {
            assert(s.drop_last() =~= Seq::<char>::empty());
        }
    } else {
        assert(s =~= Seq::<char>::empty());
    }
    assert(without_separators(s) =~= s);
}

/// Thousands grouping puts a separator before every third digit counted from the
/// least significant one, never in front of the first group, and removing the
/// separators gives back the plain decimal notation.
pub proof fn lemma_grouping(n: nat)
    ensures
        without_separators(grouped(n)) == decimal(n),
        grouped(n).len() > 0,
        grouped(n)[0] != ',',
        forall|k: int|
            0 <= k < grouped(n).len() ==> (#[trigger] grouped(n)[k] == ',' <==> (grouped(n).len()
                - k) % 4 == 0),
    decreases n,
{
    let pred = |c: char| c != ',';
    if n < 1000 {
        lemma_decimal_small(n);
        lemma_short_without_separators(decimal(n));
    } else {
        lemma_grouping(n / 1000);
        lemma_decimal_split(n);
        let g = grouped(n / 1000);
        let t = three_digits(n);
        lemma_digit_not_separator((n / 100) % 10);
        lemma_digit_not_separator((n / 10) % 10);
        lemma_digit_not_separator(n % 10);
        let sep: Seq<char> = seq![','];
        assert(grouped(n) == g + sep + t);
        Seq::filter_distributes_over_add(g + sep, t, pred);
        Seq::filter_distributes_over_add(g, sep, pred);
        assert(sep.filter(pred) =~= Seq::<char>::empty()) by {
            reveal_with_fuel(Seq::filter, 2);
        }
        lemma_short_without_separators(t);
        assert(g.filter(pred) + sep.filter(pred) =~= g.filter(pred));
        let r = grouped(n);
        assert forall|k: int| 0 <= k < r.len() implies (#[trigger] r[k] == ',' <==> (r.len() - k)
            % 4 == 0) by {
            assert(r.len() == g.len() + 4);
            if k < g.len() {
                assert(r[k] == g[k]);
                assert(g[k] == ',' <==> (g.len() - k) % 4 == 0);
                assert((r.len() - k) % 4 == (g.len() - k) % 4);
            } else if k == g.len() {
                assert(r[k] == ',');
                assert((r.len() - k) % 4 == 0);
            } else {
                assert(r[k] == t[k - g.len() - 1]);
                assert(1 <= r.len() - k <= 3);
                assert(t[k - g.len() - 1] != ',');
            }
        }
        assert(r[0] == g[0]);
    }
}

/// One duration field: a count followed by its unit letter (`30s`).
pub open spec fn unit_field(v: nat, unit: char) -> Seq<char> {
    decimal(v).push(unit)
}

/// `acc` followed by the field for `v` and `unit`, space separated; nothing is
/// added when `v` is zero.
pub open spec fn add_field(acc: Seq<char>, v: nat, unit: char) -> Seq<char> {
    if v == 0 {
        acc
    } else if acc.len() == 0 {
        unit_field(v, unit)
    } else {
        acc + seq![' '] + unit_field(v, unit)
    }
}

/// Whole days in a number of seconds.
pub open spec fn days_of(n: nat) -> nat {
    n / 86400
}

/// Hours past the whole days.
pub open spec fn hours_of(n: nat) -> nat {
    (n / 3600) % 24
}

/// Minutes past the whole hours.
pub open spec fn minutes_of(n: nat) -> nat {
    (n / 60) % 60
}

/// Seconds past the whole minutes.
pub open spec fn seconds_of(n: nat) -> nat {
    n % 60
}

/// Text of a duration in seconds: days, hours, minutes and seconds in that order,
/// each field left out when it is zero; empty for a duration that is not positive.
pub open spec fn duration_text(secs: int) -> Seq<char> {
    if secs <= 0 {
        Seq::empty()
    } else {
        let n = secs as nat;
        add_field(
            add_field(
                add_field(add_field(Seq::empty(), days_of(n), 'd'), hours_of(n), 'h'),
                minutes_of(n),
                'm',
            ),
            seconds_of(n),
            's',
        )
    }
}

fn push_field(acc: &mut String, v: u64, unit: char)
    ensures
        final(acc)@ == add_field(old(acc)@, v as nat, unit),
{
    if v != 0 {
        if !acc.as_str().is_empty() {
            push_char(acc, ' ');
        }
        let t = decimal_text(v);
        acc.append(t.as_str());
        push_char(acc, unit);
    }
}

/// Text of a duration given in seconds (`90` gives `1m 30s`, `3600` gives `1h`).
pub fn duration_to_hms(secs: i64) -> (r: String)
    ensures
        r@ == duration_text(secs as int),
{
    let mut r = String::new();
    if secs > 0 {
        let n = secs as u64;
        push_field(&mut r, n / 86400, 'd');
        push_field(&mut r, (n / 3600) % 24, 'h');
        push_field(&mut r, (n / 60) % 60, 'm');
        push_field(&mut r, n % 60, 's');
    }
    r
}

/// The days, hours, minutes and seconds that the text of a positive duration
/// shows add up to that duration, each field below its unit's range, and the
/// text of a positive duration is never empty.
pub proof fn lemma_duration_fields(secs: int)
    requires
        secs > 0,
    ensures
        ({
            let n = secs as nat;
            &&& days_of(n) * 86400 + hours_of(n) * 3600 + minutes_of(n) * 60 + seconds_of(n) == n
            &&& hours_of(n) < 24
            &&& minutes_of(n) < 60
            &&& seconds_of(n) < 60
            &&& duration_text(secs).len() > 0
        }),
{
    let n = secs as nat;
    assert(n == (n / 60) * 60 + n % 60) by {
        vstd::arithmetic::div_mod::lemma_fundamental_div_mod(n as int, 60);
    }
    let mi = n / 60;
    assert(mi == (mi / 60) * 60 + mi % 60) by {
        vstd::arithmetic::div_mod::lemma_fundamental_div_mod(mi as int, 60);
    }
    assert(mi / 60 == n / 3600) by {
        vstd::arithmetic::div_mod::lemma_div_denominator(n as int, 60, 60);
    }
    let h = n / 3600;
    assert(h == (h / 24) * 24 + h % 24) by {
        vstd::arithmetic::div_mod::lemma_fundamental_div_mod(h as int, 24);
    }
    assert(h / 24 == n / 86400) by {
        vstd::arithmetic::div_mod::lemma_div_denominator(n as int, 3600, 24);
    }
    assert(days_of(n) * 86400 + hours_of(n) * 3600 + minutes_of(n) * 60 + seconds_of(n) == n)
        by (nonlinear_arith)
        requires
            n == mi * 60 + n % 60,
            mi == h * 60 + mi % 60,
            h == (n / 86400) * 24 + h % 24,
            days_of(n) == n / 86400,
            hours_of(n) == h % 24,
            minutes_of(n) == mi % 60,
            seconds_of(n) == n % 60,
    ;
    let a0: Seq<char> = Seq::empty();
    let a1 = add_field(a0, days_of(n), 'd');
    let a2 = add_field(a1, hours_of(n), 'h');
    let a3 = add_field(a2, minutes_of(n), 'm');
    let a4 = add_field(a3, seconds_of(n), 's');
    assert(a4.len() >= a3.len() && a3.len() >= a2.len() && a2.len() >= a1.len());
    if seconds_of(n) == 0 && minutes_of(n) == 0 && hours_of(n) == 0 {
        assert(days_of(n) > 0);
    }
}

/// `c` occurs in `s`.
pub open spec fn has_char(s: Seq<char>, c: char) -> bool {
    exists|i: int| 0 <= i < s.len() && s[i] == c
}

/// A character that no decimal numeral holds.
pub open spec fn non_digit(c: char) -> bool {
    c != '0' && c != '1' && c != '2' && c != '3' && c != '4' && c != '5' && c != '6' && c != '7'
        && c != '8' && c != '9'
}

proof fn lemma_decimal_lacks(n: nat, c: char)
    requires
        non_digit(c),
    ensures
        !has_char(decimal(n), c),
    decreases n,
{
    if n >= 10 {
        lemma_decimal_lacks(n / 10, c);
        let d = decimal(n / 10);
        assert(decimal(n) == d.push(digit_char(n % 10)));
        assert forall|i: int| 0 <= i < decimal(n).len() implies decimal(n)[i] != c by {
            if i < d.len() {
                assert(decimal(n)[i] == d[i]);
            }
        }
    } else {
        assert(decimal(n) == seq![digit_char(n)]);
        assert(decimal(n)[0] == digit_char(n));
    }
}

proof fn lemma_add_field_has(acc: Seq<char>, v: nat, unit: char, c: char)
    requires
        non_digit(c),
        c != ' ',
    ensures
        has_char(add_field(acc, v, unit), c) <==> (has_char(acc, c) || (v > 0 && c == unit)),
{
    lemma_decimal_lacks(v, c);
    let f = unit_field(v, unit);
    let d = decimal(v);
    assert(has_char(f, c) <==> c == unit) by {
        if c == unit {
            assert(f[f.len() - 1] == unit);
        }
        if has_char(f, c) {
            let i = choose|i: int| 0 <= i < f.len() && f[i] == c;
            if i < d.len() {
                assert(f[i] == d[i]);
            }
        }
    }
    if v > 0 && acc.len() > 0 {
        let r = acc + seq![' '] + f;
        assert(r == add_field(acc, v, unit));
        if has_char(r, c) {
            let i = choose|i: int| 0 <= i < r.len() && r[i] == c;
            if i < acc.len() {
                assert(r[i] == acc[i]);
            } else if i > acc.len() {
                assert(r[i] == f[i - acc.len() - 1]);
            }
        }
        if has_char(acc, c) {
            let i = choose|i: int| 0 <= i < acc.len() && acc[i] == c;
            assert(r[i] == acc[i]);
        }
        if has_char(f, c) {
            let i = choose|i: int| 0 <= i < f.len() && f[i] == c;
            assert(r[acc.len() + 1 + i] == f[i]);
        }
    }
}

/// The text of a positive duration shows a unit letter (`d`, `h`, `m` or `s`)
/// exactly when that unit's count is non-zero: zero fields are left out.
pub proof fn lemma_duration_units_shown(secs: int)
    requires
        secs > 0,
    ensures
        ({
            let n = secs as nat;
            let t = duration_text(secs);
            &&& has_char(t, 'd') <==> days_of(n) > 0
            &&& has_char(t, 'h') <==> hours_of(n) > 0
            &&& has_char(t, 'm') <==> minutes_of(n) > 0
            &&& has_char(t, 's') <==> seconds_of(n) > 0
        }),
{
    let n = secs as nat;
    let a0: Seq<char> = Seq::empty();
    let a1 = add_field(a0, days_of(n), 'd');
    let a2 = add_field(a1, hours_of(n), 'h');
    let a3 = add_field(a2, minutes_of(n), 'm');
    let a4 = add_field(a3, seconds_of(n), 's');
    assert(a4 == duration_text(secs));
    let units = seq!['d', 'h', 'm', 's'];
    assert forall|k: int| 0 <= k < 4 implies (has_char(a4, #[trigger] units[k]) <==> ((k == 0
        && days_of(n) > 0) || (k == 1 && hours_of(n) > 0) || (k == 2 && minutes_of(n) > 0) || (k
        == 3 && seconds_of(n) > 0))) by {
        let c = units[k];
        assert(!has_char(a0, c));
        lemma_add_field_has(a0, days_of(n), 'd', c);
        lemma_add_field_has(a1, hours_of(n), 'h', c);
        lemma_add_field_has(a2, minutes_of(n), 'm', c);
        lemma_add_field_has(a3, seconds_of(n), 's', c);
    }
    assert(units[0] == 'd' && units[1] == 'h' && units[2] == 'm' && units[3] == 's');
}

/// Position of a unit letter in the order days, hours, minutes, seconds.
pub open spec fn unit_rank(c: char) -> int {
    if c == 'd' {
        0
    } else if c == 'h' {
        1
    } else if c == 'm' {
        2
    } else if c == 's' {
        3
    } else {
        -1
    }
}

proof fn lemma_add_field_shape(acc: Seq<char>, v: nat, unit: char)
    ensures
        add_field(acc, v, unit).len() >= acc.len(),
        forall|i: int| 0 <= i < acc.len() ==> add_field(acc, v, unit)[i] == acc[i],
        forall|j: int|
            acc.len() <= j < add_field(acc, v, unit).len() ==> {
                let c = #[trigger] add_field(acc, v, unit)[j];
                c == unit || c == ' ' || !non_digit(c)
            },
{
    let r = add_field(acc, v, unit);
    let d = decimal(v);
    assert forall|k: int| 0 <= k < d.len() implies !non_digit(#[trigger] d[k]) by {
        if non_digit(d[k]) {
            lemma_decimal_lacks(v, d[k]);
        }
    }
    if v > 0 {
        if acc.len() == 0 {
            assert forall|j: int| acc.len() <= j < r.len() implies {
                let c = #[trigger] r[j];
                c == unit || c == ' ' || !non_digit(c)
            } by {
                if j < d.len() {
                    assert(r[j] == d[j]);
                }
            }
        } else {
            assert forall|j: int| acc.len() <= j < r.len() implies {
                let c = #[trigger] r[j];
                c == unit || c == ' ' || !non_digit(c)
            } by {
                if acc.len() < j && j < acc.len() + 1 + d.len() {
                    assert(r[j] == d[j - acc.len() - 1]);
                }
            }
        }
    }
}

/// In the text of a duration the unit letters come in the order days, hours,
/// minutes, seconds.
pub proof fn lemma_duration_unit_order(secs: int)
    ensures
        forall|i: int, j: int|
            0 <= i < duration_text(secs).len() && 0 <= j < duration_text(secs).len() && 0
                <= unit_rank(#[trigger] duration_text(secs)[i]) < unit_rank(
                #[trigger] duration_text(secs)[j],
            ) ==> i < j,
{
    if secs > 0 {
        let n = secs as nat;
        let a0: Seq<char> = Seq::empty();
        let a1 = add_field(a0, days_of(n), 'd');
        let a2 = add_field(a1, hours_of(n), 'h');
        let a3 = add_field(a2, minutes_of(n), 'm');
        let t = add_field(a3, seconds_of(n), 's');
        assert(t == duration_text(secs));
        lemma_add_field_shape(a0, days_of(n), 'd');
        lemma_add_field_shape(a1, hours_of(n), 'h');
        lemma_add_field_shape(a2, minutes_of(n), 'm');
        lemma_add_field_shape(a3, seconds_of(n), 's');
        assert forall|j: int| 0 <= j < t.len() && 0 <= #[trigger] unit_rank(t[j]) implies {
            let k = unit_rank(t[j]);
            &&& k == 0 ==> j < a1.len()
            &&& k == 1 ==> a1.len() <= j < a2.len()
            &&& k == 2 ==> a2.len() <= j < a3.len()
            &&& k == 3 ==> a3.len() <= j
        } by {
            if j < a3.len() {
                assert(t[j] == a3[j]);
                if j < a2.len() {
                    assert(a3[j] == a2[j]);
                    if j < a1.len() {
                        assert(a2[j] == a1[j]);
                    }
                }
            }
        }
    }
}

/// Count of the unit with the given rank in a duration of `n` seconds.
pub open spec fn unit_count(n: nat, rank: int) -> nat {
    if rank == 0 {
        days_of(n)
    } else if rank == 1 {
        hours_of(n)
    } else if rank == 2 {
        minutes_of(n)
    } else {
        seconds_of(n)
    }
}

proof fn lemma_field_written(t: Seq<char>, acc: Seq<char>, v: nat, unit: char, j: int)
    requires
        non_digit(unit),
        unit != ' ',
        add_field(acc, v, unit).len() <= t.len(),
        forall|i: int| 0 <= i < add_field(acc, v, unit).len() ==> t[i] == add_field(acc, v, unit)[i],
        acc.len() <= j < add_field(acc, v, unit).len(),
        t[j] == unit,
    ensures
        v > 0,
        j == add_field(acc, v, unit).len() - 1,
        decimal(v).len() <= j,
        t.subrange(j - decimal(v).len(), j) == decimal(v),
        j == decimal(v).len() || t[j - decimal(v).len() - 1] == ' ',
{
    let r = add_field(acc, v, unit);
    let d = decimal(v);
    assert(v > 0);
    assert forall|k: int| 0 <= k < d.len() implies !non_digit(#[trigger] d[k]) by {
        if non_digit(d[k]) {
            lemma_decimal_lacks(v, d[k]);
        }
    }
    let start = if acc.len() == 0 { 0 } else { acc.len() + 1 };
    assert(r.len() == start + d.len() + 1);
    assert forall|k: int| 0 <= k < d.len() implies r[start + k] == d[k] by {}
    if j < r.len() - 1 {
        if acc.len() > 0 && j == acc.len() {
            assert(r[j] == ' ');
        } else {
            assert(r[j] == d[j - start]);
        }
    }
    assert(t.subrange(j - d.len(), j) =~= d) by {
        assert forall|k: int| 0 <= k < d.len() implies t.subrange(j - d.len(), j)[k] == d[k] by {
            assert(t[start + k] == r[start + k]);
        }
    }
    if acc.len() > 0 {
        assert(t[acc.len() as int] == r[acc.len() as int]);
    }
}

/// The text of a positive duration is made of fields `<count><unit>`: each unit
/// letter ends the decimal digits of its unit's count, that count is positive, the
/// digits start the text or follow a space, and each unit letter occurs at most once.
pub proof fn lemma_duration_fields_written(secs: int)
    requires
        secs > 0,
    ensures
        ({
            let n = secs as nat;
            let t = duration_text(secs);
            &&& forall|j: int|
                0 <= j < t.len() && 0 <= #[trigger] unit_rank(t[j]) ==> {
                    let d = decimal(unit_count(n, unit_rank(t[j])));
                    &&& unit_count(n, unit_rank(t[j])) > 0
                    &&& d.len() <= j
                    &&& t.subrange(j - d.len(), j) == d
                    &&& (j == d.len() || t[j - d.len() - 1] == ' ')
                }
            &&& forall|i: int, j: int|
                0 <= i < t.len() && 0 <= j < t.len() && 0 <= unit_rank(#[trigger] t[i]) && t[i]
                    == #[trigger] t[j] ==> i == j
        }),
{
    let n = secs as nat;
    let a0: Seq<char> = Seq::empty();
    let a1 = add_field(a0, days_of(n), 'd');
    let a2 = add_field(a1, hours_of(n), 'h');
    let a3 = add_field(a2, minutes_of(n), 'm');
    let t = add_field(a3, seconds_of(n), 's');
    assert(t == duration_text(secs));
    lemma_add_field_shape(a0, days_of(n), 'd');
    lemma_add_field_shape(a1, hours_of(n), 'h');
    lemma_add_field_shape(a2, minutes_of(n), 'm');
    lemma_add_field_shape(a3, seconds_of(n), 's');
    assert forall|i: int| 0 <= i < a3.len() implies t[i] == a3[i] by {}
    assert forall|i: int| 0 <= i < a2.len() implies t[i] == a2[i] by {
        assert(t[i] == a3[i]);
    }
    assert forall|i: int| 0 <= i < a1.len() implies t[i] == a1[i] by {
        assert(t[i] == a3[i]);
        assert(a3[i] == a2[i]);
    }
    assert forall|j: int| 0 <= j < t.len() && 0 <= #[trigger] unit_rank(t[j]) implies {
        let k = unit_rank(t[j]);
        let d = decimal(unit_count(n, k));
        &&& unit_count(n, k) > 0
        &&& d.len() <= j
        &&& t.subrange(j - d.len(), j) == d
        &&& (j == d.len() || t[j - d.len() - 1] == ' ')
        &&& k == 0 ==> j == a1.len() - 1
        &&& k == 1 ==> j == a2.len() - 1
        &&& k == 2 ==> j == a3.len() - 1
        &&& k == 3 ==> j == t.len() - 1
    } by {
        if j < a3.len() {
            assert(t[j] == a3[j]);
            if j < a2.len() {
                assert(a3[j] == a2[j]);
                if j < a1.len() {
                    assert(a2[j] == a1[j]);
                    lemma_field_written(t, a0, days_of(n), 'd', j);
                } else {
                    lemma_field_written(t, a1, hours_of(n), 'h', j);
                }
            } else {
                lemma_field_written(t, a2, minutes_of(n), 'm', j);
            }
        } else {
            lemma_field_written(t, a3, seconds_of(n), 's', j);
        }
    }
}

/// Value of a hexadecimal digit, if `c` is one.
pub open spec fn hex_digit_value(c: char) -> Option<nat> {
    if '0' <= c && c <= '9' {
        Some((c as nat - '0' as nat) as nat)
    } else if 'a' <= c && c <= 'f' {
        Some((c as nat - 'a' as nat + 10) as nat)
    } else if 'A' <= c && c <= 'F' {
        Some((c as nat - 'A' as nat + 10) as nat)
    } else {
        None
    }
}

/// `s` without the `#` characters it starts with.
pub open spec fn strip_hashes(s: Seq<char>) -> Seq<char>
    decreases s.len(),
{
    if s.len() > 0 && s[0] == '#' {
        strip_hashes(s.drop_first())
    } else {
        s
    }
}

/// Every character of `s` is a hexadecimal digit.
pub open spec fn all_hex_digits(s: Seq<char>) -> bool {
    forall|k: int| 0 <= k < s.len() ==> (#[trigger] hex_digit_value(s[k])) is Some
}

/// Value of a string of hexadecimal digits, most significant first.
pub open spec fn hex_value(s: Seq<char>) -> nat
    decreases s.len(),
{
    if s.len() == 0 {
        0
    } else {
        hex_value(s.drop_last()) * 16 + hex_digit_value(s.last()).unwrap()
    }
}

/// Hexadecimal colour text: optional leading `#` characters, then at least one
/// hexadecimal digit and nothing else.
pub open spec fn hex_color(s: Seq<char>) -> bool {
    strip_hashes(s).len() > 0 && all_hex_digits(strip_hashes(s))
}

/// Red, green and blue channels of a colour value: its bits 16 to 23, 8 to 15 and 0 to 7.
pub open spec fn rgb_of(v: nat) -> (u8, u8, u8) {
    (((v / 65536) % 256) as u8, ((v / 256) % 256) as u8, (v % 256) as u8)
}

fn hex_digit(c: char) -> (r: Option<u32>)
    ensures
        r matches Some(v) ==> hex_digit_value(c) == Some(v as nat),
        r is None <==> hex_digit_value(c) is None,
{
    if '0' <= c && c <= '9' {
        Some(c as u32 - '0' as u32)
    } else if 'a' <= c && c <= 'f' {
        Some(c as u32 - 'a' as u32 + 10)
    } else if 'A' <= c && c <= 'F' {
        Some(c as u32 - 'A' as u32 + 10)
    } else {
        None
    }
}

proof fn lemma_strip_hashes_skip(s: Seq<char>, i: int)
    requires
        0 <= i <= s.len(),
        forall|k: int| 0 <= k < i ==> s[k] == '#',
    ensures
        strip_hashes(s) == strip_hashes(s.skip(i)),
    decreases i,
{
    if i > 0 {
        assert(s.drop_first().skip(i - 1) =~= s.skip(i));
        lemma_strip_hashes_skip(s.drop_first(), i - 1);
    } else {
        assert(s.skip(0) =~= s);
    }
}

proof fn lemma_hex_step(x: nat, d: nat)
    requires
        d < 16,
    ensures
        (((x % 16777216) * 16 + d) % 16777216) == ((x * 16 + d) % 16777216),
{
    let m: int = 16777216;
    vstd::arithmetic::div_mod::lemma_mul_mod_noop_left(x as int, 16, m);
    vstd::arithmetic::div_mod::lemma_add_mod_noop((x % 16777216) as int * 16, d as int, m);
    vstd::arithmetic::div_mod::lemma_add_mod_noop(x as int * 16, d as int, m);
}

proof fn lemma_rgb_low_bits(v: nat)
    ensures
        rgb_of(v) == rgb_of(v % 16777216),
{
    let x = v as int;
    let q = x / 16777216;
    let w = x % 16777216;
    lemma_fundamental_div_mod(x, 16777216);
    vstd::arithmetic::div_mod::lemma_mod_bound(x, 16777216);
    // Red: bits 16 to 23.
    let a = w / 65536;
    let b = w % 65536;
    lemma_fundamental_div_mod(w, 65536);
    vstd::arithmetic::div_mod::lemma_mod_bound(w, 65536);
    assert(0 <= a < 256) by (nonlinear_arith)
        requires
            w == 65536 * a + b,
            0 <= b < 65536,
            0 <= w < 16777216,
    ;
    assert(x == (q * 256 + a) * 65536 + b) by (nonlinear_arith)
        requires
            x == 16777216 * q + w,
            w == 65536 * a + b,
    ;
    lemma_fundamental_div_mod_converse(x, 65536, q * 256 + a, b);
    lemma_fundamental_div_mod_converse(q * 256 + a, 256, q, a);
    lemma_fundamental_div_mod_converse(a, 256, 0, a);
    // Green: bits 8 to 15.
    let c = w / 256;
    let e = w % 256;
    lemma_fundamental_div_mod(w, 256);
    vstd::arithmetic::div_mod::lemma_mod_bound(w, 256);
    assert(0 <= c) by (nonlinear_arith)
        requires
            w == 256 * c + e,
            0 <= e < 256,
            0 <= w,
    ;
    let c1 = c / 256;
    let c0 = c % 256;
    lemma_fundamental_div_mod(c, 256);
    vstd::arithmetic::div_mod::lemma_mod_bound(c, 256);
    assert(x == (q * 65536 + c) * 256 + e) by (nonlinear_arith)
        requires
            x == 16777216 * q + w,
            w == 256 * c + e,
    ;
    assert(q * 65536 + c == (q * 256 + c1) * 256 + c0) by (nonlinear_arith)
        requires
            c == 256 * c1 + c0,
    ;
    lemma_fundamental_div_mod_converse(x, 256, q * 65536 + c, e);
    lemma_fundamental_div_mod_converse(q * 65536 + c, 256, q * 256 + c1, c0);
    // Blue: bits 0 to 7 were settled with the green ones: both remainders are `e`.
}

/// Whether `hex` is colour text that `hex_to_rgb` accepts.
pub fn is_hex_color(hex: &str) -> (r: bool)
    ensures
        r == hex_color(hex@),
{
    let n = hex.unicode_len();
    let mut i: usize = 0;
    while i < n && hex.get_char(i) == '#'
        invariant
            n == hex@.len(),
            i <= n,
            forall|k: int| 0 <= k < i ==> hex@[k] == '#',
        decreases n - i,
    {
        i = i + 1;
    }
    proof {
        lemma_strip_hashes_skip(hex@, i as int);
        if i < n {
            assert(hex@.skip(i as int)[0] != '#');
        }
        assert(strip_hashes(hex@.skip(i as int)) == hex@.skip(i as int));
    }
    let ghost d = hex@.skip(i as int);
    if i == n {
        return false;
    }
    let mut j: usize = i;
    while j < n
        invariant
            n == hex@.len(),
            i < n,
            i <= j <= n,
            d == hex@.skip(i as int),
            strip_hashes(hex@) == d,
            forall|k: int| 0 <= k < j - i ==> (#[trigger] hex_digit_value(d[k])) is Some,
        decreases n - j,
    {
        if hex_digit(hex.get_char(j)).is_none() {
            assert(hex_digit_value(d[j - i]) is None);
            return false;
        }
        j = j + 1;
    }
    true
}

/// Red, green and blue channels of hexadecimal colour text such as `#FF8000`.
pub fn hex_to_rgb(hex: &str) -> (r: (u8, u8, u8))
    requires
        hex_color(hex@),
    ensures
        r == rgb_of(hex_value(strip_hashes(hex@))),
{
    let n = hex.unicode_len();
    let mut i: usize = 0;
    while i < n && hex.get_char(i) == '#'
        invariant
            n == hex@.len(),
            i <= n,
            forall|k: int| 0 <= k < i ==> hex@[k] == '#',
        decreases n - i,
    {
        i = i + 1;
    }
    proof {
        lemma_strip_hashes_skip(hex@, i as int);
        if i < n {
            assert(hex@.skip(i as int)[0] != '#');
        }
        assert(strip_hashes(hex@.skip(i as int)) == hex@.skip(i as int));
    }
    let ghost d = hex@.skip(i as int);
    let mut acc: u32 = 0;
    let mut j: usize = i;
    while j < n
        invariant
            n == hex@.len(),
            i <= j <= n,
            d == hex@.skip(i as int),
            all_hex_digits(d),
            acc < 16777216,
            acc as nat == hex_value(d.take(j - i)) % 16777216,
        decreases n - j,
    {
        let c = hex.get_char(j);
        assert(c == d[j - i]);
        let v = hex_digit(c).unwrap();
        proof {
            let t = d.take(j - i + 1);
            assert(t.drop_last() =~= d.take(j - i));
            assert(t.last() == c);
            lemma_hex_step(hex_value(d.take(j - i)), v as nat);
        }
        acc = (acc * 16 + v) % 16777216;
        j = j + 1;
    }
    assert(d.take(n - i) =~= d);
    proof {
        lemma_rgb_low_bits(hex_value(d));
        assert(acc / 65536 < 256);
    }
    (((acc / 65536) % 256) as u8, ((acc / 256) % 256) as u8, (acc % 256) as u8)
}

/// The upper-case hexadecimal digit for a value below sixteen.
pub open spec fn hex_char(d: nat) -> char {
    if d == 0 { '0' } else if d == 1 { '1' } else if d == 2 { '2' } else if d == 3 { '3' }
    else if d == 4 { '4' } else if d == 5 { '5' } else if d == 6 { '6' } else if d == 7 { '7' }
    else if d == 8 { '8' } else if d == 9 { '9' } else if d == 10 { 'A' } else if d == 11 { 'B' }
    else if d == 12 { 'C' } else if d == 13 { 'D' } else if d == 14 { 'E' } else { 'F' }
}

/// Standard 24-bit colour notation `#RRGGBB` of three channels.
pub open spec fn hex_text(r: u8, g: u8, b: u8) -> Seq<char> {
    seq![
        '#',
        hex_char(r as nat / 16),
        hex_char(r as nat % 16),
        hex_char(g as nat / 16),
        hex_char(g as nat % 16),
        hex_char(b as nat / 16),
        hex_char(b as nat % 16),
    ]
}

proof fn lemma_hex_char(x: nat)
    requires
        x < 16,
    ensures
        hex_digit_value(hex_char(x)) == Some(x),
        hex_char(x) != '#',
{
}

proof fn lemma_hex_value_push(s: Seq<char>, c: char)
    ensures
        hex_value(s.push(c)) == hex_value(s) * 16 + hex_digit_value(c).unwrap(),
{
    assert(s.push(c).drop_last() =~= s);
}

proof fn lemma_channels(v: nat, r: nat, g: nat, b: nat)
    requires
        r < 256,
        g < 256,
        b < 256,
        v == r * 65536 + g * 256 + b,
    ensures
        (v / 65536) % 256 == r,
        (v / 256) % 256 == g,
        v % 256 == b,
{
    assert(v / 65536 == r) by (nonlinear_arith)
        requires
            v == r * 65536 + g * 256 + b,
            g < 256,
            b < 256,
    ;
    assert(v / 256 == r * 256 + g) by (nonlinear_arith)
        requires
            v == r * 65536 + g * 256 + b,
            b < 256,
    ;
    assert((r * 256 + g) % 256 == g) by (nonlinear_arith)
        requires
            g < 256,
    ;
    assert(v % 256 == b) by (nonlinear_arith)
        requires
            v == r * 65536 + g * 256 + b,
            b < 256,
    ;
}

/// Reading back the `#RRGGBB` notation of three channels gives those channels:
/// the notation is accepted and its value splits into the same red, green and blue.
pub proof fn lemma_rgb_round_trip(r: u8, g: u8, b: u8)
    ensures
        hex_color(hex_text(r, g, b)),
        rgb_of(hex_value(strip_hashes(hex_text(r, g, b)))) == (r, g, b),
{
    let (r1, r0, g1, g0, b1, b0) = (
        r as nat / 16,
        r as nat % 16,
        g as nat / 16,
        g as nat % 16,
        b as nat / 16,
        b as nat % 16,
    );
    lemma_hex_char(r1);
    lemma_hex_char(r0);
    lemma_hex_char(g1);
    lemma_hex_char(g0);
    lemma_hex_char(b1);
    lemma_hex_char(b0);
    let t = hex_text(r, g, b);
    let e: Seq<char> = Seq::empty();
    let d1 = e.push(hex_char(r1));
    let d2 = d1.push(hex_char(r0));
    let d3 = d2.push(hex_char(g1));
    let d4 = d3.push(hex_char(g0));
    let d5 = d4.push(hex_char(b1));
    let d = d5.push(hex_char(b0));
    assert(t.drop_first() =~= d);
    assert(strip_hashes(d) == d);
    assert(strip_hashes(t) == strip_hashes(t.drop_first()));
    assert(all_hex_digits(d));
    lemma_hex_value_push(e, hex_char(r1));
    lemma_hex_value_push(d1, hex_char(r0));
    lemma_hex_value_push(d2, hex_char(g1));
    lemma_hex_value_push(d3, hex_char(g0));
    lemma_hex_value_push(d4, hex_char(b1));
    lemma_hex_value_push(d5, hex_char(b0));
    let v = hex_value(d);
    assert(v == ((((r1 * 16 + r0) * 16 + g1) * 16 + g0) * 16 + b1) * 16 + b0);
    assert(v == r as nat * 65536 + g as nat * 256 + b as nat) by (nonlinear_arith)
        requires
            v == ((((r1 * 16 + r0) * 16 + g1) * 16 + g0) * 16 + b1) * 16 + b0,
            r as nat == r1 * 16 + r0,
            g as nat == g1 * 16 + g0,
            b as nat == b1 * 16 + b0,
    ;
    lemma_channels(v, r as nat, g as nat, b as nat);
}

} // verus!
