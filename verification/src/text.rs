//! Verified text building blocks for the report: decimal rendering of a
//! count with thousands separators, joining pieces with a separator, and
//! the bracketed, quoted list form used for sequence-valued fields.

use vstd::prelude::*;

verus! {

/// The character for one decimal digit.
pub open spec fn digit_char(d: nat) -> char {
    if d == 0 {
        '0'
    } else if d == 1 {
        '1'
    } else if d == 2 {
        '2'
    } else if d == 3 {
        '3'
    } else if d == 4 {
        '4'
    } else if d == 5 {
        '5'
    } else if d == 6 {
        '6'
    } else if d == 7 {
        '7'
    } else if d == 8 {
        '8'
    } else {
        '9'
    }
}

/// The decimal digits of `n`, most significant first, no leading zeros
/// (a lone zero for `n == 0`).
pub open spec fn dec_digits(n: nat) -> Seq<char>
    decreases n,
{
    if n < 10 {
        seq![digit_char(n)]
    } else {
        dec_digits(n / 10) + seq![digit_char(n % 10)]
    }
}

/// `digits` with a comma before every group of three, counted from the
/// right.
pub open spec fn grouped(digits: Seq<char>) -> Seq<char>
    decreases digits.len(),
{
    if digits.len() <= 3 {
        digits
    } else {
        grouped(digits.take(digits.len() - 3)) + seq![','] + digits.skip(digits.len() - 3)
    }
}

/// How a population count is displayed: decimal digits, thousands-grouped.
pub open spec fn count_text(n: nat) -> Seq<char> {
    grouped(dec_digits(n))
}

/// `items` laid end to end with `sep` between consecutive items.
pub open spec fn join_with(items: Seq<Seq<char>>, sep: Seq<char>) -> Seq<char>
    decreases items.len(),
{
    if items.len() == 0 {
        Seq::empty()
    } else if items.len() == 1 {
        items[0]
    } else {
        join_with(items.drop_last(), sep) + sep + items.last()
    }
}

/// One item of a rendered list: the text between double quotes.
pub open spec fn quoted(s: Seq<char>) -> Seq<char> {
    seq!['"'] + s + seq!['"']
}

/// The rendered form of a sequence-valued field: the quoted items,
/// comma-separated, between square brackets.
pub open spec fn listed(items: Seq<Seq<char>>) -> Seq<char> {
    seq!['['] + join_with(items.map_values(|s: Seq<char>| quoted(s)), seq![',', ' ']) + seq![']']
}

/// The views of a vector of strings.
pub open spec fn seq_views(xs: Seq<String>) -> Seq<Seq<char>> {
    xs.map_values(|s: String| s@)
}

/// A one-character string slice for the digit `d`.
fn digit_str(d: u64) -> (s: &'static str)
    requires
        d < 10,
    ensures
        s@ == seq![digit_char(d as nat)],
{
    proof {
        reveal_strlit("0");
        reveal_strlit("1");
        reveal_strlit("2");
        reveal_strlit("3");
        reveal_strlit("4");
        reveal_strlit("5");
        reveal_strlit("6");
        reveal_strlit("7");
        reveal_strlit("8");
        reveal_strlit("9");
    }
    if d == 0 {
        "0"
    } else if d == 1 {
        "1"
    } else if d == 2 {
        "2"
    } else if d == 3 {
        "3"
    } else if d == 4 {
        "4"
    } else if d == 5 {
        "5"
    } else if d == 6 {
        "6"
    } else if d == 7 {
        "7"
    } else if d == 8 {
        "8"
    } else {
        "9"
    }
}

/// The plain decimal rendering of `n`.
pub fn decimal_text(n: u64) -> (s: String)
    ensures
        s@ == dec_digits(n as nat),
    decreases n,
{
    if n < 10 {
        digit_str(n).to_owned()
    } else {
        let mut s = decimal_text(n / 10);
        s.append(digit_str(n % 10));
        s
    }
}

proof fn lemma_dec_digits_len(n: nat)
    ensures
        n < 10 ==> dec_digits(n).len() == 1,
        10 <= n < 100 ==> dec_digits(n).len() == 2,
        100 <= n < 1000 ==> dec_digits(n).len() == 3,
        n >= 1000 ==> dec_digits(n).len() >= 4,
    decreases n,
{
    if n >= 10 {
        lemma_dec_digits_len(n / 10);
    }
}

proof fn lemma_dec_digits_split(q: nat, r: nat)
    requires
        q >= 1,
        r < 1000,
    ensures
        dec_digits(1000 * q + r) == dec_digits(q) + seq![
            digit_char(r / 100),
            digit_char((r / 10) % 10),
            digit_char(r % 10),
        ],
{
    let n = 1000 * q + r;
    assert(n >= 1000 && n / 10 == 100 * q + r / 10 && n % 10 == r % 10) by (nonlinear_arith)
        requires
            q >= 1,
            r < 1000,
            n == 1000 * q + r,
    ;
    let n1 = 100 * q + r / 10;
    assert(n1 >= 100 && n1 / 10 == 10 * q + (r / 10) / 10 && n1 % 10 == (r / 10) % 10)
        by (nonlinear_arith)
        requires
            q >= 1,
            r < 1000,
            n1 == 100 * q + r / 10,
    ;
    let n2 = 10 * q + (r / 10) / 10;
    assert(n2 >= 10 && n2 / 10 == q && n2 % 10 == (r / 10) / 10) by (nonlinear_arith)
        requires
            q >= 1,
            r < 1000,
            n2 == 10 * q + (r / 10) / 10,
    ;
    assert((r / 10) / 10 == r / 100) by (nonlinear_arith)
        requires
            r < 1000,
    ;
    assert(dec_digits(n) == dec_digits(n1) + seq![digit_char(r % 10)]);
    assert(dec_digits(n1) == dec_digits(n2) + seq![digit_char((r / 10) % 10)]);
    assert(dec_digits(n2) == dec_digits(q) + seq![digit_char(r / 100)]);
    assert(dec_digits(1000 * q + r) =~= dec_digits(q) + seq![
        digit_char(r / 100),
        digit_char((r / 10) % 10),
        digit_char(r % 10),
    ]);
}

/// The thousands-grouped decimal rendering of `n`, such as a population
/// count: groups of three digits from the right, separated by commas.
pub fn grouped_decimal_text(n: u64) -> (s: String)
    ensures
        s@ == count_text(n as nat),
    decreases n,
{
    proof {
        lemma_dec_digits_len(n as nat);
    }
    if n < 1000 {
        decimal_text(n)
    } else {
        let q = n / 1000;
        let r = n % 1000;
        let mut s = grouped_decimal_text(q);
        s.append(",");
        s.append(digit_str(r / 100));
        s.append(digit_str((r / 10) % 10));
        s.append(digit_str(r % 10));
        proof {
            reveal_strlit(",");
            lemma_dec_digits_len(q as nat);
            lemma_dec_digits_split(q as nat, r as nat);
            let digits = dec_digits(n as nat);
            let head = dec_digits(q as nat);
            let tail = seq![
                digit_char((r / 100) as nat),
                digit_char(((r / 10) % 10) as nat),
                digit_char((r % 10) as nat),
            ];
            assert(digits.take(digits.len() - 3) =~= head);
            assert(digits.skip(digits.len() - 3) =~= tail);
            assert(s@ =~= grouped(head) + seq![','] + tail);
        }
        s
    }
}

/// `items` joined with `sep` between consecutive items.
#[verifier::loop_isolation(false)]
pub fn join_texts(items: &Vec<String>, sep: &str) -> (s: String)
    ensures
        s@ == join_with(seq_views(items@), sep@),
{
    let views = Ghost(seq_views(items@));
    let mut s = String::new();
    let n = items.len();
    let mut i: usize = 0;
    while i < n
        invariant
            n == items@.len(),
            i <= n,
            views@ == seq_views(items@),
            views@.len() == n,
            s@ == join_with(views@.take(i as int), sep@),
        decreases n - i,
    {
        if i > 0 {
            s.append(sep);
        }
        s.append(items[i].as_str());
        proof {
            assert(views@.take(i + 1).drop_last() =~= views@.take(i as int));
            assert(views@.take(i + 1).last() == views@[i as int]);
            assert(views@[i as int] == items@[i as int]@);
            if i == 0 {
                assert(s@ =~= join_with(views@.take(1), sep@));
            }
        }
        i = i + 1;
    }
    proof {
        assert(views@.take(n as int) =~= views@);
    }
    s
}

/// The bracketed, quoted, comma-separated rendering of `items`.
#[verifier::loop_isolation(false)]
pub fn listed_text(items: &Vec<String>) -> (s: String)
    ensures
        s@ == listed(seq_views(items@)),
{
    proof {
        reveal_strlit("[");
        reveal_strlit("]");
        reveal_strlit("\"");
        reveal_strlit(", ");
    }
    let quoted_items = Ghost(seq_views(items@).map_values(|t: Seq<char>| quoted(t)));
    let mut s: String = "[".to_owned();
    let n = items.len();
    let mut i: usize = 0;
    while i < n
        invariant
            n == items@.len(),
            quoted_items@ == seq_views(items@).map_values(|t: Seq<char>| quoted(t)),
            quoted_items@.len() == n,
            i <= n,
            s@ == seq!['['] + join_with(quoted_items@.take(i as int), seq![',', ' ']),
        decreases n - i,
    {
        if i > 0 {
            s.append(", ");
        }
        s.append("\"");
        s.append(items[i].as_str());
        s.append("\"");
        proof {
            assert(quoted_items@.take(i + 1).drop_last() =~= quoted_items@.take(i as int));
            assert(quoted_items@.take(i + 1).last() == quoted(items@[i as int]@));
            assert(s@ =~= seq!['['] + join_with(quoted_items@.take(i + 1), seq![',', ' ']));
        }
        i = i + 1;
    }
    s.append("]");
    proof {
        assert(quoted_items@.take(n as int) =~= quoted_items@);
        assert(s@ =~= listed(seq_views(items@)));
    }
    s
}

} // verus!
