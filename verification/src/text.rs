//! Small text utilities shared by the generators.

use vstd::prelude::*;

verus! {

/// The character of a decimal digit.
pub open spec fn digit_char(d: nat) -> char {
    if d == 0 {
        '0'
    } else if d == 1 {
        '1'
    } else if d == 2 {
        '2'
    } else if d == 3 {
        '3'
    } else if d == 4 {
        '4'
    } else if d == 5 {
        '5'
    } else if d == 6 {
        '6'
    } else if d == 7 {
        '7'
    } else if d == 8 {
        '8'
    } else {
        '9'
    }
}

/// The decimal representation of `n`, without leading zeros.
pub open spec fn decimal(n: nat) -> Seq<char>
    decreases n,
{
    if n < 10 {
        seq![digit_char(n)]
    } else {
        decimal(n / 10).push(digit_char(n % 10))
    }
}

fn digit_str(d: u64) -> (r: &'static str)
    requires
        d < 10,
    ensures
        r@ == seq![digit_char(d as nat)],
{
    proof {
        reveal_strlit("0");
        reveal_strlit("1");
        reveal_strlit("2");
        reveal_strlit("3");
        reveal_strlit("4");
        reveal_strlit("5");
        reveal_strlit("6");
        reveal_strlit("7");
        reveal_strlit("8");
        reveal_strlit("9");
    }
    if d == 0 {
        "0"
    } else if d == 1 {
        "1"
    } else if d == 2 {
        "2"
    } else if d == 3 {
        "3"
    } else if d == 4 {
        "4"
    } else if d == 5 {
        "5"
    } else if d == 6 {
        "6"
    } else if d == 7 {
        "7"
    } else if d == 8 {
        "8"
    } else {
        "9"
    }
}

/// Formats `n` in decimal.
pub fn fmt_decimal(n: u64) -> (r: String)
    ensures
        r@ == decimal(n as nat),
    decreases n,
{
    if n < 10 {
        String::from_str(digit_str(n))
    } else {
        let mut s = fmt_decimal(n / 10);
        s.append(digit_str(n % 10));
        s
    }
}

proof fn lemma_digit_char_injective(a: nat, b: nat)
    requires
        a < 10,
        b < 10,
        digit_char(a) == digit_char(b),
    ensures
        a == b,
{
}

proof fn lemma_decimal_len(n: nat)
    ensures
        decimal(n).len() >= 1,
        n >= 10 ==> decimal(n).len() >= 2,
    decreases n,
{
    if n >= 10 {
        lemma_decimal_len(n / 10);
    }
}

/// `a` followed by `b`.
pub fn join2(a: &str, b: &str) -> (r: String)
    ensures
        r@ == a@ + b@,
{
    let mut s = String::from_str(a);
    s.append(b);
    s
}

/// `pre`, `mid` and `post` one after another.
pub fn wrap(pre: &str, mid: &str, post: &str) -> (r: String)
    ensures
        r@ == pre@ + mid@ + post@,
{
    let mut s = String::from_str(pre);
    s.append(mid);
    s.append(post);
    s
}

/// Whether `t` occurs in `s` starting at position `i`.
pub open spec fn occurs_at(s: Seq<char>, t: Seq<char>, i: int) -> bool {
    0 <= i && i + t.len() <= s.len() && s.subrange(i, i + t.len()) == t
}

/// Whether `t` occurs in `s`.
pub open spec fn has_sub(s: Seq<char>, t: Seq<char>) -> bool {
    exists|i: int| #[trigger] occurs_at(s, t, i)
}

/// Every text occurs in itself.
pub proof fn lemma_has_sub_self(t: Seq<char>)
    ensures
        has_sub(t, t),
{
    assert(t.subrange(0, t.len() as int) =~= t);
    assert(occurs_at(t, t, 0));
}

/// What occurs in `s` occurs in `x + s` and in `s + y`.
pub proof fn lemma_has_sub_extend(x: Seq<char>, s: Seq<char>, y: Seq<char>, t: Seq<char>)
    requires
        has_sub(s, t),
    ensures
        has_sub(x + s, t),
        has_sub(s + y, t),
{
    let i = choose|i: int| #[trigger] occurs_at(s, t, i);
    assert((x + s).subrange(i + x.len(), i + x.len() + t.len()) =~= s.subrange(i, i + t.len()));
    assert(occurs_at(x + s, t, i + x.len()));
    assert((s + y).subrange(i, i + t.len()) =~= s.subrange(i, i + t.len()));
    assert(occurs_at(s + y, t, i));
}

/// What occurs in `s` occurs in `x + s`.
pub proof fn lemma_has_sub_prepend(x: Seq<char>, s: Seq<char>, t: Seq<char>)
    requires
        has_sub(s, t),
    ensures
        has_sub(x + s, t),
{
    lemma_has_sub_extend(x, s, Seq::empty(), t);
}

/// What occurs in `s` occurs in `s + y`.
pub proof fn lemma_has_sub_append(s: Seq<char>, y: Seq<char>, t: Seq<char>)
    requires
        has_sub(s, t),
    ensures
        has_sub(s + y, t),
{
    lemma_has_sub_extend(Seq::empty(), s, y, t);
}

/// `t` occurs in `x + t + y`.
pub proof fn lemma_has_sub_middle(x: Seq<char>, t: Seq<char>, y: Seq<char>)
    ensures
        has_sub(x + t + y, t),
{
    lemma_has_sub_self(t);
    lemma_has_sub_extend(x, t, y, t);
    lemma_has_sub_extend(x, t, Seq::empty(), t);
    lemma_has_sub_extend(Seq::empty(), x + t, y, t);
}

/// Distinct numbers have distinct decimal representations.
pub proof fn lemma_decimal_injective(a: nat, b: nat)
    requires
        decimal(a) == decimal(b),
    ensures
        a == b,
    decreases a,
{
    lemma_decimal_len(a);
    lemma_decimal_len(b);
    if a < 10 && b < 10 {
        assert(decimal(a) == seq![digit_char(a)]);
        assert(decimal(b) == seq![digit_char(b)]);
        assert(decimal(a)[0] == digit_char(a));
        assert(decimal(b)[0] == digit_char(b));
        lemma_digit_char_injective(a, b);
    } else if a >= 10 && b >= 10 {
        let da = decimal(a);
        let db = decimal(b);
        assert(da.last() == db.last());
        assert(da.drop_last() =~= decimal(a / 10));
        assert(db.drop_last() =~= decimal(b / 10));
        lemma_digit_char_injective(a % 10, b % 10);
        lemma_decimal_injective(a / 10, b / 10);
    } else {
        assert(decimal(a).len() != decimal(b).len());
    }
}

} // verus!
