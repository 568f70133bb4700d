//! Text building blocks: decimal numbers, parameter names, separated lists.

use vstd::prelude::*;

verus! {

/// The character of one decimal digit.
pub open spec fn digit_char(d: nat) -> char {
    if d == 0 {
        '0'
    } else if d == 1 {
        '1'
    } else if d == 2 {
        '2'
    } else if d == 3 {
        '3'
    } else if d == 4 {
        '4'
    } else if d == 5 {
        '5'
    } else if d == 6 {
        '6'
    } else if d == 7 {
        '7'
    } else if d == 8 {
        '8'
    } else {
        '9'
    }
}

/// The decimal text of a natural number, most significant digit first,
/// without leading zeros.
pub open spec fn decimal_text(n: nat) -> Seq<char>
    decreases n,
{
    if n < 10 {
        seq![digit_char(n)]
    } else {
        decimal_text(n / 10).push(digit_char(n % 10))
    }
}

/// The name that the parameter at `position` carries in generated source.
pub open spec fn param_name(position: nat) -> Seq<char> {
    "var"@ + decimal_text(position)
}

/// `items` one after the other, with `sep` between neighbours.
pub open spec fn join_text(items: Seq<Seq<char>>, sep: Seq<char>) -> Seq<char>
    decreases items.len(),
{
    if items.len() == 0 {
        Seq::empty()
    } else if items.len() == 1 {
        items[0]
    } else {
        items[0] + sep + join_text(items.skip(1), sep)
    }
}

/// Decimal text has at least one character.
pub proof fn lemma_decimal_text_nonempty(n: nat)
    ensures
        decimal_text(n).len() >= 1,
    decreases n,
{
    if n >= 10 {
        lemma_decimal_text_nonempty(n / 10);
    }
}

/// Different numbers have different decimal texts.
pub proof fn lemma_decimal_text_injective(a: nat, b: nat)
    requires
        decimal_text(a) == decimal_text(b),
    ensures
        a == b,
    decreases a,
{
    lemma_decimal_text_nonempty(a / 10);
    lemma_decimal_text_nonempty(b / 10);
    if a < 10 && b < 10 {
        assert(decimal_text(a)[0] == digit_char(a));
        assert(decimal_text(b)[0] == digit_char(b));
    } else if a >= 10 && b >= 10 {
        let pa = decimal_text(a / 10);
        let pb = decimal_text(b / 10);
        assert(decimal_text(a) == pa.push(digit_char(a % 10)));
        assert(decimal_text(b) == pb.push(digit_char(b % 10)));
        assert(pa.push(digit_char(a % 10)).last() == digit_char(a % 10));
        assert(pb.push(digit_char(b % 10)).last() == digit_char(b % 10));
        assert(pa.push(digit_char(a % 10)).drop_last() == pa);
        assert(pb.push(digit_char(b % 10)).drop_last() == pb);
        lemma_decimal_text_injective(a / 10, b / 10);
    } else if a < 10 {
        assert(decimal_text(a).len() == 1);
        assert(decimal_text(b) == decimal_text(b / 10).push(digit_char(b % 10)));
        assert(decimal_text(b).len() >= 2);
    } else {
        assert(decimal_text(b).len() == 1);
        assert(decimal_text(a) == decimal_text(a / 10).push(digit_char(a % 10)));
        assert(decimal_text(a).len() >= 2);
    }
}

/// Different positions have different parameter names.
pub proof fn lemma_param_name_injective(a: nat, b: nat)
    requires
        param_name(a) == param_name(b),
    ensures
        a == b,
{
    let p = "var"@;
    assert((p + decimal_text(a)).subrange(p.len() as int, (p + decimal_text(a)).len() as int)
        == decimal_text(a));
    assert((p + decimal_text(b)).subrange(p.len() as int, (p + decimal_text(b)).len() as int)
        == decimal_text(b));
    lemma_decimal_text_injective(a, b);
}

/// One decimal digit as a string.
fn digit_str(d: usize) -> (s: &'static str)
    requires
        d < 10,
    ensures
        s@ == seq![digit_char(d as nat)],
{
    proof {
        reveal_strlit("0");
        reveal_strlit("1");
        reveal_strlit("2");
        reveal_strlit("3");
        reveal_strlit("4");
        reveal_strlit("5");
        reveal_strlit("6");
        reveal_strlit("7");
        reveal_strlit("8");
        reveal_strlit("9");
    }
    let s: &'static str = if d == 0 {
        "0"
    } else if d == 1 {
        "1"
    } else if d == 2 {
        "2"
    } else if d == 3 {
        "3"
    } else if d == 4 {
        "4"
    } else if d == 5 {
        "5"
    } else if d == 6 {
        "6"
    } else if d == 7 {
        "7"
    } else if d == 8 {
        "8"
    } else {
        "9"
    };
    assert(s@ =~= seq![digit_char(d as nat)]);
    s
}

/// Writes `n` in decimal.
pub fn decimal_string(n: usize) -> (s: String)
    ensures
        s@ == decimal_text(n as nat),
    decreases n,
{
    if n < 10 {
        String::from_str(digit_str(n))
    } else {
        let mut s = decimal_string(n / 10);
        s.append(digit_str(n % 10));
        assert(s@ =~= decimal_text(n as nat));
        s
    }
}

/// Builds the name of the parameter at `position`.
pub fn make_param_name(position: usize) -> (name: String)
    ensures
        name@ == param_name(position as nat),
{
    let mut name = String::from_str("var");
    let digits = decimal_string(position);
    name.append(digits.as_str());
    name
}

/// Joining one more item at the end appends the separator and the item.
pub proof fn lemma_join_text_push(items: Seq<Seq<char>>, sep: Seq<char>, last: Seq<char>)
    ensures
        join_text(items.push(last), sep) == if items.len() == 0 {
            last
        } else {
            join_text(items, sep) + sep + last
        },
    decreases items.len(),
{
    let all = items.push(last);
    if items.len() == 0 {
        assert(all[0] == last);
    } else if items.len() == 1 {
        assert(all.skip(1) =~= seq![last]);
        assert(join_text(all.skip(1), sep) == last);
    } else {
        lemma_join_text_push(items.skip(1), sep, last);
        assert(all.skip(1) =~= items.skip(1).push(last));
        assert(join_text(all, sep) =~= join_text(items, sep) + sep + last);
    }
}

/// Joins `items` with `sep` between neighbours.
pub fn join_strings(items: &Vec<String>, sep: &str) -> (joined: String)
    ensures
        joined@ == join_text(items@.map_values(|s: String| s@), sep@),
{
    let ghost texts = items@.map_values(|s: String| s@);
    let mut joined = String::new();
    let mut i: usize = 0;
    while i < items.len()
        invariant
            i <= items.len(),
            texts == items@.map_values(|s: String| s@),
            joined@ == join_text(texts.take(i as int), sep@),
        decreases items.len() - i,
    {
        proof {
            lemma_join_text_push(texts.take(i as int), sep@, texts[i as int]);
            assert(texts.take(i as int + 1) =~= texts.take(i as int).push(texts[i as int]));
        }
        if i > 0 {
            joined.append(sep);
        }
        joined.append(items[i].as_str());
        i = i + 1;
    }
    proof {
        assert(texts.take(i as int) =~= texts);
    }
    joined
}

} // verus!
