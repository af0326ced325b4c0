//! Small verified text helpers: decimal rendering and joining.

use vstd::prelude::*;

verus! {

/// The character of a decimal digit.
pub open spec fn digit_char(d: nat) -> char {
    if d == 0 { '0' }
    else if d == 1 { '1' }
    else if d == 2 { '2' }
    else if d == 3 { '3' }
    else if d == 4 { '4' }
    else if d == 5 { '5' }
    else if d == 6 { '6' }
    else if d == 7 { '7' }
    else if d == 8 { '8' }
    else { '9' }
}

/// Decimal rendering of a natural number, most significant digit first.
pub open spec fn decimal(n: nat) -> Seq<char>
    decreases n,
{
    if n < 10 {
        seq![digit_char(n)]
    } else {
        decimal(n / 10).push(digit_char(n % 10))
    }
}

/// `items` separated by `sep`.
pub open spec fn join(items: Seq<Seq<char>>, sep: Seq<char>) -> Seq<char>
    decreases items.len(),
{
    if items.len() == 0 {
        Seq::empty()
    } else if items.len() == 1 {
        items[0]
    } else {
        join(items.drop_last(), sep) + sep + items.last()
    }
}

/// The views of a sequence of strings.
pub open spec fn views(v: Seq<String>) -> Seq<Seq<char>> {
    v.map_values(|s: String| s@)
}

fn digit_str(d: u32) -> (r: &'static str)
    requires
        d < 10,
    ensures
        r@ == seq![digit_char(d as nat)],
{
    proof {
        reveal_strlit("0");
        reveal_strlit("1");
        reveal_strlit("2");
        reveal_strlit("3");
        reveal_strlit("4");
        reveal_strlit("5");
        reveal_strlit("6");
        reveal_strlit("7");
        reveal_strlit("8");
        reveal_strlit("9");
    }
    if d == 0 { "0" }
    else if d == 1 { "1" }
    else if d == 2 { "2" }
    else if d == 3 { "3" }
    else if d == 4 { "4" }
    else if d == 5 { "5" }
    else if d == 6 { "6" }
    else if d == 7 { "7" }
    else if d == 8 { "8" }
    else { "9" }
}

/// Appends the decimal rendering of `n` to `s`.
pub fn push_decimal(s: &mut String, n: u32)
    ensures
        final(s)@ == old(s)@ + decimal(n as nat),
    decreases n,
{
    if n >= 10 {
        push_decimal(s, n / 10);
    }
    s.append(digit_str(n % 10));
    proof {
        if n >= 10 {
            assert(old(s)@ + decimal(n as nat) =~= old(s)@ + decimal((n / 10) as nat) + seq![digit_char((n % 10) as nat)]);
        } else {
            assert(decimal(n as nat) == seq![digit_char(n as nat)]);
        }
    }
}

/// Appends `items`, separated by `sep`, to `s`.
pub fn push_joined(s: &mut String, items: &Vec<String>, sep: &str)
    ensures
        final(s)@ == old(s)@ + join(views(items@), sep@),
{
    let ghost start = s@;
    let mut i: usize = 0;
    while i < items.len()
        invariant
            i <= items@.len(),
            s@ == start + join(views(items@.subrange(0, i as int)), sep@),
        decreases items@.len() - i,
    {
        let ghost prev = views(items@.subrange(0, i as int));
        if i > 0 {
            s.append(sep);
        }
        s.append(items[i].as_str());
        proof {
            let cur = views(items@.subrange(0, i + 1));
            assert(cur.drop_last() =~= prev);
            assert(cur.last() == items@[i as int]@);
            if i == 0 {
                assert(cur.len() == 1);
                assert(start + join(cur, sep@) =~= start + Seq::<char>::empty() + items@[i as int]@);
            } else {
                assert(start + join(cur, sep@) =~= start + join(prev, sep@) + sep@ + items@[i as int]@);
            }
        }
        i = i + 1;
    }
    assert(items@.subrange(0, items@.len() as int) =~= items@);
}

/// Whether some string of `items` equals `target`.
pub fn contains_str(items: &Vec<String>, target: &str) -> (r: bool)
    ensures
        r == exists|i: int| 0 <= i < items@.len() && #[trigger] items@[i]@ == target@,
{
    let t = String::from_str(target);
    let mut i: usize = 0;
    while i < items.len()
        invariant
            i <= items@.len(),
            t@ == target@,
            forall|j: int| 0 <= j < i ==> #[trigger] items@[j]@ != target@,
        decreases items@.len() - i,
    {
        if items[i] == t {
            return true;
        }
        i = i + 1;
    }
    false
}

} // verus!
