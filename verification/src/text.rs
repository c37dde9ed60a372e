//! Strings: the pieces that the other modules build their texts from.
use vstd::prelude::*;

verus! {

/// `String::push`: the string with the character added at its end.
pub assume_specification[ String::push ](s: &mut String, c: char)
    ensures
        final(s)@ == old(s)@.push(c),
;

/// The decimal digit of the last place of `n`.
pub open spec fn last_digit(n: nat) -> char {
    (('0' as u8) + n % 10) as char
}

/// `n` in decimal, filled up with leading zeros to at least `width` digits.
pub open spec fn decimal(n: nat, width: nat) -> Seq<char>
    decreases n, width,
{
    if n < 10 && width <= 1 {
        seq![last_digit(n)]
    } else {
        decimal(n / 10, if width == 0 { 0 } else { (width - 1) as nat }).push(last_digit(n))
    }
}

/// The number that a text of decimal digits gives.
pub open spec fn number(digits: Seq<char>) -> int
    decreases digits.len(),
{
    if digits.len() == 0 {
        0
    } else {
        10 * number(digits.drop_last()) + (digits.last() as int - '0' as int)
    }
}

/// The number that a text of decimal digits gives, which may have a sign in front.
pub open spec fn signed_number(text: Seq<char>) -> int {
    if text.len() > 0 && text[0] == '-' {
        -number(text.drop_first())
    } else if text.len() > 0 && text[0] == '+' {
        number(text.drop_first())
    } else {
        number(text)
    }
}

/// A number in decimal gives the number back, and has no sign.
pub proof fn number_reads_back(n: nat, width: nat)
    ensures
        number(decimal(n, width)) == n,
        signed_number(decimal(n, width)) == n,
        decimal(n, width).len() > 0,
        '0' as int <= decimal(n, width)[0] as int,
    decreases n, width,
{
    let digits = decimal(n, width);
    if n < 10 && width <= 1 {
        assert(digits.drop_last() =~= Seq::empty());
        assert(number(digits.drop_last()) == 0);
    } else {
        let shorter: nat = if width == 0 { 0 } else { (width - 1) as nat };
        number_reads_back(n / 10, shorter);
        assert(digits.drop_last() =~= decimal(n / 10, shorter));
        assert(digits[0] == decimal(n / 10, shorter)[0]);
    }
}

/// Whether a character is a decimal digit.
pub open spec fn is_digit(c: char) -> bool {
    '0' <= c <= '9'
}

pub(crate) proof fn decimal_has_digits(n: nat, width: nat)
    ensures
        forall|i: int|
            0 <= i < decimal(n, width).len() ==> is_digit(#[trigger] decimal(n, width)[i]),
    decreases n, width,
{
    let digits = decimal(n, width);
    let shorter: nat = if width == 0 { 0 } else { (width - 1) as nat };
    assert(is_digit(last_digit(n)));
    if n >= 10 || width > 1 {
        decimal_has_digits(n / 10, shorter);
        let front = decimal(n / 10, shorter);
        assert(digits == front.push(last_digit(n)));
        assert forall|i: int| 0 <= i < digits.len() implies is_digit(#[trigger] digits[i]) by {
            if i < front.len() {
                assert(digits[i] == front[i]);
            }
        }
    }
}

/// Whether a text sorts before another one, character by character.
pub open spec fn sorts_before(a: Seq<char>, b: Seq<char>) -> bool {
    exists|i: int| #[trigger]
        agree_up_to(a, b, i) && i < b.len() && (i < a.len() ==> (a[i] as int) < (b[i] as int))
}

/// Whether both texts start with the same `i` characters.
pub open spec fn agree_up_to(a: Seq<char>, b: Seq<char>, i: int) -> bool {
    0 <= i <= a.len() && i <= b.len() && a.take(i) == b.take(i)
}

/// No text sorts before itself, and no two texts sort before each other.
pub proof fn sorts_one_way(a: Seq<char>, b: Seq<char>)
    ensures
        !(sorts_before(a, b) && sorts_before(b, a)),
        a == b ==> !sorts_before(a, b),
{
    if sorts_before(a, b) {
        let i = choose|i: int| #[trigger]
            agree_up_to(a, b, i) && i < b.len() && (i < a.len() ==> (a[i] as int) < (
            b[i] as int));
        if sorts_before(b, a) {
            let j = choose|j: int| #[trigger]
                agree_up_to(b, a, j) && j < a.len() && (j < b.len() ==> (b[j] as int) < (
                a[j] as int));
            if i < j {
                assert(a.take(j)[i] == b.take(j)[i]);
            } else if j < i {
                assert(a.take(i)[j] == b.take(i)[j]);
            }
        }
    }
}

/// Two numbers in the same number of digits sort by their size, whatever comes
/// behind them in the text.
pub proof fn numbers_sort_by_size(
    m: nat,
    n: nat,
    width: nat,
    start: Seq<char>,
    a: Seq<char>,
    b: Seq<char>,
)
    requires
        m < n,
        decimal(m, width).len() == decimal(n, width).len(),
        (start + decimal(m, width)).is_prefix_of(a),
        (start + decimal(n, width)).is_prefix_of(b),
    ensures
        sorts_before(a, b),
    decreases n, width,
{
    let x = start + decimal(m, width);
    let y = start + decimal(n, width);
    let last = x.len() - 1;
    if n < 10 && width <= 1 {
        assert(decimal(m, width) == seq![last_digit(m)]);
        assert(a.take(last) =~= b.take(last)) by {
            assert(x.take(last) =~= start);
            assert(y.take(last) =~= start);
            assert(a.take(last) =~= x.take(last));
            assert(b.take(last) =~= y.take(last));
        }
        assert(a[last] == x[last] && b[last] == y[last]);
        assert(agree_up_to(a, b, last));
    } else {
        let shorter: nat = if width == 0 { 0 } else { (width - 1) as nat };
        let p = decimal(m / 10, shorter);
        let q = decimal(n / 10, shorter);
        assert(!(m < 10 && width <= 1)) by {
            if m < 10 && width <= 1 {
                assert(decimal(m, width).len() == 1);
                assert(q.len() == 0);
                number_reads_back(n / 10, shorter);
            }
        }
        assert(x.drop_last() =~= start + p);
        assert(y.drop_last() =~= start + q);
        assert((start + p).is_prefix_of(a));
        assert((start + q).is_prefix_of(b));
        if m / 10 < n / 10 {
            numbers_sort_by_size(m / 10, n / 10, shorter, start, a, b);
        } else {
            assert(a.take(last) =~= start + p);
            assert(b.take(last) =~= start + q);
            assert(a[last] == x[last] && b[last] == y[last]);
            assert(agree_up_to(a, b, last));
        }
    }
}

/// The texts in order, with `separator` between each two of them.
pub open spec fn joined(texts: Seq<Seq<char>>, separator: Seq<char>) -> Seq<char>
    decreases texts.len(),
{
    if texts.len() == 0 {
        Seq::empty()
    } else if texts.len() == 1 {
        texts[0]
    } else {
        joined(texts.drop_last(), separator) + separator + texts.last()
    }
}

/// Where the part of this number starts in a list of parts with two characters
/// between each two of them.
pub open spec fn place(parts: Seq<Seq<char>>, k: nat) -> int
    decreases k,
{
    if k == 0 {
        0
    } else {
        place(parts, (k - 1) as nat) + parts[k - 1].len() + 2
    }
}

/// Whether the text holds each part whole and in its place, one after the other,
/// with a semicolon and a space between each two and nothing else.
pub open spec fn lists(text: Seq<char>, parts: Seq<Seq<char>>) -> bool {
    if parts.len() == 0 {
        text.len() == 0
    } else {
        &&& text.len() + 2 == place(parts, parts.len())
        &&& forall|k: int|
            0 <= k < parts.len() ==> text.subrange(
                place(parts, k as nat),
                place(parts, k as nat) + parts[k].len(),
            ) == #[trigger] parts[k]
        &&& forall|k: int|
            0 < k < parts.len() ==> {
                &&& text[#[trigger] place(parts, k as nat) - 2] == ';'
                &&& text[place(parts, k as nat) - 1] == ' '
            }
    }
}

proof fn places_follow(parts: Seq<Seq<char>>, k: nat, n: nat)
    requires
        k < n <= parts.len(),
    ensures
        0 <= place(parts, k),
        place(parts, k) + parts[k as int].len() + 2 <= place(parts, n),
    decreases n,
{
    if k + 1 < n {
        places_follow(parts, k, (n - 1) as nat);
    } else if k > 0 {
        places_follow(parts, 0, k);
    }
}

proof fn places_of_front(parts: Seq<Seq<char>>, k: nat)
    requires
        k < parts.len(),
    ensures
        place(parts.drop_last(), k) == place(parts, k),
    decreases k,
{
    if k > 0 {
        places_of_front(parts, (k - 1) as nat);
    }
}

pub(crate) proof fn joined_lists(parts: Seq<Seq<char>>)
    ensures
        lists(joined(parts, "; "@), parts),
    decreases parts.len(),
{
    reveal_strlit("; ");
    let text = joined(parts, "; "@);
    if parts.len() == 1 {
        assert(place(parts, 0) == 0);
        assert(place(parts, 1) == parts[0].len() + 2);
        assert(text.subrange(0, parts[0].len() as int) =~= parts[0]);
    } else if parts.len() > 1 {
        let front = parts.drop_last();
        let n = front.len();
        joined_lists(front);
        let before = joined(front, "; "@);
        places_of_front(parts, n);
        assert(before.len() + 2 == place(parts, n));
        assert(text == before + "; "@ + parts.last());
        assert forall|k: int| 0 <= k < parts.len() implies text.subrange(
            place(parts, k as nat),
            place(parts, k as nat) + parts[k].len(),
        ) == #[trigger] parts[k] by {
            let start = place(parts, k as nat);
            if k < n {
                places_of_front(parts, k as nat);
                places_follow(front, k as nat, n);
                assert(front[k] == parts[k]);
                assert(text.subrange(start, start + parts[k].len()) =~= before.subrange(
                    start,
                    start + parts[k].len(),
                ));
            } else {
                assert(text.subrange(start, start + parts[k].len()) =~= parts[k]);
            }
        }
        assert forall|k: int| 0 < k < parts.len() implies {
            &&& text[#[trigger] place(parts, k as nat) - 2] == ';'
            &&& text[place(parts, k as nat) - 1] == ' '
        } by {
            if k < n {
                places_of_front(parts, k as nat);
                places_follow(front, k as nat, n);
                places_follow(front, (k - 1) as nat, k as nat);
                let start = place(front, k as nat);
                assert(before[start - 2] == ';');
                assert(text[start - 2] == before[start - 2]);
                assert(text[start - 1] == before[start - 1]);
            }
        }
    }
}

} // verus!
