//! Text building blocks shared by the renderers and printers.
use vstd::prelude::*;
use vstd::string::*;

verus! {

/// The views of a sequence of strings.
pub open spec fn views(v: Seq<String>) -> Seq<Seq<char>> {
    v.map_values(|s: String| s@)
}

/// The pieces of `items`, in order, with `sep` between each two neighbours.
pub open spec fn joined(items: Seq<Seq<char>>, sep: Seq<char>) -> Seq<char>
    decreases items.len(),
{
    if items.len() == 0 {
        Seq::empty()
    } else if items.len() == 1 {
        items[0]
    } else {
        joined(items.drop_last(), sep) + sep + items.last()
    }
}

/// `value` written `count` times in a row.
pub open spec fn repeated(count: nat, value: Seq<char>) -> Seq<char>
    decreases count,
{
    if count == 0 {
        Seq::empty()
    } else {
        repeated((count - 1) as nat, value) + value
    }
}

/// `value` written `count` times is `count` times as long as `value`.
proof fn lemma_repeated_len(count: nat, value: Seq<char>)
    ensures
        repeated(count, value).len() == count * value.len(),
    decreases count,
{
    if count > 0 {
        let c1 = (count - 1) as nat;
        lemma_repeated_len(c1, value);
        assert(count * value.len() == c1 * value.len() + value.len()) by (nonlinear_arith)
            requires
                c1 + 1 == count,
        ;
    } else {
        assert(count * value.len() == 0) by (nonlinear_arith)
            requires
                count == 0,
        ;
    }
}

/// Writing `value` `a` times and then `b` times is writing it `a + b`
/// times, and `value` written `a` times is `a` times as long as `value`.
pub proof fn law_repeated(a: nat, b: nat, value: Seq<char>)
    ensures
        repeated(a + b, value) == repeated(a, value) + repeated(b, value),
        repeated(a, value).len() == a * value.len(),
    decreases b,
{
    lemma_repeated_len(a, value);
    if b == 0 {
        assert(repeated(a, value) + repeated(0, value) =~= repeated(a, value));
    } else {
        law_repeated(a, (b - 1) as nat, value);
        assert(repeated((a + b) as nat, value) == repeated((a + b - 1) as nat, value) + value);
        assert(repeated(a, value) + repeated(b, value) =~= repeated(a, value) + repeated(
            (b - 1) as nat,
            value,
        ) + value);
    }
}

/// The decimal digit character for `d` (meaningful for `d < 10`).
pub open spec fn digit_char(d: nat) -> char {
    (d + 48) as char
}

/// The decimal notation of `n`, without sign or leading zeros.
pub open spec fn decimal_text(n: nat) -> Seq<char>
    decreases n,
{
    if n < 10 {
        seq![digit_char(n)]
    } else {
        decimal_text(n / 10) + seq![digit_char(n % 10)]
    }
}

/// Whether `c` is one of the ASCII digits `0` to `9`.
pub open spec fn is_digit(c: char) -> bool {
    '0' <= c && c <= '9'
}

/// The number of ASCII digits at the start of `s`.
pub open spec fn leading_digit_count(s: Seq<char>) -> nat
    decreases s.len(),
{
    if s.len() > 0 && is_digit(s[0]) {
        1 + leading_digit_count(s.drop_first())
    } else {
        0
    }
}

/// The ASCII digits at the start of `s` (the text that `parseInt` reads).
pub open spec fn digit_prefix(s: Seq<char>) -> Seq<char> {
    s.take(leading_digit_count(s) as int)
}

/// Joins the strings of `items` with `sep` between each two neighbours.
pub fn join(items: &Vec<String>, sep: &str) -> (r: String)
    ensures
        r@ == joined(views(items@), sep@),
{
    let mut r = String::new();
    let mut i: usize = 0;
    while i < items.len()
        invariant
            0 <= i <= items.len(),
            r@ == joined(views(items@).take(i as int), sep@),
        decreases items.len() - i,
    {
        if i > 0 {
            r.append(sep);
        }
        r.append(items[i].as_str());
        proof {
            assert(views(items@).take(i + 1).drop_last() =~= views(items@).take(i as int));
        }
        i = i + 1;
    }
    proof {
        assert(views(items@).take(items.len() as int) =~= views(items@));
    }
    r
}

/// The one-character literal of the digit `d`.
fn digit_str(d: usize) -> (r: &'static str)
    requires
        d < 10,
    ensures
        r@ == seq![digit_char(d as nat)],
{
    proof {
        reveal_strlit("0");
        reveal_strlit("1");
        reveal_strlit("2");
        reveal_strlit("3");
        reveal_strlit("4");
        reveal_strlit("5");
        reveal_strlit("6");
        reveal_strlit("7");
        reveal_strlit("8");
        reveal_strlit("9");
    }
    if d == 0 {
        "0"
    } else if d == 1 {
        "1"
    } else if d == 2 {
        "2"
    } else if d == 3 {
        "3"
    } else if d == 4 {
        "4"
    } else if d == 5 {
        "5"
    } else if d == 6 {
        "6"
    } else if d == 7 {
        "7"
    } else if d == 8 {
        "8"
    } else {
        "9"
    }
}

/// Appends the decimal notation of `n` to `buf`.
pub fn push_decimal(buf: &mut String, n: usize)
    ensures
        final(buf)@ == old(buf)@ + decimal_text(n as nat),
    decreases n,
{
    if n >= 10 {
        push_decimal(buf, n / 10);
    }
    buf.append(digit_str(n % 10));
    proof {
        assert(old(buf)@ + decimal_text(n as nat) =~= if n >= 10 {
            old(buf)@ + decimal_text((n / 10) as nat) + seq![digit_char((n % 10) as nat)]
        } else {
            old(buf)@ + seq![digit_char(n as nat)]
        });
    }
}

/// The decimal notation of `n`.
pub fn decimal(n: usize) -> (r: String)
    ensures
        r@ == decimal_text(n as nat),
{
    let mut r = String::new();
    push_decimal(&mut r, n);
    proof {
        assert(r@ =~= decimal_text(n as nat));
    }
    r
}

/// Whether the two texts hold the same characters.
pub fn same_text(a: &str, b: &str) -> (r: bool)
    ensures
        r == (a@ == b@),
{
    let n = a.unicode_len();
    let m = b.unicode_len();
    if n != m {
        return false;
    }
    let mut i: usize = 0;
    while i < n
        invariant
            n == a@.len(),
            m == b@.len(),
            n == m,
            i <= n,
            forall|j: int| 0 <= j < i ==> a@[j] == b@[j],
        decreases n - i,
    {
        if a.get_char(i) != b.get_char(i) {
            return false;
        }
        i = i + 1;
    }
    assert(a@ =~= b@);
    true
}

proof fn lemma_leading_digits(s: Seq<char>, i: int)
    requires
        0 <= i <= s.len(),
        forall|j: int| 0 <= j < i ==> is_digit(#[trigger] s[j]),
        i == s.len() || !is_digit(s[i]),
    ensures
        leading_digit_count(s) == i,
    decreases i,
{
    if i > 0 {
        lemma_leading_digits(s.drop_first(), i - 1);
    }
}

/// The ASCII digits at the start of `s`.
pub fn leading_digits(s: &str) -> (r: String)
    ensures
        r@ == digit_prefix(s@),
{
    let n = s.unicode_len();
    let mut k: usize = 0;
    while k < n && '0' <= s.get_char(k) && s.get_char(k) <= '9'
        invariant
            n == s@.len(),
            k <= n,
            forall|j: int| 0 <= j < k ==> is_digit(#[trigger] s@[j]),
        decreases n - k,
    {
        k = k + 1;
    }
    proof {
        lemma_leading_digits(s@, k as int);
    }
    String::from_str(s.substring_char(0, k))
}

/// Appends `count` spaces to `buf`.
pub fn push_spaces(buf: &mut String, count: usize)
    ensures
        final(buf)@ == old(buf)@ + repeated(count as nat, " "@),
{
    let mut i: usize = 0;
    while i < count
        invariant
            i <= count,
            buf@ == old(buf)@ + repeated(i as nat, " "@),
        decreases count - i,
    {
        buf.append(" ");
        proof {
            assert(old(buf)@ + repeated((i + 1) as nat, " "@) =~= old(buf)@ + repeated(i as nat, " "@) + " "@);
        }
        i = i + 1;
    }
}

/// Whether `a` comes before `b` in lexicographic order of characters (a
/// proper prefix comes first).
pub open spec fn text_less(a: Seq<char>, b: Seq<char>) -> bool
    decreases a.len(),
{
    if a.len() == 0 {
        b.len() > 0
    } else if b.len() == 0 {
        false
    } else if a[0] != b[0] {
        a[0] < b[0]
    } else {
        text_less(a.drop_first(), b.drop_first())
    }
}

/// After a common prefix of length `i`, the order is that of the rests.
pub proof fn lemma_text_less_skip(a: Seq<char>, b: Seq<char>, i: int)
    requires
        0 <= i <= a.len(),
        i <= b.len(),
        forall|j: int| 0 <= j < i ==> a[j] == b[j],
    ensures
        text_less(a, b) == text_less(a.skip(i), b.skip(i)),
    decreases i,
{
    if i > 0 {
        assert forall|j: int| 0 <= j < i - 1 implies a.drop_first()[j] == b.drop_first()[j] by {
            assert(a.drop_first()[j] == a[j + 1]);
            assert(b.drop_first()[j] == b[j + 1]);
        }
        lemma_text_less_skip(a.drop_first(), b.drop_first(), i - 1);
        assert(a.drop_first().skip(i - 1) =~= a.skip(i));
        assert(b.drop_first().skip(i - 1) =~= b.skip(i));
    } else {
        assert(a.skip(0) =~= a);
        assert(b.skip(0) =~= b);
    }
}

/// Compares two texts character by character: `-1` when `a` comes first,
/// `0` when they are equal, `1` when `b` comes first.
pub fn compare_texts(a: &str, b: &str) -> (r: i8)
    ensures
        (r == -1) == text_less(a@, b@),
        (r == 0) == (a@ == b@),
        (r == 1) == text_less(b@, a@),
        r == -1 || r == 0 || r == 1,
{
    let n = a.unicode_len();
    let m = b.unicode_len();
    let mut i: usize = 0;
    while i < n && i < m && a.get_char(i) == b.get_char(i)
        invariant
            n == a@.len(),
            m == b@.len(),
            i <= n,
            i <= m,
            forall|j: int| 0 <= j < i ==> a@[j] == b@[j],
        decreases n - i,
    {
        i = i + 1;
    }
    proof {
        lemma_text_less_skip(a@, b@, i as int);
        assert forall|j: int| 0 <= j < i implies b@[j] == a@[j] by {}
        lemma_text_less_skip(b@, a@, i as int);
    }
    if i == n && i == m {
        assert(a@ =~= b@);
        0
    } else if i == n {
        assert(a@.len() != b@.len());
        -1
    } else if i == m {
        assert(a@.len() != b@.len());
        1
    } else {
        let x = a.get_char(i);
        let y = b.get_char(i);
        assert(a@.skip(i as int)[0] == x);
        assert(b@.skip(i as int)[0] == y);
        assert(a@[i as int] != b@[i as int]);
        if x < y {
            -1
        } else {
            1
        }
    }
}

} // verus!
