use vstd::prelude::*;

verus! {

/// The characters of `s`, in order.
pub fn chars_of(s: &str) -> (v: Vec<char>)
    ensures
        v@ == s@,
{
    let mut v: Vec<char> = Vec::new();
    for c in it: s.chars()
        invariant
            v@ == it.seq().take(it.index() as int),
            it.seq() == s@,
    {
        v.push(c);
    }
    v
}

/// Whether two strings hold the same characters.
pub fn str_eq(a: &str, b: &str) -> (r: bool)
    ensures
        r == (a@ == b@),
{
    let va = chars_of(a);
    let vb = chars_of(b);
    if va.len() != vb.len() {
        return false;
    }
    let mut i: usize = 0;
    while i < va.len()
        invariant
            va@ == a@,
            vb@ == b@,
            va@.len() == vb@.len(),
            0 <= i <= va.len(),
            forall|j: int| 0 <= j < i ==> va@[j] == vb@[j],
        decreases va.len() - i,
    {
        if va[i] != vb[i] {
            return false;
        }
        i = i + 1;
    }
    assert(va@ =~= vb@);
    true
}


/// The decimal digit for `d < 10`.
pub open spec fn spec_digit(d: nat) -> char {
    if d == 0 { '0' }
    else if d == 1 { '1' }
    else if d == 2 { '2' }
    else if d == 3 { '3' }
    else if d == 4 { '4' }
    else if d == 5 { '5' }
    else if d == 6 { '6' }
    else if d == 7 { '7' }
    else if d == 8 { '8' }
    else { '9' }
}

/// The decimal notation of `n`, without leading zeros.
pub open spec fn spec_decimal(n: nat) -> Seq<char>
    decreases n,
{
    if n < 10 {
        seq![spec_digit(n)]
    } else {
        spec_decimal(n / 10) + seq![spec_digit(n % 10)]
    }
}

fn digit_str(d: usize) -> (s: &'static str)
    requires
        d < 10,
    ensures
        s@ == seq![spec_digit(d as nat)],
{
    proof {
        reveal_strlit("0");
        reveal_strlit("1");
        reveal_strlit("2");
        reveal_strlit("3");
        reveal_strlit("4");
        reveal_strlit("5");
        reveal_strlit("6");
        reveal_strlit("7");
        reveal_strlit("8");
        reveal_strlit("9");
    }
    if d == 0 { "0" }
    else if d == 1 { "1" }
    else if d == 2 { "2" }
    else if d == 3 { "3" }
    else if d == 4 { "4" }
    else if d == 5 { "5" }
    else if d == 6 { "6" }
    else if d == 7 { "7" }
    else if d == 8 { "8" }
    else { "9" }
}

/// Appends the decimal notation of `n` to `out`.
pub fn push_decimal(out: &mut String, n: usize)
    ensures
        final(out)@ == old(out)@ + spec_decimal(n as nat),
    decreases n,
{
    if n < 10 {
        out.append(digit_str(n));
    } else {
        push_decimal(out, n / 10);
        out.append(digit_str(n % 10));
        proof {
            assert(old(out)@ + spec_decimal(n as nat) =~= old(out)@ + spec_decimal((n / 10) as nat)
                + seq![spec_digit((n % 10) as nat)]);
        }
    }
}

/// The decimal notation of `n`, as `n.to_string()` writes it.
pub fn decimal(n: usize) -> (s: String)
    ensures
        s@ == spec_decimal(n as nat),
{
    let mut s = String::new();
    push_decimal(&mut s, n);
    proof {
        assert(s@ =~= spec_decimal(n as nat));
    }
    s
}


/// `t` occurs in `s` as a contiguous piece.
pub open spec fn spec_contains(s: Seq<char>, t: Seq<char>) -> bool {
    exists|i: int| 0 <= i && i + t.len() <= s.len() && #[trigger] s.subrange(i, i + t.len()) == t
}

/// A piece of either part of a concatenation is a piece of the whole.
pub broadcast proof fn lemma_contains_concat(a: Seq<char>, b: Seq<char>, t: Seq<char>)
    ensures
        (spec_contains(a, t) || spec_contains(b, t)) ==> #[trigger] spec_contains(a + b, t),
{
    if spec_contains(a, t) {
        let i = choose|i: int| 0 <= i && i + t.len() <= a.len() && #[trigger] a.subrange(i, i + t.len()) == t;
        assert((a + b).subrange(i, i + t.len()) =~= a.subrange(i, i + t.len()));
    } else if spec_contains(b, t) {
        let i = choose|i: int| 0 <= i && i + t.len() <= b.len() && #[trigger] b.subrange(i, i + t.len()) == t;
        let j = a.len() + i;
        assert((a + b).subrange(j, j + t.len()) =~= b.subrange(i, i + t.len()));
    }
}

/// Every text is a piece of itself.
pub broadcast proof fn lemma_contains_self(t: Seq<char>)
    ensures
        #[trigger] spec_contains(t, t),
{
    assert(t.subrange(0, 0 + t.len() as int) =~= t);
}

/// The last three pieces of a concatenation, taken together, are a piece of it.
pub broadcast proof fn lemma_contains_last3(h: Seq<char>, a: Seq<char>, b: Seq<char>, c: Seq<char>)
    ensures
        spec_contains(#[trigger] (h + a + b + c), a + b + c),
{
    let t = a + b + c;
    assert((h + a + b + c).subrange(h.len() as int, (h.len() + t.len()) as int) =~= t);
}

/// The last five pieces of a concatenation, taken together, are a piece of it.
pub broadcast proof fn lemma_contains_last5(
    h: Seq<char>,
    a: Seq<char>,
    b: Seq<char>,
    c: Seq<char>,
    d: Seq<char>,
    e: Seq<char>,
)
    ensures
        spec_contains(#[trigger] (h + a + b + c + d + e), a + b + c + d + e),
{
    let t = a + b + c + d + e;
    assert((h + a + b + c + d + e).subrange(h.len() as int, (h.len() + t.len()) as int) =~= t);
}

/// The last seven pieces of a concatenation, taken together, are a piece of it.
pub broadcast proof fn lemma_contains_last7(
    h: Seq<char>,
    a: Seq<char>,
    b: Seq<char>,
    c: Seq<char>,
    d: Seq<char>,
    e: Seq<char>,
    f: Seq<char>,
    g: Seq<char>,
)
    ensures
        spec_contains(#[trigger] (h + a + b + c + d + e + f + g), a + b + c + d + e + f + g),
{
    let t = a + b + c + d + e + f + g;
    assert((h + a + b + c + d + e + f + g).subrange(h.len() as int, (h.len() + t.len()) as int) =~= t);
}

pub broadcast group group_contains {
    lemma_contains_concat,
    lemma_contains_self,
}

pub broadcast group group_contains_lines {
    lemma_contains_last3,
    lemma_contains_last5,
    lemma_contains_last7,
}

/// `s` begins with `t`.
pub open spec fn spec_starts_with(s: Seq<char>, t: Seq<char>) -> bool {
    t.len() <= s.len() && s.subrange(0, t.len() as int) == t
}

/// What a text begins with, a longer text made from it begins with too.
pub broadcast proof fn lemma_starts_with_concat(a: Seq<char>, b: Seq<char>, t: Seq<char>)
    ensures
        spec_starts_with(a, t) ==> #[trigger] spec_starts_with(a + b, t),
{
    if spec_starts_with(a, t) {
        assert((a + b).subrange(0, t.len() as int) =~= a.subrange(0, t.len() as int));
    }
}

/// Every text begins with itself.
pub broadcast proof fn lemma_starts_with_self(t: Seq<char>)
    ensures
        #[trigger] spec_starts_with(t, t),
{
    assert(t.subrange(0, t.len() as int) =~= t);
}

/// Putting the same text in front of both keeps one the beginning of the
/// other.
pub proof fn lemma_starts_with_after(a: Seq<char>, b: Seq<char>, u: Seq<char>)
    requires
        spec_starts_with(b, u),
    ensures
        spec_starts_with(a + b, a + u),
{
    assert((a + b).subrange(0, (a + u).len() as int) =~= a + u);
}

pub broadcast group group_starts_with {
    lemma_starts_with_concat,
    lemma_starts_with_self,
}

} // verus!
