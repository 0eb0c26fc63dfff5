use vstd::prelude::*;
use vstd::std_specs::iter::IteratorSpec;

verus! {

broadcast use vstd::string::group_string_axioms;

/// Appends one character to a string; this is std's `String::push`, which
/// adds the character at the end and changes nothing else.
#[verifier::external_body]
fn push_char(s: &mut String, c: char)
    ensures
        final(s)@ == old(s)@.push(c),
{
    s.push(c);
}

/// The characters of `s`, in order.
pub fn chars_of(s: &str) -> (r: Vec<char>)
    ensures
        r@ == s@,
{
    let mut out: Vec<char> = Vec::new();
    let mut it = s.chars();
    loop
        invariant
            out@ + it.remaining() == s@,
            it.obeys_prophetic_iter_laws(),
            it.decrease() is Some,
        ensures
            out@ == s@,
        decreases it.decrease()->0,
    {
        match it.next() {
            Some(c) => {
                out.push(c);
            },
            None => {
                assert(out@ =~= out@ + it.remaining());
                break;
            },
        }
    }
    out
}

/// The string made of the characters of `v`, in order.
pub fn string_of(v: &Vec<char>) -> (r: String)
    ensures
        r@ == v@,
{
    let mut out = String::new();
    let mut i: usize = 0;
    while i < v.len()
        invariant
            i <= v.len(),
            out@ == v@.take(i as int),
        decreases v.len() - i,
    {
        push_char(&mut out, v[i]);
        i += 1;
    }
    out
}

/// Whether `a` and `b` hold the same characters.
pub fn same_text(a: &str, b: &str) -> (r: bool)
    ensures
        r == (a@ == b@),
{
    a.to_owned() == b.to_owned()
}

/// Appends the characters of `tail` to `out`.
pub fn extend_chars(out: &mut Vec<char>, tail: &Vec<char>)
    ensures
        final(out)@ == old(out)@ + tail@,
{
    let mut i: usize = 0;
    while i < tail.len()
        invariant
            i <= tail.len(),
            out@ == old(out)@ + tail@.take(i as int),
        decreases tail.len() - i,
    {
        out.push(tail[i]);
        i += 1;
        assert(out@ =~= old(out)@ + tail@.take(i as int));
    }
    assert(tail@.take(tail.len() as int) =~= tail@);
}

/// Appends the characters of the string `tail` to `out`.
pub fn extend_str(out: &mut Vec<char>, tail: &str)
    ensures
        final(out)@ == old(out)@ + tail@,
{
    let chars = chars_of(tail);
    extend_chars(out, &chars);
}

/// The decimal digit that stands for `d`.
pub open spec fn digit_char(d: nat) -> char
    recommends
        d < 10,
{
    if d == 0 {
        '0'
    } else if d == 1 {
        '1'
    } else if d == 2 {
        '2'
    } else if d == 3 {
        '3'
    } else if d == 4 {
        '4'
    } else if d == 5 {
        '5'
    } else if d == 6 {
        '6'
    } else if d == 7 {
        '7'
    } else if d == 8 {
        '8'
    } else {
        '9'
    }
}

/// The decimal numeral of `n`: most significant digit first, no leading zero
/// except for zero itself.
pub open spec fn decimal(n: nat) -> Seq<char>
    decreases n,
{
    if n < 10 {
        seq![digit_char(n)]
    } else {
        decimal(n / 10).push(digit_char(n % 10))
    }
}

fn digit_of(d: u64) -> (c: char)
    requires
        d < 10,
    ensures
        c == digit_char(d as nat),
{
    if d == 0 {
        '0'
    } else if d == 1 {
        '1'
    } else if d == 2 {
        '2'
    } else if d == 3 {
        '3'
    } else if d == 4 {
        '4'
    } else if d == 5 {
        '5'
    } else if d == 6 {
        '6'
    } else if d == 7 {
        '7'
    } else if d == 8 {
        '8'
    } else {
        '9'
    }
}

/// Appends the decimal numeral of `n` to `out`.
pub fn extend_decimal(out: &mut Vec<char>, n: u64)
    ensures
        final(out)@ == old(out)@ + decimal(n as nat),
    decreases n,
{
    if n >= 10 {
        extend_decimal(out, n / 10);
    }
    out.push(digit_of(n % 10));
    assert(out@ =~= old(out)@ + decimal(n as nat));
}

/// `tok` stands in `s` at position `i`.
pub open spec fn occurs_at(s: Seq<char>, tok: Seq<char>, i: int) -> bool {
    0 <= i && i + tok.len() <= s.len() && s.subrange(i, i + tok.len()) == tok
}

/// `tok` stands somewhere in `s`.
pub open spec fn contains_token(s: Seq<char>, tok: Seq<char>) -> bool {
    exists|i: int| occurs_at(s, tok, i)
}

/// `s` with every occurrence of `from` replaced by `to`, found from the left
/// and never overlapping. An empty `from` occurs nowhere.
pub open spec fn replaced(s: Seq<char>, from: Seq<char>, to: Seq<char>) -> Seq<char>
    decreases s.len(),
{
    if from.len() == 0 || s.len() < from.len() {
        s
    } else if occurs_at(s, from, 0) {
        to + replaced(s.skip(from.len() as int), from, to)
    } else {
        seq![s[0]] + replaced(s.skip(1), from, to)
    }
}

/// Whether `tok` stands in `s` at position `i`.
pub fn token_at(s: &Vec<char>, tok: &Vec<char>, i: usize) -> (r: bool)
    ensures
        r == occurs_at(s@, tok@, i as int),
{
    if i > s.len() || tok.len() > s.len() - i {
        return false;
    }
    let mut k: usize = 0;
    while k < tok.len()
        invariant
            k <= tok.len(),
            i + tok.len() <= s.len(),
            forall|j: int| 0 <= j < k ==> s@[i + j] == tok@[j],
        decreases tok.len() - k,
    {
        if s[i + k] != tok[k] {
            proof {
                assert(s@.subrange(i as int, i + tok.len())[k as int] == s@[i + k]);
            }
            return false;
        }
        k += 1;
    }
    assert(s@.subrange(i as int, i + tok.len()) =~= tok@);
    true
}

/// Whether `tok` stands somewhere in `s`.
pub fn has_token(s: &Vec<char>, tok: &Vec<char>) -> (r: bool)
    ensures
        r == contains_token(s@, tok@),
{
    if tok.len() > s.len() {
        return false;
    }
    let last: usize = s.len() - tok.len();
    let mut i: usize = 0;
    loop
        invariant
            last == s.len() - tok.len(),
            i <= last,
            forall|j: int| 0 <= j < i ==> !occurs_at(s@, tok@, j),
        decreases last - i,
    {
        if token_at(s, tok, i) {
            return true;
        }
        if i == last {
            return false;
        }
        i += 1;
    }
}

proof fn lemma_occurs_at_skip(s: Seq<char>, tok: Seq<char>, i: int)
    requires
        0 <= i <= s.len(),
    ensures
        occurs_at(s.skip(i), tok, 0) == occurs_at(s, tok, i),
{
    if i + tok.len() <= s.len() {
        assert(s.skip(i).subrange(0, tok.len() as int) =~= s.subrange(i, i + tok.len()));
    }
}

/// `s` with every occurrence of `from` replaced by `to`.
pub fn replace_token(s: &Vec<char>, from: &Vec<char>, to: &Vec<char>) -> (r: Vec<char>)
    ensures
        r@ == replaced(s@, from@, to@),
{
    let mut out: Vec<char> = Vec::new();
    let mut i: usize = 0;
    if from.len() == 0 {
        extend_chars(&mut out, s);
        return out;
    }
    assert(out@ + replaced(s@.skip(0), from@, to@) =~= replaced(s@, from@, to@)) by {
        assert(s@.skip(0) =~= s@);
    }
    while i < s.len()
        invariant
            i <= s.len(),
            from.len() > 0,
            out@ + replaced(s@.skip(i as int), from@, to@) == replaced(s@, from@, to@),
        decreases s.len() - i,
    {
        let ghost rest = s@.skip(i as int);
        proof {
            lemma_occurs_at_skip(s@, from@, i as int);
        }
        let ghost before = out@;
        if token_at(s, from, i) {
            extend_chars(&mut out, to);
            proof {
                let tail = replaced(s@.skip(i + from.len()), from@, to@);
                assert(rest.skip(from.len() as int) =~= s@.skip(i + from.len()));
                assert(out@ + tail =~= before + (to@ + tail));
            }
            i += from.len();
        } else {
            out.push(s[i]);
            proof {
                let tail = replaced(s@.skip(i + 1), from@, to@);
                assert(rest.skip(1) =~= s@.skip(i + 1));
                assert(out@ + tail =~= before + (seq![s@[i as int]] + tail));
            }
            i += 1;
        }
    }
    assert(out@ =~= out@ + replaced(s@.skip(i as int), from@, to@));
    out
}

} // verus!
