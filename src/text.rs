use vstd::prelude::*;

verus! {

pub open spec fn starts_with(s: Seq<char>, p: Seq<char>) -> bool {
    p.len() <= s.len() && s.take(p.len() as int) == p
}

/// The text that `s` stands for, with the escapes that the engine writes
/// into text (`&amp;`, `&lt;`, `&gt;`, `&nbsp;`) turned back into the
/// characters they stand for. Everything else is kept as it is.
pub open spec fn unescape(s: Seq<char>) -> Seq<char>
    decreases s.len(),
{
    if s.len() == 0 {
        Seq::empty()
    } else if starts_with(s, seq!['&', 'a', 'm', 'p', ';']) {
        seq!['&'] + unescape(s.skip(5))
    } else if starts_with(s, seq!['&', 'l', 't', ';']) {
        seq!['<'] + unescape(s.skip(4))
    } else if starts_with(s, seq!['&', 'g', 't', ';']) {
        seq!['>'] + unescape(s.skip(4))
    } else if starts_with(s, seq!['&', 'n', 'b', 's', 'p', ';']) {
        seq!['\u{a0}'] + unescape(s.skip(6))
    } else {
        seq![s[0]] + unescape(s.skip(1))
    }
}

/// The characters of `s`, in order.
pub fn chars_of(s: &str) -> (r: Vec<char>)
    ensures
        r@ == s@,
{
    broadcast use vstd::string::axiom_spec_iter;

    let mut out: Vec<char> = Vec::new();
    for c in it: s.chars()
        invariant
            out@ == it.seq().take(it.index() as int),
    {
        out.push(c);
    }
    assert(out@ =~= s@);
    out
}

/// Whether the characters of `v` from position `i` on begin with `pat`.
fn escape_at(v: &Vec<char>, i: usize, pat: &Vec<char>) -> (r: bool)
    requires
        i <= v.len(),
    ensures
        r == starts_with(v@.skip(i as int), pat@),
{
    if pat.len() > v.len() - i {
        return false;
    }
    let mut j: usize = 0;
    while j < pat.len()
        invariant
            i <= v.len(),
            pat.len() <= v.len() - i,
            j <= pat.len(),
            forall|k: int| 0 <= k < j ==> v@[i + k] == pat@[k],
        decreases pat.len() - j,
    {
        if v[i + j] != pat[j] {
            assert(v@.skip(i as int).take(pat@.len() as int)[j as int] != pat@[j as int]);
            return false;
        }
        j = j + 1;
    }
    assert(v@.skip(i as int).take(pat@.len() as int) =~= pat@);
    true
}

/// Turns the engine's text escapes in `v` back into characters.
pub fn unescape_chars(v: &Vec<char>) -> (r: Vec<char>)
    ensures
        r@ == unescape(v@),
{
    let amp: Vec<char> = vec!['&', 'a', 'm', 'p', ';'];
    let lt: Vec<char> = vec!['&', 'l', 't', ';'];
    let gt: Vec<char> = vec!['&', 'g', 't', ';'];
    let nbsp: Vec<char> = vec!['&', 'n', 'b', 's', 'p', ';'];
    assert(amp@ =~= seq!['&', 'a', 'm', 'p', ';']);
    assert(lt@ =~= seq!['&', 'l', 't', ';']);
    assert(gt@ =~= seq!['&', 'g', 't', ';']);
    assert(nbsp@ =~= seq!['&', 'n', 'b', 's', 'p', ';']);
    let mut out: Vec<char> = Vec::new();
    let mut i: usize = 0;
    assert(v@.skip(0) =~= v@);
    assert(out@ + unescape(v@) =~= unescape(v@));
    while i < v.len()
        invariant
            i <= v.len(),
            out@ + unescape(v@.skip(i as int)) == unescape(v@),
            amp@ == seq!['&', 'a', 'm', 'p', ';'],
            lt@ == seq!['&', 'l', 't', ';'],
            gt@ == seq!['&', 'g', 't', ';'],
            nbsp@ == seq!['&', 'n', 'b', 's', 'p', ';'],
        decreases v.len() - i,
    {
        let ghost rest = v@.skip(i as int);
        let ghost before = out@;
        let c: char;
        let n: usize;
        if escape_at(v, i, &amp) {
            c = '&';
            n = 5;
        } else if escape_at(v, i, &lt) {
            c = '<';
            n = 4;
        } else if escape_at(v, i, &gt) {
            c = '>';
            n = 4;
        } else if escape_at(v, i, &nbsp) {
            c = '\u{a0}';
            n = 6;
        } else {
            c = v[i];
            n = 1;
        }
        assert(unescape(rest) == seq![c] + unescape(rest.skip(n as int)));
        assert(rest.skip(n as int) =~= v@.skip(i + n));
        out.push(c);
        i = i + n;
        assert(out@ + unescape(v@.skip(i as int)) =~= before + unescape(rest));
    }
    assert(v@.skip(i as int) =~= Seq::<char>::empty());
    assert(out@ + Seq::<char>::empty() =~= out@);
    out
}

/// Relies on `FromIterator<char> for String`: the string made of the
/// characters, in order.
#[verifier::external_body]
pub(crate) fn string_of(v: &Vec<char>) -> (r: String)
    ensures
        r@ == v@,
{
    v.iter().collect()
}

/// The text that `s` stands for, with the engine's text escapes turned back
/// into characters.
pub fn decode_text(s: &str) -> (r: String)
    ensures
        r@ == unescape(s@),
{
    let chars = chars_of(s);
    string_of(&unescape_chars(&chars))
}

} // verus!
