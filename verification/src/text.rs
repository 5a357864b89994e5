//! Text helpers shared by the request validators and the reply builders.
use vstd::prelude::*;
use vstd::string::*;

verus! {

/// The Unicode `White_Space` property: the characters that `char::is_whitespace`
/// accepts and that `str::trim` removes from both ends.
pub open spec fn is_white_space(c: char) -> bool {
    let u = c as u32;
    ||| 0x09 <= u <= 0x0d
    ||| u == 0x20
    ||| u == 0x85
    ||| u == 0xa0
    ||| u == 0x1680
    ||| 0x2000 <= u <= 0x200a
    ||| u == 0x2028
    ||| u == 0x2029
    ||| u == 0x202f
    ||| u == 0x205f
    ||| u == 0x3000
}

/// `s` without its leading white space.
pub open spec fn trim_start_ws(s: Seq<char>) -> Seq<char>
    decreases s.len(),
{
    if s.len() > 0 && is_white_space(s[0]) {
        trim_start_ws(s.drop_first())
    } else {
        s
    }
}

/// `s` without its trailing white space.
pub open spec fn trim_end_ws(s: Seq<char>) -> Seq<char>
    decreases s.len(),
{
    if s.len() > 0 && is_white_space(s.last()) {
        trim_end_ws(s.drop_last())
    } else {
        s
    }
}

/// `s` without white space at either end.
pub open spec fn trim_ws(s: Seq<char>) -> Seq<char> {
    trim_end_ws(trim_start_ws(s))
}

/// ASCII upper-case letters mapped to lower case; every other character unchanged.
pub open spec fn ascii_lower(c: char) -> char {
    if 'A' <= c && c <= 'Z' {
        ((c as u32) + 32) as char
    } else {
        c
    }
}

pub open spec fn ascii_lowercase(s: Seq<char>) -> Seq<char> {
    s.map_values(|c: char| ascii_lower(c))
}

/// The parts, in order, with `sep` between neighbours.
pub open spec fn joined(parts: Seq<Seq<char>>, sep: Seq<char>) -> Seq<char>
    decreases parts.len(),
{
    if parts.len() == 0 {
        Seq::empty()
    } else if parts.len() == 1 {
        parts[0]
    } else {
        joined(parts.drop_last(), sep) + sep + parts.last()
    }
}

/// Joining puts the separator between neighbours and nowhere else: one part comes back as it
/// is, and two or three parts come back in order with one separator between each pair.
pub proof fn law_join_separates_neighbours(a: Seq<char>, b: Seq<char>, c: Seq<char>, sep: Seq<char>)
    ensures
        joined(Seq::empty(), sep) == Seq::<char>::empty(),
        joined(seq![a], sep) == a,
        joined(seq![a, b], sep) == a + sep + b,
        joined(seq![a, b, c], sep) == a + sep + b + sep + c,
{
    let one = seq![a];
    let two = seq![a, b];
    let three = seq![a, b, c];
    assert(joined(one, sep) == a);
    assert(two.drop_last() =~= one);
    assert(joined(two, sep) == joined(one, sep) + sep + b);
    assert(three.drop_last() =~= two);
    assert(joined(three, sep) == joined(two, sep) + sep + c);
}

/// The views of a vector of strings.
pub open spec fn string_views(v: Seq<String>) -> Seq<Seq<char>> {
    v.map_values(|s: String| s@)
}

/// `<str as PartialEq>::eq`: two string slices are equal when they hold the same characters.
#[verifier::external_body]
pub(crate) fn str_eq(a: &str, b: &str) -> (r: bool)
    ensures
        r == (a@ == b@),
{
    a == b
}

/// `str::trim`: the slice without leading and trailing Unicode white space.
#[verifier::external_body]
pub(crate) fn trim(s: &str) -> (t: &str)
    ensures
        t@ == trim_ws(s@),
{
    s.trim()
}

/// `str::to_ascii_lowercase`: a copy with ASCII letters lowered, other characters kept.
#[verifier::external_body]
pub(crate) fn to_ascii_lowercase(s: &str) -> (r: String)
    ensures
        r@ == ascii_lowercase(s@),
{
    s.to_ascii_lowercase()
}

/// An owned copy of a string slice.
pub(crate) fn owned(s: &str) -> (r: String)
    ensures
        r@ == s@,
{
    <String as StringExecFns>::from_str(s)
}

/// `a` followed by `b`.
pub(crate) fn cat(a: &str, b: &str) -> (r: String)
    ensures
        r@ == a@ + b@,
{
    let mut r = owned(a);
    r.append(b);
    r
}

/// `a`, `b` and `c` one after the other.
pub(crate) fn cat3(a: &str, b: &str, c: &str) -> (r: String)
    ensures
        r@ == a@ + b@ + c@,
{
    let mut r = owned(a);
    r.append(b);
    r.append(c);
    r
}

/// The strings of `parts` separated by `sep`.
pub fn join(parts: &Vec<String>, sep: &str) -> (r: String)
    ensures
        r@ == joined(string_views(parts@), sep@),
{
    let ghost views = string_views(parts@);
    let mut r = owned("");
    proof {
        reveal_strlit("");
    }
    let mut i: usize = 0;
    while i < parts.len()
        invariant
            i <= parts.len(),
            views == string_views(parts@),
            r@ == joined(views.take(i as int), sep@),
        decreases parts.len() - i,
    {
        assert(views.take(i + 1).drop_last() =~= views.take(i as int));
        if i > 0 {
            r.append(sep);
        } else {
            assert(views.take(1) =~= seq![views[0]]);
            assert(r@ =~= Seq::<char>::empty());
        }
        r.append(parts[i].as_str());
        i = i + 1;
    }
    assert(views.take(parts.len() as int) =~= views);
    r
}


/// Lexicographic order on character sequences, by code point: the order of `str`'s `<`.
pub open spec fn text_lt(a: Seq<char>, b: Seq<char>) -> bool
    decreases a.len(),
{
    if b.len() == 0 {
        false
    } else if a.len() == 0 {
        true
    } else if a[0] != b[0] {
        (a[0] as int) < (b[0] as int)
    } else {
        text_lt(a.drop_first(), b.drop_first())
    }
}

/// The text order is strict: no text sorts before itself, two texts never sort before each
/// other, and a proper prefix sorts before the text it begins.
pub proof fn law_text_order_is_strict(a: Seq<char>, b: Seq<char>)
    ensures
        !text_lt(a, a),
        text_lt(a, b) ==> !text_lt(b, a),
        a.len() < b.len() && b.take(a.len() as int) == a ==> text_lt(a, b),
    decreases a.len(),
{
    if a.len() > 0 {
        law_text_order_is_strict(a.drop_first(), a.drop_first());
    }
    if a.len() > 0 && b.len() > 0 {
        law_text_order_is_strict(a.drop_first(), b.drop_first());
        if a.len() < b.len() && b.take(a.len() as int) == a {
            assert(b.take(a.len() as int)[0] == b[0]);
            assert(b.drop_first().take(a.drop_first().len() as int) =~= a.drop_first());
        }
    }
}

pub proof fn lemma_text_lt_total(a: Seq<char>, b: Seq<char>)
    requires
        a != b,
    ensures
        text_lt(a, b) || text_lt(b, a),
    decreases a.len(),
{
    if a.len() > 0 && b.len() > 0 {
        if a[0] == b[0] {
            if a.drop_first() == b.drop_first() {
                assert(a =~= seq![a[0]] + a.drop_first());
                assert(b =~= seq![b[0]] + b.drop_first());
            }
            lemma_text_lt_total(a.drop_first(), b.drop_first());
        } else {
            assert((a[0] as int) != (b[0] as int));
        }
    } else if a.len() == 0 && b.len() == 0 {
        assert(a =~= b);
    }
}

pub proof fn lemma_text_lt_transitive(a: Seq<char>, b: Seq<char>, c: Seq<char>)
    requires
        text_lt(a, b),
        text_lt(b, c),
    ensures
        text_lt(a, c),
    decreases a.len(),
{
    if a.len() > 0 && a[0] == b[0] && b[0] == c[0] {
        lemma_text_lt_transitive(a.drop_first(), b.drop_first(), c.drop_first());
    }
}

/// Whether `a` sorts strictly before `b`.
pub fn text_less(a: &str, b: &str) -> (r: bool)
    ensures
        r == text_lt(a@, b@),
{
    let la = a.unicode_len();
    let lb = b.unicode_len();
    let mut i: usize = 0;
    assert(a@.skip(0) =~= a@);
    assert(b@.skip(0) =~= b@);
    while i < la && i < lb
        invariant
            la == a@.len(),
            lb == b@.len(),
            i <= la,
            i <= lb,
            text_lt(a@, b@) == text_lt(a@.skip(i as int), b@.skip(i as int)),
        decreases la - i,
    {
        let ca = a.get_char(i);
        let cb = b.get_char(i);
        assert(a@.skip(i as int)[0] == ca);
        assert(b@.skip(i as int)[0] == cb);
        if ca != cb {
            return (ca as u32) < (cb as u32);
        }
        assert(a@.skip(i as int).drop_first() =~= a@.skip(i + 1));
        assert(b@.skip(i as int).drop_first() =~= b@.skip(i + 1));
        i = i + 1;
    }
    la < lb
}

/// Whether `v` holds a string equal to `s`.
pub fn contains_text(v: &Vec<String>, s: &str) -> (r: bool)
    ensures
        r == string_views(v@).contains(s@),
{
    let mut i: usize = 0;
    while i < v.len()
        invariant
            i <= v.len(),
            forall|j: int| 0 <= j < i ==> v@[j]@ != s@,
        decreases v.len() - i,
    {
        if str_eq(v[i].as_str(), s) {
            assert(string_views(v@)[i as int] == s@);
            return true;
        }
        i = i + 1;
    }
    proof {
        if string_views(v@).contains(s@) {
            let j = choose|j: int| 0 <= j < string_views(v@).len() && string_views(v@)[j] == s@;
            assert(v@[j]@ == s@);
        }
    }
    false
}

} // verus!
