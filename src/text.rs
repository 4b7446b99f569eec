//! Character-level helpers on names and dotted field paths.
use vstd::prelude::*;
use vstd::string::*;

verus! {

/// Index of the first entry of `names` equal to `name`.
pub open spec fn first_match(names: Seq<Seq<char>>, name: Seq<char>) -> Option<int>
    decreases names.len(),
{
    if names.len() == 0 {
        None
    } else {
        match first_match(names.drop_last(), name) {
            Some(i) => Some(i),
            None => if names.last() == name {
                Some(names.len() - 1)
            } else {
                None
            },
        }
    }
}

/// `first_match` finds the lowest index holding `name`, or reports that no
/// index does.
pub proof fn lemma_first_match(names: Seq<Seq<char>>, name: Seq<char>)
    ensures
        match first_match(names, name) {
            Some(i) => 0 <= i < names.len() && names[i] == name && forall|j: int|
                0 <= j < i ==> names[j] != name,
            None => forall|j: int| 0 <= j < names.len() ==> names[j] != name,
        },
    decreases names.len(),
{
    if names.len() > 0 {
        let prefix = names.drop_last();
        lemma_first_match(prefix, name);
        assert(forall|j: int| 0 <= j < prefix.len() ==> prefix[j] == names[j]);
        assert(names.last() == names[names.len() - 1]);
    }
}

/// Pieces of `s` between dots, scanning from `i` with the current piece
/// starting at `start`.
pub open spec fn split_pieces(s: Seq<char>, start: int, i: int) -> Seq<Seq<char>>
    decreases s.len() - i,
{
    if i >= s.len() {
        seq![s.subrange(start, s.len() as int)]
    } else if s[i] == '.' {
        seq![s.subrange(start, i)] + split_pieces(s, i + 1, i + 1)
    } else {
        split_pieces(s, start, i + 1)
    }
}

/// The dot-separated segments of a path; a trailing empty segment is dropped
/// (so `""` has no segment and `"A."` has one).
pub open spec fn path_segments(s: Seq<char>) -> Seq<Seq<char>> {
    let p = split_pieces(s, 0, 0);
    if p.last().len() == 0 {
        p.drop_last()
    } else {
        p
    }
}

pub open spec fn views_of(v: Seq<&str>) -> Seq<Seq<char>> {
    v.map_values(|x: &str| x@)
}

/// Equality of two strings, compared on their UTF-8 bytes.
pub fn text_eq(a: &str, b: &str) -> (r: bool)
    ensures
        r == (a@ == b@),
{
    let x = a.as_bytes();
    let y = b.as_bytes();
    proof {
        vstd::utf8::encode_utf8_decode_utf8(a@);
        vstd::utf8::encode_utf8_decode_utf8(b@);
    }
    if x.len() != y.len() {
        return false;
    }
    let n = x.len();
    let mut i: usize = 0;
    while i < n
        invariant
            x@ == vstd::utf8::encode_utf8(a@),
            y@ == vstd::utf8::encode_utf8(b@),
            vstd::utf8::decode_utf8(x@) == a@,
            vstd::utf8::decode_utf8(y@) == b@,
            n == x@.len(),
            n == y@.len(),
            i <= n,
            forall|j: int| 0 <= j < i ==> x@[j] == y@[j],
        decreases n - i,
    {
        if x[i] != y[i] {
            proof {
                assert(x@ == vstd::utf8::encode_utf8(a@));
                assert(y@ == vstd::utf8::encode_utf8(b@));
                assert(x@[i as int] != y@[i as int]);
            }
            return false;
        }
        i += 1;
    }
    assert(x@ =~= y@);
    true
}

/// True when `s` holds a dot.
pub fn has_dot(s: &str) -> (r: bool)
    ensures
        r == s@.contains('.'),
{
    let n = s.unicode_len();
    let mut i: usize = 0;
    while i < n
        invariant
            n == s@.len(),
            i <= n,
            forall|j: int| 0 <= j < i ==> s@[j] != '.',
        decreases n - i,
    {
        if s.get_char(i) == '.' {
            return true;
        }
        i += 1;
    }
    false
}

/// Splits a dotted path into its segments, dropping a trailing empty one.
pub fn split_path<'a>(path: &'a str) -> (r: Vec<&'a str>)
    ensures
        views_of(r@) == path_segments(path@),
{
    let n = path.unicode_len();
    let mut out: Vec<&'a str> = Vec::new();
    let mut start: usize = 0;
    let mut i: usize = 0;
    assert(views_of(out@) =~= Seq::<Seq<char>>::empty());
    while i < n
        invariant
            n == path@.len(),
            start <= i <= n,
            views_of(out@) + split_pieces(path@, start as int, i as int) == split_pieces(
                path@,
                0,
                0,
            ),
        decreases n - i,
    {
        if path.get_char(i) == '.' {
            let piece = path.substring_char(start, i);
            let ghost before = views_of(out@);
            out.push(piece);
            assert(views_of(out@) =~= before.push(piece@));
            assert(before + split_pieces(path@, start as int, i as int) =~= views_of(out@)
                + split_pieces(path@, i + 1, i + 1));
            i += 1;
            start = i;
        } else {
            i += 1;
        }
    }
    let ghost all = split_pieces(path@, 0, 0);
    assert(split_pieces(path@, start as int, n as int) == seq![
        path@.subrange(start as int, n as int),
    ]);
    if start < n {
        let piece = path.substring_char(start, n);
        let ghost before = views_of(out@);
        out.push(piece);
        assert(views_of(out@) =~= before.push(piece@));
        assert(views_of(out@) =~= all);
    } else {
        assert(all.last().len() == 0);
        assert(views_of(out@) =~= all.drop_last());
    }
    out
}

} // verus!
