//! Character-level string helpers shared by the library.
use vstd::prelude::*;

verus! {

broadcast use vstd::string::group_string_axioms;

/// Copies a string slice into an owned `String`.
pub fn owned(s: &str) -> (r: String)
    ensures
        r@ == s@,
{
    s.to_owned()
}

/// Concatenates two string slices.
pub fn concat2(a: &str, b: &str) -> (r: String)
    ensures
        r@ == a@ + b@,
{
    let mut r = owned(a);
    r.append(b);
    r
}

/// Whether `s` begins with `prefix`.
pub open spec fn has_prefix(s: Seq<char>, prefix: Seq<char>) -> bool {
    prefix.len() <= s.len() && s.subrange(0, prefix.len() as int) == prefix
}

/// Whether `s` begins with `prefix`, compared character by character.
pub fn starts_with(s: &str, prefix: &str) -> (r: bool)
    ensures
        r == has_prefix(s@, prefix@),
{
    let n = prefix.unicode_len();
    let m = s.unicode_len();
    if n > m {
        return false;
    }
    let mut i: usize = 0;
    while i < n
        invariant
            n == prefix@.len(),
            m == s@.len(),
            n <= m,
            i <= n,
            forall|j: int| 0 <= j < i ==> s@[j] == prefix@[j],
        decreases n - i,
    {
        if s.get_char(i) != prefix.get_char(i) {
            assert(s@.subrange(0, n as int)[i as int] != prefix@[i as int]);
            return false;
        }
        i = i + 1;
    }
    assert(s@.subrange(0, n as int) =~= prefix@);
    true
}

/// Whether two string slices hold the same characters.
pub fn str_eq(a: &str, b: &str) -> (r: bool)
    ensures
        r == (a@ == b@),
{
    let n = a.unicode_len();
    if n != b.unicode_len() {
        return false;
    }
    let r = starts_with(a, b);
    proof {
        assert(a@ =~= a@.subrange(0, n as int));
    }
    r
}

} // verus!

verus! {

/// The pieces of `s` between occurrences of `sep`, as `str::split` with a
/// one-character pattern yields them: `k` separators give `k + 1` pieces.
pub open spec fn split_on(s: Seq<char>, sep: char) -> Seq<Seq<char>>
    decreases s.len(),
{
    if s.len() == 0 {
        seq![Seq::<char>::empty()]
    } else {
        let init = split_on(s.drop_last(), sep);
        if s.last() == sep {
            init.push(Seq::<char>::empty())
        } else {
            init.update(init.len() - 1, init.last().push(s.last()))
        }
    }
}

/// Splitting always yields at least one piece.
pub proof fn lemma_split_on_nonempty(s: Seq<char>, sep: char)
    ensures
        split_on(s, sep).len() >= 1,
    decreases s.len(),
{
    if s.len() > 0 {
        lemma_split_on_nonempty(s.drop_last(), sep);
    }
}

/// Splits `s` at every `sep`, keeping empty pieces.
pub fn split_char(s: &str, sep: char) -> (r: Vec<String>)
    ensures
        r@.map_values(|p: String| p@) == split_on(s@, sep),
{
    let mut pieces: Vec<String> = Vec::new();
    let mut start: usize = 0;
    let mut i: usize = 0;
    let n = s.unicode_len();
    proof {
        assert(pieces@.map_values(|p: String| p@) =~= Seq::<Seq<char>>::empty());
        assert(s@.subrange(0, 0) =~= Seq::<char>::empty());
        assert(pieces@.map_values(|p: String| p@).push(s@.subrange(0, 0)) =~= seq![
            Seq::<char>::empty(),
        ]);
        assert(s@.subrange(0, 0) =~= Seq::<char>::empty());
    }
    for c in it: s.chars()
        invariant
            n == s@.len(),
            it.seq() == s@,
            i == it.index(),
            start <= i <= s@.len(),
            pieces@.map_values(|p: String| p@).push(s@.subrange(start as int, i as int))
                == split_on(s@.subrange(0, i as int), sep),
    {
        assert(i < n);
        proof {
            assert(s@.subrange(0, i + 1).drop_last() =~= s@.subrange(0, i as int));
            assert(c == s@[i as int]);
            lemma_split_on_nonempty(s@.subrange(0, i as int), sep);
        }
        let ghost before = pieces@.map_values(|p: String| p@);
        if c == sep {
            let piece = owned(s.substring_char(start, i));
            pieces.push(piece);
            proof {
                assert(pieces@.map_values(|p: String| p@) =~= before.push(
                    s@.subrange(start as int, i as int),
                ));
                assert(s@.subrange(i + 1, i + 1) =~= Seq::<char>::empty());
            }
            start = i + 1;
        } else {
            proof {
                let cur = s@.subrange(start as int, i as int);
                assert(s@.subrange(start as int, i + 1) =~= cur.push(c));
                assert(before.push(cur).update(before.len() as int, cur.push(c)) =~= before.push(
                    cur.push(c),
                ));
            }
        }
        i = i + 1;
    }
    let last = owned(s.substring_char(start, i));
    pieces.push(last);
    proof {
        assert(s@.subrange(0, i as int) =~= s@);
    }
    pieces
}

} // verus!

verus! {

/// Calls `std::str::from_utf8`: the text of the bytes when they are valid
/// UTF-8, `None` otherwise.
#[verifier::external_body]
fn from_utf8_call(bytes: &[u8]) -> (r: Option<&str>)
    ensures
        r is Some <==> vstd::utf8::valid_utf8(bytes@),
        r matches Some(s) ==> s@ == vstd::utf8::decode_utf8(bytes@),
{
    std::str::from_utf8(bytes).ok()
}

/// The text of the bytes when they are valid UTF-8.
pub fn utf8_text(bytes: &[u8]) -> (r: Option<&str>)
    ensures
        r is Some <==> vstd::utf8::valid_utf8(bytes@),
        r matches Some(s) ==> s@ == vstd::utf8::decode_utf8(bytes@),
{
    from_utf8_call(bytes)
}

} // verus!

verus! {

/// The pieces joined back together with `sep` between consecutive pieces.
pub open spec fn join_on(pieces: Seq<Seq<char>>, sep: char) -> Seq<char>
    decreases pieces.len(),
{
    if pieces.len() == 0 {
        Seq::<char>::empty()
    } else if pieces.len() == 1 {
        pieces[0]
    } else {
        join_on(pieces.drop_last(), sep).push(sep) + pieces.last()
    }
}

/// Extending the last piece extends the joined text by the same character.
proof fn lemma_join_extend_last(pieces: Seq<Seq<char>>, sep: char, c: char)
    requires
        pieces.len() >= 1,
    ensures
        join_on(pieces.update(pieces.len() - 1, pieces.last().push(c)), sep) == join_on(
            pieces,
            sep,
        ).push(c),
{
    let q = pieces.update(pieces.len() - 1, pieces.last().push(c));
    if pieces.len() >= 2 {
        assert(q.drop_last() =~= pieces.drop_last());
        assert(join_on(q, sep) =~= join_on(pieces, sep).push(c));
    } else {
        assert(join_on(q, sep) =~= join_on(pieces, sep).push(c));
    }
}

/// Splitting a text at a separator and joining the pieces with it gives
/// the text back.
pub proof fn law_split_then_join_is_identity(s: Seq<char>, sep: char)
    ensures
        join_on(split_on(s, sep), sep) == s,
    decreases s.len(),
{
    if s.len() == 0 {
        assert(join_on(split_on(s, sep), sep) =~= s);
    } else {
        let t = s.drop_last();
        law_split_then_join_is_identity(t, sep);
        lemma_split_on_nonempty(t, sep);
        let init = split_on(t, sep);
        if s.last() == sep {
            let p = init.push(Seq::<char>::empty());
            assert(p.drop_last() =~= init);
            assert(join_on(p, sep) =~= t.push(sep));
        } else {
            lemma_join_extend_last(init, sep, s.last());
        }
        assert(t.push(s.last()) =~= s);
    }
}

} // verus!
