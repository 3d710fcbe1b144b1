use vstd::prelude::*;

verus! {

// ---------------------------------------------------------------------------
// Text handling: splitting a comma-separated method-name list, and substring
// search (used to classify a broadcast failure by its textual detail).
// ---------------------------------------------------------------------------

/// Splitting a character sequence at every comma, in order.  An empty input
/// yields one empty piece, as splitting does.
pub open spec fn split_commas(s: Seq<char>) -> Seq<Seq<char>>
    decreases s.len(),
{
    if s.len() == 0 {
        seq![Seq::<char>::empty()]
    } else if s[0] == ',' {
        seq![Seq::<char>::empty()] + split_commas(s.drop_first())
    } else {
        let rest = split_commas(s.drop_first());
        seq![seq![s[0]] + rest[0]] + rest.drop_first()
    }
}

/// What a method-name input denotes: an empty input means "unrestricted",
/// that is, no listed method names at all; anything else is split at commas.
pub open spec fn spec_method_names(s: Seq<char>) -> Seq<Seq<char>> {
    if s.len() == 0 {
        seq![]
    } else {
        split_commas(s)
    }
}

/// A split always yields at least one piece.
proof fn lemma_split_commas_nonempty(s: Seq<char>)
    ensures
        split_commas(s).len() >= 1,
    decreases s.len(),
{
    if s.len() != 0 && s[0] != ',' {
        lemma_split_commas_nonempty(s.drop_first());
    }
}

/// A comma-free sequence is a single piece.
proof fn lemma_split_commas_no_comma(s: Seq<char>)
    requires
        forall|k: int| 0 <= k < s.len() ==> s[k] != ',',
    ensures
        split_commas(s) =~~= seq![s],
    decreases s.len(),
{
    if s.len() == 0 {
        assert(split_commas(s) =~~= seq![s]);
    } else {
        lemma_split_commas_no_comma(s.drop_first());
        assert(seq![s[0]] + s.drop_first() =~= s);
    }
}

/// Splitting at the first comma: everything before it is the first piece, and
/// the rest splits on its own.
proof fn lemma_split_commas_first_comma(s: Seq<char>, i: int)
    requires
        0 <= i < s.len(),
        s[i] == ',',
        forall|k: int| 0 <= k < i ==> s[k] != ',',
    ensures
        split_commas(s) =~~= seq![s.take(i)] + split_commas(s.skip(i + 1)),
    decreases i,
{
    if i == 0 {
        assert(s.take(0) =~= Seq::<char>::empty());
        assert(s.drop_first() =~= s.skip(1));
    } else {
        let t = s.drop_first();
        assert(forall|k: int| 0 <= k < i - 1 ==> t[k] != ',');
        lemma_split_commas_first_comma(t, i - 1);
        lemma_split_commas_nonempty(t.skip(i));
        assert(seq![s[0]] + t.take(i - 1) =~= s.take(i));
        assert(t.skip(i) =~= s.skip(i + 1));
    }
}

/// Splits a method-name input at commas; an empty input stands for
/// "unrestricted" and yields no names at all.
pub fn parse_method_names(input: &str) -> (r: Vec<String>)
    ensures
        r.deep_view() == spec_method_names(input@),
{
    let n = input.unicode_len();
    let mut result: Vec<String> = Vec::new();
    if n == 0 {
        return result;
    }
    let mut start: usize = 0;
    let mut i: usize = 0;
    proof {
        assert(input@.skip(0) =~= input@);
        assert(result.deep_view() =~~= Seq::<Seq<char>>::empty());
        assert(split_commas(input@) =~~= result.deep_view() + split_commas(input@.skip(0)));
    }
    while i < n
        invariant
            0 < n == input@.len(),
            start <= i <= n,
            forall|k: int| start <= k < i ==> input@[k] != ',',
            split_commas(input@) =~~= result.deep_view() + split_commas(
                input@.skip(start as int),
            ),
        decreases n - i,
    {
        if input.get_char(i) == ',' {
            let piece = input.substring_char(start, i);
            let ghost pre = result.deep_view();
            result.push(String::from_str(piece));
            proof {
                let rem = input@.skip(start as int);
                let j = i - start;
                assert(forall|k: int| 0 <= k < j ==> rem[k] == input@[k + start] && rem[k] != ',');
                assert(rem[j] == ',');
                lemma_split_commas_first_comma(rem, j);
                assert(rem.take(j) =~= input@.subrange(start as int, i as int));
                assert(rem.skip(j + 1) =~= input@.skip(i + 1));
                assert(result.deep_view() =~~= pre.push(piece@));
                assert(split_commas(input@) =~~= result.deep_view() + split_commas(
                    input@.skip(i + 1),
                ));
            }
            start = i + 1;
        }
        i += 1;
    }
    let piece = input.substring_char(start, n);
    let ghost pre = result.deep_view();
    result.push(String::from_str(piece));
    proof {
        let rem = input@.skip(start as int);
        assert(forall|k: int| 0 <= k < rem.len() ==> rem[k] == input@[k + start] && rem[k] != ',');
        lemma_split_commas_no_comma(rem);
        assert(rem =~= input@.subrange(start as int, n as int));
        assert(result.deep_view() =~~= pre.push(piece@));
        assert(result.deep_view() =~~= spec_method_names(input@));
    }
    result
}

/// Normalizes a raw method-name answer: an answer holding a double quote is
/// discarded, an empty answer stands for "unrestricted", and anything else is
/// split at commas.
pub open spec fn spec_normalized_method_names(s: Seq<char>) -> Seq<Seq<char>> {
    if s.contains('"') {
        seq![]
    } else {
        spec_method_names(s)
    }
}

/// Normalizes the operator's raw method-name answer.
pub fn normalize_method_names_input(input: &str) -> (r: Vec<String>)
    ensures
        r.deep_view() == spec_normalized_method_names(input@),
{
    if contains_char(input, '"') {
        Vec::new()
    } else {
        parse_method_names(input)
    }
}

/// Whether `s` holds the character `c`.
pub fn contains_char(s: &str, c: char) -> (r: bool)
    ensures
        r == s@.contains(c),
{
    let n = s.unicode_len();
    let mut i: usize = 0;
    while i < n
        invariant
            i <= n == s@.len(),
            forall|k: int| 0 <= k < i ==> s@[k] != c,
        decreases n - i,
    {
        if s.get_char(i) == c {
            return true;
        }
        i += 1;
    }
    false
}

// ---------------------------------------------------------------------------
// Substring search.
// ---------------------------------------------------------------------------

/// Whether `needle` occurs in `hay` starting at index `i`.
pub open spec fn contains_at(hay: Seq<char>, needle: Seq<char>, i: int) -> bool {
    0 <= i && i + needle.len() <= hay.len() && hay.subrange(i, i + needle.len()) == needle
}

/// Whether `needle` occurs anywhere in `hay`.
pub open spec fn contains_seq(hay: Seq<char>, needle: Seq<char>) -> bool {
    exists|i: int| contains_at(hay, needle, i)
}

/// Whether `needle` occurs in `hay` starting exactly at `i`.
fn matches_at(hay: &str, needle: &str, i: usize) -> (r: bool)
    requires
        i + needle@.len() <= hay@.len(),
    ensures
        r == contains_at(hay@, needle@, i as int),
{
    let nn = needle.unicode_len();
    let hn = hay.unicode_len();
    let mut j: usize = 0;
    while j < nn
        invariant
            j <= nn == needle@.len(),
            hn == hay@.len(),
            i + nn <= hn,
            forall|t: int| 0 <= t < j ==> hay@[i + t] == needle@[t],
        decreases nn - j,
    {
        if hay.get_char(i + j) != needle.get_char(j) {
            proof {
                assert(hay@.subrange(i as int, i + nn)[j as int] == hay@[i + j]);
            }
            return false;
        }
        j += 1;
    }
    proof {
        assert(hay@.subrange(i as int, i + nn) =~= needle@);
    }
    true
}

/// Substring search over the character sequences of the two strings.
pub fn str_contains(hay: &str, needle: &str) -> (r: bool)
    ensures
        r == contains_seq(hay@, needle@),
{
    let hn = hay.unicode_len();
    let nn = needle.unicode_len();
    if nn > hn {
        proof {
            assert(forall|i: int| !contains_at(hay@, needle@, i));
        }
        return false;
    }
    if nn == 0 {
        proof {
            assert(hay@.subrange(0, 0) =~= needle@);
            assert(contains_at(hay@, needle@, 0));
        }
        return true;
    }
    let mut i: usize = 0;
    while i <= hn - nn
        invariant
            0 < nn <= hn == hay@.len(),
            nn == needle@.len(),
            i <= hn,
            forall|k: int| 0 <= k < i ==> !contains_at(hay@, needle@, k),
        decreases hn - i,
    {
        if matches_at(hay, needle, i) {
            return true;
        }
        i += 1;
    }
    proof {
        assert(forall|k: int| k > hn - nn ==> !contains_at(hay@, needle@, k));
    }
    false
}

} // verus!
