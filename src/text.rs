//! Character-level text operations: whitespace trimming, comma splitting and
//! pattern search, each stated over the string's sequence of characters.
use vstd::prelude::*;

verus! {

/// Unicode `White_Space`: the characters that trimming removes.
pub open spec fn is_space(c: char) -> bool {
    let u = c as u32;
    (0x9 <= u && u <= 0xd) || u == 0x20 || u == 0x85 || u == 0xa0 || u == 0x1680
        || (0x2000 <= u && u <= 0x200a) || u == 0x2028 || u == 0x2029 || u == 0x202f
        || u == 0x205f || u == 0x3000
}

/// `s` without its leading white space.
pub open spec fn trim_start(s: Seq<char>) -> Seq<char>
    decreases s.len(),
{
    if s.len() > 0 && is_space(s[0]) {
        trim_start(s.drop_first())
    } else {
        s
    }
}

/// `s` without its trailing white space.
pub open spec fn trim_end(s: Seq<char>) -> Seq<char>
    decreases s.len(),
{
    if s.len() > 0 && is_space(s.last()) {
        trim_end(s.drop_last())
    } else {
        s
    }
}

/// `s` without leading and trailing white space.
pub open spec fn trimmed(s: Seq<char>) -> Seq<char> {
    trim_end(trim_start(s))
}

/// The pieces of `s` between commas, in order; a string without commas is one
/// piece, and empty pieces are kept.
pub open spec fn comma_pieces(s: Seq<char>) -> Seq<Seq<char>>
    decreases s.len(),
{
    if s.len() == 0 {
        seq![Seq::<char>::empty()]
    } else {
        let rest = comma_pieces(s.drop_last());
        if s.last() == ',' {
            rest.push(Seq::<char>::empty())
        } else {
            rest.update(rest.len() - 1, rest.last().push(s.last()))
        }
    }
}

/// Each string of `pieces` trimmed.
pub open spec fn all_trimmed(pieces: Seq<Seq<char>>) -> Seq<Seq<char>> {
    pieces.map_values(|p: Seq<char>| trimmed(p))
}

/// The pieces of `s` between commas, each trimmed.
pub open spec fn role_list(s: Seq<char>) -> Seq<Seq<char>> {
    all_trimmed(comma_pieces(s))
}

/// `p` occurs in `s` starting at position `i`.
pub open spec fn occurs_at(s: Seq<char>, p: Seq<char>, i: int) -> bool {
    0 <= i && i + p.len() <= s.len() && s.subrange(i, i + p.len()) == p
}

/// `p` occurs somewhere in `s`.
pub open spec fn contains(s: Seq<char>, p: Seq<char>) -> bool {
    exists|i: int| occurs_at(s, p, i)
}

/// The first position at or after `k` where `p` occurs in `s`.
pub open spec fn find_from(s: Seq<char>, p: Seq<char>, k: int) -> Option<int>
    decreases s.len() + 1 - k,
{
    if k < 0 || k + p.len() > s.len() {
        None
    } else if occurs_at(s, p, k) {
        Some(k)
    } else {
        find_from(s, p, k + 1)
    }
}

/// The piece of `s` that splitting at every occurrence of `p` puts second:
/// from the end of the first occurrence up to the next occurrence, or to
/// the end of `s`. An empty `p` occurs at every position, but not twice at
/// the same one. `None` where `p` does not occur in `s`.
pub open spec fn second_piece(s: Seq<char>, p: Seq<char>) -> Option<Seq<char>> {
    match find_from(s, p, 0) {
        None => None,
        Some(i) => {
            let a = i + p.len();
            let from = if p.len() == 0 { a + 1 } else { a };
            match find_from(s, p, from) {
                Some(j) => Some(s.subrange(a, j)),
                None => Some(s.subrange(a, s.len() as int)),
            }
        },
    }
}

/// What `find_from` returns: the least position at or after `k` where `p`
/// occurs, and `None` only where there is none.
pub proof fn lemma_find_from(s: Seq<char>, p: Seq<char>, k: int)
    requires
        0 <= k,
    ensures
        find_from(s, p, k) is None ==> forall|i: int| k <= i ==> !occurs_at(s, p, i),
        find_from(s, p, k) is Some ==> {
            let i = find_from(s, p, k)->0;
            &&& k <= i
            &&& occurs_at(s, p, i)
            &&& forall|l: int| k <= l < i ==> !occurs_at(s, p, l)
        },
    decreases s.len() + 1 - k,
{
    if k + p.len() > s.len() {
    } else if occurs_at(s, p, k) {
    } else {
        lemma_find_from(s, p, k + 1);
        assert forall|i: int| k <= i && find_from(s, p, k) is None implies !occurs_at(s, p, i) by {
            if i > k {
            }
        }
    }
}

/// The view of each string of `v`.
pub open spec fn views(v: Seq<String>) -> Seq<Seq<char>> {
    v.map_values(|x: String| x@)
}

/// Whether `c` is white space.
pub fn is_space_char(c: char) -> (r: bool)
    ensures
        r == is_space(c),
{
    let u = c as u32;
    (0x9 <= u && u <= 0xd) || u == 0x20 || u == 0x85 || u == 0xa0 || u == 0x1680
        || (0x2000 <= u && u <= 0x200a) || u == 0x2028 || u == 0x2029 || u == 0x202f
        || u == 0x205f || u == 0x3000
}

/// The characters of `s`, one per element.
pub fn chars_of(s: &str) -> (r: Vec<char>)
    ensures
        r@ == s@,
{
    let mut r: Vec<char> = Vec::new();
    for c in it: s.chars()
        invariant
            r@ == it.seq().take(it.index() as int),
            it.seq() == s@,
    {
        r.push(c);
    }
    assert(r@ =~= s@);
    r
}

proof fn lemma_trim_start_step(s: Seq<char>, i: int)
    requires
        0 <= i < s.len(),
        is_space(s[i]),
    ensures
        trim_start(s.subrange(i, s.len() as int)) == trim_start(s.subrange(i + 1, s.len() as int)),
{
    assert(s.subrange(i, s.len() as int).drop_first() =~= s.subrange(i + 1, s.len() as int));
}

proof fn lemma_trim_end_step(s: Seq<char>, j: int)
    requires
        0 < j <= s.len(),
        is_space(s[j - 1]),
    ensures
        trim_end(s.subrange(0, j)) == trim_end(s.subrange(0, j - 1)),
{
    assert(s.subrange(0, j).drop_last() =~= s.subrange(0, j - 1));
}

/// `s` without leading and trailing white space.
pub fn trim(s: &str) -> (r: String)
    ensures
        r@ == trimmed(s@),
{
    let cs = chars_of(s);
    let n = cs.len();
    let mut i: usize = 0;
    assert(s@.subrange(0, n as int) =~= s@);
    while i < n && is_space_char(cs[i])
        invariant
            i <= n,
            n == s@.len(),
            cs@ == s@,
            trim_start(s@) == trim_start(s@.subrange(i as int, n as int)),
        decreases n - i,
    {
        proof {
            lemma_trim_start_step(s@, i as int);
        }
        i = i + 1;
    }
    let ghost rest = s@.subrange(i as int, n as int);
    assert(trim_start(s@) == rest) by {
        if i < n {
            assert(rest[0] == s@[i as int]);
        }
    }
    let mut j: usize = n - i;
    assert(rest.subrange(0, j as int) =~= rest);
    while j > 0 && is_space_char(cs[i + j - 1])
        invariant
            j <= n - i,
            n == s@.len(),
            cs@ == s@,
            rest == s@.subrange(i as int, n as int),
            trim_end(rest) == trim_end(rest.subrange(0, j as int)),
        decreases j,
    {
        proof {
            lemma_trim_end_step(rest, j as int);
        }
        j = j - 1;
    }
    assert(trim_end(rest) == rest.subrange(0, j as int)) by {
        if j > 0 {
            assert(rest.subrange(0, j as int).last() == cs@[i + j - 1]);
        }
    }
    assert(rest.subrange(0, j as int) =~= s@.subrange(i as int, (i + j) as int));
    s.substring_char(i, i + j).to_string()
}

/// The pieces of `s` between commas, each trimmed, in order.
pub fn split_trimmed(s: &str) -> (r: Vec<String>)
    ensures
        views(r@) == role_list(s@),
{
    let cs = chars_of(s);
    let n = cs.len();
    let mut r: Vec<String> = Vec::new();
    let mut start: usize = 0;
    let ghost mut pieces: Seq<Seq<char>> = Seq::empty();
    let mut k: usize = 0;
    assert(comma_pieces(s@.subrange(0, 0)) == pieces.push(s@.subrange(0, 0))) by {
        assert(s@.subrange(0, 0) =~= Seq::<char>::empty());
        assert(pieces.push(s@.subrange(0, 0)) =~= seq![Seq::<char>::empty()]);
    }
    while k < n
        invariant
            start <= k <= n,
            n == s@.len(),
            cs@ == s@,
            comma_pieces(s@.subrange(0, k as int)) == pieces.push(s@.subrange(start as int, k as int)),
            views(r@) == all_trimmed(pieces),
        decreases n - k,
    {
        let ghost prev = s@.subrange(0, k as int);
        assert(s@.subrange(0, k + 1).drop_last() =~= prev);
        assert(s@.subrange(0, k + 1).last() == cs@[k as int]);
        if cs[k] == ',' {
            let piece = trim(s.substring_char(start, k));
            proof {
                let old_pieces = pieces;
                pieces = pieces.push(s@.subrange(start as int, k as int));
                assert(views(r@.push(piece)) =~= views(r@).push(piece@));
                assert(all_trimmed(pieces) =~= all_trimmed(old_pieces).push(trimmed(s@.subrange(start as int, k as int))));
                assert(s@.subrange(k + 1, k + 1) =~= Seq::<char>::empty());
            }
            r.push(piece);
            start = k + 1;
        } else {
            assert(s@.subrange(start as int, k as int).push(cs@[k as int]) =~= s@.subrange(start as int, k + 1));
            assert(pieces.push(s@.subrange(start as int, k as int)).update(pieces.len() as int, s@.subrange(start as int, k + 1)) =~= pieces.push(s@.subrange(start as int, k + 1)));
        }
        k = k + 1;
    }
    let last = trim(s.substring_char(start, n));
    proof {
        assert(s@.subrange(0, n as int) =~= s@);
        assert(views(r@.push(last)) =~= views(r@).push(last@));
        assert(all_trimmed(pieces.push(s@.subrange(start as int, n as int))) =~= all_trimmed(pieces).push(trimmed(s@.subrange(start as int, n as int))));
    }
    r.push(last);
    r
}

/// Whether `p` occurs in `s` at position `i`.
pub fn occurs_at_exec(s: &Vec<char>, p: &Vec<char>, i: usize) -> (r: bool)
    ensures
        r == occurs_at(s@, p@, i as int),
{
    if i > s.len() || p.len() > s.len() - i {
        return false;
    }
    let mut j: usize = 0;
    while j < p.len()
        invariant
            j <= p.len(),
            i + p.len() <= s.len(),
            forall|l: int| 0 <= l < j ==> s@[i + l] == p@[l],
        decreases p.len() - j,
    {
        if s[i + j] != p[j] {
            assert(s@.subrange(i as int, i + p.len())[j as int] != p@[j as int]);
            return false;
        }
        j = j + 1;
    }
    assert(s@.subrange(i as int, i + p.len()) =~= p@);
    true
}

/// The first position at or after `k` where `p` occurs in `s`.
pub fn find_from_exec(s: &Vec<char>, p: &Vec<char>, k: usize) -> (r: Option<usize>)
    ensures
        r is Some <==> find_from(s@, p@, k as int) is Some,
        r is Some ==> r->0 as int == find_from(s@, p@, k as int)->0,
{
    let mut i: usize = k;
    while i < s.len() && p.len() <= s.len() - i
        invariant
            k <= i,
            find_from(s@, p@, k as int) == find_from(s@, p@, i as int),
        decreases s.len() - i,
    {
        if occurs_at_exec(s, p, i) {
            return Some(i);
        }
        i = i + 1;
    }
    if p.len() == 0 && i == s.len() {
        assert(s@.subrange(i as int, i as int) =~= p@);
    }
    if occurs_at_exec(s, p, i) {
        Some(i)
    } else {
        None
    }
}

} // verus!
