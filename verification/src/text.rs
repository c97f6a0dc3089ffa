use vstd::prelude::*;
use vstd::string::*;

verus! {

/// The characters of a string slice, one `char` per element.
pub fn str_to_chars(s: &str) -> (v: Vec<char>)
    ensures
        v@ == s@,
{
    let n = s.unicode_len();
    let mut v: Vec<char> = Vec::new();
    let mut i: usize = 0;
    while i < n
        invariant
            i <= n,
            n == s@.len(),
            v@ == s@.take(i as int),
        decreases n - i,
    {
        let c = s.get_char(i);
        v.push(c);
        i = i + 1;
        proof {
            assert(v@ =~= s@.take(i as int));
        }
    }
    proof {
        assert(v@ =~= s@);
    }
    v
}

/// Relies on `String::push`: appends exactly the one given character.
#[verifier::external_body]
fn push_char(s: &mut String, c: char)
    ensures
        final(s)@ == old(s)@.push(c),
{
    s.push(c);
}

/// A `String` holding exactly the given characters.
pub fn chars_to_string(v: &Vec<char>) -> (s: String)
    ensures
        s@ == v@,
{
    let mut s = String::new();
    let mut i: usize = 0;
    while i < v.len()
        invariant
            i <= v.len(),
            s@ == v@.take(i as int),
        decreases v.len() - i,
    {
        push_char(&mut s, v[i]);
        i = i + 1;
        proof {
            assert(s@ =~= v@.take(i as int));
        }
    }
    proof {
        assert(s@ =~= v@);
    }
    s
}

/// Whether two string slices hold the same characters.
pub fn str_eq(a: &str, b: &str) -> (r: bool)
    ensures
        r == (a@ == b@),
{
    let sa = a.to_owned();
    let sb = b.to_owned();
    sa == sb
}

/// A fresh copy of a character vector.
pub fn copy_chars(v: &Vec<char>) -> (r: Vec<char>)
    ensures
        r@ == v@,
{
    let mut r: Vec<char> = Vec::new();
    let mut i: usize = 0;
    while i < v.len()
        invariant
            i <= v.len(),
            r@ == v@.take(i as int),
        decreases v.len() - i,
    {
        r.push(v[i]);
        i = i + 1;
        proof {
            assert(r@ =~= v@.take(i as int));
        }
    }
    proof {
        assert(r@ =~= v@);
    }
    r
}

/// The characters of `v` from index `a` (inclusive) to `b` (exclusive).
pub fn subrange_vec(v: &Vec<char>, a: usize, b: usize) -> (r: Vec<char>)
    requires
        a <= b <= v.len(),
    ensures
        r@ == v@.subrange(a as int, b as int),
{
    let mut r: Vec<char> = Vec::new();
    let mut i: usize = a;
    while i < b
        invariant
            a <= i <= b <= v.len(),
            r@ == v@.subrange(a as int, i as int),
        decreases b - i,
    {
        r.push(v[i]);
        i = i + 1;
        proof {
            assert(r@ =~= v@.subrange(a as int, i as int));
        }
    }
    r
}

/// The views of a sequence of character vectors.
pub open spec fn group_views(gs: Seq<Vec<char>>) -> Seq<Seq<char>> {
    gs.map_values(|g: Vec<char>| g@)
}

/// Appending one vector commutes with taking group views.
pub proof fn lemma_group_views_push(gs: Seq<Vec<char>>, g: Vec<char>)
    ensures
        group_views(gs.push(g)) == group_views(gs).push(g@),
{
    assert(group_views(gs.push(g)) =~= group_views(gs).push(g@));
}

/// Splitting a character sequence at every colon; splitting the empty
/// sequence yields one empty group, so the result is never empty.
pub open spec fn colon_split(s: Seq<char>) -> Seq<Seq<char>>
    decreases s.len(),
{
    if s.len() == 0 {
        seq![Seq::<char>::empty()]
    } else if s[0] == ':' {
        seq![Seq::<char>::empty()] + colon_split(s.skip(1))
    } else {
        let rest = colon_split(s.skip(1));
        seq![seq![s[0]] + rest[0]] + rest.skip(1)
    }
}

/// Joining groups with a colon between each pair of neighbours.
pub open spec fn join_colon(gs: Seq<Seq<char>>) -> Seq<char>
    decreases gs.len(),
{
    if gs.len() == 0 {
        Seq::empty()
    } else if gs.len() == 1 {
        gs[0]
    } else {
        gs[0] + seq![':'] + join_colon(gs.skip(1))
    }
}

/// The index of the first `::` in `s`, or -1 if there is none.
pub open spec fn first_dcolon(s: Seq<char>) -> int
    decreases s.len(),
{
    if s.len() < 2 {
        -1
    } else if s[0] == ':' && s[1] == ':' {
        0
    } else {
        let r = first_dcolon(s.skip(1));
        if r < 0 {
            -1
        } else {
            r + 1
        }
    }
}

/// The index of the first `::` at or after `from`, if any.
pub fn find_dcolon(v: &Vec<char>, from: usize) -> (r: Option<usize>)
    requires
        from <= v.len(),
    ensures
        ({
            let f = first_dcolon(v@.skip(from as int));
            match r {
                Some(k) => f >= 0 && k as int == from + f && k + 2 <= v.len(),
                None => f == -1,
            }
        }),
    decreases v.len() - from,
{
    if v.len() < 2 || from > v.len() - 2 {
        None
    } else if v[from] == ':' && v[from + 1] == ':' {
        Some(from)
    } else {
        proof {
            assert(v@.skip(from as int).skip(1) =~= v@.skip(from as int + 1));
        }
        find_dcolon(v, from + 1)
    }
}

/// The groups of `v` from index `from` on, split at every colon.
pub fn split_from(v: &Vec<char>, from: usize) -> (r: Vec<Vec<char>>)
    requires
        from <= v.len(),
    ensures
        group_views(r@) == colon_split(v@.skip(from as int)),
        r@.len() >= 1,
    decreases v.len() - from,
{
    if from == v.len() {
        let mut r: Vec<Vec<char>> = Vec::new();
        r.push(Vec::new());
        proof {
            assert(v@.skip(from as int) =~= Seq::<char>::empty());
            assert(group_views(r@) =~~= colon_split(v@.skip(from as int)));
        }
        r
    } else if v[from] == ':' {
        let mut r = split_from(v, from + 1);
        r.insert(0, Vec::new());
        proof {
            assert(v@.skip(from as int).skip(1) =~= v@.skip(from as int + 1));
            assert(group_views(r@) =~~= colon_split(v@.skip(from as int)));
        }
        r
    } else {
        let c = v[from];
        let mut r = split_from(v, from + 1);
        let mut g = r.remove(0);
        g.insert(0, c);
        r.insert(0, g);
        proof {
            assert(v@.skip(from as int).skip(1) =~= v@.skip(from as int + 1));
            assert(g@ =~= seq![c] + colon_split(v@.skip(from as int + 1))[0]);
            assert(group_views(r@) =~~= colon_split(v@.skip(from as int)));
        }
        r
    }
}

/// Splitting a whole character vector at every colon.
pub fn split_colon_vec(v: &Vec<char>) -> (r: Vec<Vec<char>>)
    ensures
        group_views(r@) == colon_split(v@),
        r@.len() >= 1,
{
    let r = split_from(v, 0);
    proof {
        assert(v@.skip(0) =~= v@);
    }
    r
}

/// Joining the groups of `gs` from index `from` on with colons.
pub fn join_from(gs: &Vec<Vec<char>>, from: usize) -> (r: Vec<char>)
    requires
        from <= gs.len(),
    ensures
        r@ == join_colon(group_views(gs@).skip(from as int)),
    decreases gs.len() - from,
{
    if from == gs.len() {
        let r: Vec<char> = Vec::new();
        proof {
            assert(group_views(gs@).skip(from as int) =~~= Seq::<Seq<char>>::empty());
        }
        r
    } else {
        let mut r = copy_chars(&gs[from]);
        if from + 1 < gs.len() {
            r.push(':');
            let mut rest = join_from(gs, from + 1);
            r.append(&mut rest);
            proof {
                assert(group_views(gs@).skip(from as int).skip(1) =~~= group_views(gs@).skip(
                    from as int + 1,
                ));
                assert(r@ =~= join_colon(group_views(gs@).skip(from as int)));
            }
        } else {
            proof {
                assert(group_views(gs@).skip(from as int).len() == 1);
                assert(r@ =~= join_colon(group_views(gs@).skip(from as int)));
            }
        }
        r
    }
}

/// Joining a whole vector of groups with colons.
pub fn join_colon_vec(gs: &Vec<Vec<char>>) -> (r: Vec<char>)
    ensures
        r@ == join_colon(group_views(gs@)),
{
    let r = join_from(gs, 0);
    proof {
        assert(group_views(gs@).skip(0) =~~= group_views(gs@));
    }
    r
}

} // verus!
