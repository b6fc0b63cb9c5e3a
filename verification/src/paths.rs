//! Unix paths compared the way `std::path::Path` compares them: component by
//! component, where repeated separators, a trailing separator and `.` past the
//! start are not components.
use vstd::prelude::*;

verus! {

/// The pieces of `s` between `/` separators, empty ones included
/// (`a//b/` gives `a`, ``, `b`, ``).
pub open spec fn split_on_slash(s: Seq<char>) -> Seq<Seq<char>>
    decreases s.len(),
{
    if s.len() == 0 {
        seq![Seq::<char>::empty()]
    } else {
        let p = split_on_slash(s.drop_last());
        if s.last() == '/' {
            p.push(Seq::<char>::empty())
        } else {
            p.update(p.len() - 1, p.last().push(s.last()))
        }
    }
}

/// A piece that is a component of its own: not empty and not `.`.
pub open spec fn is_named_piece(p: Seq<char>) -> bool {
    p.len() > 0 && p != seq!['.']
}

/// The components of the Unix path `s`: whether it starts at the root, whether
/// it starts with the current directory `.`, and its named components in
/// order (`..` among them).
pub open spec fn unix_components(s: Seq<char>) -> (bool, bool, Seq<Seq<char>>) {
    let root = s.len() > 0 && s[0] == '/';
    let pieces = split_on_slash(s);
    (root, !root && pieces[0] == seq!['.'], pieces.filter(|p: Seq<char>| is_named_piece(p)))
}

/// `a` and `b` name the same path.
pub open spec fn same_unix_path(a: Seq<char>, b: Seq<char>) -> bool {
    unix_components(a) == unix_components(b)
}

/// Compares `Path::new(a)` with `Path::new(b)` (std). Claimed, as std documents
/// for Unix-like targets: paths are equal when their components are, where
/// repeated separators and a trailing separator are ignored and `.` is dropped
/// except at the start of a relative path.
#[verifier::external_body]
pub(crate) fn same_path(a: &str, b: &str) -> (r: bool)
    ensures
        r == same_unix_path(a@, b@),
{
    std::path::Path::new(a) == std::path::Path::new(b)
}

proof fn lemma_split_nonempty(s: Seq<char>)
    ensures
        split_on_slash(s).len() >= 1,
    decreases s.len(),
{
    if s.len() > 0 {
        lemma_split_nonempty(s.drop_last());
    }
}

proof fn lemma_split_push_slash(s: Seq<char>)
    ensures
        split_on_slash(s.push('/')) == split_on_slash(s).push(Seq::<char>::empty()),
{
    assert(s.push('/').drop_last() =~= s);
}

proof fn lemma_split_joined(a: Seq<char>, b: Seq<char>)
    ensures
        split_on_slash(a + seq!['/'] + b) == split_on_slash(a) + split_on_slash(b),
    decreases b.len(),
{
    let j = a + seq!['/'] + b;
    if b.len() == 0 {
        assert(j =~= a.push('/'));
        lemma_split_push_slash(a);
        assert(split_on_slash(a) + split_on_slash(b) =~= split_on_slash(a).push(Seq::<char>::empty()));
    } else {
        let bb = b.drop_last();
        assert(j.drop_last() =~= a + seq!['/'] + bb);
        assert(j.last() == b.last());
        lemma_split_joined(a, bb);
        lemma_split_nonempty(bb);
        lemma_split_nonempty(a);
        let pa = split_on_slash(a);
        let pb = split_on_slash(bb);
        if b.last() == '/' {
            assert((pa + pb).push(Seq::<char>::empty()) =~= pa + pb.push(Seq::<char>::empty()));
        } else {
            let p = pa + pb;
            assert(p.last() == pb.last());
            assert(p.update(p.len() - 1, p.last().push(b.last()))
                =~= pa + pb.update(pb.len() - 1, pb.last().push(b.last())));
        }
    }
}

proof fn lemma_filter_push_unnamed(p: Seq<Seq<char>>)
    ensures
        p.push(Seq::<char>::empty()).filter(|q: Seq<char>| is_named_piece(q))
            == p.filter(|q: Seq<char>| is_named_piece(q)),
{
    reveal(Seq::filter);
    assert(p.push(Seq::<char>::empty()).drop_last() =~= p);
}

/// A trailing `/` does not change which path a non-empty text names
/// (`/mnt/` and `/mnt` are the same mount point).
pub proof fn trailing_slash_names_same_path(s: Seq<char>)
    requires
        s.len() > 0,
    ensures
        same_unix_path(s.push('/'), s),
{
    lemma_split_push_slash(s);
    lemma_split_nonempty(s);
    lemma_filter_push_unnamed(split_on_slash(s));
    assert(s.push('/')[0] == s[0]);
    assert(split_on_slash(s).push(Seq::<char>::empty())[0] == split_on_slash(s)[0]);
}

/// A doubled `/` names the same path as a single one
/// (`/mnt//data` and `/mnt/data` are the same mount point).
pub proof fn doubled_slash_names_same_path(a: Seq<char>, b: Seq<char>)
    ensures
        same_unix_path(a + seq!['/', '/'] + b, a + seq!['/'] + b),
{
    let x = a + seq!['/'] + b;
    let y = a + seq!['/', '/'] + b;
    assert(y =~= a.push('/') + seq!['/'] + b);
    lemma_split_joined(a.push('/'), b);
    lemma_split_joined(a, b);
    lemma_split_push_slash(a);
    lemma_split_nonempty(a);
    let pa = split_on_slash(a);
    let pb = split_on_slash(b);
    let e = Seq::<char>::empty();
    assert(split_on_slash(y) == pa.push(e) + pb);
    assert(split_on_slash(x) == pa + pb);
    Seq::filter_distributes_over_add(pa.push(e), pb, |q: Seq<char>| is_named_piece(q));
    Seq::filter_distributes_over_add(pa, pb, |q: Seq<char>| is_named_piece(q));
    lemma_filter_push_unnamed(pa);
    assert((pa.push(e) + pb)[0] == pa[0]);
    assert((pa + pb)[0] == pa[0]);
    assert(y[0] == x[0]);
}

}
