//! Slash-separated paths: splitting a path into its segments and joining
//! segments back into a path.
use vstd::prelude::*;

verus! {

/// The segments of `s`, as separated by `/`; empty segments are kept.
pub open spec fn split_path(s: Seq<char>) -> Seq<Seq<char>>
    decreases s.len(),
{
    if s.len() == 0 {
        seq![Seq::<char>::empty()]
    } else {
        let init = split_path(s.drop_last());
        if s.last() == '/' {
            init.push(Seq::<char>::empty())
        } else {
            init.update(init.len() - 1, init.last().push(s.last()))
        }
    }
}

/// The segments of `segs` put one after the other with a `/` between two
/// neighbours.
pub open spec fn join_path(segs: Seq<Seq<char>>) -> Seq<char>
    decreases segs.len(),
{
    if segs.len() == 0 {
        Seq::<char>::empty()
    } else if segs.len() == 1 {
        segs[0]
    } else {
        join_path(segs.drop_last()) + seq!['/'] + segs.last()
    }
}

/// `s` holds no `/`.
pub open spec fn is_segment(s: Seq<char>) -> bool {
    forall|i: int| 0 <= i < s.len() ==> s[i] != '/'
}

/// `s` is a non-empty segment.
pub open spec fn is_word(s: Seq<char>) -> bool {
    s.len() > 0 && is_segment(s)
}

/// The views of a sequence of strings.
pub open spec fn views(v: Seq<String>) -> Seq<Seq<char>> {
    v.map_values(|s: String| s@)
}

pub proof fn lemma_split_nonempty(s: Seq<char>)
    ensures
        split_path(s).len() >= 1,
    decreases s.len(),
{
    if s.len() > 0 {
        lemma_split_nonempty(s.drop_last());
    }
}

/// A path without `/` is a single segment.
pub proof fn lemma_split_segment(s: Seq<char>)
    requires
        is_segment(s),
    ensures
        split_path(s) == seq![s],
    decreases s.len(),
{
    if s.len() > 0 {
        let p = s.drop_last();
        assert(is_segment(p));
        lemma_split_segment(p);
        assert(p.push(s.last()) =~= s);
        assert(split_path(s) =~= seq![s]);
    } else {
        assert(s =~= Seq::<char>::empty());
    }
}

/// Splitting at a `/` splits the two sides apart.
pub proof fn lemma_split_concat(a: Seq<char>, b: Seq<char>)
    ensures
        split_path(a + seq!['/'] + b) == split_path(a) + split_path(b),
    decreases b.len(),
{
    let s = a + seq!['/'] + b;
    lemma_split_nonempty(a);
    if b.len() == 0 {
        assert(s.drop_last() =~= a);
        assert(split_path(b) =~= seq![Seq::<char>::empty()]);
        assert(split_path(s) =~= split_path(a) + split_path(b));
    } else {
        let b0 = b.drop_last();
        lemma_split_concat(a, b0);
        lemma_split_nonempty(b0);
        assert(s.drop_last() =~= a + seq!['/'] + b0);
        assert(s.last() == b.last());
        assert(split_path(s) =~= split_path(a) + split_path(b));
    }
}

/// Joining segments without `/` and splitting the result gives the segments
/// back.
pub proof fn lemma_split_join(segs: Seq<Seq<char>>)
    requires
        segs.len() >= 1,
        forall|i: int| 0 <= i < segs.len() ==> is_segment(#[trigger] segs[i]),
    ensures
        split_path(join_path(segs)) == segs,
    decreases segs.len(),
{
    if segs.len() == 1 {
        lemma_split_segment(segs[0]);
        assert(segs =~= seq![segs[0]]);
    } else {
        let init = segs.drop_last();
        lemma_split_join(init);
        lemma_split_concat(join_path(init), segs.last());
        lemma_split_segment(segs.last());
        assert(init + seq![segs.last()] =~= segs);
    }
}

/// Relies on `String::push`, which appends one character to the string.
#[verifier::external_body]
fn push_char(s: &mut String, c: char)
    ensures
        final(s)@ == old(s)@.push(c),
{
    s.push(c)
}

/// The segments of `path`, split at each `/`.
pub fn split_segments(path: &str) -> (r: Vec<String>)
    ensures
        views(r@) == split_path(path@),
{
    let mut segs: Vec<String> = Vec::new();
    let mut cur = String::new();
    let ghost mut done: Seq<char> = Seq::empty();
    for c in it: path.chars()
        invariant
            done == path@.take(it.index() as int),
            views(segs@).push(cur@) == split_path(done),
            it.seq() == path@,
    {
        proof {
            lemma_split_nonempty(done);
        }
        let ghost prev = done;
        let ghost prev_segs = views(segs@);
        proof {
            done = path@.take(it.index() as int + 1);
            assert(done.drop_last() =~= prev);
            assert(done.last() == c);
        }
        if c == '/' {
            let finished = cur;
            segs.push(finished);
            cur = String::new();
            assert(views(segs@) =~= prev_segs.push(finished@));
            assert(views(segs@).push(cur@) =~= split_path(done));
        } else {
            push_char(&mut cur, c);
            assert(views(segs@).push(cur@) =~= split_path(done));
        }
    }
    proof {
        assert(done =~= path@);
    }
    let last = cur;
    segs.push(last);
    assert(views(segs@) =~= split_path(path@));
    segs
}

/// The segments of `segs` joined with `/` between neighbours.
pub fn join_segments(segs: &Vec<String>) -> (r: String)
    ensures
        r@ == join_path(views(segs@)),
{
    let mut out = String::new();
    let mut i: usize = 0;
    while i < segs.len()
        invariant
            i <= segs.len(),
            out@ == join_path(views(segs@).take(i as int)),
        decreases segs.len() - i,
    {
        let ghost before = views(segs@).take(i as int);
        if i > 0 {
            out.append("/");
        }
        out.append(segs[i].as_str());
        proof {
            reveal_strlit("/");
            let now = views(segs@).take(i as int + 1);
            assert(now.drop_last() =~= before);
            if i == 0 {
                assert(before =~= Seq::<Seq<char>>::empty());
            }
        }
        i = i + 1;
    }
    assert(views(segs@).take(segs.len() as int) =~= views(segs@));
    out
}

} // verus!
