use vstd::prelude::*;

verus! {

/// A tag mapping as pairs of name and value.
pub type TagSeq = Seq<(Seq<char>, Seq<char>)>;

pub open spec fn tags_view(v: Seq<(String, String)>) -> TagSeq {
    v.map_values(|p: (String, String)| (p.0@, p.1@))
}

pub open spec fn opt_text(o: Option<String>) -> Option<Seq<char>> {
    match o {
        Some(s) => Some(s@),
        None => None,
    }
}

/// The value of the last tag named `k`, if any.
pub open spec fn find_tag(s: TagSeq, k: Seq<char>) -> Option<Seq<char>>
    decreases s.len(),
{
    if s.len() == 0 {
        None
    } else if s.last().0 == k {
        Some(s.last().1)
    } else {
        find_tag(s.drop_last(), k)
    }
}

/// The mapping without any tag named `k`, in the same order.
pub open spec fn drop_tag(s: TagSeq, k: Seq<char>) -> TagSeq
    decreases s.len(),
{
    if s.len() == 0 {
        s
    } else if s.last().0 == k {
        drop_tag(s.drop_last(), k)
    } else {
        drop_tag(s.drop_last(), k).push(s.last())
    }
}

/// Looks a tag up by name.
pub fn tag_value(tags: &Vec<(String, String)>, key: &String) -> (r: Option<String>)
    ensures
        opt_text(r) == find_tag(tags_view(tags@), key@),
{
    let ghost tv = tags_view(tags@);
    let mut r: Option<String> = None;
    let mut i: usize = 0;
    while i < tags.len()
        invariant
            i <= tags.len(),
            tv == tags_view(tags@),
            opt_text(r) == find_tag(tv.take(i as int), key@),
        decreases tags.len() - i,
    {
        assert(tv.take(i as int + 1).drop_last() =~= tv.take(i as int));
        if tags[i].0 == *key {
            r = Some(tags[i].1.clone());
        }
        i = i + 1;
    }
    assert(tv.take(i as int) =~= tv);
    r
}

/// A copy of the mapping without the tags named `key`.
pub fn without_tag(tags: &Vec<(String, String)>, key: &String) -> (r: Vec<(String, String)>)
    ensures
        tags_view(r@) == drop_tag(tags_view(tags@), key@),
{
    let ghost tv = tags_view(tags@);
    let mut r: Vec<(String, String)> = Vec::new();
    let mut i: usize = 0;
    while i < tags.len()
        invariant
            i <= tags.len(),
            tv == tags_view(tags@),
            tags_view(r@) == drop_tag(tv.take(i as int), key@),
        decreases tags.len() - i,
    {
        assert(tv.take(i as int + 1).drop_last() =~= tv.take(i as int));
        if !(tags[i].0 == *key) {
            let ghost before = r@;
            r.push((tags[i].0.clone(), tags[i].1.clone()));
            assert(tags_view(r@) =~= tags_view(before).push(tv[i as int]));
        }
        i = i + 1;
    }
    assert(tv.take(i as int) =~= tv);
    r
}

/// Dropping one name leaves the lookup of another unchanged.
pub proof fn lemma_find_after_drop(s: TagSeq, k: Seq<char>, j: Seq<char>)
    requires
        k != j,
    ensures
        find_tag(drop_tag(s, k), j) == find_tag(s, j),
    decreases s.len(),
{
    if s.len() > 0 {
        lemma_find_after_drop(s.drop_last(), k, j);
        if s.last().0 != k {
            assert(drop_tag(s, k).drop_last() =~= drop_tag(s.drop_last(), k));
        }
    }
}

/// Dropping a name that no tag has changes nothing.
pub proof fn lemma_drop_absent(s: TagSeq, k: Seq<char>)
    requires
        find_tag(s, k) is None,
    ensures
        drop_tag(s, k) == s,
    decreases s.len(),
{
    if s.len() > 0 {
        lemma_drop_absent(s.drop_last(), k);
        assert(s.drop_last().push(s.last()) =~= s);
    }
}

} // verus!
