//! Building printed lines out of words.

use vstd::prelude::*;
use vstd::string::*;

verus! {

/// The values of a sequence of strings.
pub open spec fn strings_view(v: Seq<String>) -> Seq<Seq<char>> {
    v.map_values(|s: String| s@)
}

/// Appending a string appends its value.
pub proof fn lemma_strings_view_push(v: Seq<String>, x: String)
    ensures
        strings_view(v.push(x)) == strings_view(v).push(x@),
{
    let l = strings_view(v.push(x));
    let r = strings_view(v).push(x@);
    assert forall|i: int| 0 <= i < l.len() implies l[i] == r[i] by {
        if i < v.len() {
            assert(v.push(x)[i] == v[i]);
        }
    }
    assert(l =~= r);
}

/// `head` followed by each of `parts`, each preceded by a space.
pub open spec fn spaced_spec(head: Seq<char>, parts: Seq<Seq<char>>) -> Seq<char>
    decreases parts.len(),
{
    if parts.len() == 0 {
        head
    } else {
        spaced_spec(head, parts.drop_last()) + " "@ + parts.last()
    }
}

/// Writes `head` followed by each of `parts`, each preceded by a space.
pub fn spaced(head: &str, parts: &Vec<String>) -> (r: String)
    ensures
        r@ == spaced_spec(head@, strings_view(parts@)),
{
    let mut r = head.to_owned();
    let ghost all = strings_view(parts@);
    assert(all.take(0) =~= Seq::<Seq<char>>::empty());
    for i in 0..parts.len()
        invariant
            all == strings_view(parts@),
            r@ == spaced_spec(head@, all.take(i as int)),
    {
        r.append(" ");
        r.append(parts[i].as_str());
        assert(all.take(i + 1).drop_last() =~= all.take(i as int));
    }
    assert(all.take(parts.len() as int) =~= all);
    r
}

} // verus!
