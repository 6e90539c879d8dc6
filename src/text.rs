//! Text values published on the root window.
use vstd::prelude::*;
use vstd::string::*;

verus! {

/// `parts` joined into one text, with a NUL character between each two.
pub open spec fn join_nul(parts: Seq<Seq<char>>) -> Seq<char>
    decreases parts.len(),
{
    if parts.len() == 0 {
        Seq::empty()
    } else if parts.len() == 1 {
        parts[0]
    } else {
        join_nul(parts.drop_last()) + seq!['\0'] + parts.last()
    }
}

/// `names` joined with a NUL character between each two.
pub fn join_with_nul(names: &Vec<String>) -> (r: String)
    ensures
        r@ == join_nul(names@.map_values(|c: String| c@)),
{
    let ghost parts = names@.map_values(|c: String| c@);
    let mut out = String::new();
    let mut i: usize = 0;
    while i < names.len()
        invariant
            parts == names@.map_values(|c: String| c@),
            i <= names@.len(),
            out@ == join_nul(parts.subrange(0, i as int)),
        decreases names@.len() - i,
    {
        proof {
            reveal_strlit("\0");
        }
        if i > 0 {
            out.append("\0");
        }
        out.append(names[i].as_str());
        proof {
            let next = parts.subrange(0, i + 1);
            assert(next.drop_last() =~= parts.subrange(0, i as int));
            assert(next.last() == names@[i as int]@);
            assert(out@ =~= join_nul(next));
        }
        i = i + 1;
    }
    assert(parts.subrange(0, names@.len() as int) =~= parts);
    out
}

} // verus!
