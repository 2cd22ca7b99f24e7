//! Strings as the specifications see them.

use vstd::prelude::*;
use vstd::string::*;

verus! {

/// The views of a sequence of strings, in the same order.
pub open spec fn text_views(strings: Seq<String>) -> Seq<Seq<char>> {
    strings.map_values(|string: String| string@)
}

/// The view of an optional string.
pub open spec fn optional_view(text: Option<&str>) -> Option<Seq<char>> {
    match text {
        Some(text) => Some(text@),
        None => None,
    }
}

/// `parts` in a row with `separator` between each two of them.
pub open spec fn joined(parts: Seq<Seq<char>>, separator: Seq<char>) -> Seq<char>
    decreases parts.len(),
{
    if parts.len() == 0 {
        Seq::empty()
    } else if parts.len() == 1 {
        parts[0]
    } else {
        joined(parts.drop_last(), separator) + separator + parts.last()
    }
}

/// Puts `parts` in a row with `separator` between each two of them.
pub fn join(parts: &[String], separator: &str) -> (row: String)
    ensures
        row@ == joined(text_views(parts@), separator@),
{
    let mut row = String::new();
    let mut i: usize = 0;
    let ghost all = text_views(parts@);
    assert(all.take(0) =~= Seq::<Seq<char>>::empty());
    while i < parts.len()
        invariant
            i <= parts.len(),
            all == text_views(parts@),
            row@ == joined(all.take(i as int), separator@),
        decreases parts.len() - i,
    {
        proof {
            assert(all.take(i + 1).drop_last() =~= all.take(i as int));
            assert(all.take(i + 1).last() == parts@[i as int]@);
        }
        if i > 0 {
            row.append(separator);
        }
        row.append(parts[i].as_str());
        i = i + 1;
    }
    assert(all.take(i as int) =~= all);
    row
}

} // verus!
