//! Composes the per-row description cell from a record's optional
//! description and URL, and joins tag lists into one display string.

use vstd::prelude::*;
use crate::records::opt_text;
use crate::records::texts_of;

verus! {

/// The display string for a record's description/URL fields: an
/// exhaustive case analysis over the two optionals. When the URL is
/// present, the matched text is appended to it directly, with no
/// separator: the URL acts as a prefix template.
pub open spec fn composed_description(
    description: Option<Seq<char>>,
    url: Option<Seq<char>>,
    text: Seq<char>,
) -> Seq<char> {
    match (description, url) {
        (Some(d), Some(u)) => d + "\n Check URL: "@ + u + text,
        (Some(d), None) => d,
        (None, Some(u)) => "URL:\n "@ + u + text,
        (None, None) => "None"@,
    }
}

/// Builds the description cell for one record. Total: every combination
/// of present/absent fields yields exactly one string.
pub fn compose_description(description: &Option<String>, url: &Option<String>, text: &str) -> (r:
    String)
    ensures
        r@ == composed_description(opt_text(*description), opt_text(*url), text@),
{
    match (description, url) {
        (Some(d), Some(u)) => {
            let mut r = d.clone();
            r.append("\n Check URL: ");
            r.append(u.as_str());
            r.append(text);
            r
        },
        (Some(d), None) => d.clone(),
        (None, Some(u)) => {
            let mut r = String::from_str("URL:\n ");
            r.append(u.as_str());
            r.append(text);
            r
        },
        (None, None) => String::from_str("None"),
    }
}

/// The tags joined with `", "`: empty input gives the empty string, a
/// single tag stands alone, and each further tag is preceded by the
/// separator.
pub open spec fn joined_tags(tags: Seq<Seq<char>>) -> Seq<char>
    decreases tags.len(),
{
    if tags.len() == 0 {
        Seq::empty()
    } else if tags.len() == 1 {
        tags[0]
    } else {
        joined_tags(tags.drop_last()) + ", "@ + tags.last()
    }
}

/// Joins the tag list into a single display string with `", "` between
/// consecutive tags.
pub fn join_tags(tags: &Vec<String>) -> (r: String)
    ensures
        r@ == joined_tags(texts_of(tags@)),
{
    let mut r = String::new();
    let mut i: usize = 0;
    proof {
        assert(texts_of(tags@).take(0) =~= Seq::<Seq<char>>::empty());
    }
    while i < tags.len()
        invariant
            i <= tags@.len(),
            r@ == joined_tags(texts_of(tags@).take(i as int)),
        decreases tags@.len() - i,
    {
        if i > 0 {
            r.append(", ");
        }
        r.append(tags[i].as_str());
        proof {
            let all = texts_of(tags@);
            assert(all.take(i + 1).drop_last() =~= all.take(i as int));
            assert(all.take(i + 1).last() == tags@[i as int]@);
            if i == 0 {
                assert(r@ == all.take(1)[0]);
            }
        }
        i += 1;
    }
    proof {
        assert(texts_of(tags@).take(tags@.len() as int) =~= texts_of(tags@));
    }
    r
}

} // verus!
