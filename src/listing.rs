//! The text shown for the hits of a search.
use vstd::prelude::*;
use vstd::string::*;
use crate::modrinth_entry::ModrinthEntry;
use crate::records::opt_view;
use crate::text::{decimal, push_decimal};

verus! {

/// The items separated by `sep`.
pub open spec fn joined(items: Seq<Seq<char>>, sep: Seq<char>) -> Seq<char>
    decreases items.len(),
{
    if items.len() == 0 {
        Seq::empty()
    } else if items.len() == 1 {
        items[0]
    } else {
        joined(items.drop_last(), sep) + sep + items.last()
    }
}

/// The text with its line breaks taken out.
pub open spec fn without_newlines(s: Seq<char>) -> Seq<char>
    decreases s.len(),
{
    if s.len() == 0 {
        Seq::empty()
    } else if s.last() == '\n' {
        without_newlines(s.drop_last())
    } else {
        without_newlines(s.drop_last()).push(s.last())
    }
}

/// A search hit as listed: each field may be missing from the answer.
pub struct SearchHit {
    pub title: Option<String>,
    pub project_id: Option<String>,
    pub project_type: Option<String>,
    pub versions: Option<Vec<String>>,
    pub description: Option<String>,
}

/// A field as shown: its text, or `default` when it is missing.
pub open spec fn shown(o: Option<Seq<char>>, default: Seq<char>) -> Seq<char> {
    match o {
        Some(t) => t,
        None => default,
    }
}

/// The game versions as shown: joined by commas, `Unknown` when missing.
pub open spec fn versions_shown(v: Option<Vec<String>>) -> Seq<char> {
    match v {
        Some(list) => joined(list@.map_values(|t: String| t@), ", "@),
        None => "Unknown"@,
    }
}

/// The block shown for the hit at `index` (counted from zero, shown from one).
pub open spec fn entry_text(index: nat, c: SearchHit) -> Seq<char> {
    "\n"@ + decimal(index + 1) + ". Name: "@ + shown(opt_view(c.title), "Unknown"@) + "\n   ID: "@
        + shown(opt_view(c.project_id), "Unknown"@) + "\n   Type: "@ + shown(
        opt_view(c.project_type),
        "Unknown"@,
    ) + "\n   Game Versions: "@ + versions_shown(c.versions) + "\n   Description: "@
        + without_newlines(shown(opt_view(c.description), "No description"@)) + "\n"@
}

/// The blocks of all hits, in order.
pub open spec fn entries_text(hits: Seq<SearchHit>) -> Seq<char>
    decreases hits.len(),
{
    if hits.len() == 0 {
        Seq::empty()
    } else {
        entries_text(hits.drop_last()) + entry_text((hits.len() - 1) as nat, hits.last())
    }
}

/// The whole listing: a count, then one block per hit.
pub open spec fn listing_text(hits: Seq<SearchHit>) -> Seq<char> {
    "Found "@ + decimal(hits.len()) + " entries:\n"@ + entries_text(hits)
}

/// Appends the items separated by `sep`.
pub fn push_joined(s: &mut String, items: &Vec<String>, sep: &str)
    ensures
        final(s)@ == old(s)@ + joined(items@.map_values(|v: String| v@), sep@),
{
    let ghost views = items@.map_values(|v: String| v@);
    let ghost start = s@;
    let mut i: usize = 0;
    while i < items.len()
        invariant
            i <= items@.len(),
            views == items@.map_values(|v: String| v@),
            s@ == start + joined(views.subrange(0, i as int), sep@),
        decreases items@.len() - i,
    {
        if i > 0 {
            s.append(sep);
        }
        s.append(items[i].as_str());
        proof {
            let next = views.subrange(0, i + 1);
            assert(next.drop_last() =~= views.subrange(0, i as int));
        }
        i = i + 1;
        assert(s@ =~= start + joined(views.subrange(0, i as int), sep@));
    }
    assert(views.subrange(0, i as int) =~= views);
}

/// Appends the text with its line breaks taken out.
pub fn push_without_newlines(s: &mut String, text: &str)
    ensures
        final(s)@ == old(s)@ + without_newlines(text@),
{
    let ghost start = s@;
    let n = text.unicode_len();
    let mut i: usize = 0;
    while i < n
        invariant
            i <= n,
            n == text@.len(),
            s@ == start + without_newlines(text@.subrange(0, i as int)),
        decreases n - i,
    {
        let c = text.get_char(i);
        proof {
            let next = text@.subrange(0, i + 1);
            assert(next.drop_last() =~= text@.subrange(0, i as int));
            assert(next.last() == c);
        }
        if c != '\n' {
            let one = text.substring_char(i, i + 1);
            assert(one@ =~= seq![c]);
            s.append(one);
        }
        i = i + 1;
        assert(s@ =~= start + without_newlines(text@.subrange(0, i as int)));
    }
    assert(text@.subrange(0, i as int) =~= text@);
}

/// Appends a field as shown.
fn push_shown(s: &mut String, o: &Option<String>, default: &str)
    ensures
        final(s)@ == old(s)@ + shown(opt_view(*o), default@),
{
    match o {
        Some(t) => s.append(t.as_str()),
        None => s.append(default),
    }
}

/// Appends the game versions as shown.
fn push_versions_shown(s: &mut String, v: &Option<Vec<String>>)
    ensures
        final(s)@ == old(s)@ + versions_shown(*v),
{
    match v {
        Some(list) => push_joined(s, list, ", "),
        None => s.append("Unknown"),
    }
}

/// Appends the description as shown, without its line breaks.
fn push_description(s: &mut String, d: &Option<String>)
    ensures
        final(s)@ == old(s)@ + without_newlines(shown(opt_view(*d), "No description"@)),
{
    match d {
        Some(t) => push_without_newlines(s, t.as_str()),
        None => push_without_newlines(s, "No description"),
    }
}

/// Appends the block shown for the hit at `index`.
#[verifier::rlimit(40)]
pub fn push_entry(s: &mut String, index: usize, c: &SearchHit)
    requires
        index < usize::MAX,
    ensures
        final(s)@ == old(s)@ + entry_text(index as nat, *c),
{
    s.append("\n");
    push_decimal(s, index as u64 + 1);
    s.append(". Name: ");
    push_shown(s, &c.title, "Unknown");
    s.append("\n   ID: ");
    push_shown(s, &c.project_id, "Unknown");
    s.append("\n   Type: ");
    push_shown(s, &c.project_type, "Unknown");
    s.append("\n   Game Versions: ");
    push_versions_shown(s, &c.versions);
    s.append("\n   Description: ");
    push_description(s, &c.description);
    s.append("\n");
    assert(final(s)@ =~= old(s)@ + entry_text(index as nat, *c));
}

impl ModrinthEntry {
    /// The text that lists the hits of a search.
    pub fn display_entries(hits: &Vec<SearchHit>) -> (r: String)
        ensures
            r@ == listing_text(hits@),
    {
        let mut s = String::from_str("Found ");
        push_decimal(&mut s, hits.len() as u64);
        s.append(" entries:\n");
        let ghost head = s@;
        let mut i: usize = 0;
        while i < hits.len()
            invariant
                i <= hits@.len(),
                s@ == head + entries_text(hits@.subrange(0, i as int)),
            decreases hits@.len() - i,
        {
            let c = &hits[i];
            push_entry(&mut s, i, c);
            proof {
                let next = hits@.subrange(0, i + 1);
                assert(next.drop_last() =~= hits@.subrange(0, i as int));
                assert(next.last() == *c);
            }
            i = i + 1;
            assert(s@ =~= head + entries_text(hits@.subrange(0, i as int)));
        }
        assert(hits@.subrange(0, i as int) =~= hits@);
        s
    }
}

} // verus!
