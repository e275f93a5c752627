//! Narrowing catalog results down to one: choosing among search hits,
//! mapping a user's pick back to a hit, dropping hits a server cannot use,
//! and picking the published version that fits the requested loader and
//! game version.
use vstd::prelude::*;
use vstd::string::*;
use crate::modrinth_request::ServerSide;
use crate::records::{CandidateRecord, VersionEntry};
use crate::text::{contains_text, same_text, str_opt};

verus! {

/// How a list of search hits is reduced to one.
#[derive(Clone, Copy, Debug, PartialEq, Eq, Structural)]
pub enum Disambiguation {
    /// The hit at this index is the one.
    Chosen(usize),
    /// No hit can be used.
    NoMatch,
    /// Several hits remain and a person has to pick one.
    NeedsChoice,
}

/// `i` is the first index of a hit whose identifier is `id`.
pub open spec fn first_with_id(cands: Seq<CandidateRecord>, id: Seq<char>, i: int) -> bool {
    &&& 0 <= i < cands.len()
    &&& cands[i].project_id@ == id
    &&& forall|j: int| 0 <= j < i ==> #[trigger] cands[j].project_id@ != id
}

/// The reduction that `disambiguate` performs. An exact identifier decides
/// alone: the hit with that identifier, or no match.
pub open spec fn disambiguation_spec(
    cands: Seq<CandidateRecord>,
    hint: Option<Seq<char>>,
    r: Disambiguation,
) -> bool {
    match hint {
        Some(id) => {
            if exists|i: int| 0 <= i < cands.len() && #[trigger] cands[i].project_id@ == id {
                exists|i: int| first_with_id(cands, id, i) && r == Disambiguation::Chosen(i as usize)
            } else {
                r == Disambiguation::NoMatch
            }
        },
        None => {
            if cands.len() == 1 {
                r == Disambiguation::Chosen(0)
            } else if cands.len() == 0 {
                r == Disambiguation::NoMatch
            } else {
                r == Disambiguation::NeedsChoice
            }
        },
    }
}

/// Reduces the hits to one. With an exact identifier the hit that carries
/// it is returned without asking anyone; without one a single hit is taken,
/// no hit is no match, and several need a person's choice.
pub fn disambiguate(candidates: &Vec<CandidateRecord>, exact_hint: Option<&str>) -> (r:
    Disambiguation)
    ensures
        disambiguation_spec(candidates@, str_opt(exact_hint), r),
        exact_hint is Some ==> r != Disambiguation::NeedsChoice,
{
    match exact_hint {
        Some(id) => {
            let mut i: usize = 0;
            while i < candidates.len()
                invariant
                    i <= candidates@.len(),
                    exact_hint == Some(id),
                    forall|j: int| 0 <= j < i ==> #[trigger] candidates@[j].project_id@ != id@,
                decreases candidates@.len() - i,
            {
                if same_text(candidates[i].project_id.as_str(), id) {
                    assert(first_with_id(candidates@, id@, i as int));
                    return Disambiguation::Chosen(i);
                }
                i = i + 1;
            }
            Disambiguation::NoMatch
        },
        None => {
            if candidates.len() == 1 {
                Disambiguation::Chosen(0)
            } else if candidates.len() == 0 {
                Disambiguation::NoMatch
            } else {
                Disambiguation::NeedsChoice
            }
        },
    }
}

/// The text a person sees for a hit: title, author and description, so that
/// hits with the same title can be told apart.
pub open spec fn label_spec(c: CandidateRecord) -> Seq<char> {
    c.title@ + "\nAuthor: "@ + c.author@ + "\nDescription: "@ + c.description@
}

pub fn candidate_label(c: &CandidateRecord) -> (r: String)
    ensures
        r@ == label_spec(*c),
{
    let mut s = c.title.clone();
    s.append("\nAuthor: ");
    s.append(c.author.as_str());
    s.append("\nDescription: ");
    s.append(c.description.as_str());
    s
}

/// The labels of all hits, in order.
pub fn candidate_labels(candidates: &Vec<CandidateRecord>) -> (r: Vec<String>)
    ensures
        r@.len() == candidates@.len(),
        forall|i: int| 0 <= i < r@.len() ==> #[trigger] r@[i]@ == label_spec(candidates@[i]),
{
    let mut r: Vec<String> = Vec::new();
    let mut i: usize = 0;
    while i < candidates.len()
        invariant
            i <= candidates@.len(),
            r@.len() == i,
            forall|k: int| 0 <= k < i ==> #[trigger] r@[k]@ == label_spec(candidates@[k]),
        decreases candidates@.len() - i,
    {
        r.push(candidate_label(&candidates[i]));
        i = i + 1;
    }
    r
}

/// Maps the label a person picked back to the first hit that carries it.
pub fn index_of_choice(candidates: &Vec<CandidateRecord>, selected: &str) -> (r: Option<usize>)
    ensures
        r matches Some(i) ==> i < candidates@.len() && label_spec(candidates@[i as int])
            == selected@ && forall|j: int|
            0 <= j < i ==> label_spec(#[trigger] candidates@[j]) != selected@,
        r is None ==> forall|j: int|
            0 <= j < candidates@.len() ==> label_spec(#[trigger] candidates@[j]) != selected@,
{
    let mut i: usize = 0;
    while i < candidates.len()
        invariant
            i <= candidates@.len(),
            forall|j: int| 0 <= j < i ==> label_spec(#[trigger] candidates@[j]) != selected@,
        decreases candidates@.len() - i,
    {
        let label = candidate_label(&candidates[i]);
        if same_text(label.as_str(), selected) {
            return Some(i);
        }
        i = i + 1;
    }
    None
}

/// Whether a server install must ask before taking this hit.
pub open spec fn needs_confirmation_spec(c: CandidateRecord) -> bool {
    c.server_side == Some(ServerSide::Optional)
}

/// Whether a server install keeps this hit: hits without a server tag and
/// hits the server requires are kept, optional ones only when confirmed,
/// the others never.
pub open spec fn server_keeps(c: CandidateRecord, confirmed: bool) -> bool {
    match c.server_side {
        None => true,
        Some(ServerSide::Required) => true,
        Some(ServerSide::Optional) => confirmed,
        Some(ServerSide::Unsupported) => false,
        Some(ServerSide::Unknown) => false,
    }
}

/// The hits a server install keeps, in their order.
pub open spec fn server_filtered(cands: Seq<CandidateRecord>, confirmed: Seq<bool>) -> Seq<
    CandidateRecord,
>
    decreases cands.len(),
{
    if cands.len() == 0 {
        Seq::empty()
    } else {
        let rest = server_filtered(cands.drop_last(), confirmed);
        if server_keeps(cands.last(), confirmed[cands.len() - 1]) {
            rest.push(cands.last())
        } else {
            rest
        }
    }
}

pub fn needs_confirmation(c: &CandidateRecord) -> (r: bool)
    ensures
        r == needs_confirmation_spec(*c),
{
    match c.server_side {
        Some(ServerSide::Optional) => true,
        _ => false,
    }
}

/// Drops the hits a server install cannot use. `confirmed[i]` is the
/// person's answer for hit `i`; it is read only for optional hits.
pub fn filter_for_server(candidates: Vec<CandidateRecord>, confirmed: &Vec<bool>) -> (r: Vec<
    CandidateRecord,
>)
    requires
        confirmed@.len() == candidates@.len(),
    ensures
        r@ == server_filtered(candidates@, confirmed@),
{
    let ghost all = candidates@;
    let total = candidates.len();
    let mut rest = candidates;
    let mut kept: Vec<CandidateRecord> = Vec::new();
    let mut i: usize = 0;
    while rest.len() > 0
        invariant
            i <= all.len(),
            confirmed@.len() == all.len(),
            rest@ == all.subrange(i as int, all.len() as int),
            rest@.len() == all.len() - i,
            total == all.len(),
            kept@ == server_filtered(all.subrange(0, i as int), confirmed@),
        decreases rest@.len(),
    {
        let c = rest.remove(0);
        let keep = match c.server_side {
            None => true,
            Some(ServerSide::Required) => true,
            Some(ServerSide::Optional) => confirmed[i],
            Some(ServerSide::Unsupported) => false,
            Some(ServerSide::Unknown) => false,
        };
        proof {
            let next = all.subrange(0, i + 1);
            assert(next.drop_last() =~= all.subrange(0, i as int));
            assert(next.last() == c);
        }
        if keep {
            kept.push(c);
        }
        i = i + 1;
        assert(rest@ =~= all.subrange(i as int, all.len() as int));
    }
    assert(all.subrange(0, i as int) =~= all);
    kept
}

/// Whether a published version fits: it lists the requested loader, if one
/// was requested, and the requested game version, if one was requested, and
/// it has a file.
pub open spec fn entry_fits(e: VersionEntry, loader: Option<Seq<char>>, version: Option<Seq<char>>) -> bool {
    &&& loader matches Some(l) ==> exists|k: int| 0 <= k < e.loaders@.len() && #[trigger] e.loaders@[k]@ == l
    &&& version matches Some(v) ==> exists|k: int|
        0 <= k < e.game_versions@.len() && #[trigger] e.game_versions@[k]@ == v
    &&& e.files@.len() > 0
}

pub fn fits(e: &VersionEntry, loader: Option<&str>, version: Option<&str>) -> (r: bool)
    ensures
        r == entry_fits(*e, str_opt(loader), str_opt(version)),
{
    let loader_ok = match loader {
        Some(l) => contains_text(&e.loaders, l),
        None => true,
    };
    let version_ok = match version {
        Some(v) => contains_text(&e.game_versions, v),
        None => true,
    };
    loader_ok && version_ok && e.files.len() > 0
}

/// Picks the first published version that fits the request.
pub fn select_version_entry(
    entries: &Vec<VersionEntry>,
    loader: Option<&str>,
    version: Option<&str>,
) -> (r: Option<usize>)
    ensures
        r matches Some(i) ==> i < entries@.len() && entry_fits(
            entries@[i as int],
            str_opt(loader),
            str_opt(version),
        ) && forall|j: int|
            0 <= j < i ==> !entry_fits(
                #[trigger] entries@[j],
                str_opt(loader),
                str_opt(version),
            ),
        r is None ==> forall|j: int|
            0 <= j < entries@.len() ==> !entry_fits(
                #[trigger] entries@[j],
                str_opt(loader),
                str_opt(version),
            ),
{
    let mut i: usize = 0;
    while i < entries.len()
        invariant
            i <= entries@.len(),
            forall|j: int|
                0 <= j < i ==> !entry_fits(
                    #[trigger] entries@[j],
                    str_opt(loader),
                    str_opt(version),
                ),
        decreases entries@.len() - i,
    {
        if fits(&entries[i], loader, version) {
            return Some(i);
        }
        i = i + 1;
    }
    None
}

} // verus!
