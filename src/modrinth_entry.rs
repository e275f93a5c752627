//! Resolution of one mod from the registry, as a sequence of steps. Each
//! step names the outside work to do next (a request, a person's choice, a
//! download); the caller does it and hands the result back.
use vstd::prelude::*;
use vstd::string::*;
use crate::modrinth_request::{
    facet_array, project_versions_url, project_versions_url_spec, push_facet_array,
    SEARCH_API_END_POINT,
};
use crate::retry::FirstRequestRetry;
use crate::records::{
    copy_dependencies, opt_view, triple_complete, ArtifactKind, CandidateRecord, ResolvedArtifact,
    VersionEntry,
};
use crate::resolve::{
    candidate_labels, disambiguate, entry_fits, filter_for_server, index_of_choice, label_spec,
    needs_confirmation, needs_confirmation_spec, select_version_entry, server_filtered,
    Disambiguation,
};
use crate::text::str_opt;

verus! {

/// Why a resolution stopped without an artifact.
#[derive(Clone, Copy, Debug, PartialEq, Eq, Structural)]
pub enum ResolutionError {
    /// A request failed in transport or its answer could not be read, after
    /// the one retry of the first request.
    NetworkError,
    /// No search hit could be used.
    NoMatch,
    /// No published version fits the requested loader and game version.
    NoSuitableBuild,
    /// A required input is absent; nothing was requested.
    MissingField,
}

/// The next piece of outside work of a resolution.
pub enum ModStep {
    /// Run this search and report its hits.
    Search(String),
    /// Fetch the version list at this URL and report it.
    ListVersions(String),
    /// Let a person pick one of these labels and report the pick.
    Choose(Vec<String>),
    /// For a server install: ask a person about each hit that names a
    /// project here (its slug) and report one answer per hit.
    Confirm(Vec<Option<String>>),
    /// The artifact is pinned: fetch it.
    Fetch(ResolvedArtifact),
    /// The resolution failed.
    Fail(ResolutionError),
}

/// The search URL used to find a mod by name, restricted to mods and, when
/// given, to a loader and a game version.
pub open spec fn name_search_terms(loader: Option<Seq<char>>, version: Option<Seq<char>>) -> Seq<
    Seq<char>,
> {
    seq!["project_type:mod"@] + match loader {
        Some(l) => seq!["categories:"@ + l],
        None => Seq::empty(),
    } + match version {
        Some(v) => seq!["versions:"@ + v],
        None => Seq::empty(),
    }
}

pub open spec fn name_search_url_spec(
    name: Seq<char>,
    loader: Option<Seq<char>>,
    version: Option<Seq<char>>,
) -> Seq<char> {
    SEARCH_API_END_POINT@ + "?query="@ + name + "&facets="@ + facet_array(
        name_search_terms(loader, version),
    )
}

pub fn name_search_url(name: &str, loader: Option<&str>, version: Option<&str>) -> (r: String)
    ensures
        r@ == name_search_url_spec(name@, str_opt(loader), str_opt(version)),
{
    let mut terms: Vec<String> = Vec::new();
    terms.push(String::from_str("project_type:mod"));
    if let Some(l) = loader {
        let mut t = String::from_str("categories:");
        t.append(l);
        terms.push(t);
    }
    if let Some(v) = version {
        let mut t = String::from_str("versions:");
        t.append(v);
        terms.push(t);
    }
    assert(terms@.map_values(|s: String| s@) =~= name_search_terms(
        str_opt(loader),
        str_opt(version),
    ));
    let mut url = String::from_str(SEARCH_API_END_POINT);
    url.append("?query=");
    url.append(name);
    url.append("&facets=");
    push_facet_array(&mut url, &terms);
    url
}

/// The game version pinned from a published version: the requested one, or
/// else the first the published version lists.
pub open spec fn chosen_version(e: VersionEntry, version: Option<Seq<char>>) -> Seq<char> {
    match version {
        Some(v) => v,
        None => if e.game_versions@.len() > 0 {
            e.game_versions@[0]@
        } else {
            Seq::empty()
        },
    }
}

/// The loader pinned from a published version: the requested one, or else
/// the first the published version lists.
pub open spec fn chosen_loader(e: VersionEntry, loader: Option<Seq<char>>) -> Option<Seq<char>> {
    match loader {
        Some(l) => Some(l),
        None => if e.loaders@.len() > 0 {
            Some(e.loaders@[0]@)
        } else {
            None
        },
    }
}

/// `a` is the artifact pinned from the published version `e` of project
/// `id`: its first file, its version label as build, its dependencies.
pub open spec fn pinned_from(
    a: ResolvedArtifact,
    id: Seq<char>,
    e: VersionEntry,
    loader: Option<Seq<char>>,
    version: Option<Seq<char>>,
) -> bool {
    &&& e.files@.len() > 0
    &&& a.project_id_spec() == id
    &&& a.version_spec() == chosen_version(e, version)
    &&& a.loader_spec() == chosen_loader(e, loader)
    &&& a.build_spec() == e.version_number@
    &&& a.filename_spec() == e.files@[0].filename@
    &&& a.dependencies_spec() == e.dependencies@
    &&& a.kind_spec() == ArtifactKind::Mod
    &&& a.url_spec() == (if triple_complete(
        chosen_version(e, version),
        e.version_number@,
        chosen_loader(e, loader),
        ArtifactKind::Mod,
    ) {
        Some(e.files@[0].url@)
    } else {
        None
    })
}

/// Pins the artifact of a published version that has a file.
pub fn pin_from_entry(
    project_id: &str,
    e: &VersionEntry,
    loader: Option<&str>,
    version: Option<&str>,
) -> (r: ResolvedArtifact)
    requires
        e.files@.len() > 0,
    ensures
        pinned_from(r, project_id@, *e, str_opt(loader), str_opt(version)),
{
    let chosen_v = match version {
        Some(v) => String::from_str(v),
        None => if e.game_versions.len() > 0 {
            e.game_versions[0].clone()
        } else {
            String::new()
        },
    };
    let chosen_l = match loader {
        Some(l) => Some(String::from_str(l)),
        None => if e.loaders.len() > 0 {
            Some(e.loaders[0].clone())
        } else {
            None
        },
    };
    ResolvedArtifact::pin(
        String::from_str(project_id),
        chosen_v,
        chosen_l,
        e.version_number.clone(),
        e.files[0].url.clone(),
        e.files[0].filename.clone(),
        copy_dependencies(&e.dependencies),
        ArtifactKind::Mod,
    )
}

/// How a list of usable hits is reduced: none is no match, one moves on to
/// its version list, several are handed to a person.
/// Without a single hit the identifier and the last request stay as they
/// were.
pub open spec fn reduction(
    h: Seq<CandidateRecord>,
    r: ModStep,
    id_before: Option<Seq<char>>,
    id_after: Option<Seq<char>>,
    candidates_after: Seq<CandidateRecord>,
    request_before: Seq<char>,
    request_after: Seq<char>,
) -> bool {
    &&& h.len() != 1 ==> id_after == id_before && request_after == request_before
    &&& if h.len() == 0 {
        r == ModStep::Fail(ResolutionError::NoMatch)
    } else if h.len() == 1 {
        r matches ModStep::ListVersions(u) && u@ == project_versions_url_spec(h[0].project_id@)
            && id_after == Some(h[0].project_id@) && request_after == u@
    } else {
        r matches ModStep::Choose(labels) && labels@.len() == h.len() && (forall|i: int|
            0 <= i < h.len() ==> #[trigger] labels@[i]@ == label_spec(h[i]))
            && candidates_after == h
    }
}

/// The questions of a server install: the slug of each optional hit, none
/// for the others.
pub open spec fn questions_spec(h: Seq<CandidateRecord>) -> Seq<Option<Seq<char>>> {
    Seq::new(
        h.len(),
        |i: int|
            if needs_confirmation_spec(h[i]) {
                Some(h[i].slug@)
            } else {
                None
            },
    )
}

pub open spec fn opt_views(v: Seq<Option<String>>) -> Seq<Option<Seq<char>>> {
    Seq::new(v.len(), |i: int| opt_view(v[i]))
}

/// The resolution of one mod: what was asked for, what has been pinned so
/// far, and where the retry of the first request stands.
pub struct ModrinthEntry {
    mod_name: Option<String>,
    mod_id: Option<String>,
    mod_version: Option<String>,
    mod_loader: Option<String>,
    candidates: Vec<CandidateRecord>,
    pending: Vec<CandidateRecord>,
    for_server: bool,
    request: String,
    retry: FirstRequestRetry,
}

impl ModrinthEntry {
    pub closed spec fn name_spec(&self) -> Option<Seq<char>> {
        opt_view(self.mod_name)
    }

    pub closed spec fn id_spec(&self) -> Option<Seq<char>> {
        opt_view(self.mod_id)
    }

    pub closed spec fn version_spec(&self) -> Option<Seq<char>> {
        opt_view(self.mod_version)
    }

    pub closed spec fn loader_spec(&self) -> Option<Seq<char>> {
        opt_view(self.mod_loader)
    }

    pub closed spec fn candidates_spec(&self) -> Seq<CandidateRecord> {
        self.candidates@
    }

    /// The hits waiting for a person's answers.
    pub closed spec fn pending_spec(&self) -> Seq<CandidateRecord> {
        self.pending@
    }

    /// Whether hits are filtered for a server install.
    pub closed spec fn for_server_spec(&self) -> bool {
        self.for_server
    }

    /// The URL of the last request handed out.
    pub closed spec fn request_spec(&self) -> Seq<char> {
        self.request@
    }

    /// Whether a failed request may still be retried: only the first
    /// request, and only once.
    pub closed spec fn may_retry(&self) -> bool {
        self.retry.may_retry()
    }

    pub fn builder() -> (r: Self)
        ensures
            r.name_spec() is None,
            r.id_spec() is None,
            r.version_spec() is None,
            r.loader_spec() is None,
            r.candidates_spec().len() == 0,
            r.may_retry(),
    {
        ModrinthEntry {
            mod_name: None,
            mod_id: None,
            mod_version: None,
            mod_loader: None,
            candidates: Vec::new(),
            pending: Vec::new(),
            for_server: false,
            request: String::new(),
            retry: FirstRequestRetry::new(),
        }
    }

    /// Starts resolving a mod given by identifier or by name. An identifier
    /// skips the search and goes straight to the version list; with neither
    /// nothing is requested.
    pub fn download_mod(
        &mut self,
        mod_id: Option<String>,
        mod_name: Option<String>,
        mod_loader: Option<String>,
        version: Option<String>,
    ) -> (r: ModStep)
        ensures
            !final(self).for_server_spec(),
            Self::started(mod_id, mod_name, mod_loader, version, *final(self), r),
    {
        self.begin(mod_id, mod_name, mod_loader, version, false)
    }

    /// Starts resolving a mod for a server install, as `download_mod` does.
    /// Its search hits are then filtered by what the server side needs.
    pub fn download_server_mod(
        &mut self,
        mod_id: Option<String>,
        mod_name: Option<String>,
        mod_loader: Option<String>,
        version: Option<String>,
    ) -> (r: ModStep)
        ensures
            final(self).for_server_spec(),
            Self::started(mod_id, mod_name, mod_loader, version, *final(self), r),
    {
        self.begin(mod_id, mod_name, mod_loader, version, true)
    }

    /// Starts resolving a dependency of `root` by its identifier, with the
    /// root's loader and, for a server install, the root's game version.
    pub fn download_dependency(&mut self, id: String, root: &ResolvedArtifact, for_server: bool) -> (r:
        ModStep)
        ensures
            final(self).for_server_spec() == for_server,
            final(self).id_spec() == Some(id@),
            final(self).name_spec() is None,
            final(self).loader_spec() == root.loader_spec(),
            final(self).version_spec() == (if for_server {
                Some(root.version_spec())
            } else {
                None
            }),
            final(self).may_retry(),
            r matches ModStep::ListVersions(u) && u@ == project_versions_url_spec(id@)
                && final(self).request_spec() == u@,
    {
        let loader = root.loader().clone();
        let version = if for_server {
            Some(root.version().clone())
        } else {
            None
        };
        self.begin(Some(id), None, loader, version, for_server)
    }

    /// The state and first step of a resolution just started.
    pub open spec fn started(
        mod_id: Option<String>,
        mod_name: Option<String>,
        mod_loader: Option<String>,
        version: Option<String>,
        s: Self,
        r: ModStep,
    ) -> bool {
        &&& s.id_spec() == opt_view(mod_id)
        &&& s.name_spec() == opt_view(mod_name)
        &&& s.loader_spec() == opt_view(mod_loader)
        &&& s.version_spec() == opt_view(version)
        &&& s.may_retry()
        &&& mod_id is None && mod_name is None ==> r == ModStep::Fail(
            ResolutionError::MissingField,
        )
        &&& mod_id matches Some(id) ==> (r matches ModStep::ListVersions(u) && u@
            == project_versions_url_spec(id@) && s.request_spec() == u@)
        &&& mod_id is None ==> (mod_name matches Some(n) ==> (r matches ModStep::Search(u) && u@
            == name_search_url_spec(n@, opt_view(mod_loader), opt_view(version))
            && s.request_spec() == u@))
    }

    fn begin(
        &mut self,
        mod_id: Option<String>,
        mod_name: Option<String>,
        mod_loader: Option<String>,
        version: Option<String>,
        for_server: bool,
    ) -> (r: ModStep)
        ensures
            final(self).for_server_spec() == for_server,
            final(self).id_spec() == opt_view(mod_id),
            final(self).name_spec() == opt_view(mod_name),
            final(self).loader_spec() == opt_view(mod_loader),
            final(self).version_spec() == opt_view(version),
            final(self).may_retry(),
            mod_id is None && mod_name is None ==> r == ModStep::Fail(ResolutionError::MissingField),
            mod_id matches Some(id) ==> (r matches ModStep::ListVersions(u) && u@
                == project_versions_url_spec(id@) && final(self).request_spec() == u@),
            mod_id is None ==> (mod_name matches Some(n) ==> (r matches ModStep::Search(u) && u@
                == name_search_url_spec(n@, opt_view(mod_loader), opt_view(version))
                && final(self).request_spec() == u@)),
    {
        self.mod_id = mod_id;
        self.mod_name = mod_name;
        self.mod_loader = mod_loader;
        self.mod_version = version;
        self.retry = FirstRequestRetry::new();
        self.candidates = Vec::new();
        self.pending = Vec::new();
        self.for_server = for_server;
        match &self.mod_id {
            Some(id) => {
                let u = project_versions_url(id.as_str());
                self.request = u.clone();
                ModStep::ListVersions(u)
            },
            None => match &self.mod_name {
                Some(n) => {
                    let loader = match &self.mod_loader {
                        Some(l) => Some(l.as_str()),
                        None => None,
                    };
                    let version = match &self.mod_version {
                        Some(v) => Some(v.as_str()),
                        None => None,
                    };
                    let u = name_search_url(n.as_str(), loader, version);
                    self.request = u.clone();
                    ModStep::Search(u)
                },
                None => ModStep::Fail(ResolutionError::MissingField),
            },
        }
    }

    /// Moves on to the version list of the chosen project.
    fn list_versions_of(&mut self, id: String) -> (r: ModStep)
        ensures
            final(self).id_spec() == Some(id@),
            final(self).name_spec() == old(self).name_spec(),
            final(self).loader_spec() == old(self).loader_spec(),
            final(self).version_spec() == old(self).version_spec(),
            final(self).may_retry() == old(self).may_retry(),
            final(self).for_server_spec() == old(self).for_server_spec(),
            r matches ModStep::ListVersions(u) && u@ == project_versions_url_spec(id@)
                && final(self).request_spec() == u@,
    {
        let u = project_versions_url(id.as_str());
        self.mod_id = Some(id);
        self.request = u.clone();
        ModStep::ListVersions(u)
    }

    /// Reduces the usable hits to one.
    fn reduce(&mut self, h: Vec<CandidateRecord>) -> (r: ModStep)
        ensures
            final(self).name_spec() == old(self).name_spec(),
            final(self).loader_spec() == old(self).loader_spec(),
            final(self).version_spec() == old(self).version_spec(),
            final(self).may_retry() == old(self).may_retry(),
            final(self).for_server_spec() == old(self).for_server_spec(),
            reduction(
                h@,
                r,
                old(self).id_spec(),
                final(self).id_spec(),
                final(self).candidates_spec(),
                old(self).request_spec(),
                final(self).request_spec(),
            ),
    {
        match disambiguate(&h, None) {
            Disambiguation::Chosen(i) => {
                let id = h[i].project_id.clone();
                self.list_versions_of(id)
            },
            Disambiguation::NoMatch => ModStep::Fail(ResolutionError::NoMatch),
            Disambiguation::NeedsChoice => {
                let labels = candidate_labels(&h);
                self.candidates = h;
                ModStep::Choose(labels)
            },
        }
    }

    /// Takes the hits of the search (`None` when the request failed). A
    /// single hit is taken, several are handed to a person, none is no
    /// match. For a server install, hits the server side cannot use are
    /// dropped first, and a person is asked about optional ones. A failed
    /// first request is retried once.
    pub fn on_search(&mut self, hits: Option<Vec<CandidateRecord>>) -> (r: ModStep)
        ensures
            final(self).name_spec() == old(self).name_spec(),
            final(self).loader_spec() == old(self).loader_spec(),
            final(self).version_spec() == old(self).version_spec(),
            final(self).for_server_spec() == old(self).for_server_spec(),
            hits is None ==> final(self).id_spec() == old(self).id_spec(),
            hits is None && old(self).may_retry() ==> (r matches ModStep::Search(u) && u@
                == old(self).request_spec() && final(self).request_spec() == u@
                && !final(self).may_retry()),
            hits is None && !old(self).may_retry() ==> r == ModStep::Fail(
                ResolutionError::NetworkError,
            ),
            hits matches Some(h) ==> !final(self).may_retry() && (if !old(self).for_server_spec() {
                reduction(
                    h@,
                    r,
                    old(self).id_spec(),
                    final(self).id_spec(),
                    final(self).candidates_spec(),
                    old(self).request_spec(),
                    final(self).request_spec(),
                )
            } else if exists|i: int| 0 <= i < h@.len() && needs_confirmation_spec(#[trigger] h@[i]) {
                r matches ModStep::Confirm(q) && opt_views(q@) == questions_spec(h@)
                    && final(self).pending_spec() == h@ && final(self).id_spec() == old(
                    self,
                ).id_spec()
            } else {
                reduction(
                    server_filtered(h@, Seq::new(h@.len(), |i: int| false)),
                    r,
                    old(self).id_spec(),
                    final(self).id_spec(),
                    final(self).candidates_spec(),
                    old(self).request_spec(),
                    final(self).request_spec(),
                )
            }),
    {
        match hits {
            None => {
                if self.retry.on_failure() {
                    ModStep::Search(self.request.clone())
                } else {
                    ModStep::Fail(ResolutionError::NetworkError)
                }
            },
            Some(h) => {
                self.retry.on_answer();
                if !self.for_server {
                    return self.reduce(h);
                }
                let mut questions: Vec<Option<String>> = Vec::new();
                let mut no: Vec<bool> = Vec::new();
                let mut ask = false;
                let mut i: usize = 0;
                while i < h.len()
                    invariant
                        i <= h@.len(),
                        questions@.len() == i,
                        no@ == Seq::new(i as nat, |k: int| false),
                        opt_views(questions@) == questions_spec(h@).subrange(0, i as int),
                        ask == exists|k: int| 0 <= k < i && needs_confirmation_spec(#[trigger] h@[k]),
                    decreases h@.len() - i,
                {
                    if needs_confirmation(&h[i]) {
                        questions.push(Some(h[i].slug.clone()));
                        ask = true;
                    } else {
                        questions.push(None);
                    }
                    no.push(false);
                    i = i + 1;
                    assert(opt_views(questions@) =~= questions_spec(h@).subrange(0, i as int));
                    assert(no@ =~= Seq::new(i as nat, |k: int| false));
                }
                assert(questions_spec(h@).subrange(0, i as int) =~= questions_spec(h@));
                if ask {
                    self.pending = h;
                    ModStep::Confirm(questions)
                } else {
                    let kept = filter_for_server(h, &no);
                    self.reduce(kept)
                }
            },
        }
    }

    /// Takes a person's answers about the hits of a server install, one per
    /// hit, and reduces the hits that remain.
    pub fn on_confirm(&mut self, answers: &Vec<bool>) -> (r: ModStep)
        requires
            answers@.len() == old(self).pending_spec().len(),
        ensures
            final(self).name_spec() == old(self).name_spec(),
            final(self).loader_spec() == old(self).loader_spec(),
            final(self).version_spec() == old(self).version_spec(),
            final(self).may_retry() == old(self).may_retry(),
            final(self).for_server_spec() == old(self).for_server_spec(),
            reduction(
                server_filtered(old(self).pending_spec(), answers@),
                r,
                old(self).id_spec(),
                final(self).id_spec(),
                final(self).candidates_spec(),
                old(self).request_spec(),
                final(self).request_spec(),
            ),
    {
        let mut pending: Vec<CandidateRecord> = Vec::new();
        core::mem::swap(&mut pending, &mut self.pending);
        let kept = filter_for_server(pending, answers);
        self.reduce(kept)
    }

    /// Takes the label a person picked among the hits.
    pub fn on_choice(&mut self, selected: &str) -> (r: ModStep)
        ensures
            final(self).name_spec() == old(self).name_spec(),
            final(self).loader_spec() == old(self).loader_spec(),
            final(self).version_spec() == old(self).version_spec(),
            final(self).may_retry() == old(self).may_retry(),
            (exists|i: int|
                0 <= i < old(self).candidates_spec().len() && label_spec(
                    #[trigger] old(self).candidates_spec()[i],
                ) == selected@) ==> exists|i: int|
                0 <= i < old(self).candidates_spec().len() && label_spec(
                    old(self).candidates_spec()[i],
                ) == selected@ && (forall|j: int|
                    0 <= j < i ==> label_spec(#[trigger] old(self).candidates_spec()[j])
                        != selected@) && (r matches ModStep::ListVersions(u) && u@
                    == project_versions_url_spec(old(self).candidates_spec()[i].project_id@)
                    && final(self).id_spec() == Some(
                    old(self).candidates_spec()[i].project_id@,
                )),
            (forall|i: int|
                0 <= i < old(self).candidates_spec().len() ==> label_spec(
                    #[trigger] old(self).candidates_spec()[i],
                ) != selected@) ==> r == ModStep::Fail(ResolutionError::NoMatch) && final(self).id_spec()
                == old(self).id_spec(),
    {
        match index_of_choice(&self.candidates, selected) {
            Some(i) => {
                let id = self.candidates[i].project_id.clone();
                self.list_versions_of(id)
            },
            None => ModStep::Fail(ResolutionError::NoMatch),
        }
    }

    /// Takes the version list of the chosen project (`None` when the request
    /// failed) and pins the first published version that fits.
    pub fn on_versions(&mut self, versions: Option<Vec<VersionEntry>>) -> (r: ModStep)
        requires
            old(self).id_spec() is Some,
        ensures
            final(self).id_spec() == old(self).id_spec(),
            final(self).name_spec() == old(self).name_spec(),
            final(self).loader_spec() == old(self).loader_spec(),
            final(self).version_spec() == old(self).version_spec(),
            final(self).for_server_spec() == old(self).for_server_spec(),
            final(self).request_spec() == old(self).request_spec(),
            versions is None && old(self).may_retry() ==> (r matches ModStep::ListVersions(u) && u@
                == old(self).request_spec() && !final(self).may_retry()),
            versions is None && !old(self).may_retry() ==> r == ModStep::Fail(
                ResolutionError::NetworkError,
            ),
            versions matches Some(v) ==> {
                let fits = |e: VersionEntry|
                    entry_fits(e, old(self).loader_spec(), old(self).version_spec());
                &&& (forall|j: int| 0 <= j < v@.len() ==> !fits(#[trigger] v@[j])) ==> r
                    == ModStep::Fail(ResolutionError::NoSuitableBuild)
                &&& (exists|j: int| 0 <= j < v@.len() && fits(#[trigger] v@[j])) ==> exists|
                    i: int,
                |
                    0 <= i < v@.len() && fits(v@[i]) && (forall|j: int|
                        0 <= j < i ==> !fits(#[trigger] v@[j])) && ((r matches ModStep::Fetch(a)
                        && pinned_from(
                        a,
                        old(self).id_spec()->0,
                        v@[i],
                        old(self).loader_spec(),
                        old(self).version_spec(),
                    ) && a.url_spec() is Some) || (r == ModStep::Fail(
                        ResolutionError::NoSuitableBuild,
                    ) && forall|a: ResolvedArtifact|
                        pinned_from(
                            a,
                            old(self).id_spec()->0,
                            v@[i],
                            old(self).loader_spec(),
                            old(self).version_spec(),
                        ) ==> a.url_spec() is None))
            },
    {
        match versions {
            None => {
                if self.retry.on_failure() {
                    ModStep::ListVersions(self.request.clone())
                } else {
                    ModStep::Fail(ResolutionError::NetworkError)
                }
            },
            Some(v) => {
                self.retry.on_answer();
                let loader = match &self.mod_loader {
                    Some(l) => Some(l.as_str()),
                    None => None,
                };
                let version = match &self.mod_version {
                    Some(s) => Some(s.as_str()),
                    None => None,
                };
                assert(str_opt(loader) == old(self).loader_spec());
                assert(str_opt(version) == old(self).version_spec());
                match select_version_entry(&v, loader, version) {
                    Some(i) => {
                        let id = match &self.mod_id {
                            Some(id) => id.as_str(),
                            None => "",
                        };
                        let a = pin_from_entry(id, &v[i], loader, version);
                        if a.is_fetchable() {
                            ModStep::Fetch(a)
                        } else {
                            ModStep::Fail(ResolutionError::NoSuitableBuild)
                        }
                    },
                    None => ModStep::Fail(ResolutionError::NoSuitableBuild),
                }
            },
        }
    }

    pub fn mod_id(&self) -> (r: &Option<String>)
        ensures
            opt_view(*r) == self.id_spec(),
    {
        &self.mod_id
    }

    pub fn mod_loader(&self) -> (r: &Option<String>)
        ensures
            opt_view(*r) == self.loader_spec(),
    {
        &self.mod_loader
    }

    pub fn mod_version(&self) -> (r: &Option<String>)
        ensures
            opt_view(*r) == self.version_spec(),
    {
        &self.mod_version
    }
}

} // verus!
