//! Queries against the mod registry: the closed vocabularies it accepts, the
//! search query and the request URLs built from it.
use vstd::prelude::*;
use vstd::string::*;
use crate::text::{
    decimal, json_escaped, lower_of, lowercase, push_decimal, push_json_escaped, same_text,
};

verus! {

pub const SEARCH_API_END_POINT: &'static str = "https://api.modrinth.com/v2/search";

pub const PROJECT_API_END_POINT: &'static str = "https://api.modrinth.com/v2/project/";

/// Sort order accepted by the registry search.
#[derive(Clone, Copy, Debug, PartialEq, Eq, Structural)]
pub enum ModrinthSortingFilter {
    Relevance,
    Downloads,
    Follows,
    Newest,
    Updated,
}

/// The sort order named by an already lower-cased text, if any.
pub open spec fn sorting_named(name: Seq<char>) -> Option<ModrinthSortingFilter> {
    if name == "relevance"@ {
        Some(ModrinthSortingFilter::Relevance)
    } else if name == "downloads"@ {
        Some(ModrinthSortingFilter::Downloads)
    } else if name == "follows"@ {
        Some(ModrinthSortingFilter::Follows)
    } else if name == "newest"@ {
        Some(ModrinthSortingFilter::Newest)
    } else if name == "updated"@ {
        Some(ModrinthSortingFilter::Updated)
    } else {
        None
    }
}

impl ModrinthSortingFilter {
    pub open spec fn name(self) -> Seq<char> {
        match self {
            ModrinthSortingFilter::Relevance => "relevance"@,
            ModrinthSortingFilter::Downloads => "downloads"@,
            ModrinthSortingFilter::Follows => "follows"@,
            ModrinthSortingFilter::Newest => "newest"@,
            ModrinthSortingFilter::Updated => "updated"@,
        }
    }

    /// Reads a sort order from user input, ignoring case; anything that is
    /// not one of the five names means "no preference".
    pub fn with(maybe_filter: Option<&str>) -> (r: Option<Self>)
        ensures
            maybe_filter is None ==> r is None,
            maybe_filter matches Some(s) ==> r == sorting_named(lower_of(s@)),
    {
        match maybe_filter {
            Some(s) => {
                let lower = lowercase(s);
                Self::from_lowercase(lower.as_str())
            },
            None => None,
        }
    }

    /// The sort order whose name is exactly `name`.
    pub fn from_lowercase(name: &str) -> (r: Option<Self>)
        ensures
            r == sorting_named(name@),
    {
        if same_text(name, "relevance") {
            Some(ModrinthSortingFilter::Relevance)
        } else if same_text(name, "downloads") {
            Some(ModrinthSortingFilter::Downloads)
        } else if same_text(name, "follows") {
            Some(ModrinthSortingFilter::Follows)
        } else if same_text(name, "newest") {
            Some(ModrinthSortingFilter::Newest)
        } else if same_text(name, "updated") {
            Some(ModrinthSortingFilter::Updated)
        } else {
            None
        }
    }

    pub fn get_filter(&self) -> (r: &'static str)
        ensures
            r@ == self.name(),
    {
        match self {
            ModrinthSortingFilter::Relevance => "relevance",
            ModrinthSortingFilter::Downloads => "downloads",
            ModrinthSortingFilter::Follows => "follows",
            ModrinthSortingFilter::Newest => "newest",
            ModrinthSortingFilter::Updated => "updated",
        }
    }
}

/// Mod loaders known to the registry.
#[derive(Clone, Copy, Debug, PartialEq, Eq, Structural)]
pub enum ModLoaders {
    Fabric,
    Forge,
    Quilt,
    NeoForge,
    LiteLoader,
    ModLoader,
    Rift,
}

impl ModLoaders {
    pub open spec fn name(self) -> Seq<char> {
        match self {
            ModLoaders::Fabric => "fabric"@,
            ModLoaders::Forge => "forge"@,
            ModLoaders::Quilt => "quilt"@,
            ModLoaders::NeoForge => "neoforge"@,
            ModLoaders::LiteLoader => "liteloader"@,
            ModLoaders::ModLoader => "modloader"@,
            ModLoaders::Rift => "rift"@,
        }
    }

    /// The loader with exactly this name, if any.
    pub fn from_name(name: &str) -> (r: Option<Self>)
        ensures
            r matches Some(l) ==> l.name() == name@,
            r is None ==> forall|l: ModLoaders| l.name() != name@,
    {
        proof {
            reveal_strlit("fabric");
            reveal_strlit("forge");
            reveal_strlit("quilt");
            reveal_strlit("neoforge");
            reveal_strlit("liteloader");
            reveal_strlit("modloader");
            reveal_strlit("rift");
        }
        if same_text(name, "fabric") {
            Some(ModLoaders::Fabric)
        } else if same_text(name, "forge") {
            Some(ModLoaders::Forge)
        } else if same_text(name, "quilt") {
            Some(ModLoaders::Quilt)
        } else if same_text(name, "neoforge") {
            Some(ModLoaders::NeoForge)
        } else if same_text(name, "liteloader") {
            Some(ModLoaders::LiteLoader)
        } else if same_text(name, "modloader") {
            Some(ModLoaders::ModLoader)
        } else if same_text(name, "rift") {
            Some(ModLoaders::Rift)
        } else {
            None
        }
    }

    pub fn get_loader(&self) -> (r: &'static str)
        ensures
            r@ == self.name(),
    {
        match self {
            ModLoaders::Fabric => "fabric",
            ModLoaders::Forge => "forge",
            ModLoaders::Quilt => "quilt",
            ModLoaders::NeoForge => "neoforge",
            ModLoaders::LiteLoader => "liteloader",
            ModLoaders::ModLoader => "modloader",
            ModLoaders::Rift => "rift",
        }
    }
}

/// Kinds of project the registry holds.
#[derive(Clone, Copy, Debug, PartialEq, Eq, Structural)]
pub enum ProjectType {
    Mod,
    ModPack,
    ResourcePack,
    Shader,
}

impl ProjectType {
    pub open spec fn name(self) -> Seq<char> {
        match self {
            ProjectType::Mod => "mod"@,
            ProjectType::ModPack => "modpack"@,
            ProjectType::ResourcePack => "resourcepack"@,
            ProjectType::Shader => "shader"@,
        }
    }

    /// The project kind with exactly this name, if any.
    pub fn from_name(name: &str) -> (r: Option<Self>)
        ensures
            r matches Some(t) ==> t.name() == name@,
            r is None ==> forall|t: ProjectType| t.name() != name@,
    {
        proof {
            reveal_strlit("mod");
            reveal_strlit("modpack");
            reveal_strlit("resourcepack");
            reveal_strlit("shader");
        }
        if same_text(name, "mod") {
            Some(ProjectType::Mod)
        } else if same_text(name, "modpack") {
            Some(ProjectType::ModPack)
        } else if same_text(name, "resourcepack") {
            Some(ProjectType::ResourcePack)
        } else if same_text(name, "shader") {
            Some(ProjectType::Shader)
        } else {
            None
        }
    }

    pub fn get_str(&self) -> (r: &'static str)
        ensures
            r@ == self.name(),
    {
        match self {
            ProjectType::Mod => "mod",
            ProjectType::ModPack => "modpack",
            ProjectType::ResourcePack => "resourcepack",
            ProjectType::Shader => "shader",
        }
    }
}

/// Whether a project is needed on the client side.
#[derive(Clone, Copy, Debug, PartialEq, Eq, Structural)]
pub enum ClientSide {
    Required,
    Optional,
    Unsupported,
    Unknown,
}

impl ClientSide {
    pub open spec fn name(self) -> Seq<char> {
        match self {
            ClientSide::Required => "required"@,
            ClientSide::Optional => "optional"@,
            ClientSide::Unsupported => "unsupported"@,
            ClientSide::Unknown => "unknown"@,
        }
    }

    pub fn get_str(&self) -> (r: &'static str)
        ensures
            r@ == self.name(),
    {
        match self {
            ClientSide::Required => "required",
            ClientSide::Optional => "optional",
            ClientSide::Unsupported => "unsupported",
            ClientSide::Unknown => "unknown",
        }
    }
}

/// Whether a project is needed on the server side.
#[derive(Clone, Copy, Debug, PartialEq, Eq, Structural)]
pub enum ServerSide {
    Required,
    Optional,
    Unsupported,
    Unknown,
}

impl ServerSide {
    pub open spec fn name(self) -> Seq<char> {
        match self {
            ServerSide::Required => "required"@,
            ServerSide::Optional => "optional"@,
            ServerSide::Unsupported => "unsupported"@,
            ServerSide::Unknown => "unknown"@,
        }
    }

    pub fn get_str(&self) -> (r: &'static str)
        ensures
            r@ == self.name(),
    {
        match self {
            ServerSide::Required => "required",
            ServerSide::Optional => "optional",
            ServerSide::Unsupported => "unsupported",
            ServerSide::Unknown => "unknown",
        }
    }
}

/// What a user searches the registry for. Every filter that is present is
/// sent as its own facet, so all of them must match.
pub struct ModQuery {
    pub mod_name: String,
    pub mod_version: Option<String>,
    pub mod_loader: Option<ModLoaders>,
    pub max_mod_number: Option<usize>,
    pub project_type: Option<ProjectType>,
    pub sorting: Option<ModrinthSortingFilter>,
    pub offset: Option<usize>,
    pub client_side: Option<ClientSide>,
    pub server_side: Option<ServerSide>,
}

/// A single facet term as a JSON array of one string, `["term"]`.
pub open spec fn quoted_facet(term: Seq<char>) -> Seq<char> {
    "[\""@ + json_escaped(term) + "\"]"@
}

/// The facet terms separated by commas.
pub open spec fn facet_items(terms: Seq<Seq<char>>) -> Seq<char>
    decreases terms.len(),
{
    if terms.len() == 0 {
        Seq::empty()
    } else if terms.len() == 1 {
        quoted_facet(terms[0])
    } else {
        facet_items(terms.drop_last()) + ","@ + quoted_facet(terms.last())
    }
}

/// The facet array of a search request: an array of one-term arrays.
pub open spec fn facet_array(terms: Seq<Seq<char>>) -> Seq<char> {
    "["@ + facet_items(terms) + "]"@
}

/// A facet term for an optional filter: one term when present, none when absent.
pub open spec fn optional_term(prefix: Seq<char>, value: Option<Seq<char>>) -> Seq<Seq<char>> {
    match value {
        Some(v) => seq![prefix + v],
        None => Seq::empty(),
    }
}

impl ModQuery {
    pub open spec fn project_type_name(self) -> Seq<char> {
        match self.project_type {
            Some(t) => t.name(),
            None => "mod"@,
        }
    }

    /// The facet terms of the query, in the order in which they are sent.
    pub open spec fn facet_terms(self) -> Seq<Seq<char>> {
        let version = match self.mod_version {
            Some(v) => Some(v@),
            None => None,
        };
        let loader = match self.mod_loader {
            Some(l) => Some(l.name()),
            None => None,
        };
        let client = match self.client_side {
            Some(c) => Some(c.name()),
            None => None,
        };
        let server = match self.server_side {
            Some(c) => Some(c.name()),
            None => None,
        };
        seq!["project_type:"@ + self.project_type_name()] + optional_term("versions:"@, version)
            + optional_term("categories:"@, loader) + optional_term("client_side:"@, client)
            + optional_term("server_side:"@, server)
    }

    pub open spec fn limit(self) -> nat {
        match self.max_mod_number {
            Some(n) => n as nat,
            None => 10,
        }
    }

    pub open spec fn start(self) -> nat {
        match self.offset {
            Some(n) => n as nat,
            None => 0,
        }
    }

    pub open spec fn sort_name(self) -> Seq<char> {
        match self.sorting {
            Some(s) => s.name(),
            None => "relevance"@,
        }
    }

    /// The search request URL for this query.
    pub open spec fn search_url_spec(self) -> Seq<char> {
        SEARCH_API_END_POINT@ + "?query="@ + self.mod_name@ + "&facets="@ + facet_array(
            self.facet_terms(),
        ) + "&limit="@ + decimal(self.limit()) + "&index="@ + self.sort_name() + "&offset="@
            + decimal(self.start())
    }

    pub fn new(
        mod_name: String,
        mod_version: Option<String>,
        mod_loader: Option<ModLoaders>,
        max_mod_number: Option<usize>,
        project_type: Option<ProjectType>,
        sorting: Option<ModrinthSortingFilter>,
        offset: Option<usize>,
        client_side: Option<ClientSide>,
        server_side: Option<ServerSide>,
    ) -> (r: Self)
        ensures
            r.mod_name == mod_name,
            r.mod_version == mod_version,
            r.mod_loader == mod_loader,
            r.max_mod_number == max_mod_number,
            r.project_type == project_type,
            r.sorting == sorting,
            r.offset == offset,
            r.client_side == client_side,
            r.server_side == server_side,
    {
        ModQuery {
            mod_name,
            mod_version,
            mod_loader,
            max_mod_number,
            project_type,
            sorting,
            offset,
            client_side,
            server_side,
        }
    }

    /// The facet terms of the query, in the order in which they are sent.
    pub fn facets(&self) -> (r: Vec<String>)
        ensures
            r@.map_values(|s: String| s@) == self.facet_terms(),
    {
        let mut terms: Vec<String> = Vec::new();
        let mut t = String::from_str("project_type:");
        match &self.project_type {
            Some(p) => t.append(p.get_str()),
            None => t.append("mod"),
        }
        terms.push(t);
        let ghost expected = self.facet_terms();
        if let Some(v) = &self.mod_version {
            let mut t = String::from_str("versions:");
            t.append(v.as_str());
            terms.push(t);
        }
        if let Some(l) = &self.mod_loader {
            let mut t = String::from_str("categories:");
            t.append(l.get_loader());
            terms.push(t);
        }
        if let Some(c) = &self.client_side {
            let mut t = String::from_str("client_side:");
            t.append(c.get_str());
            terms.push(t);
        }
        if let Some(s) = &self.server_side {
            let mut t = String::from_str("server_side:");
            t.append(s.get_str());
            terms.push(t);
        }
        assert(terms@.map_values(|s: String| s@) =~= expected);
        terms
    }

    /// Builds the search request URL: the name as query text, the facets,
    /// the result cap (ten when absent), the sort order (relevance when
    /// absent) and the offset (zero when absent).
    pub fn search_url(&self) -> (r: String)
        ensures
            r@ == self.search_url_spec(),
    {
        let terms = self.facets();
        let mut url = String::from_str(SEARCH_API_END_POINT);
        url.append("?query=");
        url.append(self.mod_name.as_str());
        url.append("&facets=");
        push_facet_array(&mut url, &terms);
        url.append("&limit=");
        let limit: usize = match self.max_mod_number {
            Some(n) => n,
            None => 10,
        };
        push_decimal(&mut url, limit as u64);
        url.append("&index=");
        match &self.sorting {
            Some(s) => url.append(s.get_filter()),
            None => url.append("relevance"),
        }
        url.append("&offset=");
        let start: usize = match self.offset {
            Some(n) => n,
            None => 0,
        };
        push_decimal(&mut url, start as u64);
        url
    }
}

/// Appends the facet array made of `terms` to `s`.
pub fn push_facet_array(s: &mut String, terms: &Vec<String>)
    ensures
        final(s)@ == old(s)@ + facet_array(terms@.map_values(|t: String| t@)),
{
    let ghost views = terms@.map_values(|t: String| t@);
    s.append("[");
    let ghost start = s@;
    let mut i: usize = 0;
    while i < terms.len()
        invariant
            i <= terms@.len(),
            views == terms@.map_values(|t: String| t@),
            s@ == start + facet_items(views.subrange(0, i as int)),
        decreases terms@.len() - i,
    {
        if i > 0 {
            s.append(",");
        }
        s.append("[\"");
        push_json_escaped(s, terms[i].as_str());
        s.append("\"]");
        proof {
            let next = views.subrange(0, i + 1);
            assert(next.drop_last() =~= views.subrange(0, i as int));
            assert(next.last() == terms@[i as int]@);
            if i == 0 {
                assert(views.subrange(0, 0).len() == 0);
            }
        }
        i = i + 1;
        assert(s@ =~= start + facet_items(views.subrange(0, i as int)));
    }
    assert(views.subrange(0, i as int) =~= views);
    s.append("]");
    assert(final(s)@ =~= old(s)@ + facet_array(views));
}

/// The URL that lists every published version of a project.
pub open spec fn project_versions_url_spec(project_id: Seq<char>) -> Seq<char> {
    PROJECT_API_END_POINT@ + project_id + "/version"@
}

pub fn project_versions_url(project_id: &str) -> (r: String)
    ensures
        r@ == project_versions_url_spec(project_id@),
{
    let mut url = String::from_str(PROJECT_API_END_POINT);
    url.append(project_id);
    url.append("/version");
    url
}

} // verus!
