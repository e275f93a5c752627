//! Records read from the mod registry, and the artifact pinned from them.
use vstd::prelude::*;
use crate::modrinth_request::ServerSide;

verus! {

/// One hit of a registry search.
pub struct CandidateRecord {
    pub title: String,
    pub project_id: String,
    pub author: String,
    pub description: String,
    pub slug: String,
    pub project_type: String,
    pub server_side: Option<ServerSide>,
    pub versions: Vec<String>,
}

/// A dependency declared by a published version.
pub struct Dependency {
    pub project_id: String,
    pub required: bool,
}

impl Dependency {
    pub fn duplicate(&self) -> (r: Self)
        ensures
            r == *self,
    {
        Dependency { project_id: self.project_id.clone(), required: self.required }
    }
}

/// A copy of a list of dependencies.
pub fn copy_dependencies(v: &Vec<Dependency>) -> (r: Vec<Dependency>)
    ensures
        r@ == v@,
{
    let mut r: Vec<Dependency> = Vec::new();
    let mut i: usize = 0;
    while i < v.len()
        invariant
            i <= v@.len(),
            r@ == v@.subrange(0, i as int),
        decreases v@.len() - i,
    {
        r.push(v[i].duplicate());
        i = i + 1;
        assert(r@ =~= v@.subrange(0, i as int));
    }
    assert(r@ =~= v@);
    r
}

/// A downloadable file of a published version.
pub struct FileEntry {
    pub url: String,
    pub filename: String,
}

/// One published version of a project: the file set for some game versions
/// and loaders.
pub struct VersionEntry {
    pub version_number: String,
    pub game_versions: Vec<String>,
    pub loaders: Vec<String>,
    pub dependencies: Vec<Dependency>,
    pub files: Vec<FileEntry>,
}

/// Whether a mod artifact or a loader-agnostic server build.
#[derive(Clone, Copy, Debug, PartialEq, Eq, Structural)]
pub enum ArtifactKind {
    Mod,
    Platform,
}

/// The pinned download target. Its download URL is present only together
/// with a non-empty game version and build label and, for a mod, a non-empty
/// loader.
pub struct ResolvedArtifact {
    project_id: String,
    version: String,
    loader: Option<String>,
    build: String,
    download_url: Option<String>,
    filename: String,
    dependencies: Vec<Dependency>,
    kind: ArtifactKind,
}

/// The triple that makes an artifact fetchable.
pub open spec fn triple_complete(
    version: Seq<char>,
    build: Seq<char>,
    loader: Option<Seq<char>>,
    kind: ArtifactKind,
) -> bool {
    &&& version.len() > 0
    &&& build.len() > 0
    &&& kind == ArtifactKind::Mod ==> (loader matches Some(l) && l.len() > 0)
}

pub open spec fn opt_view(o: Option<String>) -> Option<Seq<char>> {
    match o {
        Some(s) => Some(s@),
        None => None,
    }
}

impl ResolvedArtifact {
    #[verifier::type_invariant]
    pub closed spec fn pinned(self) -> bool {
        self.download_url is Some ==> triple_complete(
            self.version@,
            self.build@,
            opt_view(self.loader),
            self.kind,
        )
    }

    pub closed spec fn project_id_spec(self) -> Seq<char> {
        self.project_id@
    }

    pub closed spec fn version_spec(self) -> Seq<char> {
        self.version@
    }

    pub closed spec fn loader_spec(self) -> Option<Seq<char>> {
        opt_view(self.loader)
    }

    pub closed spec fn build_spec(self) -> Seq<char> {
        self.build@
    }

    pub closed spec fn url_spec(self) -> Option<Seq<char>> {
        opt_view(self.download_url)
    }

    pub closed spec fn filename_spec(self) -> Seq<char> {
        self.filename@
    }

    pub closed spec fn dependencies_spec(self) -> Seq<Dependency> {
        self.dependencies@
    }

    pub closed spec fn kind_spec(self) -> ArtifactKind {
        self.kind
    }

    /// Pins an artifact. The download URL is kept only where the triple is
    /// complete; otherwise the artifact is returned without one.
    pub fn pin(
        project_id: String,
        version: String,
        loader: Option<String>,
        build: String,
        download_url: String,
        filename: String,
        dependencies: Vec<Dependency>,
        kind: ArtifactKind,
    ) -> (r: Self)
        ensures
            r.project_id_spec() == project_id@,
            r.version_spec() == version@,
            r.loader_spec() == opt_view(loader),
            r.build_spec() == build@,
            r.filename_spec() == filename@,
            r.dependencies_spec() == dependencies@,
            r.kind_spec() == kind,
            r.url_spec() == (if triple_complete(version@, build@, opt_view(loader), kind) {
                Some(download_url@)
            } else {
                None
            }),
    {
        let complete = !version.as_str().is_empty() && !build.as_str().is_empty() && match kind {
            ArtifactKind::Mod => match &loader {
                Some(l) => !l.as_str().is_empty(),
                None => false,
            },
            ArtifactKind::Platform => true,
        };
        let url = if complete {
            Some(download_url)
        } else {
            None
        };
        ResolvedArtifact {
            project_id,
            version,
            loader,
            build,
            download_url: url,
            filename,
            dependencies,
            kind,
        }
    }

    /// Whether the artifact can be fetched. It can only when its triple is
    /// complete.
    pub fn is_fetchable(&self) -> (r: bool)
        ensures
            r == (self.url_spec() is Some),
            r ==> triple_complete(
                self.version_spec(),
                self.build_spec(),
                self.loader_spec(),
                self.kind_spec(),
            ),
    {
        proof {
            use_type_invariant(self);
        }
        self.download_url.is_some()
    }

    pub fn project_id(&self) -> (r: &String)
        ensures
            r@ == self.project_id_spec(),
    {
        &self.project_id
    }

    pub fn version(&self) -> (r: &String)
        ensures
            r@ == self.version_spec(),
    {
        &self.version
    }

    pub fn loader(&self) -> (r: &Option<String>)
        ensures
            opt_view(*r) == self.loader_spec(),
    {
        &self.loader
    }

    pub fn build(&self) -> (r: &String)
        ensures
            r@ == self.build_spec(),
    {
        &self.build
    }

    pub fn download_url(&self) -> (r: &Option<String>)
        ensures
            opt_view(*r) == self.url_spec(),
            r is Some ==> triple_complete(
                self.version_spec(),
                self.build_spec(),
                self.loader_spec(),
                self.kind_spec(),
            ),
    {
        proof {
            use_type_invariant(self);
        }
        &self.download_url
    }

    pub fn filename(&self) -> (r: &String)
        ensures
            r@ == self.filename_spec(),
    {
        &self.filename
    }

    pub fn dependencies(&self) -> (r: &Vec<Dependency>)
        ensures
            r@ == self.dependencies_spec(),
    {
        &self.dependencies
    }

    pub fn kind(&self) -> (r: ArtifactKind)
        ensures
            r == self.kind_spec(),
    {
        self.kind
    }
}

} // verus!
