//! Server builds from the build metadata service: the request for the builds
//! of a game version, the choice of one build, and the download URL and
//! launch arguments of the pinned build.
use vstd::prelude::*;
use vstd::string::*;
use crate::modrinth_entry::ResolutionError;
use crate::retry::FirstRequestRetry;
use crate::records::{opt_view, ArtifactKind, ResolvedArtifact};
use crate::text::{decimal, lemma_decimal_not_empty, push_decimal, same_text};

verus! {

pub const PAPERMC_API: &'static str = "https://api.papermc.io";

/// One build of a game version and the name of its server application.
pub struct BuildInfo {
    pub build: u64,
    pub application: String,
}

/// The next piece of outside work while pinning a build.
pub enum PaperStep {
    /// Fetch the builds at this URL and report them.
    Fetch(String),
    /// Let a person pick one of these build numbers and report the pick.
    Choose(Vec<String>),
    /// The build is pinned.
    Pinned,
    /// Pinning failed.
    Fail(ResolutionError),
}

/// The URL that lists the builds of a game version, or the one build asked for.
pub open spec fn builds_url_spec(game_version: Seq<char>, build: Option<Seq<char>>) -> Seq<char> {
    PAPERMC_API@ + "/v2/projects/paper/versions/"@ + game_version + "/builds"@ + match build {
        Some(b) => "/"@ + b,
        None => Seq::empty(),
    }
}

/// The download URL of a pinned build.
pub open spec fn download_url_spec(
    project: Seq<char>,
    game_version: Seq<char>,
    build: nat,
    download: Seq<char>,
) -> Seq<char> {
    PAPERMC_API@ + "/v2/projects/"@ + project + "/versions/"@ + game_version + "/builds/"@
        + decimal(build) + "/downloads/"@ + download
}

/// The build numbers offered to a person: newest first, that is, in the
/// reverse of the order in which the service lists them.
pub open spec fn build_options_spec(builds: Seq<BuildInfo>) -> Seq<Seq<char>> {
    Seq::new(builds.len(), |i: int| decimal(builds[builds.len() - 1 - i].build as nat))
}

pub fn build_options(builds: &Vec<BuildInfo>) -> (r: Vec<String>)
    ensures
        r@.map_values(|s: String| s@) == build_options_spec(builds@),
{
    let mut r: Vec<String> = Vec::new();
    let mut i: usize = builds.len();
    while i > 0
        invariant
            i <= builds@.len(),
            r@.len() == builds@.len() - i,
            forall|k: int|
                0 <= k < r@.len() ==> #[trigger] r@[k]@ == decimal(
                    builds@[builds@.len() - 1 - k].build as nat,
                ),
        decreases i,
    {
        i = i - 1;
        let mut s = String::new();
        push_decimal(&mut s, builds[i].build);
        assert(s@ =~= decimal(builds@[i as int].build as nat));
        r.push(s);
    }
    assert(r@.map_values(|s: String| s@) =~= build_options_spec(builds@));
    r
}

/// The first build whose number is written `label`.
pub fn find_build(builds: &Vec<BuildInfo>, label: &str) -> (r: Option<usize>)
    ensures
        r matches Some(i) ==> i < builds@.len() && decimal(builds@[i as int].build as nat)
            == label@ && forall|j: int|
            0 <= j < i ==> decimal(#[trigger] builds@[j].build as nat) != label@,
        r is None ==> forall|j: int|
            0 <= j < builds@.len() ==> decimal(#[trigger] builds@[j].build as nat) != label@,
{
    let mut i: usize = 0;
    while i < builds.len()
        invariant
            i <= builds@.len(),
            forall|j: int| 0 <= j < i ==> decimal(#[trigger] builds@[j].build as nat) != label@,
        decreases builds@.len() - i,
    {
        let mut s = String::new();
        push_decimal(&mut s, builds[i].build);
        assert(s@ =~= decimal(builds@[i as int].build as nat));
        if same_text(s.as_str(), label) {
            return Some(i);
        }
        i = i + 1;
    }
    None
}

/// The launch arguments: memory flags, the jar, and `-nogui` unless the
/// graphical interface is asked for.
pub open spec fn paper_args_spec(
    jar: Seq<char>,
    xmx: Option<Seq<char>>,
    xms: Option<Seq<char>>,
    is_gui: Option<bool>,
) -> Seq<Seq<char>> {
    (match xmx {
        Some(x) => seq!["-Xmx"@ + x],
        None => Seq::empty(),
    }) + (match xms {
        Some(x) => seq!["-Xms"@ + x],
        None => Seq::empty(),
    }) + seq!["-jar"@, jar] + (if is_gui == Some(true) {
        Seq::empty()
    } else {
        seq!["-nogui"@]
    })
}

/// `i` is the first of `builds` whose number is written `label`.
pub open spec fn first_build(builds: Seq<BuildInfo>, label: Seq<char>, i: int) -> bool {
    &&& 0 <= i < builds.len()
    &&& decimal(builds[i].build as nat) == label
    &&& forall|j: int| 0 <= j < i ==> decimal(#[trigger] builds[j].build as nat) != label
}

/// A build being pinned and, once it is, where it was installed.
pub struct PaperMCRequest {
    project: Option<String>,
    game_version: Option<String>,
    build: Option<u64>,
    download: Option<String>,
    server_path: Option<String>,
    jar_path: Option<String>,
    asked_version: Option<String>,
    requested_build: Option<String>,
    builds: Vec<BuildInfo>,
    request: String,
    retry: FirstRequestRetry,
}

/// `s` and `t` hold the same pin and the same installation.
pub open spec fn same_pin(s: PaperMCRequest, t: PaperMCRequest) -> bool {
    &&& s.project_spec() == t.project_spec()
    &&& s.game_version_spec() == t.game_version_spec()
    &&& s.build_spec() == t.build_spec()
    &&& s.download_spec() == t.download_spec()
    &&& s.server_path_spec() == t.server_path_spec()
    &&& s.jar_path_spec() == t.jar_path_spec()
}

/// `s` has pinned build `b` of game version `v`, all four fields together,
/// and kept the installation of `t`.
pub open spec fn pinned_to(s: PaperMCRequest, t: PaperMCRequest, v: Seq<char>, b: BuildInfo) -> bool {
    &&& s.project_spec() == Some("paper"@)
    &&& s.game_version_spec() == Some(v)
    &&& s.build_spec() == Some(b.build)
    &&& s.download_spec() == Some(b.application@)
    &&& s.server_path_spec() == t.server_path_spec()
    &&& s.jar_path_spec() == t.jar_path_spec()
}

impl PaperMCRequest {
    pub closed spec fn project_spec(&self) -> Option<Seq<char>> {
        opt_view(self.project)
    }

    pub closed spec fn game_version_spec(&self) -> Option<Seq<char>> {
        opt_view(self.game_version)
    }

    pub closed spec fn build_spec(&self) -> Option<u64> {
        self.build
    }

    pub closed spec fn download_spec(&self) -> Option<Seq<char>> {
        opt_view(self.download)
    }

    pub closed spec fn server_path_spec(&self) -> Option<Seq<char>> {
        opt_view(self.server_path)
    }

    pub closed spec fn jar_path_spec(&self) -> Option<Seq<char>> {
        opt_view(self.jar_path)
    }

    /// The game version whose builds are being looked at; it becomes the
    /// pinned game version only together with a build.
    pub closed spec fn asked_version_spec(&self) -> Option<Seq<char>> {
        opt_view(self.asked_version)
    }

    pub closed spec fn requested_build_spec(&self) -> Option<Seq<char>> {
        opt_view(self.requested_build)
    }

    /// The builds last reported.
    pub closed spec fn builds_spec(&self) -> Seq<BuildInfo> {
        self.builds@
    }

    pub closed spec fn request_spec(&self) -> Seq<char> {
        self.request@
    }

    /// Whether a failed request may still be retried: only the first, once.
    pub closed spec fn may_retry(&self) -> bool {
        self.retry.may_retry()
    }

    /// Whether a build has been pinned: project, game version, build number
    /// and application name together.
    pub open spec fn is_pinned(&self) -> bool {
        &&& self.project_spec() is Some
        &&& self.game_version_spec() is Some
        &&& self.build_spec() is Some
        &&& self.download_spec() is Some
    }

    /// A request with nothing pinned.
    pub fn build() -> (r: Self)
        ensures
            r.project_spec() is None,
            r.game_version_spec() is None,
            r.build_spec() is None,
            r.download_spec() is None,
            r.server_path_spec() is None,
            r.jar_path_spec() is None,
            r.asked_version_spec() is None,
            r.may_retry(),
    {
        PaperMCRequest {
            project: None,
            game_version: None,
            build: None,
            download: None,
            server_path: None,
            jar_path: None,
            asked_version: None,
            requested_build: None,
            builds: Vec::new(),
            request: String::new(),
            retry: FirstRequestRetry::new(),
        }
    }

    /// Starts pinning a build of `game_version`, a given one when `build` is
    /// present. Without a game version (or with an empty one) nothing is
    /// requested and nothing changes. The current pin stays as it is until a
    /// new build is pinned.
    pub fn check_build(&mut self, game_version: Option<String>, build: Option<String>) -> (r:
        PaperStep)
        ensures
            game_version is None ==> r == PaperStep::Fail(ResolutionError::MissingField)
                && *final(self) == *old(self),
            game_version matches Some(v) ==> (v@.len() == 0 ==> r == PaperStep::Fail(
                ResolutionError::MissingField,
            ) && *final(self) == *old(self)) && (v@.len() > 0 ==> (r matches PaperStep::Fetch(u)
                && u@ == builds_url_spec(v@, opt_view(build)) && final(self).request_spec() == u@
                && final(self).may_retry() && final(self).requested_build_spec() == opt_view(build)
                && final(self).asked_version_spec() == Some(v@))),
            same_pin(*final(self), *old(self)),
    {
        match game_version {
            None => PaperStep::Fail(ResolutionError::MissingField),
            Some(v) => {
                if v.as_str().is_empty() {
                    return PaperStep::Fail(ResolutionError::MissingField);
                }
                let mut u = String::from_str(PAPERMC_API);
                u.append("/v2/projects/paper/versions/");
                u.append(v.as_str());
                u.append("/builds");
                if let Some(b) = &build {
                    u.append("/");
                    u.append(b.as_str());
                }
                self.asked_version = Some(v);
                self.requested_build = build;
                self.request = u.clone();
                self.retry = FirstRequestRetry::new();
                PaperStep::Fetch(u)
            },
        }
    }

    /// Pins the build at index `i` of the reported builds, for the game
    /// version whose builds they are.
    fn pin(&mut self, i: usize)
        requires
            i < old(self).builds@.len(),
            old(self).asked_version_spec() is Some,
        ensures
            pinned_to(
                *final(self),
                *old(self),
                old(self).asked_version_spec()->0,
                old(self).builds@[i as int],
            ),
            final(self).builds_spec() == old(self).builds_spec(),
            final(self).asked_version_spec() == old(self).asked_version_spec(),
            final(self).is_pinned(),
    {
        self.game_version = match &self.asked_version {
            Some(v) => Some(v.clone()),
            None => None,
        };
        self.build = Some(self.builds[i].build);
        self.download = Some(self.builds[i].application.clone());
        self.project = Some(String::from_str("paper"));
    }

    /// Takes the reported builds (`None` when the request failed). A build
    /// that was asked for must be among them; otherwise a person picks one,
    /// newest first. A failed first request is retried once. Until a build
    /// is pinned the current pin stays as it is.
    pub fn on_builds(&mut self, builds: Option<Vec<BuildInfo>>) -> (r: PaperStep)
        requires
            old(self).asked_version_spec() is Some,
        ensures
            final(self).asked_version_spec() == old(self).asked_version_spec(),
            builds is None ==> same_pin(*final(self), *old(self)),
            builds is None && old(self).may_retry() ==> (r matches PaperStep::Fetch(u) && u@
                == old(self).request_spec() && final(self).request_spec() == u@
                && !final(self).may_retry()),
            builds is None && !old(self).may_retry() ==> r == PaperStep::Fail(
                ResolutionError::NetworkError,
            ),
            builds matches Some(b) ==> {
                &&& final(self).builds_spec() == b@
                &&& old(self).requested_build_spec() matches Some(want) ==> {
                    &&& (exists|i: int|
                        0 <= i < b@.len() && decimal(#[trigger] b@[i].build as nat) == want)
                        ==> r == PaperStep::Pinned && exists|i: int|
                        first_build(b@, want, i) && pinned_to(
                            *final(self),
                            *old(self),
                            old(self).asked_version_spec()->0,
                            b@[i],
                        )
                    &&& (forall|i: int|
                        0 <= i < b@.len() ==> decimal(#[trigger] b@[i].build as nat) != want)
                        ==> r == PaperStep::Fail(ResolutionError::NoSuitableBuild) && same_pin(
                        *final(self),
                        *old(self),
                    )
                }
                &&& old(self).requested_build_spec() is None ==> {
                    &&& same_pin(*final(self), *old(self))
                    &&& b@.len() == 0 ==> r == PaperStep::Fail(ResolutionError::NoSuitableBuild)
                    &&& b@.len() > 0 ==> (r matches PaperStep::Choose(options)
                        && options@.map_values(|s: String| s@) == build_options_spec(b@))
                }
            },
    {
        match builds {
            None => {
                if self.retry.on_failure() {
                    PaperStep::Fetch(self.request.clone())
                } else {
                    PaperStep::Fail(ResolutionError::NetworkError)
                }
            },
            Some(b) => {
                self.retry.on_answer();
                self.builds = b;
                match &self.requested_build {
                    Some(want) => {
                        let found = find_build(&self.builds, want.as_str());
                        match found {
                            Some(i) => {
                                let ghost want_v = want@;
                                self.pin(i);
                                assert(first_build(self.builds_spec(), want_v, i as int));
                                PaperStep::Pinned
                            },
                            None => PaperStep::Fail(ResolutionError::NoSuitableBuild),
                        }
                    },
                    None => {
                        if self.builds.len() == 0 {
                            PaperStep::Fail(ResolutionError::NoSuitableBuild)
                        } else {
                            PaperStep::Choose(build_options(&self.builds))
                        }
                    },
                }
            },
        }
    }

    /// Takes the build number a person picked among the reported builds and
    /// pins the first build with that number. An unknown number pins
    /// nothing.
    pub fn on_choice(&mut self, selected: &str) -> (r: PaperStep)
        requires
            old(self).asked_version_spec() is Some,
        ensures
            final(self).asked_version_spec() == old(self).asked_version_spec(),
            (exists|i: int|
                0 <= i < old(self).builds_spec().len() && decimal(
                    #[trigger] old(self).builds_spec()[i].build as nat,
                ) == selected@) ==> r == PaperStep::Pinned && exists|i: int|
                first_build(old(self).builds_spec(), selected@, i) && pinned_to(
                    *final(self),
                    *old(self),
                    old(self).asked_version_spec()->0,
                    old(self).builds_spec()[i],
                ),
            (forall|i: int|
                0 <= i < old(self).builds_spec().len() ==> decimal(
                    #[trigger] old(self).builds_spec()[i].build as nat,
                ) != selected@) ==> r == PaperStep::Fail(ResolutionError::NoMatch) && same_pin(
                *final(self),
                *old(self),
            ),
    {
        match find_build(&self.builds, selected) {
            Some(i) => {
                self.pin(i);
                assert(first_build(old(self).builds_spec(), selected@, i as int));
                PaperStep::Pinned
            },
            None => PaperStep::Fail(ResolutionError::NoMatch),
        }
    }

    /// The game version whose builds are being looked at, if any.
    pub fn asked_version(&self) -> (r: Option<String>)
        ensures
            opt_view(r) == self.asked_version_spec(),
    {
        self.asked_version.clone()
    }

    /// The download URL of the pinned build; none until one is pinned with
    /// a non-empty game version and application name.
    pub fn download_url(&self) -> (r: Option<String>)
        ensures
            r is Some <==> self.is_pinned() && self.game_version_spec()->0.len() > 0
                && self.download_spec()->0.len() > 0,
            r matches Some(u) ==> u@ == download_url_spec(
                self.project_spec()->0,
                self.game_version_spec()->0,
                self.build_spec()->0 as nat,
                self.download_spec()->0,
            ),
    {
        match (&self.project, &self.game_version, self.build, &self.download) {
            (Some(p), Some(v), Some(b), Some(d)) => {
                if v.as_str().is_empty() || d.as_str().is_empty() {
                    return None;
                }
                let mut u = String::from_str(PAPERMC_API);
                u.append("/v2/projects/");
                u.append(p.as_str());
                u.append("/versions/");
                u.append(v.as_str());
                u.append("/builds/");
                push_decimal(&mut u, b);
                u.append("/downloads/");
                u.append(d.as_str());
                Some(u)
            },
            _ => None,
        }
    }

    /// The pinned build as a loader-agnostic artifact: the build number as
    /// its build label, the application name as its file name.
    pub fn resolved(&self) -> (r: Option<ResolvedArtifact>)
        ensures
            r is Some <==> self.is_pinned() && self.game_version_spec()->0.len() > 0
                && self.download_spec()->0.len() > 0,
            r matches Some(a) ==> {
                &&& a.project_id_spec() == self.project_spec()->0
                &&& a.version_spec() == self.game_version_spec()->0
                &&& a.loader_spec() is None
                &&& a.build_spec() == decimal(self.build_spec()->0 as nat)
                &&& a.url_spec() == Some(
                    download_url_spec(
                        self.project_spec()->0,
                        self.game_version_spec()->0,
                        self.build_spec()->0 as nat,
                        self.download_spec()->0,
                    ),
                )
                &&& a.filename_spec() == self.download_spec()->0
                &&& a.dependencies_spec().len() == 0
                &&& a.kind_spec() == ArtifactKind::Platform
            },
    {
        match (self.download_url(), &self.project, &self.game_version, self.build, &self.download) {
            (Some(url), Some(p), Some(v), Some(b), Some(d)) => {
                let mut label = String::new();
                push_decimal(&mut label, b);
                proof {
                    lemma_decimal_not_empty(b as nat);
                    assert(label@ =~= decimal(b as nat));
                }
                Some(
                    ResolvedArtifact::pin(
                        p.clone(),
                        v.clone(),
                        None,
                        label,
                        url,
                        d.clone(),
                        Vec::new(),
                        ArtifactKind::Platform,
                    ),
                )
            },
            _ => None,
        }
    }

    /// Records where the pinned build was installed.
    pub fn set_install(&mut self, server_path: String, jar_path: String)
        ensures
            final(self).server_path_spec() == Some(server_path@),
            final(self).jar_path_spec() == Some(jar_path@),
            final(self).project_spec() == old(self).project_spec(),
            final(self).game_version_spec() == old(self).game_version_spec(),
            final(self).build_spec() == old(self).build_spec(),
            final(self).download_spec() == old(self).download_spec(),
    {
        self.server_path = Some(server_path);
        self.jar_path = Some(jar_path);
    }

    /// Takes over the saved record of an installation, when there is one.
    /// Without one the build has to be resolved.
    pub fn check_data(&mut self, saved: Option<PaperMCRequest>) -> (r: Result<(), ()>)
        ensures
            r is Ok <==> saved is Some,
            saved matches Some(s) ==> {
                &&& final(self).project_spec() == s.project_spec()
                &&& final(self).game_version_spec() == s.game_version_spec()
                &&& final(self).build_spec() == s.build_spec()
                &&& final(self).download_spec() == s.download_spec()
                &&& final(self).server_path_spec() == s.server_path_spec()
                &&& final(self).jar_path_spec() == s.jar_path_spec()
            },
            saved is None ==> *final(self) == *old(self),
    {
        match saved {
            Some(s) => {
                self.project = s.project;
                self.game_version = s.game_version;
                self.build = s.build;
                self.download = s.download;
                self.server_path = s.server_path;
                self.jar_path = s.jar_path;
                Ok(())
            },
            None => Err(()),
        }
    }

    /// The arguments of the launch command for the pinned build.
    pub fn java_args(&self, xmx: Option<String>, xms: Option<String>, is_gui: Option<bool>) -> (r:
        Vec<String>)
        requires
            self.download_spec() is Some,
        ensures
            r@.map_values(|s: String| s@) == paper_args_spec(
                self.download_spec()->0,
                opt_view(xmx),
                opt_view(xms),
                is_gui,
            ),
    {
        let mut args: Vec<String> = Vec::new();
        if let Some(x) = &xmx {
            let mut a = String::from_str("-Xmx");
            a.append(x.as_str());
            args.push(a);
        }
        if let Some(x) = &xms {
            let mut a = String::from_str("-Xms");
            a.append(x.as_str());
            args.push(a);
        }
        args.push(String::from_str("-jar"));
        match &self.download {
            Some(d) => args.push(d.clone()),
            None => args.push(String::new()),
        }
        let gui = match is_gui {
            Some(g) => g,
            None => false,
        };
        if !gui {
            args.push(String::from_str("-nogui"));
        }
        assert(args@.map_values(|s: String| s@) =~= paper_args_spec(
            self.download_spec()->0,
            opt_view(xmx),
            opt_view(xms),
            is_gui,
        ));
        args
    }

    pub fn get_version(&self) -> (r: Option<String>)
        ensures
            opt_view(r) == self.game_version_spec(),
    {
        self.game_version.clone()
    }

    pub fn get_build(&self) -> (r: Option<u64>)
        ensures
            r == self.build_spec(),
    {
        self.build
    }

    pub fn get_project(&self) -> (r: Option<String>)
        ensures
            opt_view(r) == self.project_spec(),
    {
        self.project.clone()
    }

    pub fn get_download(&self) -> (r: Option<String>)
        ensures
            opt_view(r) == self.download_spec(),
    {
        self.download.clone()
    }

    pub fn get_server_dir(&self) -> (r: Option<String>)
        ensures
            opt_view(r) == self.server_path_spec(),
    {
        self.server_path.clone()
    }

    pub fn get_jar_path(&self) -> (r: Option<String>)
        ensures
            opt_view(r) == self.jar_path_spec(),
    {
        self.jar_path.clone()
    }

    /// A record with the given saved fields and nothing in progress, as read
    /// back from an installation directory.
    pub fn restore(
        project: Option<String>,
        game_version: Option<String>,
        build: Option<u64>,
        download: Option<String>,
        server_path: Option<String>,
        jar_path: Option<String>,
    ) -> (r: Self)
        ensures
            r.project_spec() == opt_view(project),
            r.game_version_spec() == opt_view(game_version),
            r.build_spec() == build,
            r.download_spec() == opt_view(download),
            r.server_path_spec() == opt_view(server_path),
            r.jar_path_spec() == opt_view(jar_path),
    {
        PaperMCRequest {
            project,
            game_version,
            build,
            download,
            server_path,
            jar_path,
            asked_version: None,
            requested_build: None,
            builds: Vec::new(),
            request: String::new(),
            retry: FirstRequestRetry::new(),
        }
    }
}

} // verus!
