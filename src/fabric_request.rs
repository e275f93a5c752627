//! Servers from the loader metadata service: the choice of game version,
//! loader version and installer version, and the download URL and launch
//! command built from the three.
use vstd::prelude::*;
use vstd::string::*;
use crate::records::opt_view;
use crate::text::{present, same_text};

verus! {

pub const FABRICMC_API_GAME_VERSIONS: &'static str = "https://meta.fabricmc.net/v2/versions/game";

pub const FABRICMC_API_LOADER_VERSIONS: &'static str =
    "https://meta.fabricmc.net/v2/versions/loader";

pub const FABRICMC_API_INSTALLER_VERSIONS: &'static str =
    "https://meta.fabricmc.net/v2/versions/installer";

pub const FABRICMC_API_DOWNLOAD: &'static str = "https://meta.fabricmc.net/v2/versions/loader";

pub struct GameVersion {
    pub version: String,
    pub stable: bool,
}

pub struct LoaderVersion {
    pub version: String,
    pub stable: bool,
}

pub struct InstallerVersion {
    pub version: String,
}

/// The outcome of offering a list of versions.
pub enum Selection {
    /// A version was taken without asking.
    Selected,
    /// A person has to pick one of these versions.
    Choose(Vec<String>),
    /// The list was empty.
    NoneFound,
}

/// The download URL of a server made of the three versions.
pub open spec fn fabric_url_spec(game: Seq<char>, loader: Seq<char>, installer: Seq<char>) -> Seq<
    char,
> {
    FABRICMC_API_DOWNLOAD@ + "/"@ + game + "/"@ + loader + "/"@ + installer + "/server/jar"@
}

/// The launch arguments: memory flags, the jar, and `-nogui` unless the
/// graphical interface is asked for.
pub open spec fn fabric_args_spec(
    xmx: Option<Seq<char>>,
    xms: Option<Seq<char>>,
    is_gui: Option<bool>,
) -> Seq<Seq<char>> {
    (match xmx {
        Some(x) => seq!["-Xmx"@ + x],
        None => Seq::empty(),
    }) + (match xms {
        Some(x) => seq!["-Xms"@ + x],
        None => Seq::empty(),
    }) + seq!["-jar"@, "fabric-server.jar"@] + (if is_gui == Some(true) {
        Seq::empty()
    } else {
        seq!["-nogui"@]
    })
}

/// The start script: the launch command on one line.
pub open spec fn fabric_script_spec(
    xmx: Option<Seq<char>>,
    xms: Option<Seq<char>>,
    is_gui: Option<bool>,
) -> Seq<char> {
    "java "@ + (match xmx {
        Some(x) => "-Xmx"@ + x,
        None => Seq::empty(),
    }) + (match xms {
        Some(x) => "-Xms"@ + x,
        None => Seq::empty(),
    }) + "-jar fabric-server.jar"@ + (if is_gui == Some(true) {
        Seq::empty()
    } else {
        " -nogui"@
    })
}

/// A server being pinned: the three versions, the download URL built from
/// them, and the installation directory.
pub struct FabricMCRequest {
    project: String,
    game_version: Option<String>,
    loader_version: Option<String>,
    installer_version: Option<String>,
    download_url: Option<String>,
    server_path: Option<String>,
}

/// The download URL made of the three versions, when all three are present
/// and non-empty.
pub open spec fn url_from(
    game: Option<Seq<char>>,
    loader: Option<Seq<char>>,
    installer: Option<Seq<char>>,
) -> Option<Seq<char>> {
    if present(game) && present(loader) && present(installer) {
        Some(fabric_url_spec(game->0, loader->0, installer->0))
    } else {
        None
    }
}

/// Builds the download URL made of the three versions, when all three are
/// present and non-empty.
pub fn build_url(game: &Option<String>, loader: &Option<String>, installer: &Option<String>) -> (r:
    Option<String>)
    ensures
        opt_view(r) == url_from(opt_view(*game), opt_view(*loader), opt_view(*installer)),
{
    match (game, loader, installer) {
        (Some(g), Some(l), Some(i)) => {
            if g.as_str().is_empty() || l.as_str().is_empty() || i.as_str().is_empty() {
                None
            } else {
                let mut u = String::from_str(FABRICMC_API_DOWNLOAD);
                u.append("/");
                u.append(g.as_str());
                u.append("/");
                u.append(l.as_str());
                u.append("/");
                u.append(i.as_str());
                u.append("/server/jar");
                Some(u)
            }
        },
        _ => None,
    }
}

impl FabricMCRequest {
    /// A download URL is only ever the one made of the three current
    /// versions, all present and non-empty.
    #[verifier::type_invariant]
    pub closed spec fn url_from_versions(self) -> bool {
        self.download_url is Some ==> opt_view(self.download_url) == url_from(
            opt_view(self.game_version),
            opt_view(self.loader_version),
            opt_view(self.installer_version),
        )
    }

    pub closed spec fn project_spec(&self) -> Seq<char> {
        self.project@
    }

    pub closed spec fn game_version_spec(&self) -> Option<Seq<char>> {
        opt_view(self.game_version)
    }

    pub closed spec fn loader_version_spec(&self) -> Option<Seq<char>> {
        opt_view(self.loader_version)
    }

    pub closed spec fn installer_version_spec(&self) -> Option<Seq<char>> {
        opt_view(self.installer_version)
    }

    pub closed spec fn download_url_spec(&self) -> Option<Seq<char>> {
        opt_view(self.download_url)
    }

    pub closed spec fn server_path_spec(&self) -> Option<Seq<char>> {
        opt_view(self.server_path)
    }

    /// A request with nothing chosen, for the given installation directory.
    pub fn build(server_path: Option<String>) -> (r: Self)
        ensures
            r.project_spec() == "fabric"@,
            r.game_version_spec() is None,
            r.loader_version_spec() is None,
            r.installer_version_spec() is None,
            r.download_url_spec() is None,
            r.server_path_spec() == opt_view(server_path),
    {
        FabricMCRequest {
            project: String::from_str("fabric"),
            game_version: None,
            loader_version: None,
            installer_version: None,
            download_url: None,
            server_path,
        }
    }

    /// Offers the game versions. A requested version that the list holds is
    /// taken; otherwise a person picks one, the list shown in reverse order.
    pub fn select_game_version(&mut self, versions: &Vec<GameVersion>, game_version: Option<&str>) -> (r:
        Selection)
        ensures
            final(self).project_spec() == old(self).project_spec(),
            final(self).loader_version_spec() == old(self).loader_version_spec(),
            final(self).installer_version_spec() == old(self).installer_version_spec(),
            final(self).server_path_spec() == old(self).server_path_spec(),
            r is Selected ==> final(self).download_url_spec() is None,
            !(r is Selected) ==> *final(self) == *old(self),
            versions@.len() == 0 ==> r is NoneFound && final(self).game_version_spec() == old(
                self,
            ).game_version_spec(),
            versions@.len() > 0 ==> {
                let listed = game_version matches Some(g) && exists|i: int|
                    0 <= i < versions@.len() && #[trigger] versions@[i].version@ == g@;
                &&& listed ==> r is Selected && final(self).game_version_spec() == Some(
                    game_version->0@,
                )
                &&& !listed ==> (r matches Selection::Choose(options) && options@.map_values(
                    |s: String| s@,
                ) == Seq::new(
                    versions@.len(),
                    |i: int| versions@[versions@.len() - 1 - i].version@,
                ) && final(self).game_version_spec() == old(self).game_version_spec())
            },
    {
        if versions.len() == 0 {
            return Selection::NoneFound;
        }
        if let Some(g) = game_version {
            let mut i: usize = 0;
            while i < versions.len()
                invariant
                    i <= versions@.len(),
                    game_version == Some(g),
                    *self == *old(self),
                    forall|j: int| 0 <= j < i ==> #[trigger] versions@[j].version@ != g@,
                decreases versions@.len() - i,
            {
                if same_text(versions[i].version.as_str(), g) {
                    self.download_url = None;
                    self.game_version = Some(versions[i].version.clone());
                    return Selection::Selected;
                }
                i = i + 1;
            }
        }
        let mut options: Vec<String> = Vec::new();
        let mut k: usize = versions.len();
        while k > 0
            invariant
                k <= versions@.len(),
                *self == *old(self),
                options@.len() == versions@.len() - k,
                forall|m: int|
                    0 <= m < options@.len() ==> #[trigger] options@[m]@ == versions@[versions@.len()
                        - 1 - m].version@,
            decreases k,
        {
            k = k - 1;
            options.push(versions[k].version.clone());
        }
        assert(options@.map_values(|s: String| s@) =~= Seq::new(
            versions@.len(),
            |i: int| versions@[versions@.len() - 1 - i].version@,
        ));
        Selection::Choose(options)
    }

    /// Takes the game version a person picked.
    pub fn choose_game_version(&mut self, selected: String)
        ensures
            final(self).game_version_spec() == Some(selected@),
            final(self).project_spec() == old(self).project_spec(),
            final(self).loader_version_spec() == old(self).loader_version_spec(),
            final(self).installer_version_spec() == old(self).installer_version_spec(),
            final(self).download_url_spec() is None,
            final(self).server_path_spec() == old(self).server_path_spec(),
    {
        self.download_url = None;
        self.game_version = Some(selected);
    }

    /// Offers the loader versions, in the order listed.
    pub fn select_loader_version(&self, versions: &Vec<LoaderVersion>) -> (r: Selection)
        ensures
            versions@.len() == 0 ==> r is NoneFound,
            versions@.len() > 0 ==> (r matches Selection::Choose(options) && options@.map_values(
                |s: String| s@,
            ) == versions@.map_values(|v: LoaderVersion| v.version@)),
    {
        if versions.len() == 0 {
            return Selection::NoneFound;
        }
        let mut options: Vec<String> = Vec::new();
        let mut i: usize = 0;
        while i < versions.len()
            invariant
                i <= versions@.len(),
                options@.len() == i,
                forall|m: int| 0 <= m < i ==> #[trigger] options@[m]@ == versions@[m].version@,
            decreases versions@.len() - i,
        {
            options.push(versions[i].version.clone());
            i = i + 1;
        }
        assert(options@.map_values(|s: String| s@) =~= versions@.map_values(
            |v: LoaderVersion| v.version@,
        ));
        Selection::Choose(options)
    }

    /// Takes the loader version a person picked.
    pub fn choose_loader_version(&mut self, selected: String)
        ensures
            final(self).loader_version_spec() == Some(selected@),
            final(self).project_spec() == old(self).project_spec(),
            final(self).game_version_spec() == old(self).game_version_spec(),
            final(self).installer_version_spec() == old(self).installer_version_spec(),
            final(self).download_url_spec() is None,
            final(self).server_path_spec() == old(self).server_path_spec(),
    {
        self.download_url = None;
        self.loader_version = Some(selected);
    }

    /// Takes the latest installer version, the first one listed. Returns
    /// whether there was one.
    pub fn fetch_latest_installer_version(&mut self, versions: &Vec<InstallerVersion>) -> (r: bool)
        ensures
            r == (versions@.len() > 0),
            r ==> final(self).installer_version_spec() == Some(versions@[0].version@),
            !r ==> final(self).installer_version_spec() == old(self).installer_version_spec(),
            final(self).project_spec() == old(self).project_spec(),
            final(self).game_version_spec() == old(self).game_version_spec(),
            final(self).loader_version_spec() == old(self).loader_version_spec(),
            r ==> final(self).download_url_spec() is None,
            !r ==> final(self).download_url_spec() == old(self).download_url_spec(),
            final(self).server_path_spec() == old(self).server_path_spec(),
    {
        if versions.len() == 0 {
            return false;
        }
        self.download_url = None;
        self.installer_version = Some(versions[0].version.clone());
        true
    }

    /// Builds the download URL from the three versions. It is built only when
    /// all three are present and non-empty; otherwise no URL is kept and
    /// `false` is returned.
    pub fn generate_download_url(&mut self) -> (r: bool)
        ensures
            r == (present(old(self).game_version_spec()) && present(
                old(self).loader_version_spec(),
            ) && present(old(self).installer_version_spec())),
            final(self).download_url_spec() == url_from(
                old(self).game_version_spec(),
                old(self).loader_version_spec(),
                old(self).installer_version_spec(),
            ),
            final(self).project_spec() == old(self).project_spec(),
            final(self).game_version_spec() == old(self).game_version_spec(),
            final(self).loader_version_spec() == old(self).loader_version_spec(),
            final(self).installer_version_spec() == old(self).installer_version_spec(),
            final(self).server_path_spec() == old(self).server_path_spec(),
    {
        let url = build_url(&self.game_version, &self.loader_version, &self.installer_version);
        let built = url.is_some();
        self.download_url = url;
        built
    }

    pub fn get_version(&self) -> (r: Option<String>)
        ensures
            opt_view(r) == self.game_version_spec(),
    {
        self.game_version.clone()
    }

    pub fn get_download_url(&self) -> (r: Option<String>)
        ensures
            opt_view(r) == self.download_url_spec(),
            r is Some ==> opt_view(r) == url_from(
                self.game_version_spec(),
                self.loader_version_spec(),
                self.installer_version_spec(),
            ),
    {
        proof {
            use_type_invariant(self);
        }
        self.download_url.clone()
    }

    pub fn get_loader_version(&self) -> (r: Option<String>)
        ensures
            opt_view(r) == self.loader_version_spec(),
    {
        self.loader_version.clone()
    }

    pub fn get_installer_version(&self) -> (r: Option<String>)
        ensures
            opt_view(r) == self.installer_version_spec(),
    {
        self.installer_version.clone()
    }

    pub fn get_project(&self) -> (r: String)
        ensures
            r@ == self.project_spec(),
    {
        self.project.clone()
    }

    pub fn get_server_path(&self) -> (r: Option<String>)
        ensures
            opt_view(r) == self.server_path_spec(),
    {
        self.server_path.clone()
    }

    /// The directory that mods of this server go to: `mods` under the
    /// installation directory, none without one.
    pub fn get_download_path(&self) -> (r: Option<String>)
        ensures
            self.server_path_spec() is None ==> r is None,
            self.server_path_spec() matches Some(p) ==> (r matches Some(d) && d@ == p
                + "\\mods"@),
    {
        match &self.server_path {
            Some(p) => {
                let mut d = p.clone();
                d.append("\\mods");
                Some(d)
            },
            None => None,
        }
    }

    /// Takes over the saved record of an installation, when there is one:
    /// the project and the three versions with their URL. The installation
    /// directory stays as it is. Without a record the server has to be
    /// resolved.
    pub fn check_data(&mut self, saved: Option<FabricMCRequest>) -> (r: Result<(), ()>)
        ensures
            r is Ok <==> saved is Some,
            saved matches Some(s) ==> {
                &&& final(self).project_spec() == s.project_spec()
                &&& final(self).game_version_spec() == s.game_version_spec()
                &&& final(self).loader_version_spec() == s.loader_version_spec()
                &&& final(self).installer_version_spec() == s.installer_version_spec()
                &&& final(self).download_url_spec() == s.download_url_spec()
                &&& final(self).server_path_spec() == old(self).server_path_spec()
            },
            saved is None ==> *final(self) == *old(self),
    {
        match saved {
            Some(s) => {
                proof {
                    use_type_invariant(&s);
                }
                let server_path = self.server_path.clone();
                *self = FabricMCRequest {
                    project: s.project,
                    game_version: s.game_version,
                    loader_version: s.loader_version,
                    installer_version: s.installer_version,
                    download_url: s.download_url,
                    server_path,
                };
                Ok(())
            },
            None => Err(()),
        }
    }

    /// A record with the given saved fields, as read back from an
    /// installation directory. The saved download URL is kept only when it
    /// is the one made of the saved versions.
    pub fn restore(
        project: String,
        game_version: Option<String>,
        loader_version: Option<String>,
        installer_version: Option<String>,
        download_url: Option<String>,
        server_path: Option<String>,
    ) -> (r: Self)
        ensures
            r.project_spec() == project@,
            r.game_version_spec() == opt_view(game_version),
            r.loader_version_spec() == opt_view(loader_version),
            r.installer_version_spec() == opt_view(installer_version),
            r.download_url_spec() == (if download_url is Some && opt_view(download_url) == url_from(
                opt_view(game_version),
                opt_view(loader_version),
                opt_view(installer_version),
            ) {
                opt_view(download_url)
            } else {
                None
            }),
            r.server_path_spec() == opt_view(server_path),
    {
        let built = build_url(&game_version, &loader_version, &installer_version);
        let kept = match (download_url, built) {
            (Some(saved), Some(b)) => {
                if saved == b {
                    Some(saved)
                } else {
                    None
                }
            },
            _ => None,
        };
        FabricMCRequest {
            project,
            game_version,
            loader_version,
            installer_version,
            download_url: kept,
            server_path,
        }
    }

    /// The arguments of the launch command.
    pub fn java_args(&self, xmx: Option<String>, xms: Option<String>, is_gui: Option<bool>) -> (r:
        Vec<String>)
        ensures
            r@.map_values(|s: String| s@) == fabric_args_spec(
                opt_view(xmx),
                opt_view(xms),
                is_gui,
            ),
    {
        let mut args: Vec<String> = Vec::new();
        if let Some(x) = &xmx {
            let mut a = String::from_str("-Xmx");
            a.append(x.as_str());
            args.push(a);
        }
        if let Some(x) = &xms {
            let mut a = String::from_str("-Xms");
            a.append(x.as_str());
            args.push(a);
        }
        args.push(String::from_str("-jar"));
        args.push(String::from_str("fabric-server.jar"));
        let gui = match is_gui {
            Some(g) => g,
            None => false,
        };
        if !gui {
            args.push(String::from_str("-nogui"));
        }
        assert(args@.map_values(|s: String| s@) =~= fabric_args_spec(
            opt_view(xmx),
            opt_view(xms),
            is_gui,
        ));
        args
    }

    /// The start script written beside the server.
    pub fn startup_script(&self, xmx: Option<String>, xms: Option<String>, is_gui: Option<bool>) -> (r:
        String)
        ensures
            r@ == fabric_script_spec(opt_view(xmx), opt_view(xms), is_gui),
    {
        let mut s = String::from_str("java ");
        if let Some(x) = &xmx {
            s.append("-Xmx");
            s.append(x.as_str());
        }
        if let Some(x) = &xms {
            s.append("-Xms");
            s.append(x.as_str());
        }
        s.append("-jar fabric-server.jar");
        let gui = match is_gui {
            Some(g) => g,
            None => false,
        };
        if !gui {
            s.append(" -nogui");
        }
        s
    }
}

} // verus!
