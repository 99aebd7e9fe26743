//! The install pipeline as a state machine. The caller performs each action
//! it is handed (a request, a directory, an unpack, a script, a link) and
//! reports the outcome; the machine decides what comes next and stops at the
//! first failure, naming the stage that failed.

use vstd::prelude::*;
use vstd::utf8::encode_utf8;
use crate::archive::{archive_verdict, verify_archive};
use crate::error::{ErrorKind, InstallError, Stage};
use crate::outside::{join_url, url_joined};
use crate::package::{opt_view, Descriptor, Package};
use crate::paths::{is_plain_name, join_path, joined, path_stays_inside, plain_name, stays_inside};

verus! {

/// The directory, under the install root, that holds one directory per package.
pub const PACKAGES_DIR: &'static str = "packages";

/// The directory, under the install root, that holds the links to executables.
pub const BIN_DIR: &'static str = "bin";

/// The install script's name at the root of an archive.
pub const SCRIPT_NAME: &'static str = "install.sh";

/// The suffix of an archive's name on the server.
pub const ARCHIVE_SUFFIX: &'static str = ".pkg";

/// The permission bits the install script gets before it runs: owner
/// read/write/execute, group read/execute, others execute.
pub const SCRIPT_MODE: u32 = 0o751;

/// Where packages go and where the server keeps its data.
pub struct Config {
    /// The install root.
    pub root: String,
    /// The server path under which package descriptors are served.
    pub data_endpoint: String,
    /// The server path under which package archives are served.
    pub file_endpoint: String,
}

/// Where the machine stands: which outcome it waits for.
#[derive(Clone, Copy, Debug, PartialEq, Eq, Structural)]
pub enum Phase {
    AwaitMetadata,
    AwaitDirectory,
    AwaitArchive,
    AwaitUnpack,
    AwaitScriptCheck,
    AwaitScriptMode,
    AwaitScriptRun,
    AwaitScriptRemoval,
    AwaitLink,
    Finished,
}

/// What the caller is asked to do next.
#[derive(Debug, PartialEq, Eq)]
pub enum Action {
    /// Get the descriptor at `url`; report with `on_metadata`.
    FetchMetadata { url: String },
    /// Create `path` and its parents if missing; report with `on_done`.
    CreateDir { path: String },
    /// Get the archive bytes at `url`; report with `on_archive`.
    FetchArchive { url: String },
    /// Unpack the checked tar archive `tar` into `dir`, overwriting what is
    /// there; report with `on_done`.
    Unpack { dir: String, tar: Vec<u8> },
    /// Tell whether the file `path` exists; report with `on_script_check`.
    CheckScript { path: String },
    /// Set the permission bits of `path` to `mode`; report with `on_done`.
    SetScriptMode { path: String, mode: u32 },
    /// Run `path` and wait for it; report with `on_done`.
    RunScript { path: String },
    /// Delete `path`; report with `on_done`.
    RemoveScript { path: String },
    /// Create a symbolic link at `link` pointing to `target`, never replacing
    /// one; report with `on_done`.
    Link { target: String, link: String },
    /// The install is over, with this result.
    Finish { result: Result<(), InstallError> },
}

/// The mathematical value of an [`Action`].
pub enum Act {
    FetchMetadata(Seq<char>),
    CreateDir(Seq<char>),
    FetchArchive(Seq<char>),
    Unpack(Seq<char>, Seq<u8>),
    CheckScript(Seq<char>),
    SetScriptMode(Seq<char>, u32),
    RunScript(Seq<char>),
    RemoveScript(Seq<char>),
    Link(Seq<char>, Seq<char>),
    Finish(Result<(), InstallError>),
}

impl View for Action {
    type V = Act;

    open spec fn view(&self) -> Act {
        match self {
            Action::FetchMetadata { url } => Act::FetchMetadata(url@),
            Action::CreateDir { path } => Act::CreateDir(path@),
            Action::FetchArchive { url } => Act::FetchArchive(url@),
            Action::Unpack { dir, tar } => Act::Unpack(dir@, tar@),
            Action::CheckScript { path } => Act::CheckScript(path@),
            Action::SetScriptMode { path, mode } => Act::SetScriptMode(path@, *mode),
            Action::RunScript { path } => Act::RunScript(path@),
            Action::RemoveScript { path } => Act::RemoveScript(path@),
            Action::Link { target, link } => Act::Link(target@, link@),
            Action::Finish { result } => Act::Finish(*result),
        }
    }
}

/// The mathematical value of an [`Installer`].
pub struct Machine {
    pub phase: Phase,
    pub root: Seq<char>,
    pub archive_url: Seq<char>,
    pub dir: Seq<char>,
    pub crc: u32,
    pub script: bool,
    pub link: Option<(Seq<char>, Seq<char>)>,
}

/// One install in progress.
pub struct Installer {
    phase: Phase,
    root: String,
    archive_url: String,
    dir: String,
    crc: u32,
    script: bool,
    link: Option<(String, String)>,
}

impl View for Installer {
    type V = Machine;

    closed spec fn view(&self) -> Machine {
        Machine {
            phase: self.phase,
            root: self.root@,
            archive_url: self.archive_url@,
            dir: self.dir@,
            crc: self.crc,
            script: self.script,
            link: match self.link {
                Some((t, l)) => Some((t@, l@)),
                None => None,
            },
        }
    }
}

/// The install directory of the package `name` under `root`.
pub open spec fn install_dir(root: Seq<char>, name: Seq<char>) -> Seq<char> {
    joined(joined(root, PACKAGES_DIR@), name)
}

/// The place of the link to the executable of package `name` under `root`.
pub open spec fn link_place(root: Seq<char>, name: Seq<char>) -> Seq<char> {
    joined(joined(root, BIN_DIR@), name)
}

/// The install script's path in the install directory `dir`.
pub open spec fn script_path(dir: Seq<char>) -> Seq<char> {
    joined(dir, SCRIPT_NAME@)
}

/// The relative server path of a package's descriptor.
pub open spec fn metadata_path(cfg: Config, name: Seq<char>) -> Seq<char> {
    joined(cfg.data_endpoint@, name)
}

/// The relative server path of a package's archive.
pub open spec fn archive_path(cfg: Config, name: Seq<char>) -> Seq<char> {
    joined(cfg.file_endpoint@, name + ARCHIVE_SUFFIX@)
}

/// The verdict on a descriptor before anything is downloaded or written:
/// its name must be one directory entry, and a package that asks to be
/// linked must name an executable inside its own directory.
pub open spec fn descriptor_verdict(d: Descriptor) -> Result<(), ErrorKind> {
    if !plain_name(encode_utf8(d.pkgname)) {
        Err(ErrorKind::MisconfiguredPackage)
    } else if d.add_to_path {
        match d.executable_path {
            None => Err(ErrorKind::MisconfiguredPackage),
            Some(e) => if stays_inside(encode_utf8(e)) {
                Ok(())
            } else {
                Err(ErrorKind::MisconfiguredPackage)
            },
        }
    } else {
        Ok(())
    }
}

/// The machine stops with a failure of `kind` at `stage`.
pub open spec fn failed(m: Machine, stage: Stage, kind: ErrorKind) -> (Machine, Act) {
    (
        Machine { phase: Phase::Finished, ..m },
        Act::Finish(Err(InstallError { stage, kind })),
    )
}

/// The machine moves to `phase` and asks for `act`.
pub open spec fn moved(m: Machine, phase: Phase, act: Act) -> (Machine, Act) {
    (Machine { phase, ..m }, act)
}

/// Links the executable where asked, else finishes.
pub open spec fn link_or_finish(m: Machine) -> (Machine, Act) {
    match m.link {
        Some((t, l)) => moved(m, Phase::AwaitLink, Act::Link(t, l)),
        None => moved(m, Phase::Finished, Act::Finish(Ok(()))),
    }
}

/// What follows once the archive is unpacked.
pub open spec fn after_unpack(m: Machine) -> (Machine, Act) {
    if m.script {
        moved(m, Phase::AwaitScriptCheck, Act::CheckScript(script_path(m.dir)))
    } else {
        link_or_finish(m)
    }
}

/// The first step of an install of package `name` from the server at `server`.
pub open spec fn started(cfg: Config, name: Seq<char>, server: Seq<char>) -> (Machine, Act) {
    let meta = url_joined(server, metadata_path(cfg, name));
    let arch = url_joined(server, archive_path(cfg, name));
    let m = Machine {
        phase: Phase::AwaitMetadata,
        root: cfg.root@,
        archive_url: if arch is Some { arch->Some_0 } else { Seq::empty() },
        dir: Seq::empty(),
        crc: 0,
        script: false,
        link: None,
    };
    if meta is None || arch is None {
        failed(m, Stage::GetPackageData, ErrorKind::Url)
    } else {
        (m, Act::FetchMetadata(meta->Some_0))
    }
}

/// The step after the descriptor request ended with `fetched`.
pub open spec fn after_metadata(m: Machine, fetched: Result<Option<Descriptor>, ErrorKind>) -> (
    Machine,
    Act,
) {
    match fetched {
        Err(k) => failed(m, Stage::GetPackageData, k),
        Ok(None) => failed(m, Stage::GetPackageData, ErrorKind::NotFound),
        Ok(Some(d)) => match descriptor_verdict(d) {
            Err(k) => failed(m, Stage::CheckPackageData, k),
            Ok(_) => {
                let dir = install_dir(m.root, d.pkgname);
                let link = if d.add_to_path {
                    Some((joined(dir, d.executable_path->Some_0), link_place(m.root, d.pkgname)))
                } else {
                    None
                };
                (
                    Machine {
                        phase: Phase::AwaitDirectory,
                        dir,
                        crc: d.crc,
                        script: d.has_installer,
                        link,
                        ..m
                    },
                    Act::CreateDir(dir),
                )
            },
        },
    }
}

/// The step after the archive request ended with `fetched`.
pub open spec fn after_archive(m: Machine, fetched: Result<Seq<u8>, ErrorKind>) -> (Machine, Act) {
    match fetched {
        Err(k) => failed(m, Stage::InstallFile, k),
        Ok(data) => match archive_verdict(m.crc, data) {
            Err(k) => failed(m, Stage::InstallFile, k),
            Ok(t) => moved(m, Phase::AwaitUnpack, Act::Unpack(m.dir, t)),
        },
    }
}

/// The step after the check for the install script found it or not.
pub open spec fn after_script_check(m: Machine, exists: bool) -> (Machine, Act) {
    if exists {
        moved(m, Phase::AwaitScriptMode, Act::SetScriptMode(script_path(m.dir), SCRIPT_MODE))
    } else {
        failed(m, Stage::RunScript, ErrorKind::MissingScript)
    }
}

/// The phases that wait for a plain success or failure.
pub open spec fn awaits_done(p: Phase) -> bool {
    match p {
        Phase::AwaitDirectory | Phase::AwaitUnpack | Phase::AwaitScriptMode
        | Phase::AwaitScriptRun | Phase::AwaitScriptRemoval | Phase::AwaitLink => true,
        _ => false,
    }
}

/// The step after the pending action succeeded (`ok`) or failed.
pub open spec fn after_done(m: Machine, ok: bool) -> (Machine, Act) {
    match m.phase {
        Phase::AwaitDirectory => if ok {
            moved(m, Phase::AwaitArchive, Act::FetchArchive(m.archive_url))
        } else {
            failed(m, Stage::CreateDirectory, ErrorKind::Extraction)
        },
        Phase::AwaitUnpack => if ok {
            after_unpack(m)
        } else {
            failed(m, Stage::InstallFile, ErrorKind::Extraction)
        },
        Phase::AwaitScriptMode => if ok {
            moved(m, Phase::AwaitScriptRun, Act::RunScript(script_path(m.dir)))
        } else {
            failed(m, Stage::RunScript, ErrorKind::Execution)
        },
        Phase::AwaitScriptRun => if ok {
            moved(m, Phase::AwaitScriptRemoval, Act::RemoveScript(script_path(m.dir)))
        } else {
            failed(m, Stage::RunScript, ErrorKind::Execution)
        },
        Phase::AwaitScriptRemoval => if ok {
            link_or_finish(m)
        } else {
            failed(m, Stage::RemoveScript, ErrorKind::Cleanup)
        },
        _ => if ok {
            moved(m, Phase::Finished, Act::Finish(Ok(())))
        } else {
            failed(m, Stage::CreateLink, ErrorKind::Link)
        },
    }
}

/// The phase in which the machine waits for the outcome of `act`.
pub open spec fn phase_for(act: Act) -> Phase {
    match act {
        Act::FetchMetadata(_) => Phase::AwaitMetadata,
        Act::CreateDir(_) => Phase::AwaitDirectory,
        Act::FetchArchive(_) => Phase::AwaitArchive,
        Act::Unpack(_, _) => Phase::AwaitUnpack,
        Act::CheckScript(_) => Phase::AwaitScriptCheck,
        Act::SetScriptMode(_, _) => Phase::AwaitScriptMode,
        Act::RunScript(_) => Phase::AwaitScriptRun,
        Act::RemoveScript(_) => Phase::AwaitScriptRemoval,
        Act::Link(_, _) => Phase::AwaitLink,
        Act::Finish(_) => Phase::Finished,
    }
}

/// The descriptor that a metadata response holds.
pub open spec fn fetched_view(f: Result<Option<Package>, ErrorKind>) -> Result<Option<Descriptor>, ErrorKind> {
    match f {
        Err(k) => Err(k),
        Ok(None) => Ok(None),
        Ok(Some(p)) => Ok(Some(p@)),
    }
}

/// The bytes that an archive response holds.
pub open spec fn bytes_view(f: Result<Vec<u8>, ErrorKind>) -> Result<Seq<u8>, ErrorKind> {
    match f {
        Err(k) => Err(k),
        Ok(b) => Ok(b@),
    }
}

/// Judges a descriptor before anything is downloaded or written.
pub fn check_descriptor(p: &Package) -> (r: Result<(), ErrorKind>)
    ensures
        r == descriptor_verdict(p@),
{
    if !is_plain_name(p.pkgname.as_str().as_bytes()) {
        return Err(ErrorKind::MisconfiguredPackage);
    }
    if p.add_to_path {
        match &p.executable_path {
            None => Err(ErrorKind::MisconfiguredPackage),
            Some(e) => if path_stays_inside(e.as_str().as_bytes()) {
                Ok(())
            } else {
                Err(ErrorKind::MisconfiguredPackage)
            },
        }
    } else {
        Ok(())
    }
}

impl Installer {
    /// Begins the install of the package `pkg_name` from the server at
    /// `server_url`, with the install root and server paths of `config`.
    pub fn start(config: &Config, pkg_name: &str, server_url: &str) -> (r: (Installer, Action))
        ensures
            (r.0@, r.1@) == started(*config, pkg_name@, server_url@),
    {
        let meta_rel = join_path(config.data_endpoint.as_str(), pkg_name);
        let file_name = String::from_str(pkg_name).concat(ARCHIVE_SUFFIX);
        let arch_rel = join_path(config.file_endpoint.as_str(), file_name.as_str());
        let meta = join_url(server_url, meta_rel.as_str());
        let arch = join_url(server_url, arch_rel.as_str());
        let archive_url = match &arch {
            Some(u) => u.clone(),
            None => String::new(),
        };
        let mut inst = Installer {
            phase: Phase::AwaitMetadata,
            root: config.root.clone(),
            archive_url,
            dir: String::new(),
            crc: 0,
            script: false,
            link: None,
        };
        match (meta, arch) {
            (Some(url), Some(_)) => (inst, Action::FetchMetadata { url }),
            _ => {
                let act = inst.fail(Stage::GetPackageData, ErrorKind::Url);
                (inst, act)
            },
        }
    }

    /// Where the install stands.
    pub fn phase(&self) -> (r: Phase)
        ensures
            r == self@.phase,
    {
        self.phase
    }

    fn fail(&mut self, stage: Stage, kind: ErrorKind) -> (r: Action)
        ensures
            (final(self)@, r@) == failed(old(self)@, stage, kind),
    {
        self.phase = Phase::Finished;
        Action::Finish { result: Err(InstallError { stage, kind }) }
    }

    fn go(&mut self, phase: Phase, act: Action) -> (r: Action)
        ensures
            (final(self)@, r@) == moved(old(self)@, phase, act@),
    {
        self.phase = phase;
        act
    }

    fn link_or_finish(&mut self) -> (r: Action)
        ensures
            (final(self)@, r@) == link_or_finish(old(self)@),
    {
        match &self.link {
            Some((t, l)) => {
                let act = Action::Link { target: t.clone(), link: l.clone() };
                self.go(Phase::AwaitLink, act)
            },
            None => self.go(Phase::Finished, Action::Finish { result: Ok(()) }),
        }
    }

    /// Takes the outcome of the descriptor request: an error of the
    /// request, the server's answer that no such package exists, or the
    /// descriptor.
    pub fn on_metadata(&mut self, fetched: Result<Option<Package>, ErrorKind>) -> (r: Action)
        requires
            old(self)@.phase == Phase::AwaitMetadata,
        ensures
            (final(self)@, r@) == after_metadata(old(self)@, fetched_view(fetched)),
    {
        match fetched {
            Err(k) => self.fail(Stage::GetPackageData, k),
            Ok(None) => self.fail(Stage::GetPackageData, ErrorKind::NotFound),
            Ok(Some(p)) => match check_descriptor(&p) {
                Err(k) => self.fail(Stage::CheckPackageData, k),
                Ok(_) => {
                    let packages = join_path(self.root.as_str(), PACKAGES_DIR);
                    let dir = join_path(packages.as_str(), p.pkgname.as_str());
                    let link = if p.add_to_path {
                        match &p.executable_path {
                            Some(e) => {
                                let bin = join_path(self.root.as_str(), BIN_DIR);
                                Some(
                                    (
                                        join_path(dir.as_str(), e.as_str()),
                                        join_path(bin.as_str(), p.pkgname.as_str()),
                                    ),
                                )
                            },
                            None => None,
                        }
                    } else {
                        None
                    };
                    self.phase = Phase::AwaitDirectory;
                    self.dir = dir.clone();
                    self.crc = p.crc;
                    self.script = p.has_installer;
                    self.link = link;
                    Action::CreateDir { path: dir }
                },
            },
        }
    }

    /// Takes the outcome of the archive request: an error of the request, or
    /// the bytes, which are checked before anything is unpacked.
    pub fn on_archive(&mut self, fetched: Result<Vec<u8>, ErrorKind>) -> (r: Action)
        requires
            old(self)@.phase == Phase::AwaitArchive,
        ensures
            (final(self)@, r@) == after_archive(old(self)@, bytes_view(fetched)),
    {
        match fetched {
            Err(k) => self.fail(Stage::InstallFile, k),
            Ok(data) => match verify_archive(self.crc, data.as_slice()) {
                Err(k) => self.fail(Stage::InstallFile, k),
                Ok(tar) => {
                    let act = Action::Unpack { dir: self.dir.clone(), tar };
                    self.go(Phase::AwaitUnpack, act)
                },
            },
        }
    }

    /// Takes whether the install script was found in the install directory.
    pub fn on_script_check(&mut self, exists: bool) -> (r: Action)
        requires
            old(self)@.phase == Phase::AwaitScriptCheck,
        ensures
            (final(self)@, r@) == after_script_check(old(self)@, exists),
    {
        if exists {
            let act = Action::SetScriptMode {
                path: join_path(self.dir.as_str(), SCRIPT_NAME),
                mode: SCRIPT_MODE,
            };
            self.go(Phase::AwaitScriptMode, act)
        } else {
            self.fail(Stage::RunScript, ErrorKind::MissingScript)
        }
    }

    /// Takes whether the pending directory, unpack, script or link action
    /// succeeded.
    pub fn on_done(&mut self, ok: bool) -> (r: Action)
        requires
            awaits_done(old(self)@.phase),
        ensures
            (final(self)@, r@) == after_done(old(self)@, ok),
    {
        match self.phase {
            Phase::AwaitDirectory => if ok {
                let act = Action::FetchArchive { url: self.archive_url.clone() };
                self.go(Phase::AwaitArchive, act)
            } else {
                self.fail(Stage::CreateDirectory, ErrorKind::Extraction)
            },
            Phase::AwaitUnpack => if !ok {
                self.fail(Stage::InstallFile, ErrorKind::Extraction)
            } else if self.script {
                let act = Action::CheckScript { path: join_path(self.dir.as_str(), SCRIPT_NAME) };
                self.go(Phase::AwaitScriptCheck, act)
            } else {
                self.link_or_finish()
            },
            Phase::AwaitScriptMode => if ok {
                let act = Action::RunScript { path: join_path(self.dir.as_str(), SCRIPT_NAME) };
                self.go(Phase::AwaitScriptRun, act)
            } else {
                self.fail(Stage::RunScript, ErrorKind::Execution)
            },
            Phase::AwaitScriptRun => if ok {
                let act = Action::RemoveScript { path: join_path(self.dir.as_str(), SCRIPT_NAME) };
                self.go(Phase::AwaitScriptRemoval, act)
            } else {
                self.fail(Stage::RunScript, ErrorKind::Execution)
            },
            Phase::AwaitScriptRemoval => if ok {
                self.link_or_finish()
            } else {
                self.fail(Stage::RemoveScript, ErrorKind::Cleanup)
            },
            _ => if ok {
                self.go(Phase::Finished, Action::Finish { result: Ok(()) })
            } else {
                self.fail(Stage::CreateLink, ErrorKind::Link)
            },
        }
    }
}

} // verus!
