//! The compiled configuration model: the header that the pipeline resolves
//! (schema, metadata, source table, inheritance declarations) and the
//! system-state types that later stages are to populate.
use std::collections::HashMap;
use std::path::PathBuf;
use crate::table::UsingMap;
use vstd::prelude::*;

verus! {

/// A filesystem path, carried through the model as an opaque value.
#[verifier::external_type_specification]
#[verifier::external_body]
pub struct ExPathBuf(PathBuf);

/// A semantic-version requirement, carried through the model as an opaque value.
#[verifier::external_type_specification]
#[verifier::external_body]
pub struct ExVersionReq(semver::VersionReq);

/// The view of an optional string.
pub open spec fn opt_view(o: Option<String>) -> Option<Seq<char>> {
    match o {
        Some(s) => Some(s@),
        None => None,
    }
}

/// The view of an optional list of strings.
pub open spec fn opt_list_view(o: Option<Vec<String>>) -> Option<Seq<Seq<char>>> {
    match o {
        Some(v) => Some(v@.map_values(|s: String| s@)),
        None => None,
    }
}

/// How a failure of an optional step is handled.
#[derive(Debug)]
pub enum ErrorBehavior {
    Error,
    Warn,
}

/// How a failure that may also be ignored is handled.
#[derive(Debug)]
pub enum IgnorableErrorBehavior {
    Error,
    Ignore,
    Warn,
}

/// Where a secret value comes from.
#[derive(Debug)]
pub enum SecurableInput {
    Raw(String),
    FilePlaintext(String),
    FileGpgNear { path: String, key: String, executable: Option<String> },
    PromptOnce,
    PromptAlways,
}

/// The program that a source is fetched with.
#[derive(Debug)]
pub enum Executable {
    /// A program looked up by name at run time.
    Discoverable(&'static str),
    /// A program named or located by the document.
    UserProvided(String),
}

pub enum ExecutableView {
    Discoverable(Seq<char>),
    UserProvided(Seq<char>),
}

impl View for Executable {
    type V = ExecutableView;

    open spec fn view(&self) -> ExecutableView {
        match self {
            Executable::Discoverable(n) => ExecutableView::Discoverable(n@),
            Executable::UserProvided(p) => ExecutableView::UserProvided(p@),
        }
    }
}

/// A compiled configuration document: its schema and its metadata.
#[derive(Debug)]
pub struct OofFile {
    pub schema: OofFileSchema,
    pub meta: OofFileMeta,
}

/// The schema dialects that the compiler knows.
#[derive(Debug, Clone, Copy, PartialEq, Eq, Structural)]
pub enum OofFileSchema {
    System20210801,
}

impl View for OofFileSchema {
    type V = OofFileSchema;

    open spec fn view(&self) -> OofFileSchema {
        *self
    }
}

/// The descriptive block of a document.
#[derive(Debug)]
pub struct OofFileMeta {
    pub maintainer: Option<OofFileMetaMaintainer>,
    pub homepage: Option<String>,
    pub license: OofFileLicense,
}

pub struct MetaView {
    pub maintainer: Option<MaintainerView>,
    pub homepage: Option<Seq<char>>,
    pub license: LicenseView,
}

impl View for OofFileMeta {
    type V = MetaView;

    open spec fn view(&self) -> MetaView {
        MetaView {
            maintainer: match self.maintainer {
                Some(m) => Some(m@),
                None => None,
            },
            homepage: opt_view(self.homepage),
            license: self.license@,
        }
    }
}

/// Who maintains a document.
#[derive(Debug)]
pub struct OofFileMetaMaintainer {
    pub name: String,
    pub contact: Option<String>,
}

pub struct MaintainerView {
    pub name: Seq<char>,
    pub contact: Option<Seq<char>>,
}

impl View for OofFileMetaMaintainer {
    type V = MaintainerView;

    open spec fn view(&self) -> MaintainerView {
        MaintainerView { name: self.name@, contact: opt_view(self.contact) }
    }
}

/// The license a document is published under.
#[derive(Debug)]
pub enum OofFileLicense {
    Restricted,
    SPDXIdentifier(String),
}

pub enum LicenseView {
    Restricted,
    SPDXIdentifier(Seq<char>),
}

impl View for OofFileLicense {
    type V = LicenseView;

    open spec fn view(&self) -> LicenseView {
        match self {
            OofFileLicense::Restricted => LicenseView::Restricted,
            OofFileLicense::SPDXIdentifier(s) => LicenseView::SPDXIdentifier(s@),
        }
    }
}

/// A named external source.
#[derive(Debug)]
pub enum Using {
    Git { upstream: String, rev: Option<String>, shallow: bool, bin: Executable },
}

pub enum UsingView {
    Git { upstream: Seq<char>, rev: Option<Seq<char>>, shallow: bool, bin: ExecutableView },
}

impl View for Using {
    type V = UsingView;

    open spec fn view(&self) -> UsingView {
        match self {
            Using::Git { upstream, rev, shallow, bin } => UsingView::Git {
                upstream: upstream@,
                rev: opt_view(*rev),
                shallow: *shallow,
                bin: bin@,
            },
        }
    }
}

/// An inheritance declaration, bound by name to an entry of the source table.
#[derive(Debug)]
pub struct Extends {
    pub repo: String,
    pub path: String,
    pub pick: Option<Vec<String>>,
    pub omit: Option<Vec<String>>,
}

pub struct ExtendsView {
    pub repo: Seq<char>,
    pub path: Seq<char>,
    pub pick: Option<Seq<Seq<char>>>,
    pub omit: Option<Seq<Seq<char>>>,
}

impl View for Extends {
    type V = ExtendsView;

    open spec fn view(&self) -> ExtendsView {
        ExtendsView {
            repo: self.repo@,
            path: self.path@,
            pick: opt_list_view(self.pick),
            omit: opt_list_view(self.omit),
        }
    }
}

/// The full compiled model of a system. Only the header (target, source
/// table, inheritance) is resolved today; the other sections stay absent.
#[derive(Debug)]
pub struct SystemSchema20210801 {
    pub target: Target,
    pub using: UsingMap,
    pub extends: Option<Vec<Extends>>,
    pub disks: Option<Vec<Disk>>,
    pub linux_kernels: Option<Vec<LinuxKernel>>,
    pub users: Option<HashMap<String, User>>,
    pub groups: Option<HashMap<String, Group>>,
    pub shells: Option<HashMap<String, Shell>>,
    pub privesc: Option<Privesc>,
    pub intentpkgs: Option<Vec<IntentPkg>>,
    pub rawpkgs: Option<Vec<String>>,
}

/// The machine a configuration applies to.
#[derive(Debug)]
pub struct Target {
    pub target_type: TargetType,
}

#[derive(Debug)]
pub enum TargetType {
    TargetSelf,
}

/// A disk to mount.
#[derive(Debug)]
pub struct Disk {
    pub source: String,
    pub mountpoint: String,
    pub disk_type: DiskType,
    pub options: Vec<String>,
    pub dump: bool,
    pub fsck_order: FsckOrder,
    pub install_userspace_utils: bool,
    pub install_kernel_modules: bool,
}

/// Filesystem kinds.
#[derive(Debug)]
pub enum DiskType {
    Bcachefs,
    Btrfs,
    Ext2,
    Ext3,
    Ext4,
    Jfs,
    Nilfs2,
    Ntfs,
    Swap,
    Tmpfs,
    Vfat,
    Xfs,
    Zfs,
}

/// When a filesystem is checked at boot.
#[derive(Debug)]
pub enum FsckOrder {
    Disabled,
    First,
    Next,
}

impl FsckOrder {
    /// The pass number that the fstab format uses for this order.
    pub fn pass_number(&self) -> (r: u8)
        ensures
            r == match self {
                FsckOrder::Disabled => 0u8,
                FsckOrder::First => 1u8,
                FsckOrder::Next => 2u8,
            },
    {
        match self {
            FsckOrder::Disabled => 0,
            FsckOrder::First => 1,
            FsckOrder::Next => 2,
        }
    }
}

/// A kernel to install.
#[derive(Debug)]
pub struct LinuxKernel {
    pub series: LinuxKernelSeries,
    pub versions: semver::VersionReq,
    pub install_headers: bool,
    pub install_firmware: Option<bool>,
}

#[derive(Debug)]
pub enum LinuxKernelSeries {
    Default,
    Other(String),
}

/// A user account.
#[derive(Debug)]
pub struct User {
    pub name: String,
    pub is_system: bool,
    pub uid: Option<u32>,
    pub main_group: String,
    pub extra_groups: Option<Vec<String>>,
    pub full_name: Option<String>,
    pub shell: UserShellRef,
    pub install_missing_shell: bool,
    pub password: Option<SecurableInput>,
    pub state_stub: bool,
    pub match_by: UserOrGroupMatchBy,
    pub not_matched_error_behavior: IgnorableErrorBehavior,
    pub prune_on_removal: bool,
}

/// How a user's shell is named.
#[derive(Debug)]
pub enum UserShellRef {
    AbsolutePath(PathBuf),
    BinName(String),
}

/// How an existing user or group is recognised.
#[derive(Debug)]
pub enum UserOrGroupMatchBy {
    Name,
    ID,
}

/// A group.
#[derive(Debug)]
pub struct Group {
    pub name: String,
    pub is_system: bool,
    pub gid: Option<u32>,
    pub state_stub: bool,
    pub match_by: UserOrGroupMatchBy,
    pub not_matched_error_behavior: IgnorableErrorBehavior,
    pub prune_on_removal: bool,
}

/// A shell to set up.
#[derive(Debug)]
pub struct Shell {
    pub install_completion: bool,
    pub install_completion_error_behavior: ErrorBehavior,
    pub system_config_file: Option<PathBuf>,
}

/// The privilege-escalation policy.
#[derive(Debug)]
pub struct Privesc {
    pub method: PrivEscMethod,
    pub config_file: Option<PathBuf>,
}

#[derive(Debug)]
pub enum PrivEscMethod {
    Doas,
    Sudo,
}

/// A package requested by intent, with options.
#[derive(Debug)]
pub struct IntentPkg {
    pub name: String,
    pub opts: Option<HashMap<String, IntentPkgOpt>>,
}

/// An option value of an intent package.
#[derive(Debug)]
pub enum IntentPkgOpt {
    Null,
    Boolean(bool),
    Number(isize),
    String(String),
    List(Box<IntentPkgOpt>),
    Dict(HashMap<String, Box<IntentPkgOpt>>),
}

} // verus!
