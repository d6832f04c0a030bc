//! The configuration of the engine and the files that it manages.
use std::path::PathBuf;
use std::time::Duration;

use vstd::prelude::*;
use vstd::string::*;

verus! {

/// `std::path::PathBuf`, an owned path.
#[verifier::external_type_specification]
#[verifier::external_body]
pub struct ExPathBuf(std::path::PathBuf);

/// The components that a path holds, in order, each as text: the text of the path cut at
/// its separators, and behind a drive prefix.
pub uninterp spec fn components(path: PathBuf) -> Seq<Seq<char>>;

/// A path as text, what is not Unicode in it replaced.
pub uninterp spec fn path_text(path: PathBuf) -> Seq<char>;

/// `name` is the name of a file or directory on every platform, and no more than one
/// component of a path.
pub open spec fn is_plain_name(name: Seq<char>) -> bool {
    &&& name.len() > 0
    &&& name != "."@
    &&& name != ".."@
    &&& forall|i: int| 0 <= i < name.len() ==> name[i] != '/' && name[i] != '\\' && name[i] != ':'
}

/// `Path::join` adjoins a relative path: the components of `base`, then the name. The
/// components are meant as the text of the path cut at its separators, and behind a drive
/// prefix, and not as what `std::path::Components` makes of the prefixes of Windows.
#[verifier::external_body]
fn join(base: &PathBuf, name: &str) -> (path: PathBuf)
    requires
        is_plain_name(name@),
    ensures
        components(path) == components(*base).push(name@),
{
    base.join(name)
}

/// `Path::to_string_lossy` gives a path as text. The contract names the text, which
/// is determined by the path.
#[verifier::external_body]
pub(crate) fn text_of_path(path: &PathBuf) -> (text: String)
    ensures
        text@ == path_text(*path),
{
    path.to_string_lossy().into_owned()
}

/// `PathBuf::clone` duplicates a path.
pub assume_specification[ <PathBuf as Clone>::clone ](path: &PathBuf) -> (copy: PathBuf)
    ensures
        copy == *path,
;

/// `std::path::is_separator` tells whether a character separates the components of a
/// path on the current platform. Nothing is stated of its answer, since that depends on the
/// platform.
pub assume_specification[ std::path::is_separator ](c: char) -> (separates: bool)
;

/// `windows` tells whether the current platform is Windows: it is what
/// `std::path::is_separator` answers for the backslash, which separates the components of a
/// path on Windows and not on Unix.
pub open spec fn is_platform(windows: bool) -> bool {
    call_ensures(std::path::is_separator, ('\\',), windows)
}

/// Tells whether the current platform is Windows.
pub(crate) fn on_windows() -> (windows: bool)
    ensures
        is_platform(windows),
{
    std::path::is_separator('\\')
}

/// Per-OS rclone download descriptor.
#[derive(Debug)]
pub struct PlatformAsset {
    pub url: String,
    pub sha256: String,
}

/// Configuration for the rclone engine.
#[derive(Debug)]
pub struct EngineConfig {
    /// Directory where the rclone binary and config are stored.
    /// The engine places the binary at `<data_dir>/bin/rclone[.exe]`.
    pub data_dir: PathBuf,
    /// Pinned rclone version string (e.g. "v1.74.3").
    pub rclone_version: String,
    /// Download URL and expected SHA-256 for the current platform.
    pub asset: PlatformAsset,
    /// How long to wait for `rclone rcd` to pass the health-check.
    pub startup_timeout: Duration,
}

/// The files and directories that the engine keeps below its data directory.
#[derive(Debug, Clone, Copy, PartialEq, Eq, Structural)]
pub enum ManagedFile {
    /// The directory of the binary.
    BinDir,
    /// The rclone binary.
    Binary,
    /// The binary before it is put in its place.
    Staged,
    /// The downloaded archive.
    Part,
    /// The marker that says which version is installed.
    Marker,
    /// The config file that rclone is run with.
    Config,
}

/// The file name of the rclone binary.
pub open spec fn binary_name(windows: bool) -> Seq<char> {
    if windows {
        "rclone.exe"@
    } else {
        "rclone"@
    }
}

/// Where a managed file stands below the data directory.
pub open spec fn place(file: ManagedFile, windows: bool) -> Seq<Seq<char>> {
    match file {
        ManagedFile::BinDir => seq!["bin"@],
        ManagedFile::Binary => seq!["bin"@, binary_name(windows)],
        ManagedFile::Staged => seq!["bin"@, "rclone.new"@],
        ManagedFile::Part => seq!["rclone.part"@],
        ManagedFile::Marker => seq!["version.json"@],
        ManagedFile::Config => seq!["rclone.conf"@],
    }
}

/// The file name of the rclone binary on a platform.
pub fn binary_file_name(windows: bool) -> (name: &'static str)
    ensures
        name@ == binary_name(windows),
{
    if windows {
        "rclone.exe"
    } else {
        "rclone"
    }
}

/// The names that the engine gives to files are plain.
proof fn names_are_plain()
    ensures
        is_plain_name("bin"@),
        is_plain_name("rclone"@),
        is_plain_name("rclone.exe"@),
        is_plain_name("rclone.new"@),
        is_plain_name("rclone.part"@),
        is_plain_name("version.json"@),
        is_plain_name("rclone.conf"@),
{
    reveal_strlit(".");
    reveal_strlit("..");
    assert(is_plain_name("bin"@)) by {
        reveal_strlit("bin");
        assert("bin"@.len() == 3);
    }
    assert(is_plain_name("rclone"@)) by {
        reveal_strlit("rclone");
        assert("rclone"@.len() == 6);
    }
    assert(is_plain_name("rclone.exe"@)) by {
        reveal_strlit("rclone.exe");
        assert("rclone.exe"@.len() == 10);
    }
    assert(is_plain_name("rclone.new"@)) by {
        reveal_strlit("rclone.new");
        assert("rclone.new"@.len() == 10);
    }
    assert(is_plain_name("rclone.part"@)) by {
        reveal_strlit("rclone.part");
        assert("rclone.part"@.len() == 11);
    }
    assert(is_plain_name("version.json"@)) by {
        reveal_strlit("version.json");
        assert("version.json"@.len() == 12);
    }
    assert(is_plain_name("rclone.conf"@)) by {
        reveal_strlit("rclone.conf");
        assert("rclone.conf"@.len() == 11);
    }
}

impl Clone for PlatformAsset {
    fn clone(&self) -> (copy: Self)
        ensures
            copy == *self,
    {
        PlatformAsset { url: self.url.clone(), sha256: self.sha256.clone() }
    }
}

impl Clone for EngineConfig {
    fn clone(&self) -> (copy: Self)
        ensures
            copy == *self,
    {
        EngineConfig {
            data_dir: self.data_dir.clone(),
            rclone_version: self.rclone_version.clone(),
            asset: self.asset.clone(),
            startup_timeout: self.startup_timeout,
        }
    }
}

impl EngineConfig {
    /// A configuration with the default startup timeout.
    pub fn new(
        data_dir: PathBuf,
        rclone_version: &str,
        download_url: &str,
        sha256: &str,
    ) -> (cfg: Self)
        ensures
            cfg.data_dir == data_dir,
            cfg.rclone_version@ == rclone_version@,
            cfg.asset.url@ == download_url@,
            cfg.asset.sha256@ == sha256@,
            crate::time::nanoseconds(cfg.startup_timeout) == 15 * 1_000_000_000,
    {
        EngineConfig {
            data_dir,
            rclone_version: rclone_version.to_owned(),
            asset: PlatformAsset { url: download_url.to_owned(), sha256: sha256.to_owned() },
            startup_timeout: Duration::from_secs(15),
        }
    }

    /// The path of a managed file on a platform.
    pub fn path_of(&self, file: ManagedFile, windows: bool) -> (path: PathBuf)
        ensures
            components(path) == components(self.data_dir) + place(file, windows),
    {
        proof {
            names_are_plain();
        }
        match file {
            ManagedFile::BinDir => join(&self.data_dir, "bin"),
            ManagedFile::Binary => join(&join(&self.data_dir, "bin"), binary_file_name(windows)),
            ManagedFile::Staged => join(&join(&self.data_dir, "bin"), "rclone.new"),
            ManagedFile::Part => join(&self.data_dir, "rclone.part"),
            ManagedFile::Marker => join(&self.data_dir, "version.json"),
            ManagedFile::Config => join(&self.data_dir, "rclone.conf"),
        }
    }

    /// Path to the rclone binary inside the data directory, on the current platform.
    pub fn binary_path(&self) -> (path: PathBuf)
        ensures
            exists|windows: bool| #[trigger]
                is_platform(windows) && components(path) == components(self.data_dir) + place(
                    ManagedFile::Binary,
                    windows,
                ),
    {
        let windows = on_windows();
        self.path_of(ManagedFile::Binary, windows)
    }

    /// Path to the rclone config file managed by this engine instance.
    pub fn config_path(&self) -> (path: PathBuf)
        ensures
            components(path) == components(self.data_dir) + seq!["rclone.conf"@],
    {
        self.path_of(ManagedFile::Config, false)
    }
}

/// No two managed files share a path.
pub proof fn managed_files_are_apart(dir: Seq<Seq<char>>, a: ManagedFile, b: ManagedFile, windows: bool)
    requires
        a != b,
    ensures
        dir + place(a, windows) != dir + place(b, windows),
{
    reveal_strlit("bin");
    reveal_strlit("rclone");
    reveal_strlit("rclone.exe");
    reveal_strlit("rclone.new");
    reveal_strlit("rclone.part");
    reveal_strlit("version.json");
    reveal_strlit("rclone.conf");
    let p = dir + place(a, windows);
    let q = dir + place(b, windows);
    assert("rclone.new"@[7] == 'n');
    assert("rclone.exe"@[7] == 'e');
    assert("rclone.part"@[7] == 'p');
    assert("rclone.conf"@[7] == 'c');
    if p == q {
        assert(p.len() == dir.len() + place(a, windows).len());
        assert(q.len() == dir.len() + place(b, windows).len());
        assert forall|i: int| 0 <= i < place(a, windows).len() implies place(a, windows)[i]
            == place(b, windows)[i] by {
            assert(p[dir.len() + i] == place(a, windows)[i]);
            assert(q[dir.len() + i] == place(b, windows)[i]);
        }
        assert(place(a, windows)[0] == place(b, windows)[0]);
        if place(a, windows).len() == 2 {
            assert(place(a, windows)[1] == place(b, windows)[1]);
        }
    }
}

/// Where the files of the engine stand below its data directory.
pub proof fn files_have_their_place(windows: bool)
    ensures
        place(ManagedFile::BinDir, windows) == seq!["bin"@],
        place(ManagedFile::Binary, true) == seq!["bin"@, "rclone.exe"@],
        place(ManagedFile::Binary, false) == seq!["bin"@, "rclone"@],
        place(ManagedFile::Staged, windows).first() == "bin"@,
        place(ManagedFile::Staged, windows).len() == 2,
        place(ManagedFile::Part, windows) == seq!["rclone.part"@],
        place(ManagedFile::Marker, windows) == seq!["version.json"@],
        place(ManagedFile::Config, windows) == seq!["rclone.conf"@],
        binary_name(true) == "rclone.exe"@,
        binary_name(false) == "rclone"@,
{
}

} // verus!
