//! Detection of the Grok Build CLI: where to look for the `grok` binary,
//! which path to take, how to read its version, and the status to report.

use vstd::prelude::*;
use vstd::utf8::{valid_utf8, decode_utf8};
use crate::events::opt_text;
use crate::text::{first_line_in, first_line_of, first_nonempty_line_in, first_nonempty_line_of};

verus! {

/// Minimum CLI version we expect (informational; not enforced).
pub const MIN_CLI_VERSION_HINT: &'static str = "0.2.0";

/// What `String::from_utf8_lossy` makes of `bytes`.
pub uninterp spec fn lossy_utf8(bytes: Seq<u8>) -> Seq<char>;

/// `String::from_utf8_lossy`: the text of `bytes`, with each invalid UTF-8
/// sequence replaced by U+FFFD. The contract names the result and states
/// that valid UTF-8 is decoded as it is; the replacement rule is not stated.
#[verifier::external_body]
fn utf8_lossy(bytes: &[u8]) -> (r: String)
    ensures
        r@ == lossy_utf8(bytes@),
        valid_utf8(bytes@) ==> r@ == decode_utf8(bytes@),
{
    String::from_utf8_lossy(bytes).into_owned()
}

/// Result of looking for the CLI.
#[derive(Debug)]
pub struct CliStatus {
    pub installed: bool,
    pub path: Option<String>,
    pub version: Option<String>,
    pub error: Option<String>,
    pub install_hint: String,
}

/// Model of a CLI status.
pub struct CliStatusView {
    pub installed: bool,
    pub path: Option<Seq<char>>,
    pub version: Option<Seq<char>>,
    pub error: Option<Seq<char>>,
    pub install_hint: Seq<char>,
}

impl View for CliStatus {
    type V = CliStatusView;

    open spec fn view(&self) -> CliStatusView {
        CliStatusView {
            installed: self.installed,
            path: opt_text(self.path),
            version: opt_text(self.version),
            error: opt_text(self.error),
            install_hint: self.install_hint@,
        }
    }
}

/// How to install the CLI.
pub open spec fn install_hint_text() -> Seq<char> {
    "请安装 Grok Build CLI：访问 https://x.ai 获取安装方式，或在终端运行官方安装脚本后将 `grok` 加入 PATH。安装完成后点击「重新检测」。"@
}

/// The error reported when no CLI is found.
pub open spec fn not_found_text() -> Seq<char> {
    "未在 PATH 或常见安装路径中找到 `grok`。请先安装 Grok Build CLI。"@
}

/// The status of a CLI that is not there, with `error`.
pub open spec fn missing_view(error: Seq<char>) -> CliStatusView {
    CliStatusView {
        installed: false,
        path: None,
        version: None,
        error: Some(error),
        install_hint: install_hint_text(),
    }
}

/// The status of a CLI found at `path`, with the version it reported.
pub open spec fn found_view(path: Seq<char>, version: Option<Seq<char>>) -> CliStatusView {
    CliStatusView {
        installed: true,
        path: Some(path),
        version,
        error: None,
        install_hint: install_hint_text(),
    }
}

/// How to install the CLI.
pub fn default_install_hint() -> (r: String)
    ensures
        r@ == install_hint_text(),
{
    "请安装 Grok Build CLI：访问 https://x.ai 获取安装方式，或在终端运行官方安装脚本后将 `grok` 加入 PATH。安装完成后点击「重新检测」。".to_owned()
}

impl CliStatus {
    /// The status of a CLI that is not there.
    pub fn missing(error: &str) -> (r: CliStatus)
        ensures
            r@ == missing_view(error@),
    {
        CliStatus {
            installed: false,
            path: None,
            version: None,
            error: Some(error.to_owned()),
            install_hint: default_install_hint(),
        }
    }

    /// The status of a CLI found at `path`.
    pub fn found(path: String, version: Option<String>) -> (r: CliStatus)
        ensures
            r@ == found_view(path@, opt_text(version)),
    {
        CliStatus {
            installed: true,
            path: Some(path),
            version,
            error: None,
            install_hint: default_install_hint(),
        }
    }
}

/// The report on the CLI: found at `path` (with the version it gave), or
/// missing when no path was found.
pub fn detect_cli(path: Option<String>, version: Option<String>) -> (r: CliStatus)
    ensures
        r@ == match path {
            Some(p) => found_view(p@, opt_text(version)),
            None => missing_view(not_found_text()),
        },
{
    match path {
        Some(p) => CliStatus::found(p, version),
        None => CliStatus::missing("未在 PATH 或常见安装路径中找到 `grok`。请先安装 Grok Build CLI。"),
    }
}

/// The file name of the CLI on the platform (`.exe` on Windows).
pub open spec fn bin_name(windows: bool) -> Seq<char> {
    if windows {
        "grok.exe"@
    } else {
        "grok"@
    }
}

/// The file name of the CLI on the platform (`.exe` on Windows).
pub fn grok_bin_name(windows: bool) -> (r: &'static str)
    ensures
        r@ == bin_name(windows),
{
    if windows {
        "grok.exe"
    } else {
        "grok"
    }
}

/// A path separator of the platform (Windows accepts both slashes).
pub open spec fn is_separator(c: char, windows: bool) -> bool {
    c == '/' || (windows && c == '\\')
}

/// Whether `base` is a bare Windows drive such as `C:`.
pub open spec fn is_bare_drive(base: Seq<char>) -> bool {
    base.len() == 2 && base[1] == ':' && (('a' <= base[0] <= 'z') || ('A' <= base[0] <= 'Z'))
}

/// `base` joined with the relative name `name` (`Path::join` for a name
/// without separators or prefix): no separator after an empty base, a base
/// that ends in a separator, or a bare Windows drive; the platform's
/// separator otherwise.
pub open spec fn join_path(base: Seq<char>, name: Seq<char>, windows: bool) -> Seq<char> {
    if base.len() == 0 || is_separator(base.last(), windows) || (windows && is_bare_drive(base)) {
        base + name
    } else if windows {
        base + seq!['\\'] + name
    } else {
        base + seq!['/'] + name
    }
}

/// Whether `base` begins with a Windows verbatim prefix (`\\?\`). Joining
/// onto such a base also normalizes the path, which `join_path` does not
/// describe.
pub open spec fn is_verbatim(base: Seq<char>, windows: bool) -> bool {
    &&& windows
    &&& base.len() >= 4
    &&& is_separator(base[0], windows)
    &&& is_separator(base[1], windows)
    &&& base[2] == '?'
    &&& is_separator(base[3], windows)
}

/// Whether `name` is one plain path component: not empty, without a
/// separator or a drive colon, and neither `.` nor `..`.
pub open spec fn is_plain_name(name: Seq<char>) -> bool {
    &&& name.len() > 0
    &&& forall|i: int| 0 <= i < name.len() ==> #[trigger] name[i] != '/' && name[i] != '\\' && name[i] != ':'
    &&& name != seq!['.']
    &&& name != seq!['.', '.']
}

/// Whether the path `p` ends with the component `name`: `name` ends it and
/// is the whole path, or follows a separator, or (on Windows) follows a bare
/// drive.
pub open spec fn ends_with_component(p: Seq<char>, name: Seq<char>, windows: bool) -> bool {
    let k = p.len() - name.len();
    &&& name.is_suffix_of(p)
    &&& (k == 0 || is_separator(p[k - 1], windows) || (windows && is_bare_drive(p.subrange(0, k))))
}

/// Whether the path `p` ends with `name` right after a separator.
pub open spec fn follows_separator(p: Seq<char>, name: Seq<char>, windows: bool) -> bool {
    &&& name.is_suffix_of(p)
    &&& p.len() > name.len()
    &&& is_separator(p[p.len() - name.len() - 1], windows)
}

/// The joined path where `join_path` describes it: `None` when there is no
/// base or the base is verbatim.
pub open spec fn join_model(base: Option<Seq<char>>, name: Seq<char>, windows: bool) -> Option<Seq<char>> {
    match base {
        Some(b) => if is_verbatim(b, windows) {
            None
        } else {
            Some(join_path(b, name, windows))
        },
        None => None,
    }
}

/// `Path::join` of the host platform, as text, on a base with a Windows
/// verbatim prefix. The contract states only that a plain name ends the
/// joined path, after a separator: the base is extended with the name as a
/// new component, and the normalization of a verbatim base removes only `.`
/// and `..` components. What becomes of the base is left unsaid; it depends
/// on the platform, and the documentation describes it only loosely.
#[verifier::external_body]
fn path_join(base: &str, name: &str) -> (r: String)
    requires
        is_verbatim(base@, true),
    ensures
        is_plain_name(name@) ==> follows_separator(r@, name@, true),
{
    std::path::Path::new(base).join(name).to_string_lossy().into_owned()
}

/// `base` joined with `name`: as in `join_path`, except on a Windows verbatim
/// base, which is left to the platform's `Path::join`.
pub fn join(base: &str, name: &str, windows: bool) -> (r: String)
    ensures
        !is_verbatim(base@, windows) ==> r@ == join_path(base@, name@, windows),
        is_plain_name(name@) ==> ends_with_component(r@, name@, windows),
        is_plain_name(name@) && is_verbatim(base@, windows) ==> follows_separator(r@, name@, windows),
{
    let cs = crate::text::chars_of(base);
    let n = cs.len();
    let sep0 = n >= 4 && (cs[0] == '/' || cs[0] == '\\');
    let verbatim = windows && sep0 && (cs[1] == '/' || cs[1] == '\\') && cs[2] == '?' && (cs[3]
        == '/' || cs[3] == '\\');
    if verbatim {
        return path_join(base, name);
    }
    let no_sep = if n == 0 {
        true
    } else {
        let last = cs[n - 1];
        let drive = n == 2 && cs[1] == ':' && (('a' <= cs[0] && cs[0] <= 'z') || ('A' <= cs[0]
            && cs[0] <= 'Z'));
        last == '/' || (windows && last == '\\') || (windows && drive)
    };
    proof {
        if n > 0 {
            assert(base@.last() == cs@[n - 1]);
        }
    }
    let joined = if no_sep {
        base.to_owned().concat(name)
    } else if windows {
        base.to_owned().concat("\\").concat(name)
    } else {
        base.to_owned().concat("/").concat(name)
    };
    proof {
        reveal_strlit("\\");
        reveal_strlit("/");
        let j = joined@;
        let k = j.len() - name@.len();
        assert(j.subrange(k, j.len() as int) =~= name@);
        if no_sep && n > 0 && !is_separator(base@.last(), windows) {
            assert(j.subrange(0, k) =~= base@);
        }
    }
    joined
}

/// The places to look for the CLI, in order: each directory of `PATH`, then
/// `~/.grok/bin`, then `~/AppData/Local/grok/bin` on Windows or
/// `~/.local/bin` elsewhere. An entry is `None` where a join onto a verbatim
/// base is involved.
pub open spec fn candidate_list(path_dirs: Seq<Seq<char>>, home: Option<Seq<char>>, windows: bool) -> Seq<Option<Seq<char>>> {
    let bin = bin_name(windows);
    let from_path = Seq::new(path_dirs.len(), |i: int| join_model(Some(path_dirs[i]), bin, windows));
    match home {
        Some(h) => {
            let grok_dir = join_model(join_model(Some(h), ".grok"@, windows), "bin"@, windows);
            let local = if windows {
                join_model(
                    join_model(
                        join_model(join_model(Some(h), "AppData"@, windows), "Local"@, windows),
                        "grok"@,
                        windows,
                    ),
                    "bin"@,
                    windows,
                )
            } else {
                join_model(join_model(Some(h), ".local"@, windows), "bin"@, windows)
            };
            from_path + seq![join_model(grok_dir, bin, windows), join_model(local, bin, windows)]
        },
        None => from_path,
    }
}

/// The texts of a sequence of strings.
pub open spec fn texts(v: Seq<String>) -> Seq<Seq<char>> {
    Seq::new(v.len(), |i: int| v[i]@)
}

/// Whether the paths `r` are those of `model`, one for one, wherever the
/// model gives one.
pub open spec fn agrees(r: Seq<Seq<char>>, model: Seq<Option<Seq<char>>>) -> bool {
    &&& r.len() == model.len()
    &&& forall|i: int| 0 <= i < r.len() && #[trigger] model[i] is Some ==> r[i] == model[i]->0
}

/// The places to look for the CLI (see `candidate_list`), given the
/// directories of `PATH` and the home directory. The last component of every
/// one of them is the file name of the CLI.
pub fn candidate_paths(path_dirs: &Vec<String>, home: Option<&str>, windows: bool) -> (r: Vec<String>)
    ensures
        agrees(
            texts(r@),
            candidate_list(
                texts(path_dirs@),
                match home {
                    Some(h) => Some(h@),
                    None => None,
                },
                windows,
            ),
        ),
        forall|i: int| 0 <= i < r@.len() ==> ends_with_component(#[trigger] r@[i]@, bin_name(windows), windows),
        forall|i: int|
            0 <= i < path_dirs@.len() && is_verbatim(path_dirs@[i]@, windows) ==> follows_separator(
                #[trigger] r@[i]@,
                bin_name(windows),
                windows,
            ),
{
    let bin = grok_bin_name(windows);
    proof {
        reveal_strlit("grok.exe");
        reveal_strlit("grok");
        assert(is_plain_name(bin@));
    }
    let mut out: Vec<String> = Vec::new();
    let mut i: usize = 0;
    while i < path_dirs.len()
        invariant
            i <= path_dirs@.len(),
            out@.len() == i,
            bin@ == bin_name(windows),
            is_plain_name(bin@),
            forall|k: int| 0 <= k < i ==> ends_with_component(#[trigger] out@[k]@, bin@, windows),
            forall|k: int|
                0 <= k < i && is_verbatim(path_dirs@[k]@, windows) ==> follows_separator(#[trigger] out@[k]@, bin@, windows),
            forall|k: int|
                0 <= k < i && !is_verbatim(path_dirs@[k]@, windows) ==> #[trigger] out@[k]@
                    == join_path(path_dirs@[k]@, bin@, windows),
        decreases path_dirs@.len() - i,
    {
        out.push(join(path_dirs[i].as_str(), bin, windows));
        i = i + 1;
    }
    let ghost from_path = out@;
    let ghost model_path = Seq::new(
        texts(path_dirs@).len(),
        |k: int| join_model(Some(texts(path_dirs@)[k]), bin@, windows),
    );
    assert(agrees(texts(from_path), model_path));
    match home {
        Some(h) => {
            let grok_dir = join(join(h, ".grok", windows).as_str(), "bin", windows);
            let local = if windows {
                join(
                    join(
                        join(join(h, "AppData", windows).as_str(), "Local", windows).as_str(),
                        "grok",
                        windows,
                    ).as_str(),
                    "bin",
                    windows,
                )
            } else {
                join(join(h, ".local", windows).as_str(), "bin", windows)
            };
            let a = join(grok_dir.as_str(), bin, windows);
            let b = join(local.as_str(), bin, windows);
            let ghost ma = join_model(
                join_model(join_model(Some(h@), ".grok"@, windows), "bin"@, windows),
                bin@,
                windows,
            );
            let ghost mb = if windows {
                join_model(
                    join_model(
                        join_model(
                            join_model(join_model(Some(h@), "AppData"@, windows), "Local"@, windows),
                            "grok"@,
                            windows,
                        ),
                        "bin"@,
                        windows,
                    ),
                    bin@,
                    windows,
                )
            } else {
                join_model(join_model(join_model(Some(h@), ".local"@, windows), "bin"@, windows), bin@, windows)
            };
            assert(ma is Some ==> a@ == ma->0);
            assert(mb is Some ==> b@ == mb->0);
            out.push(a);
            out.push(b);
            assert(agrees(texts(out@), model_path + seq![ma, mb]));
        },
        None => {},
    }
    out
}
/// The home directory: `USERPROFILE`, else `HOME`.
pub fn dirs_home(userprofile: Option<String>, home: Option<String>) -> (r: Option<String>)
    ensures
        opt_text(r) == match userprofile {
            Some(u) => Some(u@),
            None => opt_text(home),
        },
{
    match userprofile {
        Some(u) => Some(u),
        None => home,
    }
}

/// The first line of what `which grok` printed, trimmed, when it succeeded.
pub fn which_output_line(success: bool, stdout: &[u8]) -> (r: Option<String>)
    ensures
        opt_text(r) == if success {
            first_line_of(lossy_utf8(stdout@))
        } else {
            None
        },
        success && valid_utf8(stdout@) ==> opt_text(r) == first_line_of(decode_utf8(stdout@)),
{
    if !success {
        return None;
    }
    let text = utf8_lossy(stdout);
    first_line_in(text.as_str())
}

/// The path of the CLI: the line `which` printed when it names a file,
/// else the first candidate that is a file. Each path comes with whether it
/// is a file.
pub fn pick_cli_path(which_hit: Option<(String, bool)>, candidates: Vec<(String, bool)>) -> (r: Option<String>)
    ensures
        opt_text(r) == match which_hit {
            Some((p, true)) => Some(p@),
            _ => match first_file(candidates@) {
                Some(i) => Some(candidates@[i].0@),
                None => None,
            },
        },
{
    if let Some((p, is_file)) = which_hit {
        if is_file {
            return Some(p);
        }
    }
    let ghost all = candidates@;
    let mut i: usize = 0;
    while i < candidates.len()
        invariant
            candidates@ == all,
            which_hit matches Some((_, f)) ==> !f,
            i <= all.len(),
            forall|k: int| 0 <= k < i ==> !(#[trigger] all[k]).1,
        decreases all.len() - i,
    {
        if candidates[i].1 {
            proof {
                lemma_first_file_at(all, i as int);
            }
            return Some(candidates[i].0.clone());
        }
        i = i + 1;
    }
    proof {
        lemma_first_file_none(all);
    }
    None
}

/// The index of the first path that is a file.
pub open spec fn first_file(paths: Seq<(String, bool)>) -> Option<int>
    decreases paths.len(),
{
    if paths.len() == 0 {
        None
    } else if paths[0].1 {
        Some(0)
    } else {
        match first_file(paths.drop_first()) {
            Some(i) => Some(i + 1),
            None => None,
        }
    }
}

proof fn lemma_first_file_at(paths: Seq<(String, bool)>, i: int)
    requires
        0 <= i < paths.len(),
        paths[i].1,
        forall|k: int| 0 <= k < i ==> !(#[trigger] paths[k]).1,
    ensures
        first_file(paths) == Some(i),
    decreases i,
{
    if i > 0 {
        let rest = paths.drop_first();
        assert forall|k: int| 0 <= k < i - 1 implies !(#[trigger] rest[k]).1 by {
            assert(rest[k] == paths[k + 1]);
        }
        assert(!paths[0].1);
        lemma_first_file_at(rest, i - 1);
    }
}

proof fn lemma_first_file_none(paths: Seq<(String, bool)>)
    requires
        forall|k: int| 0 <= k < paths.len() ==> !(#[trigger] paths[k]).1,
    ensures
        first_file(paths) is None,
    decreases paths.len(),
{
    if paths.len() > 0 {
        let rest = paths.drop_first();
        assert forall|k: int| 0 <= k < rest.len() implies !(#[trigger] rest[k]).1 by {
            assert(rest[k] == paths[k + 1]);
        }
        assert(!paths[0].1);
        lemma_first_file_none(rest);
    }
}

/// The first line of `bytes` that is not blank, trimmed.
pub fn first_nonempty_line(bytes: &[u8]) -> (r: Option<String>)
    ensures
        opt_text(r) == first_nonempty_line_of(lossy_utf8(bytes@)),
        valid_utf8(bytes@) ==> opt_text(r) == first_nonempty_line_of(decode_utf8(bytes@)),
{
    let text = utf8_lossy(bytes);
    first_nonempty_line_in(text.as_str())
}

/// The version a run of the CLI reported: the first non-blank line of its
/// standard output, else of its standard error.
pub open spec fn version_in(stdout: Seq<u8>, stderr: Seq<u8>) -> Option<Seq<char>> {
    match first_nonempty_line_of(lossy_utf8(stdout)) {
        Some(l) => Some(l),
        None => first_nonempty_line_of(lossy_utf8(stderr)),
    }
}

/// A run of `grok version` or `grok --version`.
pub enum VersionProbe {
    /// The command could not be run.
    NotRun,
    /// The command ran; whether it succeeded, and what it printed.
    Ran { success: bool, stdout: Vec<u8>, stderr: Vec<u8> },
}

/// What to do after running `grok version`.
pub enum VersionNext {
    /// The version is known (or cannot be known).
    Done(Option<String>),
    /// Run `grok --version` and read the version from it.
    TryVersionFlag,
}

/// The version in the output of a run.
fn version_from(stdout: &[u8], stderr: &[u8]) -> (r: Option<String>)
    ensures
        opt_text(r) == version_in(stdout@, stderr@),
{
    match first_nonempty_line(stdout) {
        Some(l) => Some(l),
        None => first_nonempty_line(stderr),
    }
}

/// After `grok version`: its version when it succeeded; nothing when it could
/// not run; otherwise try `grok --version`.
pub fn version_after_first(probe: &VersionProbe) -> (r: VersionNext)
    ensures
        match probe {
            VersionProbe::NotRun => r matches VersionNext::Done(None),
            VersionProbe::Ran { success: true, stdout, stderr } => r matches VersionNext::Done(v)
                && opt_text(v) == version_in(stdout@, stderr@),
            VersionProbe::Ran { success: false, .. } => r matches VersionNext::TryVersionFlag,
        },
{
    match probe {
        VersionProbe::NotRun => VersionNext::Done(None),
        VersionProbe::Ran { success, stdout, stderr } => {
            if *success {
                VersionNext::Done(version_from(stdout.as_slice(), stderr.as_slice()))
            } else {
                VersionNext::TryVersionFlag
            }
        },
    }
}

/// After `grok --version`: its version when it succeeded, else nothing.
pub fn version_after_second(probe: &VersionProbe) -> (r: Option<String>)
    ensures
        opt_text(r) == match probe {
            VersionProbe::Ran { success: true, stdout, stderr } => version_in(stdout@, stderr@),
            _ => None,
        },
{
    match probe {
        VersionProbe::Ran { success, stdout, stderr } => {
            if *success {
                version_from(stdout.as_slice(), stderr.as_slice())
            } else {
                None
            }
        },
        VersionProbe::NotRun => None,
    }
}

} // verus!
