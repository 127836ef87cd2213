//! Around running system commands: what a finished command's result means,
//! the note printed instead of running one in a dry run, finding a command's
//! full path, and refusing to run a binary that others can change while
//! running as root.

use vstd::prelude::*;

use crate::errors::{concat, RuwiError, RuwiErrorKind};
use crate::interfaces::Global;
use crate::scan::strs_view;
use crate::text::{
    chars_of, join_from, join_with, lines, lines_of, push_all, push_str, string_of, strip_trailing,
    trim, trim_end_matches, trim_ws, vviews,
};

verus! {

/// How a command that ran to its end finished.
#[derive(Debug, Clone, PartialEq, Eq)]
pub struct CommandOutput {
    /// Whether it exited with status zero.
    pub success: bool,
    /// Its exit code, or none when a signal stopped it.
    pub code: Option<i32>,
    /// What it printed on standard output.
    pub stdout: String,
}

/// The note printed instead of running `cmd_name args` in a dry run.
pub open spec fn dryrun_note_text(cmd_name: Seq<char>, args: Seq<Seq<char>>) -> Seq<char> {
    "[NOTE]: Not running command in dryrun mode: `"@ + cmd_name + " "@ + join_with(args, ' ') + "`"@
}

/// The note printed instead of running `cmd_name` with `args` in a dry run.
pub fn dryrun_note(cmd_name: &str, args: &Vec<String>) -> (r: String)
    ensures
        r@ == dryrun_note_text(cmd_name@, strs_view(args@)),
{
    let mut parts: Vec<Vec<char>> = Vec::new();
    let mut i: usize = 0;
    while i < args.len()
        invariant
            i <= args.len(),
            vviews(parts@) == strs_view(args@).take(i as int),
        decreases args.len() - i,
    {
        let ghost before = vviews(parts@);
        parts.push(chars_of(args[i].as_str()));
        assert(vviews(parts@) =~= before.push(args@[i as int]@));
        assert(strs_view(args@).take(i + 1) =~= strs_view(args@).take(i as int).push(
            args@[i as int]@,
        ));
        i += 1;
    }
    assert(strs_view(args@).take(args.len() as int) =~= strs_view(args@));
    assert(vviews(parts@).skip(0) =~= vviews(parts@));
    let mut note = chars_of("[NOTE]: Not running command in dryrun mode: `");
    push_str(&mut note, cmd_name);
    push_str(&mut note, " ");
    let joined = join_from(&parts, 0, ' ');
    push_all(&mut note, joined.as_slice());
    push_str(&mut note, "`");
    string_of(note.as_slice())
}

/// What a command that must succeed gave: its output, or the error `err_kind`
/// described by `err_msg` when it failed or could not be started.
pub fn pass_stdout_result(
    output: Result<CommandOutput, String>,
    err_kind: RuwiErrorKind,
    err_msg: &str,
) -> (r: Result<String, RuwiError>)
    ensures
        match output {
            Ok(o) => if o.success {
                r == Ok::<String, RuwiError>(o.stdout)
            } else {
                r matches Err(e) && e.kind == err_kind && e.desc@ == err_msg@
            },
            Err(_) => r matches Err(e) && e.kind == err_kind && e.desc@ == err_msg@,
        },
{
    match output {
        Ok(o) => if o.success {
            Ok(o.stdout)
        } else {
            Err(RuwiError::new(err_kind, err_msg))
        },
        Err(_) => Err(RuwiError::new(err_kind, err_msg)),
    }
}

/// What a prompt program gave: what it printed without trailing newlines; an
/// error when it failed, or, with the system's message, when it could not be started.
pub fn prompt_output_result(output: Result<CommandOutput, String>) -> (r: Result<String, RuwiError>)
    ensures
        match output {
            Ok(o) => if o.success {
                r matches Ok(s) && s@ == trim_end_matches(o.stdout@, "\n"@)
            } else {
                r matches Err(e) && e.kind == RuwiErrorKind::PromptCommandFailed && e.desc@
                    == "Prompt command exited with non-zero exit code."@
            },
            Err(msg) => r matches Err(e) && e.kind == RuwiErrorKind::PromptCommandSpawnFailed
                && e.desc@ == msg@,
        },
{
    match output {
        Ok(o) => if o.success {
            let text = chars_of(o.stdout.as_str());
            let newline = chars_of("\n");
            let kept = strip_trailing(text.as_slice(), newline.as_slice());
            Ok(string_of(kept.as_slice()))
        } else {
            Err(
                RuwiError::new(
                    RuwiErrorKind::PromptCommandFailed,
                    "Prompt command exited with non-zero exit code.",
                ),
            )
        },
        Err(msg) => Err(RuwiError::with_desc(RuwiErrorKind::PromptCommandSpawnFailed, msg)),
    }
}

/// The full path of `cmd_name`, from what `/bin/which cmd_name` gave: its
/// output without surrounding white space when it succeeded.
pub fn full_command_path(cmd_name: &str, which_output: Result<CommandOutput, String>) -> (r: Result<
    String,
    RuwiError,
>)
    ensures
        (which_output matches Ok(o) && o.success) ==> (r matches Ok(p) && p@ == trim_ws(
            which_output->Ok_0.stdout@,
        )),
        !(which_output matches Ok(o) && o.success) ==> (r matches Err(e) && e.kind
            == RuwiErrorKind::CommandNotFound && e.desc@ == "`"@ + cmd_name@
            + "` is not installed or is not in $PATH."@),
{
    if let Ok(o) = &which_output {
        if o.success {
            let text = chars_of(o.stdout.as_str());
            let t = trim(text.as_slice());
            return Ok(string_of(t.as_slice()));
        }
    }
    let mut desc = concat("`", cmd_name);
    desc.append("` is not installed or is not in $PATH.");
    Err(RuwiError::with_desc(RuwiErrorKind::CommandNotFound, desc))
}

/// The owner and permission bits of a binary.
#[derive(Debug, Clone, Copy, PartialEq, Eq, Structural)]
pub struct BinaryMetadata {
    pub mode: u32,
    pub uid: u32,
    pub gid: u32,
}

/// Whether the group or everyone may write to a file with permission bits `mode`.
pub fn is_world_or_group_writable(mode: u32) -> (r: bool)
    ensures
        r == (mode & 0o022u32 != 0),
{
    let world_writable_mask: u32 = 0o022;
    mode & world_writable_mask != 0
}

/// Whether a file owned by user `uid` and group `gid` is not owned by root alone.
pub fn is_owned_by_non_root(uid: u32, gid: u32) -> (r: bool)
    ensures
        r == !(uid == 0 && gid == 0),
{
    !(uid == 0 && gid == 0)
}

/// Whether running `cmd_path` is refused: when running as root, a binary whose
/// metadata cannot be read, or that someone but root may change, is refused.
pub open spec fn safety_verdict(
    as_root: bool,
    cmd_path: Seq<char>,
    metadata: Result<BinaryMetadata, String>,
) -> Result<(), (RuwiErrorKind, Seq<char>)> {
    if !as_root {
        Ok(())
    } else {
        match metadata {
            Err(_) => Err(
                (
                    RuwiErrorKind::UnableToReadMetadataForBinary,
                    "Unable to read metadata for binary \""@ + cmd_path + "\". Does it exist?"@,
                ),
            ),
            Ok(m) => if !(m.uid == 0 && m.gid == 0) || m.mode & 0o022u32 != 0 {
                Err(
                    (
                        RuwiErrorKind::BinaryWritableByNonRootWhenRunningAsRoot,
                        "Attempted to run external binary \""@ + cmd_path
                            + "\" while running as root, but it is writable by non-root users!"@,
                    ),
                )
            } else {
                Ok(())
            },
        }
    }
}

/// Whether `r` is the result that `verdict` describes.
pub open spec fn follows_verdict(
    r: Result<(), RuwiError>,
    verdict: Result<(), (RuwiErrorKind, Seq<char>)>,
) -> bool {
    match verdict {
        Ok(_) => r is Ok,
        Err((kind, desc)) => r matches Err(e) && e.kind == kind && e.desc@ == desc,
    }
}

/// Decides whether `cmd_path` may run, when running as root or not, given its metadata.
pub fn command_safety_verdict(as_root: bool, cmd_path: &str, metadata: Result<BinaryMetadata, String>) -> (r:
    Result<(), RuwiError>)
    ensures
        follows_verdict(r, safety_verdict(as_root, cmd_path@, metadata)),
{
    if !as_root {
        return Ok(());
    }
    match metadata {
        Err(_) => {
            let mut desc = concat("Unable to read metadata for binary \"", cmd_path);
            desc.append("\". Does it exist?");
            Err(RuwiError::with_desc(RuwiErrorKind::UnableToReadMetadataForBinary, desc))
        },
        Ok(m) => {
            if is_owned_by_non_root(m.uid, m.gid) || is_world_or_group_writable(m.mode) {
                let mut desc = concat("Attempted to run external binary \"", cmd_path);
                desc.append("\" while running as root, but it is writable by non-root users!");
                Err(
                    RuwiError::with_desc(
                        RuwiErrorKind::BinaryWritableByNonRootWhenRunningAsRoot,
                        desc,
                    ),
                )
            } else {
                Ok(())
            }
        },
    }
}

/// The real user id of this process, from `nix::unistd::getuid`. It depends on
/// how the process was started, so nothing is stated of it.
#[verifier::external_body]
fn current_uid() -> u32 {
    nix::unistd::getuid().as_raw()
}

/// Whether this process runs as root: its user id is zero.
fn running_as_root() -> (r: bool) {
    current_uid() == 0
}

/// Refuses to run `cmd_path` when the options pretend to be root, or the
/// process is root, and the binary's metadata cannot be read or someone but
/// root may change it.
pub fn verify_command_safety<O: Global>(
    opts: &O,
    cmd_path: &str,
    metadata: Result<BinaryMetadata, String>,
) -> (r: Result<(), RuwiError>)
    ensures
        opts.pretend_root_of() ==> follows_verdict(r, safety_verdict(true, cmd_path@, metadata)),
        !opts.pretend_root_of() ==> (follows_verdict(r, safety_verdict(true, cmd_path@, metadata))
            || follows_verdict(r, safety_verdict(false, cmd_path@, metadata))),
{
    let as_root = opts.pretend_to_be_root() || running_as_root();
    command_safety_verdict(as_root, cmd_path, metadata)
}

/// The reasons the interface name cannot be learned from `wpa_cli ifname`.
#[derive(Debug, Clone, PartialEq, Eq)]
pub enum IfnameFailure {
    /// `wpa_cli` is not installed.
    WpaCliMissing,
    /// It failed otherwise; what it printed.
    Failed(String),
}

/// The interface name that `wpa_cli ifname` gave: the last line it printed,
/// when it succeeded and printed any.
pub fn ifname_from_wpa_cli(output: CommandOutput) -> (r: Result<String, IfnameFailure>)
    ensures
        (output.success && lines_of(output.stdout@).len() > 0) ==> (r matches Ok(name) && name@
            == lines_of(output.stdout@).last()),
        !(output.success && lines_of(output.stdout@).len() > 0) ==> (if output.code == Some(127i32) {
            r == Err::<String, IfnameFailure>(IfnameFailure::WpaCliMissing)
        } else {
            r == Err::<String, IfnameFailure>(IfnameFailure::Failed(output.stdout))
        }),
{
    let text = chars_of(output.stdout.as_str());
    let ls = lines(text.as_slice());
    if output.success && ls.len() > 0 {
        assert(vviews(ls@).last() == ls@[ls.len() - 1]@);
        return Ok(string_of(ls[ls.len() - 1].as_slice()));
    }
    match output.code {
        Some(num) => if num == 127 {
            Err(IfnameFailure::WpaCliMissing)
        } else {
            Err(IfnameFailure::Failed(output.stdout))
        },
        None => Err(IfnameFailure::Failed(output.stdout)),
    }
}

/// Running as root, a binary runs only when root owns it (user and group) and
/// neither its group nor others may write to it.
pub proof fn lemma_root_runs_only_root_owned_binaries(
    cmd_path: Seq<char>,
    metadata: Result<BinaryMetadata, String>,
)
    requires
        safety_verdict(true, cmd_path, metadata) is Ok,
    ensures
        metadata matches Ok(m) && m.uid == 0 && m.gid == 0 && m.mode & 0o022u32 == 0,
{
}

/// Whether the prompt program `cmd_name` may run: always in a dry run, else
/// when `which cmd_name` succeeded.
pub fn is_cmd_installed<O: Global>(opts: &O, cmd_name: &str, which_succeeded: bool) -> (r: Result<
    (),
    RuwiError,
>)
    ensures
        (opts.dry_run_of() || which_succeeded) ==> r is Ok,
        !(opts.dry_run_of() || which_succeeded) ==> (r matches Err(e) && e.kind
            == RuwiErrorKind::CommandNotInstalled && e.desc@ == "`"@ + cmd_name@
            + "` is not installed or is not in $PATH."@),
{
    if opts.get_dry_run() {
        return Ok(());
    }
    if which_succeeded {
        Ok(())
    } else {
        let mut desc = concat("`", cmd_name);
        desc.append("` is not installed or is not in $PATH.");
        Err(RuwiError::with_desc(RuwiErrorKind::CommandNotInstalled, desc))
    }
}

} // verus!
