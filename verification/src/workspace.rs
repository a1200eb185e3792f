use vstd::prelude::*;
use crate::error::{GitwsError, GitwsResult};
use crate::text::{concat_strs, concat3, str_eq, str_ends_with, u64_to_string, dec_str};
use vstd::string::StrSliceExecFns;

verus! {

/// Identity record of one workspace: its unique name, the directory it
/// lives in, and the branch bound to it.  Read-only once created; it can go
/// stale at any time when the directory or branch disappears out of band.
#[derive(Debug, Clone)]
pub struct WorkspaceInfo {
    pub name: String,
    pub path: String,
    pub branch: String,
}

/// Point-in-time snapshot of one workspace, all fields pre-rendered; every
/// failure while gathering it degrades to sentinel text instead of an error.
#[derive(Debug)]
pub struct WorkspaceDetails {
    pub created: String,
    pub last_modified: String,
    pub status: String,
    pub files_info: String,
    pub size: String,
    pub recent_commits: Vec<String>,
}

/// What the filesystem says about a workspace directory, gathered by the
/// caller: whether it exists, its creation and modification times as unix
/// seconds, and its total size in bytes (metadata subdirectory excluded).
/// A `None` stands for a query that failed.
#[derive(Debug, Clone, Copy)]
pub struct DirProbe {
    pub exists: bool,
    pub created_secs: Option<i64>,
    pub modified_secs: Option<i64>,
    pub size_bytes: Option<u64>,
}

/// The identifiers a new workspace will be created under.
#[derive(Debug, Clone)]
pub struct CreatePlan {
    pub name: String,
    pub branch: String,
    pub path: String,
}

/// One file to copy into a fresh workspace: a path relative to the main
/// checkout and the absolute destination inside the workspace.
#[derive(Debug, Clone)]
pub struct CopyStep {
    pub source: String,
    pub dest: String,
}

/// One setup command to run inside a fresh workspace.
#[derive(Debug, Clone)]
pub struct CommandStep {
    pub dir: String,
    pub command: String,
}

/// The side-effect steps the caller runs after a workspace is materialized:
/// file copies, then setup commands, in order.  Failures of single steps are
/// reported but never abort the batch.
#[derive(Debug, Clone)]
pub struct SetupPlan {
    pub copies: Vec<CopyStep>,
    pub commands: Vec<CommandStep>,
}

pub open spec fn planned_name(ts: Seq<char>, task: Seq<char>) -> Seq<char> {
    ts + "-"@ + task
}

pub open spec fn planned_branch(prefix: Seq<char>, name: Seq<char>) -> Seq<char> {
    if prefix.len() == 0 {
        name
    } else {
        prefix + name
    }
}

pub open spec fn planned_path(base: Seq<char>, name: Seq<char>) -> Seq<char> {
    base + "/"@ + name
}

/// Compute the name, branch and path a workspace will be created under:
/// `name = <timestamp>-<task>`, `branch = <prefix><name>` (or `name` itself
/// under an empty prefix), `path = <base>/<name>`.
pub fn plan_create(timestamp: &str, task_name: &str, base_dir: &str, branch_prefix: &str) -> (p:
    CreatePlan)
    ensures
        p.name@ == planned_name(timestamp@, task_name@),
        p.branch@ == planned_branch(branch_prefix@, p.name@),
        p.path@ == planned_path(base_dir@, p.name@),
{
    let name = concat3(timestamp, "-", task_name);
    let branch = if branch_prefix.unicode_len() == 0 {
        name.clone()
    } else {
        concat_strs(branch_prefix, name.as_str())
    };
    let path = concat3(base_dir, "/", name.as_str());
    CreatePlan { name, branch, path }
}

/// Under an empty prefix the planned branch is the workspace name itself;
/// under a non-empty prefix it is the prefix followed by
/// `<timestamp>-<task>`.
pub proof fn lemma_branch_naming(ts: Seq<char>, task: Seq<char>, prefix: Seq<char>)
    ensures
        prefix.len() == 0 ==> planned_branch(prefix, planned_name(ts, task)) == planned_name(
            ts,
            task,
        ),
        prefix.len() > 0 ==> planned_branch(prefix, planned_name(ts, task)) == prefix + ts + "-"@
            + task,
{
    if prefix.len() > 0 {
        assert(prefix + (ts + "-"@ + task) =~= prefix + ts + "-"@ + task);
    }
}

#[verifier::external_type_specification]
#[verifier::external_body]
pub struct ExRepository(git2::Repository);

/// Relies on git2's `Repository::open`: opens the repository containing the
/// given path.  Whether it succeeds depends on what is on disk, so nothing
/// is promised; the error case carries the backend's message.
#[verifier::external_body]
fn open_repository(path: &str) -> Result<git2::Repository, String> {
    git2::Repository::open(path).map_err(|e| e.to_string())
}

/// Relies on git2's `Repository::worktrees`: the names of all registered
/// worktrees (entries that are not valid text are skipped).
#[verifier::external_body]
fn list_worktree_names(repo: &git2::Repository) -> Result<Vec<String>, String> {
    match repo.worktrees() {
        Ok(names) => Ok(names.iter().filter_map(|s| s.ok().flatten().map(|x| x.to_string())).collect()),
        Err(e) => Err(e.to_string()),
    }
}

/// Relies on git2's `Repository::find_worktree` and `Worktree::path`: the
/// registered directory of the named worktree, if the lookup succeeds and
/// the path is valid text.
#[verifier::external_body]
fn worktree_path(repo: &git2::Repository, name: &str) -> Option<String> {
    repo.find_worktree(name).ok().and_then(|wt| wt.path().to_str().map(|s| s.to_string()))
}

/// Relies on git2's `Repository::worktree` with fresh `WorktreeAddOptions`:
/// materializes a new worktree named `name` at `path`, implicitly creating a
/// branch of the same name.
#[verifier::external_body]
fn add_worktree(repo: &git2::Repository, name: &str, path: &str) -> Result<(), String> {
    let opts = git2::WorktreeAddOptions::new();
    match repo.worktree(name, std::path::Path::new(path), Some(&opts)) {
        Ok(_) => Ok(()),
        Err(e) => Err(e.to_string()),
    }
}

/// Relies on git2's `Repository::head` and `Reference::shorthand`: the short
/// name of the current head, when the head is readable and named.
#[verifier::external_body]
fn head_shorthand(repo: &git2::Repository) -> Option<String> {
    repo.head().ok().and_then(|h| h.shorthand().ok().map(|s| s.to_string()))
}

/// Which step of branch creation from the current head failed.
pub enum BranchFault {
    /// the head could not be read
    Head { detail: String },
    /// the head names no commit
    NoTarget,
    /// the head commit could not be loaded
    Commit { detail: String },
    /// the branch could not be created
    Create { detail: String },
}

/// Relies on git2's `Repository::head`, `Reference::target`,
/// `Repository::find_commit` and `Repository::branch`: creates `branch`
/// pointing at the current head commit, reporting which step failed.
#[verifier::external_body]
fn branch_from_head(repo: &git2::Repository, branch: &str) -> Result<(), BranchFault> {
    let head = repo.head().map_err(|e| BranchFault::Head { detail: e.to_string() })?;
    let target = head.target().ok_or(BranchFault::NoTarget)?;
    let commit = repo.find_commit(target).map_err(
        |e| BranchFault::Commit { detail: e.to_string() },
    )?;
    match repo.branch(branch, &commit, false) {
        Ok(_) => Ok(()),
        Err(e) => Err(BranchFault::Create { detail: e.to_string() }),
    }
}

/// Relies on git2's `Repository::set_head`: points the head of the
/// repository at the given reference name.
#[verifier::external_body]
fn set_head_ref(repo: &git2::Repository, refname: &str) -> Result<(), String> {
    repo.set_head(refname).map_err(|e| e.to_string())
}

/// Relies on git2's `Repository::statuses`, `StatusEntry::status` and
/// `Status::bits`: the raw status bits of every entry the backend reports,
/// or `None` when the query fails.
#[verifier::external_body]
fn status_bits(repo: &git2::Repository) -> Option<Vec<u32>> {
    repo.statuses(None).ok().map(|ss| ss.iter().map(|e| e.status().bits()).collect())
}

/// Why no commit could be walked from the head.
pub enum LogFault {
    /// the head could not be read
    NoHead,
    /// the head names no commit
    NoCommit,
}

/// Relies on git2's `Repository::head`, `Reference::target`,
/// `Repository::revwalk`, `Revwalk::push`, `Repository::find_commit`,
/// `Commit::message` and `Commit::time`: up to `limit` messages and commit
/// times walked from the head, newest first.  A failure to start the walk
/// yields an empty list.
#[verifier::external_body]
fn commit_log(repo: &git2::Repository, limit: usize) -> (r: Result<Vec<(String, i64)>, LogFault>)
    ensures
        r matches Ok(v) ==> v@.len() <= limit,
{
    let head = repo.head().map_err(|_| LogFault::NoHead)?;
    let id = head.target().ok_or(LogFault::NoCommit)?;
    let walk = match repo.revwalk().and_then(|mut w| w.push(id).map(|_| w)) {
        Ok(w) => w,
        Err(_) => return Ok(Vec::new()),
    };
    Ok(walk.take(limit).flatten().filter_map(
        |oid| repo.find_commit(oid).ok().map(|c| (c.message().unwrap_or("").to_string(), c.time().seconds())),
    ).collect())
}

/// Relies on `std::path::Path::exists`: whether the path currently points
/// at anything on disk.  The answer depends on the disk, so nothing is
/// promised of it.
#[verifier::external_body]
pub fn path_exists(path: &str) -> bool {
    std::path::Path::new(path).exists()
}

/// What `str::trim` returns: the text with leading and trailing whitespace
/// removed.
pub uninterp spec fn trimmed(s: Seq<char>) -> Seq<char>;

/// Relies on `str::trim`: the result depends on the characters alone and is
/// never longer than the input.
#[verifier::external_body]
fn trim_text(s: &str) -> (r: String)
    ensures
        r@ == trimmed(s@),
        r@.len() <= s@.len(),
{
    s.trim().to_string()
}

/// What chrono renders for a unix time under `"%Y-%m-%d %H:%M:%S"` (UTC):
/// a function of the seconds alone.
pub uninterp spec fn datetime_text(secs: int) -> Seq<char>;

/// Relies on chrono's `DateTime::from_timestamp` and `format`: the UTC
/// rendering of a unix time; `None` only outside chrono's representable
/// range.
#[verifier::external_body]
fn format_unix_time(secs: i64) -> (r: Option<String>)
    ensures
        r matches Some(s) ==> s@ == datetime_text(secs as int),
{
    chrono::DateTime::from_timestamp(secs, 0).map(|d| d.format("%Y-%m-%d %H:%M:%S").to_string())
}

/// Relies on chrono's `Utc::now` and `format`: the current UTC time
/// rendered as `"%Y-%m-%d %H:%M:%S"`.  The result depends on the wall
/// clock, so nothing is promised of it.
#[verifier::external_body]
fn now_datetime_text() -> String {
    chrono::Utc::now().format("%Y-%m-%d %H:%M:%S").to_string()
}

/// Relies on chrono's `Utc::now` and `timestamp`: the current unix time in
/// seconds.  The result depends on the wall clock, so nothing is promised
/// of it.
#[verifier::external_body]
fn now_unix_secs() -> i64 {
    chrono::Utc::now().timestamp()
}

/// The backend's status bits, as libgit2 defines them.
pub const STATUS_INDEX_MODIFIED: u32 = 2;

pub const STATUS_INDEX_DELETED: u32 = 4;

pub const STATUS_WT_NEW: u32 = 128;

pub const STATUS_WT_MODIFIED: u32 = 256;

pub const STATUS_WT_DELETED: u32 = 512;

/// An entry modified or deleted, in the working tree or in the index.
pub open spec fn is_modified_entry(bits: u32) -> bool {
    bits & STATUS_WT_MODIFIED != 0 || bits & STATUS_WT_DELETED != 0 || bits
        & STATUS_INDEX_MODIFIED != 0 || bits & STATUS_INDEX_DELETED != 0
}

/// An entry new in the working tree and not counted as modified.
pub open spec fn is_untracked_entry(bits: u32) -> bool {
    !is_modified_entry(bits) && bits & STATUS_WT_NEW != 0
}

/// An entry that is neither modified nor untracked.
pub open spec fn is_tracked_entry(bits: u32) -> bool {
    !is_modified_entry(bits) && bits & STATUS_WT_NEW == 0
}

pub open spec fn count_modified(s: Seq<u32>) -> int
    decreases s.len(),
{
    if s.len() == 0 {
        0
    } else {
        count_modified(s.drop_last()) + if is_modified_entry(s.last()) {
            1int
        } else {
            0int
        }
    }
}

pub open spec fn count_untracked(s: Seq<u32>) -> int
    decreases s.len(),
{
    if s.len() == 0 {
        0
    } else {
        count_untracked(s.drop_last()) + if is_untracked_entry(s.last()) {
            1int
        } else {
            0int
        }
    }
}

pub open spec fn count_tracked(s: Seq<u32>) -> int
    decreases s.len(),
{
    if s.len() == 0 {
        0
    } else {
        count_tracked(s.drop_last()) + if is_tracked_entry(s.last()) {
            1int
        } else {
            0int
        }
    }
}

/// The status classification line: `Modified (n files)` when any entry is
/// modified, `Clean` otherwise.
pub open spec fn status_text(bits: Seq<u32>) -> Seq<char> {
    if count_modified(bits) > 0 {
        "Modified ("@ + dec_str(count_modified(bits)) + " files)"@
    } else {
        "Clean"@
    }
}

/// The file-count line: `<tracked_n> tracked, <untracked> untracked`.
pub open spec fn files_text(bits: Seq<u32>) -> Seq<char> {
    dec_str(count_tracked(bits)) + " tracked, "@ + dec_str(count_untracked(bits)) + " untracked"@
}

/// Classify the raw status bits the backend reported: the status line and
/// the file-count line.
pub fn classify_status(bits: &Vec<u32>) -> (r: (String, String))
    ensures
        r.0@ == status_text(bits@),
        r.1@ == files_text(bits@),
{
    let mut modified: u64 = 0;
    let mut untracked: u64 = 0;
    let mut tracked_n: u64 = 0;
    let mut i: usize = 0;
    while i < bits.len()
        invariant
            0 <= i <= bits@.len(),
            modified as int == count_modified(bits@.take(i as int)),
            untracked as int == count_untracked(bits@.take(i as int)),
            tracked_n as int == count_tracked(bits@.take(i as int)),
            modified <= i && untracked <= i && tracked_n <= i,
        decreases bits@.len() - i,
    {
        proof {
            assert(bits@.take(i + 1).drop_last() =~= bits@.take(i as int));
        }
        let b = bits[i];
        if b & STATUS_WT_MODIFIED != 0 || b & STATUS_WT_DELETED != 0 || b & STATUS_INDEX_MODIFIED
            != 0 || b & STATUS_INDEX_DELETED != 0 {
            modified += 1;
        } else if b & STATUS_WT_NEW != 0 {
            untracked += 1;
        } else {
            tracked_n += 1;
        }
        i += 1;
    }
    proof {
        assert(bits@.take(bits@.len() as int) =~= bits@);
    }
    let status = if modified > 0 {
        concat3("Modified (", u64_to_string(modified).as_str(), " files)")
    } else {
        "Clean".to_owned()
    };
    let files = concat_strs(
        concat3(u64_to_string(tracked_n).as_str(), " tracked, ", u64_to_string(untracked).as_str())
            .as_str(),
        " untracked",
    );
    proof {
        assert(files@ =~= files_text(bits@));
    }
    (status, files)
}

/// The quotient `num / den` rounded to the nearest integer, halves to the
/// even neighbour (as the standard one-decimal float rendering rounds).
pub open spec fn round_half_even(num: int, den: int) -> int
    recommends
        num >= 0,
        den > 0,
{
    let q = num / den;
    let r = num % den;
    if 2 * r > den {
        q + 1
    } else if 2 * r < den {
        q
    } else if q % 2 == 0 {
        q
    } else {
        q + 1
    }
}

/// The human-readable size: bytes below 1 KB, otherwise KB or MB with one
/// decimal digit (rounded to nearest, halves to even).
pub open spec fn size_text(b: int) -> Seq<char> {
    if b < 1024 {
        dec_str(b) + " B"@
    } else if b < 1048576 {
        dec_str(round_half_even(10 * b, 1024) / 10) + "."@ + dec_str(
            round_half_even(10 * b, 1024) % 10,
        ) + " KB"@
    } else {
        dec_str(round_half_even(10 * b, 1048576) / 10) + "."@ + dec_str(
            round_half_even(10 * b, 1048576) % 10,
        ) + " MB"@
    }
}

/// The quotient `num / den` rounded to nearest, halves to even, in machine
/// arithmetic.
fn div_round_half_even(num: u128, den: u128) -> (r: u128)
    requires
        0 < den <= 0xffffffff,
        num / (den as u128) < u128::MAX,
    ensures
        r as int == round_half_even(num as int, den as int),
{
    let q = num / den;
    let rem = num % den;
    if 2 * rem > den {
        q + 1
    } else if 2 * rem < den {
        q
    } else if q % 2 == 0 {
        q
    } else {
        q + 1
    }
}

/// Render a byte count as `B`, `KB` or `MB` text.
fn format_size(size_bytes: u64) -> (r: String)
    ensures
        r@ == size_text(size_bytes as int),
{
    if size_bytes < 1024 {
        concat_strs(u64_to_string(size_bytes).as_str(), " B")
    } else if size_bytes < 1048576 {
        let tenths_wide = div_round_half_even(10 * (size_bytes as u128), 1024);
        let tenths = tenths_wide as u64;
        concat3(
            u64_to_string(tenths / 10).as_str(),
            ".",
            concat_strs(u64_to_string(tenths % 10).as_str(), " KB").as_str(),
        )
    } else {
        let tenths_wide = div_round_half_even(10 * (size_bytes as u128), 1048576);
        assert(tenths_wide <= u64::MAX as u128);
        let tenths = tenths_wide as u64;
        concat3(
            u64_to_string(tenths / 10).as_str(),
            ".",
            concat_strs(u64_to_string(tenths % 10).as_str(), " MB").as_str(),
        )
    }
}

/// The seconds elapsed from `t` to `now`, never negative.
pub open spec fn age_secs(t: int, now: int) -> int {
    if now >= t {
        now - t
    } else {
        0
    }
}

/// The coarse relative-age bucket: minutes below an hour, hours below a
/// day, days beyond.
pub open spec fn age_text(diff: int) -> Seq<char> {
    if diff < 3600 {
        dec_str(diff / 60) + "分前"@
    } else if diff < 86400 {
        dec_str(diff / 3600) + "時間前"@
    } else {
        dec_str(diff / 86400) + "日前"@
    }
}

/// Render the age of a moment `t` seen from `now` as a coarse bucket.
fn format_age(t: i64, now: i64) -> (r: String)
    ensures
        r@ == age_text(age_secs(t as int, now as int)),
{
    let diff: u64 = if now >= t {
        ((now as i128) - (t as i128)) as u64
    } else {
        0
    };
    if diff < 3600 {
        concat_strs(u64_to_string(diff / 60).as_str(), "分前")
    } else if diff < 86400 {
        concat_strs(u64_to_string(diff / 3600).as_str(), "時間前")
    } else {
        concat_strs(u64_to_string(diff / 86400).as_str(), "日前")
    }
}

/// A commit message cut to at most 50 characters: longer ones keep their
/// first 47 characters and get an ellipsis.
pub open spec fn truncated_message(m: Seq<char>) -> Seq<char> {
    if m.len() > 50 {
        m.subrange(0, 47) + "..."@
    } else {
        m
    }
}

/// Cut a commit message to at most 50 characters.
fn truncate_message(msg: &str) -> (r: String)
    ensures
        r@ == truncated_message(msg@),
{
    let n = msg.unicode_len();
    if n > 50 {
        let head = msg.substring_char(0, 47);
        concat_strs(head, "...")
    } else {
        msg.to_owned()
    }
}

/// One rendered commit summary: the trimmed, truncated message and its
/// relative age.
pub open spec fn commit_line_text(message: Seq<char>, t: int, now: int) -> Seq<char> {
    "- "@ + truncated_message(trimmed(message)) + " ("@ + age_text(age_secs(t, now)) + ")"@
}

/// Render one commit summary line.
fn commit_line(message: &str, t: i64, now: i64) -> (r: String)
    ensures
        r@ == commit_line_text(message@, t as int, now as int),
{
    let cleaned = trim_text(message);
    let short = truncate_message(cleaned.as_str());
    let age = format_age(t, now);
    let r = concat3(
        "- ",
        short.as_str(),
        concat3(" (", age.as_str(), ")").as_str(),
    );
    proof {
        assert(r@ =~= commit_line_text(message@, t as int, now as int));
    }
    r
}

/// Assemble one enumerated workspace from the backend's answers: the
/// registered name and path, and the head shorthand when it could be read,
/// else the synthesized `work/<name>` fallback branch.
pub fn workspace_entry(name: &str, path: String, head: Option<String>) -> (w: WorkspaceInfo)
    ensures
        w.name@ == name@,
        w.path@ == path@,
        head matches Some(h) ==> w.branch@ == h@,
        head is None ==> w.branch@ == "work/"@ + name@,
{
    let branch = match head {
        Some(short) => short,
        None => concat_strs("work/", name),
    };
    WorkspaceInfo { name: name.to_owned(), path, branch }
}

/// The branch recorded for the first workspace of the given name, if any.
pub fn find_branch(workspaces: &Vec<WorkspaceInfo>, name: &str) -> (r: Option<String>)
    ensures
        r matches Some(b) ==> (exists|k: int|
            {
                &&& 0 <= k < workspaces@.len()
                &&& workspaces@[k].name@ == name@
                &&& (forall|j: int| 0 <= j < k ==> workspaces@[j].name@ != name@)
                &&& b@ == workspaces@[k].branch@
            }),
        r is None ==> (forall|j: int| 0 <= j < workspaces@.len() ==> workspaces@[j].name@ != name@),
{
    let mut i: usize = 0;
    while i < workspaces.len()
        invariant
            0 <= i <= workspaces@.len(),
            forall|j: int| 0 <= j < i ==> workspaces@[j].name@ != name@,
        decreases workspaces@.len() - i,
    {
        if str_eq(workspaces[i].name.as_str(), name) {
            return Some(workspaces[i].branch.clone());
        }
        i += 1;
    }
    None
}

/// A workspace the enumeration must never surface: the main checkout or an
/// entry whose path ends in the repository's metadata directory.
pub open spec fn excluded_from_listing(w: WorkspaceInfo) -> bool {
    w.name@ == "main"@ || (w.path@.len() >= "/.git"@.len() && w.path@.subrange(
        w.path@.len() - "/.git"@.len(),
        w.path@.len() as int,
    ) == "/.git"@)
}

/// One form an error message of `create_workspace_with_config` can take,
/// each tied to the backend step that failed.
pub open spec fn create_error_message(m: Seq<char>) -> bool {
    ||| (exists|d: Seq<char>| m == "Worktree creation error: "@ + d)
    ||| (exists|d: Seq<char>| m == "Created workspace open error: "@ + d)
    ||| (exists|d: Seq<char>| m == "HEAD retrieval error: "@ + d)
    ||| m == "Cannot get HEAD commit ID"@
    ||| (exists|d: Seq<char>| m == "Commit retrieval error: "@ + d)
    ||| (exists|d: Seq<char>| m == "Branch creation error: "@ + d)
    ||| (exists|d: Seq<char>| m == "Branch switching error: "@ + d)
}

/// Owner of the repository handle; creates, lists, inspects and removes
/// workspaces through the version-control backend.
pub struct WorkspaceManager {
    repo: git2::Repository,
}

impl WorkspaceManager {
    /// Open the repository containing the current directory.
    pub fn new() -> (r: GitwsResult<WorkspaceManager>)
        ensures
            r matches Err(e) ==> (e matches GitwsError::Git { message } && (exists|d: Seq<char>|
                message@ == "Git repository not found: "@ + d)),
    {
        Self::open_at(".")
    }

    /// Open the repository containing the given directory.
    pub fn open_at(path: &str) -> (r: GitwsResult<WorkspaceManager>)
        ensures
            r matches Err(e) ==> (e matches GitwsError::Git { message } && (exists|d: Seq<char>|
                message@ == "Git repository not found: "@ + d)),
    {
        match open_repository(path) {
            Ok(repo) => Ok(WorkspaceManager { repo }),
            Err(detail) => {
                let msg = concat_strs("Git repository not found: ", detail.as_str());
                proof {
                    let d = detail@;
                    assert(msg@ == "Git repository not found: "@ + d);
                }
                Err(GitwsError::git(msg.as_str()))
            },
        }
    }

    /// Materialize the planned workspace: add the worktree, create the
    /// planned branch at its head and switch to it, and lay out the
    /// side-effect steps (file copies and setup commands) for the caller to
    /// run.  The parent directory of the planned path must already exist.
    pub fn create_workspace_with_config(
        &self,
        plan: &CreatePlan,
        copy_files: &[String],
        pre_commands: &[String],
    ) -> (r: GitwsResult<(WorkspaceInfo, SetupPlan)>)
        ensures
            r matches Ok((info, setup)) ==> {
                &&& info.name@ == plan.name@
                &&& info.path@ == plan.path@
                &&& info.branch@ == plan.branch@
                &&& setup.copies@.len() == copy_files@.len()
                &&& (forall|k: int|
                    0 <= k < setup.copies@.len() ==> setup.copies@[k].source@ == copy_files@[k]@
                        && setup.copies@[k].dest@ == plan.path@ + "/"@ + copy_files@[k]@)
                &&& setup.commands@.len() == pre_commands@.len()
                &&& (forall|k: int|
                    0 <= k < setup.commands@.len() ==> setup.commands@[k].command@
                        == pre_commands@[k]@ && setup.commands@[k].dir@ == plan.path@)
            },
            r matches Err(e) ==> (e matches GitwsError::Git { message } && create_error_message(
                message@,
            )),
    {
        match add_worktree(&self.repo, plan.name.as_str(), plan.path.as_str()) {
            Ok(()) => {},
            Err(detail) => {
                return Err(
                    GitwsError::git(
                        concat_strs("Worktree creation error: ", detail.as_str()).as_str(),
                    ),
                );
            },
        }
        let worktree_repo = match open_repository(plan.path.as_str()) {
            Ok(r) => r,
            Err(detail) => {
                return Err(
                    GitwsError::git(
                        concat_strs("Created workspace open error: ", detail.as_str()).as_str(),
                    ),
                );
            },
        };
        match branch_from_head(&worktree_repo, plan.branch.as_str()) {
            Ok(()) => {},
            Err(BranchFault::Head { detail }) => {
                return Err(
                    GitwsError::git(
                        concat_strs("HEAD retrieval error: ", detail.as_str()).as_str(),
                    ),
                );
            },
            Err(BranchFault::NoTarget) => {
                return Err(GitwsError::git("Cannot get HEAD commit ID"));
            },
            Err(BranchFault::Commit { detail }) => {
                return Err(
                    GitwsError::git(
                        concat_strs("Commit retrieval error: ", detail.as_str()).as_str(),
                    ),
                );
            },
            Err(BranchFault::Create { detail }) => {
                return Err(
                    GitwsError::git(
                        concat_strs("Branch creation error: ", detail.as_str()).as_str(),
                    ),
                );
            },
        }
        let refname = concat_strs("refs/heads/", plan.branch.as_str());
        match set_head_ref(&worktree_repo, refname.as_str()) {
            Ok(()) => {},
            Err(detail) => {
                return Err(
                    GitwsError::git(
                        concat_strs("Branch switching error: ", detail.as_str()).as_str(),
                    ),
                );
            },
        }
        let mut copies: Vec<CopyStep> = Vec::new();
        let mut i: usize = 0;
        while i < copy_files.len()
            invariant
                0 <= i <= copy_files@.len(),
                copies@.len() == i,
                forall|k: int|
                    0 <= k < i ==> copies@[k].source@ == copy_files@[k]@ && copies@[k].dest@
                        == plan.path@ + "/"@ + copy_files@[k]@,
            decreases copy_files@.len() - i,
        {
            let file = &copy_files[i];
            copies.push(
                CopyStep {
                    source: file.clone(),
                    dest: concat3(plan.path.as_str(), "/", file.as_str()),
                },
            );
            i += 1;
        }
        let mut commands: Vec<CommandStep> = Vec::new();
        let mut j: usize = 0;
        while j < pre_commands.len()
            invariant
                0 <= j <= pre_commands@.len(),
                commands@.len() == j,
                forall|k: int|
                    0 <= k < j ==> commands@[k].command@ == pre_commands@[k]@ && commands@[k].dir@
                        == plan.path@,
            decreases pre_commands@.len() - j,
        {
            commands.push(CommandStep { dir: plan.path.clone(), command: pre_commands[j].clone() });
            j += 1;
        }
        Ok(
            (
                WorkspaceInfo {
                    name: plan.name.clone(),
                    path: plan.path.clone(),
                    branch: plan.branch.clone(),
                },
                SetupPlan { copies, commands },
            ),
        )
    }

    /// Enumerate the registered worktrees as workspaces: entries whose
    /// directory vanished are skipped, an unreadable head falls back to a
    /// synthesized `work/<name>` branch, and the main checkout and metadata
    /// entries are excluded.
    pub fn list_workspaces(&self) -> (r: GitwsResult<Vec<WorkspaceInfo>>)
        ensures
            r matches Ok(v) ==> (forall|i: int|
                0 <= i < v@.len() ==> !excluded_from_listing(#[trigger] v@[i])),
            r matches Err(e) ==> (e matches GitwsError::Git { message } && (exists|d: Seq<char>|
                message@ == "Worktree list retrieval error: "@ + d)),
    {
        let names = match list_worktree_names(&self.repo) {
            Ok(names) => names,
            Err(detail) => {
                return Err(
                    GitwsError::git(
                        concat_strs("Worktree list retrieval error: ", detail.as_str()).as_str(),
                    ),
                );
            },
        };
        let mut out: Vec<WorkspaceInfo> = Vec::new();
        let mut i: usize = 0;
        while i < names.len()
            invariant
                0 <= i <= names@.len(),
                forall|k: int| 0 <= k < out@.len() ==> !excluded_from_listing(#[trigger] out@[k]),
            decreases names@.len() - i,
        {
            let name = &names[i];
            if let Some(path) = worktree_path(&self.repo, name.as_str()) {
                if path_exists(path.as_str()) {
                    let head: Option<String> = match open_repository(path.as_str()) {
                        Ok(workspace_repo) => head_shorthand(&workspace_repo),
                        Err(_) => None,
                    };
                    let entry = workspace_entry(name.as_str(), path, head);
                    let not_main = !str_eq(entry.name.as_str(), "main");
                    let not_meta = !str_ends_with(entry.path.as_str(), "/.git");
                    if not_main && not_meta {
                        out.push(entry);
                    }
                }
            }
            i += 1;
        }
        Ok(out)
    }

    /// Gather the point-in-time snapshot of one workspace.  Never fails:
    /// every fault while gathering degrades to sentinel text.  In
    /// particular, when the directory does not exist every field is a
    /// sentinel.
    pub fn get_workspace_details(&self, workspace_info: &WorkspaceInfo, probe: &DirProbe) -> (r:
        GitwsResult<WorkspaceDetails>)
        ensures
            r is Ok,
            r matches Ok(d) ==> {
                &&& (!probe.exists ==> {
                    &&& d.created@ == "ワークスペースが存在しません"@
                    &&& d.last_modified@ == "ワークスペースが存在しません"@
                    &&& d.status@ == "ワークスペースが存在しません"@
                    &&& d.files_info@ == "不明"@
                    &&& d.size@ == "不明"@
                    &&& d.recent_commits@.len() == 1 && d.recent_commits@[0]@
                        == "ワークスペースが存在しません"@
                })
                &&& (probe.exists && probe.created_secs is None ==> d.created@ == "不明"@)
                &&& (probe.exists && probe.modified_secs is None ==> d.last_modified@ == "不明"@)
                &&& (probe.exists ==> (probe.size_bytes matches Some(b) ==> d.size@ == size_text(
                    b as int,
                )))
                &&& (probe.exists && probe.size_bytes is None ==> d.size@ == "不明"@)
                &&& d.recent_commits@.len() <= 3
            },
    {
        let created: String = if probe.exists {
            match probe.created_secs {
                Some(secs) => match format_unix_time(secs) {
                    Some(text) => text,
                    None => now_datetime_text(),
                },
                None => "不明".to_owned(),
            }
        } else {
            "ワークスペースが存在しません".to_owned()
        };
        let last_modified: String = if probe.exists {
            match probe.modified_secs {
                Some(secs) => match format_unix_time(secs) {
                    Some(text) => text,
                    None => now_datetime_text(),
                },
                None => "不明".to_owned(),
            }
        } else {
            "ワークスペースが存在しません".to_owned()
        };
        let (status, files_info): (String, String) = if probe.exists {
            match open_repository(workspace_info.path.as_str()) {
                Ok(repo) => match status_bits(&repo) {
                    Some(bits) => classify_status(&bits),
                    None => ("不明".to_owned(), "不明".to_owned()),
                },
                Err(_) => ("Gitリポジトリではありません".to_owned(), "不明".to_owned()),
            }
        } else {
            ("ワークスペースが存在しません".to_owned(), "不明".to_owned())
        };
        let size: String = if probe.exists {
            match probe.size_bytes {
                Some(bytes) => format_size(bytes),
                None => "不明".to_owned(),
            }
        } else {
            "不明".to_owned()
        };
        let recent_commits: Vec<String> = if probe.exists {
            match open_repository(workspace_info.path.as_str()) {
                Ok(repo) => match commit_log(&repo, 3) {
                    Ok(entries) => {
                        let now = now_unix_secs();
                        let mut lines: Vec<String> = Vec::new();
                        let mut i: usize = 0;
                        while i < entries.len()
                            invariant
                                0 <= i <= entries@.len(),
                                lines@.len() == i,
                            decreases entries@.len() - i,
                        {
                            let line = commit_line(entries[i].0.as_str(), entries[i].1, now);
                            lines.push(line);
                            i += 1;
                        }
                        lines
                    },
                    Err(LogFault::NoHead) => {
                        let mut v: Vec<String> = Vec::new();
                        v.push("HEADが見つかりません".to_owned());
                        v
                    },
                    Err(LogFault::NoCommit) => {
                        let mut v: Vec<String> = Vec::new();
                        v.push("コミット履歴なし".to_owned());
                        v
                    },
                },
                Err(_) => {
                    let mut v: Vec<String> = Vec::new();
                    v.push("Gitリポジトリではありません".to_owned());
                    v
                },
            }
        } else {
            let mut v: Vec<String> = Vec::new();
            v.push("ワークスペースが存在しません".to_owned());
            v
        };
        Ok(WorkspaceDetails { created, last_modified, status, files_info, size, recent_commits })
    }
}

} // verus!
