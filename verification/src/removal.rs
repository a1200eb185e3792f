use vstd::prelude::*;
use crate::error::{GitwsError, GitwsResult, display_of};
use crate::text::{concat_strs, join_seq, join_strings, u64_to_string, usize_to_string, dec_str};
use crate::workspace::WorkspaceManager;

verus! {

/// How one forced-removal command of the backend ended: it ran and reported
/// success, it ran and reported failure, or it could not be started at all.
#[derive(Debug)]
pub enum CmdOutcome {
    Success,
    Failed,
    SpawnError { detail: String },
}

/// What the driver reports back after carrying out one directive.
#[derive(Debug)]
pub enum RemovalEvent {
    CommandDone { outcome: CmdOutcome },
    PathChecked { exists: bool },
    DirRemoved { ok: bool },
}

/// What the driver must do next: run the backend's forced worktree removal
/// on a name or path, test a path for existence, delete a directory tree,
/// or stop with the final verdict and the branches to clean up best-effort.
#[derive(Debug)]
pub enum RemovalDirective {
    RunCommand { target: String },
    CheckPath { path: String },
    RemoveDirectory { path: String },
    Finish { result: GitwsResult<()>, branches_to_delete: Vec<String> },
}

/// Where the tiered removal stands: the by-name tier, the by-candidate-path
/// tier, the filesystem fallback (checking, running, deleting), or done.
#[derive(Debug, Clone, Copy)]
pub enum RemovalPhase {
    ByName,
    ByPath { idx: usize },
    FallbackCheck { idx: usize, removed_any: bool },
    FallbackRun { idx: usize, removed_any: bool },
    FallbackRemove { idx: usize, removed_any: bool },
    Done,
}

/// The three-tier removal of one workspace as an explicit state machine:
/// first forced removal by name, then by each conventional candidate path,
/// then direct directory deletion where the backend command cannot even
/// run.  The driver performs each directive and feeds the outcome back.
#[derive(Debug)]
pub struct RemovalProcedure {
    pub workspace_name: String,
    pub branch: Option<String>,
    pub phase: RemovalPhase,
}

/// How many conventional base-directory candidates the fallback tiers try.
pub const CANDIDATE_COUNT: usize = 3;

/// The conventional locations a workspace of this name may live at.
pub open spec fn candidate_path(name: Seq<char>, i: int) -> Seq<char> {
    if i == 0 {
        "../test-workspaces/"@ + name
    } else if i == 1 {
        "../workspaces/"@ + name
    } else {
        "../test/"@ + name
    }
}

/// One conventional candidate path for this workspace name.
pub fn candidate(name: &str, i: usize) -> (r: String)
    requires
        i < CANDIDATE_COUNT,
    ensures
        r@ == candidate_path(name@, i as int),
{
    if i == 0 {
        concat_strs("../test-workspaces/", name)
    } else if i == 1 {
        concat_strs("../workspaces/", name)
    } else {
        concat_strs("../test/", name)
    }
}

/// The message reported when the backend command cannot be started.
pub open spec fn spawn_error_message(detail: Seq<char>) -> Seq<char> {
    "git worktree removeコマンド実行エラー: "@ + detail
}

/// The message reported when every tier was exhausted without removing
/// anything.
pub open spec fn not_found_message(name: Seq<char>) -> Seq<char> {
    "ワークスペースが見つかりません: "@ + name
}

/// Branches cleaned up after a successful removal by name or by path: the
/// explicitly created branch if known, and the implicit branch sharing the
/// workspace name.
pub open spec fn cleanup_branches(p: RemovalProcedure) -> Seq<Seq<char>> {
    match p.branch {
        Some(b) => seq![b@, p.workspace_name@],
        None => seq![p.workspace_name@],
    }
}

pub open spec fn is_run(d: RemovalDirective, target: Seq<char>) -> bool {
    d matches RemovalDirective::RunCommand { target: t } && t@ == target
}

pub open spec fn is_check(d: RemovalDirective, path: Seq<char>) -> bool {
    d matches RemovalDirective::CheckPath { path: p } && p@ == path
}

pub open spec fn is_remove_dir(d: RemovalDirective, path: Seq<char>) -> bool {
    d matches RemovalDirective::RemoveDirectory { path: p } && p@ == path
}

pub open spec fn is_finish_ok(d: RemovalDirective, branches: Seq<Seq<char>>) -> bool {
    d matches RemovalDirective::Finish { result, branches_to_delete } && result is Ok
        && branches_to_delete@.map_values(|s: String| s@) == branches
}

pub open spec fn is_finish_err_git(d: RemovalDirective, msg: Seq<char>) -> bool {
    d matches RemovalDirective::Finish { result, branches_to_delete } && (result matches Err(e)
        && e matches GitwsError::Git { message } && message@ == msg) && branches_to_delete@.len()
        == 0
}

pub open spec fn is_finish_err_not_found(d: RemovalDirective, name: Seq<char>) -> bool {
    d matches RemovalDirective::Finish { result, branches_to_delete } && (result matches Err(e)
        && e matches GitwsError::Workspace { message } && message@ == not_found_message(name))
        && branches_to_delete@.len() == 0
}

/// Moving past fallback candidate `i`: on to the next candidate, or to the
/// final verdict when all three were tried.
pub open spec fn advance_rel(
    pre: RemovalProcedure,
    any: bool,
    i: int,
    post: RemovalProcedure,
    d: RemovalDirective,
) -> bool {
    if i + 1 < CANDIDATE_COUNT {
        (post.phase matches RemovalPhase::FallbackCheck { idx, removed_any } && idx as int == i + 1
            && removed_any == any) && is_check(d, candidate_path(pre.workspace_name@, i + 1))
    } else if any {
        post.phase is Done && is_finish_ok(d, Seq::empty())
    } else {
        post.phase is Done && is_finish_err_not_found(d, pre.workspace_name@)
    }
}

/// The complete step relation of the removal machine: given the phase and
/// the event fed back, the next phase and the directive handed out.
pub open spec fn step_rel(
    pre: RemovalProcedure,
    event: RemovalEvent,
    post: RemovalProcedure,
    d: RemovalDirective,
) -> bool {
    &&& post.workspace_name == pre.workspace_name
    &&& post.branch == pre.branch
    &&& match pre.phase {
        RemovalPhase::ByName => match event {
            RemovalEvent::CommandDone { outcome } => match outcome {
                CmdOutcome::Success => post.phase is Done && is_finish_ok(d, cleanup_branches(pre)),
                CmdOutcome::Failed => (post.phase matches RemovalPhase::ByPath { idx } && idx == 0)
                    && is_run(d, candidate_path(pre.workspace_name@, 0)),
                CmdOutcome::SpawnError { detail } => post.phase is Done && is_finish_err_git(
                    d,
                    spawn_error_message(detail@),
                ),
            },
            _ => false,
        },
        RemovalPhase::ByPath { idx } => match event {
            RemovalEvent::CommandDone { outcome } => match outcome {
                CmdOutcome::Success => post.phase is Done && is_finish_ok(d, cleanup_branches(pre)),
                CmdOutcome::Failed => if idx as int + 1 < CANDIDATE_COUNT {
                    (post.phase matches RemovalPhase::ByPath { idx: j } && j as int == idx as int
                        + 1) && is_run(d, candidate_path(pre.workspace_name@, idx as int + 1))
                } else {
                    (post.phase matches RemovalPhase::FallbackCheck { idx: j, removed_any } && j
                        == 0 && !removed_any) && is_check(
                        d,
                        candidate_path(pre.workspace_name@, 0),
                    )
                },
                CmdOutcome::SpawnError { detail } => post.phase is Done && is_finish_err_git(
                    d,
                    spawn_error_message(detail@),
                ),
            },
            _ => false,
        },
        RemovalPhase::FallbackCheck { idx, removed_any } => match event {
            RemovalEvent::PathChecked { exists } => if exists {
                (post.phase matches RemovalPhase::FallbackRun { idx: j, removed_any: a } && j == idx
                    && a == removed_any) && is_run(d, candidate_path(pre.workspace_name@, idx as int))
            } else {
                advance_rel(pre, removed_any, idx as int, post, d)
            },
            _ => false,
        },
        RemovalPhase::FallbackRun { idx, removed_any } => match event {
            RemovalEvent::CommandDone { outcome } => match outcome {
                CmdOutcome::SpawnError { detail } => (post.phase
                    matches RemovalPhase::FallbackRemove { idx: j, removed_any: a } && j == idx && a
                    == removed_any) && is_remove_dir(d, candidate_path(pre.workspace_name@, idx as int)),
                _ => advance_rel(pre, removed_any, idx as int, post, d),
            },
            _ => false,
        },
        RemovalPhase::FallbackRemove { idx, removed_any } => match event {
            RemovalEvent::DirRemoved { ok } => advance_rel(
                pre,
                removed_any || ok,
                idx as int,
                post,
                d,
            ),
            _ => false,
        },
        RemovalPhase::Done => false,
    }
}

impl RemovalProcedure {
    /// Candidate indices stay within the fixed candidate list.
    pub open spec fn wf(self) -> bool {
        match self.phase {
            RemovalPhase::ByName => true,
            RemovalPhase::ByPath { idx } => idx < CANDIDATE_COUNT,
            RemovalPhase::FallbackCheck { idx, removed_any } => idx < CANDIDATE_COUNT,
            RemovalPhase::FallbackRun { idx, removed_any } => idx < CANDIDATE_COUNT,
            RemovalPhase::FallbackRemove { idx, removed_any } => idx < CANDIDATE_COUNT,
            RemovalPhase::Done => true,
        }
    }

    /// Which event kind the current phase waits for.
    pub open spec fn expects(self, event: RemovalEvent) -> bool {
        match self.phase {
            RemovalPhase::ByName => event is CommandDone,
            RemovalPhase::ByPath { idx } => event is CommandDone,
            RemovalPhase::FallbackCheck { idx, removed_any } => event is PathChecked,
            RemovalPhase::FallbackRun { idx, removed_any } => event is CommandDone,
            RemovalPhase::FallbackRemove { idx, removed_any } => event is DirRemoved,
            RemovalPhase::Done => false,
        }
    }

    /// Whether any fallback deletion has succeeded so far.
    pub open spec fn removed_so_far(self) -> bool {
        match self.phase {
            RemovalPhase::FallbackCheck { idx, removed_any } => removed_any,
            RemovalPhase::FallbackRun { idx, removed_any } => removed_any,
            RemovalPhase::FallbackRemove { idx, removed_any } => removed_any,
            _ => false,
        }
    }

    /// Start a removal of the named workspace, with the branch to clean up
    /// if it is known.
    pub fn begin(workspace_name: String, branch: Option<String>) -> (p: Self)
        ensures
            p.workspace_name == workspace_name,
            p.branch == branch,
            p.phase is ByName,
            p.wf(),
    {
        RemovalProcedure { workspace_name, branch, phase: RemovalPhase::ByName }
    }

    /// The first directive: forced removal by workspace name.
    pub fn start_directive(&self) -> (d: RemovalDirective)
        requires
            self.phase is ByName,
        ensures
            is_run(d, self.workspace_name@),
    {
        RemovalDirective::RunCommand { target: self.workspace_name.clone() }
    }

    /// Feed back the outcome of the last directive and receive the next one.
    pub fn step(&mut self, event: RemovalEvent) -> (d: RemovalDirective)
        requires
            old(self).wf(),
            old(self).expects(event),
        ensures
            final(self).wf(),
            step_rel(*old(self), event, *final(self), d),
    {
        match &self.phase {
            RemovalPhase::ByName => {
                match event {
                    RemovalEvent::CommandDone { outcome } => match outcome {
                        CmdOutcome::Success => {
                            let branches: Vec<String> = match &self.branch {
                                Some(b) => {
                                    let mut v: Vec<String> = Vec::new();
                                    v.push(b.clone());
                                    v.push(self.workspace_name.clone());
                                    v
                                },
                                None => {
                                    let mut v: Vec<String> = Vec::new();
                                    v.push(self.workspace_name.clone());
                                    v
                                },
                            };
                            self.phase = RemovalPhase::Done;
                            proof {
                                assert(branches@.map_values(|s: String| s@) =~= cleanup_branches(
                                    *old(self),
                                ));
                            }
                            RemovalDirective::Finish {
                                result: Ok(()),
                                branches_to_delete: branches,
                            }
                        },
                        CmdOutcome::Failed => {
                            self.phase = RemovalPhase::ByPath { idx: 0 };
                            RemovalDirective::RunCommand {
                                target: candidate(self.workspace_name.as_str(), 0),
                            }
                        },
                        CmdOutcome::SpawnError { detail } => {
                            self.phase = RemovalPhase::Done;
                            let msg = concat_strs(
                                "git worktree removeコマンド実行エラー: ",
                                detail.as_str(),
                            );
                            RemovalDirective::Finish {
                                result: Err(GitwsError::git(msg.as_str())),
                                branches_to_delete: Vec::new(),
                            }
                        },
                    },
                    _ => vstd::pervasive::unreached(),
                }
            },
            RemovalPhase::ByPath { idx } => {
                let i = *idx;
                match event {
                    RemovalEvent::CommandDone { outcome } => match outcome {
                        CmdOutcome::Success => {
                            let branches: Vec<String> = match &self.branch {
                                Some(b) => {
                                    let mut v: Vec<String> = Vec::new();
                                    v.push(b.clone());
                                    v.push(self.workspace_name.clone());
                                    v
                                },
                                None => {
                                    let mut v: Vec<String> = Vec::new();
                                    v.push(self.workspace_name.clone());
                                    v
                                },
                            };
                            self.phase = RemovalPhase::Done;
                            proof {
                                assert(branches@.map_values(|s: String| s@) =~= cleanup_branches(
                                    *old(self),
                                ));
                            }
                            RemovalDirective::Finish {
                                result: Ok(()),
                                branches_to_delete: branches,
                            }
                        },
                        CmdOutcome::Failed => {
                            if i + 1 < CANDIDATE_COUNT {
                                self.phase = RemovalPhase::ByPath { idx: i + 1 };
                                RemovalDirective::RunCommand {
                                    target: candidate(self.workspace_name.as_str(), i + 1),
                                }
                            } else {
                                self.phase = RemovalPhase::FallbackCheck {
                                    idx: 0,
                                    removed_any: false,
                                };
                                RemovalDirective::CheckPath {
                                    path: candidate(self.workspace_name.as_str(), 0),
                                }
                            }
                        },
                        CmdOutcome::SpawnError { detail } => {
                            self.phase = RemovalPhase::Done;
                            let msg = concat_strs(
                                "git worktree removeコマンド実行エラー: ",
                                detail.as_str(),
                            );
                            RemovalDirective::Finish {
                                result: Err(GitwsError::git(msg.as_str())),
                                branches_to_delete: Vec::new(),
                            }
                        },
                    },
                    _ => vstd::pervasive::unreached(),
                }
            },
            RemovalPhase::FallbackCheck { idx, removed_any } => {
                let i = *idx;
                let any = *removed_any;
                match event {
                    RemovalEvent::PathChecked { exists } => {
                        if exists {
                            self.phase = RemovalPhase::FallbackRun { idx: i, removed_any: any };
                            RemovalDirective::RunCommand {
                                target: candidate(self.workspace_name.as_str(), i),
                            }
                        } else {
                            self.advance(i, any)
                        }
                    },
                    _ => vstd::pervasive::unreached(),
                }
            },
            RemovalPhase::FallbackRun { idx, removed_any } => {
                let i = *idx;
                let any = *removed_any;
                match event {
                    RemovalEvent::CommandDone { outcome } => match outcome {
                        CmdOutcome::SpawnError { detail } => {
                            self.phase = RemovalPhase::FallbackRemove { idx: i, removed_any: any };
                            RemovalDirective::RemoveDirectory {
                                path: candidate(self.workspace_name.as_str(), i),
                            }
                        },
                        _ => self.advance(i, any),
                    },
                    _ => vstd::pervasive::unreached(),
                }
            },
            RemovalPhase::FallbackRemove { idx, removed_any } => {
                let i = *idx;
                let any = *removed_any;
                match event {
                    RemovalEvent::DirRemoved { ok } => self.advance(i, any || ok),
                    _ => vstd::pervasive::unreached(),
                }
            },
            RemovalPhase::Done => vstd::pervasive::unreached(),
        }
    }

    /// Move past fallback candidate `i`: on to the next candidate, or to
    /// the final verdict.
    fn advance(&mut self, i: usize, any: bool) -> (d: RemovalDirective)
        requires
            i < CANDIDATE_COUNT,
        ensures
            final(self).workspace_name == old(self).workspace_name,
            final(self).branch == old(self).branch,
            final(self).wf(),
            advance_rel(*old(self), any, i as int, *final(self), d),
    {
        if i + 1 < CANDIDATE_COUNT {
            self.phase = RemovalPhase::FallbackCheck { idx: i + 1, removed_any: any };
            RemovalDirective::CheckPath { path: candidate(self.workspace_name.as_str(), i + 1) }
        } else if any {
            self.phase = RemovalPhase::Done;
            let empty: Vec<String> = Vec::new();
            proof {
                assert(empty@.map_values(|s: String| s@) =~= Seq::<Seq<char>>::empty());
            }
            RemovalDirective::Finish { result: Ok(()), branches_to_delete: empty }
        } else {
            self.phase = RemovalPhase::Done;
            let msg = concat_strs(
                "ワークスペースが見つかりません: ",
                self.workspace_name.as_str(),
            );
            RemovalDirective::Finish {
                result: Err(GitwsError::workspace(msg.as_str())),
                branches_to_delete: Vec::new(),
            }
        }
    }
}

/// An event that cannot have removed anything: the backend command failed or
/// could not run, the candidate path was absent, or the directory deletion
/// failed.
pub open spec fn fruitless_event(event: RemovalEvent) -> bool {
    match event {
        RemovalEvent::CommandDone { outcome } => !(outcome is Success),
        RemovalEvent::PathChecked { exists } => true,
        RemovalEvent::DirRemoved { ok } => !ok,
    }
}

/// An event that neither removed anything nor stopped a backend command
/// from running.
pub open spec fn clean_failure_event(event: RemovalEvent) -> bool {
    &&& fruitless_event(event)
    &&& !(event matches RemovalEvent::CommandDone { outcome: CmdOutcome::SpawnError { detail } })
}

/// A removal fed only fruitless outcomes never reports success, and when
/// every command ran (no spawn errors) its verdict, once reached, is exactly
/// the not-found error naming the requested workspace.
pub proof fn lemma_failed_removal_reports_not_found(
    pre: RemovalProcedure,
    event: RemovalEvent,
    post: RemovalProcedure,
    d: RemovalDirective,
)
    requires
        pre.wf(),
        step_rel(pre, event, post, d),
        !pre.removed_so_far(),
        fruitless_event(event),
    ensures
        !post.removed_so_far(),
        !(d matches RemovalDirective::Finish { result: Ok(r), branches_to_delete }),
        clean_failure_event(event) && (d is Finish) ==> is_finish_err_not_found(
            d,
            pre.workspace_name@,
        ),
{
}

/// The complete exhausted run, in general over the workspace name and the
/// branch: from the by-name tier, when the by-name command and every
/// by-path command run but report failure and no candidate path exists on
/// disk, the machine's verdict is exactly the not-found error naming the
/// requested workspace — never a silent success.  Removing a workspace
/// that does not exist, or removing one a second time after a successful
/// removal, takes exactly this run: the backend no longer knows the name
/// and no candidate directory remains.
pub proof fn lemma_exhausted_removal_run(
    s0: RemovalProcedure,
    s1: RemovalProcedure,
    s2: RemovalProcedure,
    s3: RemovalProcedure,
    s4: RemovalProcedure,
    s5: RemovalProcedure,
    s6: RemovalProcedure,
    s7: RemovalProcedure,
    d1: RemovalDirective,
    d2: RemovalDirective,
    d3: RemovalDirective,
    d4: RemovalDirective,
    d5: RemovalDirective,
    d6: RemovalDirective,
    d7: RemovalDirective,
)
    requires
        s0.phase is ByName,
        step_rel(s0, RemovalEvent::CommandDone { outcome: CmdOutcome::Failed }, s1, d1),
        step_rel(s1, RemovalEvent::CommandDone { outcome: CmdOutcome::Failed }, s2, d2),
        step_rel(s2, RemovalEvent::CommandDone { outcome: CmdOutcome::Failed }, s3, d3),
        step_rel(s3, RemovalEvent::CommandDone { outcome: CmdOutcome::Failed }, s4, d4),
        step_rel(s4, RemovalEvent::PathChecked { exists: false }, s5, d5),
        step_rel(s5, RemovalEvent::PathChecked { exists: false }, s6, d6),
        step_rel(s6, RemovalEvent::PathChecked { exists: false }, s7, d7),
    ensures
        s7.phase is Done,
        is_finish_err_not_found(d7, s0.workspace_name@),
{
    assert(s1.phase matches RemovalPhase::ByPath { idx } && idx == 0);
    assert(s2.phase matches RemovalPhase::ByPath { idx } && idx == 1);
    assert(s3.phase matches RemovalPhase::ByPath { idx } && idx == 2);
    assert(s4.phase matches RemovalPhase::FallbackCheck { idx, removed_any } && idx == 0
        && !removed_any);
    assert(s5.phase matches RemovalPhase::FallbackCheck { idx, removed_any } && idx == 1
        && !removed_any);
    assert(s6.phase matches RemovalPhase::FallbackCheck { idx, removed_any } && idx == 2
        && !removed_any);
}

impl WorkspaceManager {
    /// Prepare the tiered removal of the named workspace: look up its branch
    /// from the current enumeration (best effort; absence is tolerated) and
    /// start the machine at the by-name tier.
    pub fn plan_removal(&self, workspace_name: &str) -> (p: RemovalProcedure)
        ensures
            p.workspace_name@ == workspace_name@,
            p.phase is ByName,
            p.wf(),
    {
        let branch: Option<String> = match self.list_workspaces() {
            Ok(workspaces) => crate::workspace::find_branch(&workspaces, workspace_name),
            Err(_) => None,
        };
        RemovalProcedure::begin(workspace_name.to_owned(), branch)
    }
}

/// The verdict of removing one workspace: its name and the error, if it
/// failed.
#[derive(Debug)]
pub struct RemovalRecord {
    pub name: String,
    pub error: Option<GitwsError>,
}

/// The rendered failure entries, in order: `<name>: <error text>` for each
/// failed record.
pub open spec fn failure_items(rs: Seq<RemovalRecord>) -> Seq<Seq<char>>
    decreases rs.len(),
{
    if rs.len() == 0 {
        Seq::empty()
    } else {
        failure_items(rs.drop_last()) + match rs.last().error {
            Some(e) => seq![rs.last().name@ + ": "@ + display_of(e)],
            None => Seq::empty(),
        }
    }
}

/// How many records succeeded.
pub open spec fn success_count(rs: Seq<RemovalRecord>) -> int
    decreases rs.len(),
{
    if rs.len() == 0 {
        0
    } else {
        success_count(rs.drop_last()) + if rs.last().error is None {
            1int
        } else {
            0int
        }
    }
}

/// The aggregated verdict of a bulk removal: success only if every record
/// succeeded, a partial-deletion error when some did, a full failure when
/// none did.
pub open spec fn aggregate_message(rs: Seq<RemovalRecord>) -> Seq<char> {
    if success_count(rs) > 0 {
        "Partial deletion completed. "@ + dec_str(success_count(rs)) + " out of "@ + dec_str(
            rs.len() as int,
        ) + " workspaces deleted. Errors: "@ + join_seq(failure_items(rs), ", "@)
    } else {
        "Failed to delete any workspaces: "@ + join_seq(failure_items(rs), ", "@)
    }
}

/// Fold per-workspace removal verdicts into one result: `Ok` only if all
/// succeeded, a partial-deletion error if some did, a full failure if none
/// did.  Never short-circuits; the caller already ran every removal.
pub fn aggregate_removal_results(records: Vec<RemovalRecord>) -> (r: GitwsResult<()>)
    ensures
        failure_items(records@).len() == 0 ==> r is Ok,
        failure_items(records@).len() > 0 ==> (r matches Err(e) && e
            matches GitwsError::Workspace { message } && message@ == aggregate_message(records@)),
{
    let mut errors: Vec<String> = Vec::new();
    let mut deleted: u64 = 0;
    let mut i: usize = 0;
    while i < records.len()
        invariant
            0 <= i <= records@.len(),
            errors@.map_values(|s: String| s@) == failure_items(records@.take(i as int)),
            deleted as int == success_count(records@.take(i as int)),
            deleted <= i,
        decreases records@.len() - i,
    {
        proof {
            assert(records@.take(i + 1).drop_last() =~= records@.take(i as int));
        }
        match &records[i].error {
            Some(e) => {
                let item = concat_strs(
                    concat_strs(records[i].name.as_str(), ": ").as_str(),
                    e.display_text().as_str(),
                );
                errors.push(item);
                proof {
                    assert(errors@.map_values(|s: String| s@) =~= errors@.drop_last().map_values(
                        |s: String| s@,
                    ) + seq![errors@.last()@]);
                }
            },
            None => {
                deleted += 1;
            },
        }
        i += 1;
    }
    proof {
        assert(records@.take(records@.len() as int) =~= records@);
    }
    if errors.len() == 0 {
        Ok(())
    } else if deleted > 0 {
        let joined = join_strings(&errors, ", ");
        let msg = concat_strs(
            concat_strs(
                concat_strs("Partial deletion completed. ", u64_to_string(deleted).as_str()).as_str(),
                concat_strs(" out of ", usize_to_string(records.len()).as_str()).as_str(),
            ).as_str(),
            concat_strs(" workspaces deleted. Errors: ", joined.as_str()).as_str(),
        );
        proof {
            assert(msg@ =~= aggregate_message(records@));
        }
        Err(GitwsError::workspace(msg.as_str()))
    } else {
        let joined = join_strings(&errors, ", ");
        let msg = concat_strs("Failed to delete any workspaces: ", joined.as_str());
        proof {
            assert(msg@ =~= aggregate_message(records@));
        }
        Err(GitwsError::workspace(msg.as_str()))
    }
}

} // verus!
