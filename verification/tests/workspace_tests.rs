use gitws::utils::generate_timestamp;
use gitws::workspace::{DirProbe, WorkspaceInfo, WorkspaceManager, classify_status, find_branch,
    path_exists, plan_create, workspace_entry};
use gitws::removal::{CmdOutcome, RemovalDirective, RemovalEvent};
use std::sync::atomic::{AtomicUsize, Ordering};

static TEST_COUNTER: AtomicUsize = AtomicUsize::new(0);

// A workspace name that is unlikely to collide across tests and runs.
fn fresh_task_name(prefix: &str) -> String {
    let counter = TEST_COUNTER.fetch_add(1, Ordering::SeqCst);
    format!("{prefix}-{counter}")
}

// Initialize a repository (with one commit so it has a head) at the given
// path, creating the directories as a side effect.
fn init_repo(root: &str) -> git2::Repository {
    let repo = git2::Repository::init(root).unwrap();
    if repo.head().is_err() {
        let sig = git2::Signature::now("tester", "tester@example.com").unwrap();
        let tree_id = {
            let mut index = repo.index().unwrap();
            index.write_tree().unwrap()
        };
        let tree = repo.find_tree(tree_id).unwrap();
        repo.commit(Some("HEAD"), &sig, &sig, "initial commit\n", &tree, &[])
            .unwrap();
    }
    repo
}

// Unregister a worktree and delete its working tree, as the outer removal
// driver (or an out-of-band cleanup) would.
fn prune_worktree(repo: &git2::Repository, name: &str) {
    if let Ok(wt) = repo.find_worktree(name) {
        let mut opts = git2::WorktreePruneOptions::new();
        opts.valid(true).working_tree(true);
        let _ = wt.prune(Some(&mut opts));
    }
}

// Make sure the shared parent directory for created workspaces exists:
// registering a marker repository inside it creates the directory tree.
fn ensure_base_dir() {
    let _ = git2::Repository::init("/tmp/gitws-tests/base/marker");
}

fn probe_missing() -> DirProbe {
    DirProbe {
        exists: false,
        created_secs: None,
        modified_secs: None,
        size_bytes: None,
    }
}

#[test]
fn test_workspace_info_structure() {
    let info = WorkspaceInfo {
        name: "test-workspace".to_string(),
        path: "/path/to/workspace".to_string(),
        branch: "work/test".to_string(),
    };

    assert_eq!(info.name, "test-workspace");
    assert_eq!(info.path, "/path/to/workspace");
    assert_eq!(info.branch, "work/test");
}

#[test]
fn test_workspace_info_debug_format() {
    let info = WorkspaceInfo {
        name: "test".to_string(),
        path: "/path".to_string(),
        branch: "branch".to_string(),
    };
    let debug_str = format!("{info:?}");
    assert!(debug_str.contains("WorkspaceInfo"));
    assert!(debug_str.contains("test"));
    assert!(debug_str.contains("/path"));
    assert!(debug_str.contains("branch"));
}

#[test]
fn test_generate_timestamp_format() {
    let timestamp = generate_timestamp();
    // Verify that timestamp has correct format (YYYYMMDD-HHMMSS)
    assert_eq!(timestamp.len(), 15); // YYYYMMDD-HHMMSS = 15 characters
    assert!(timestamp.contains('-'));

    let parts: Vec<&str> = timestamp.split('-').collect();
    assert_eq!(parts.len(), 2);

    // Date part (YYYYMMDD)
    assert_eq!(parts[0].len(), 8);
    assert!(parts[0].chars().all(|c| c.is_ascii_digit()));

    // Time part (HHMMSS)
    assert_eq!(parts[1].len(), 6);
    assert!(parts[1].chars().all(|c| c.is_ascii_digit()));
}

#[test]
fn test_generate_timestamp_parseable() {
    let timestamp = generate_timestamp();

    // Verify that generated timestamp is parseable
    let date_str = &timestamp[..8]; // YYYYMMDD
    let time_str = &timestamp[9..]; // HHMMSS

    let year: i32 = date_str[..4].parse().unwrap();
    let month: u32 = date_str[4..6].parse().unwrap();
    let day: u32 = date_str[6..8].parse().unwrap();

    let hour: u32 = time_str[..2].parse().unwrap();
    let minute: u32 = time_str[2..4].parse().unwrap();
    let second: u32 = time_str[4..6].parse().unwrap();

    // Verify that values are within valid ranges
    assert!((2020..=2100).contains(&year));
    assert!((1..=12).contains(&month));
    assert!((1..=31).contains(&day));
    assert!(hour <= 23);
    assert!(minute <= 59);
    assert!(second <= 59);
}

#[test]
fn test_create_workspace_parameters() {
    let timestamp = generate_timestamp();
    let task_name = "test-task";
    let base_dir = "../test-workspaces";
    let branch_prefix = "test/";

    let plan = plan_create(&timestamp, task_name, base_dir, branch_prefix);

    assert!(plan.name.contains("test-task"));
    assert!(plan.path.contains("../test-workspaces"));
    assert!(plan.branch.starts_with("test/"));
}

#[test]
fn test_create_workspace_with_various_names() {
    let test_cases = vec![
        "simple-task",
        "task_with_underscores",
        "task-with-numbers-123",
        "UPPERCASE-TASK",
        "mixed_Case-Task_123",
    ];

    for task_name in test_cases {
        let timestamp = generate_timestamp();
        let plan = plan_create(&timestamp, task_name, "../test-workspaces", "test/");

        assert!(
            plan.name.contains(task_name),
            "Failed for task name: {task_name}"
        );
        assert!(plan.branch.contains(task_name));
    }
}

#[test]
fn test_create_workspace_empty_name() {
    let timestamp = generate_timestamp();
    let task_name = "";
    let base_dir = "../test-workspaces";
    let branch_prefix = "test/";

    let plan = plan_create(&timestamp, task_name, base_dir, branch_prefix);

    // Even an empty task name yields the full structure
    assert!(plan.name.ends_with("-"));
    assert!(plan.branch.starts_with("test/"));
    assert!(plan.branch.ends_with("-"));
    assert!(plan.path.starts_with(base_dir));
}

#[test]
fn test_create_workspace_timestamp_format() {
    let timestamp = generate_timestamp();
    let task_name = "timestamp-test";
    let plan = plan_create(&timestamp, task_name, "../test-workspaces", "test/");

    // Check the name layout (YYYYMMDD-HHMMSS-task-name)
    let parts: Vec<&str> = plan.name.split('-').collect();
    assert!(parts.len() >= 3);

    // First part is the date stamp (8 digits)
    assert_eq!(parts[0].len(), 8);
    assert!(parts[0].chars().all(|c| c.is_ascii_digit()));

    // Second part is the time stamp (6 digits)
    assert_eq!(parts[1].len(), 6);
    assert!(parts[1].chars().all(|c| c.is_ascii_digit()));

    // The task name closes the workspace name
    assert!(plan.name.contains("timestamp-test"));
}

#[test]
fn test_branch_naming_with_and_without_prefix() {
    // Under the prefix "work/", a task "demo" maps to branch
    // "work/<timestamp>-demo" with name "<timestamp>-demo"; under an empty
    // prefix the branch equals the name.
    let plan = plan_create("20240102-030405", "demo", "../workspaces", "work/");
    assert_eq!(plan.name, "20240102-030405-demo");
    assert_eq!(plan.branch, "work/20240102-030405-demo");
    assert_eq!(plan.path, "../workspaces/20240102-030405-demo");

    let bare = plan_create("20240102-030405", "demo", "../workspaces", "");
    assert_eq!(bare.name, "20240102-030405-demo");
    assert_eq!(bare.branch, bare.name);
}

#[test]
fn test_workspace_manager_new_in_git_repo() {
    init_repo("/tmp/gitws-tests/ws-open-repo");
    match WorkspaceManager::open_at("/tmp/gitws-tests/ws-open-repo") {
        Ok(_manager) => {
            // Inside a repository the manager opens fine
        }
        Err(_) => {
            panic!("Should be able to create WorkspaceManager in git repo");
        }
    }
}

#[test]
fn test_workspace_manager_outside_git_repo() {
    // Opening the manager outside any repository yields the construction
    // error naming the cause.
    let result = WorkspaceManager::open_at("/");
    assert!(result.is_err());
    if let Err(e) = result {
        assert!(e.display_text().contains("Git repository not found"));
    }
}

#[test]
fn test_list_workspaces_real_data() {
    init_repo("/tmp/gitws-tests/ws-list-repo");
    let manager = WorkspaceManager::open_at("/tmp/gitws-tests/ws-list-repo").unwrap();
    let result = manager.list_workspaces();
    assert!(result.is_ok());
    let workspaces = result.unwrap();

    // Each entry carries the full identity record
    for workspace in &workspaces {
        assert!(!workspace.name.is_empty());
        assert!(!workspace.path.is_empty());
        assert!(!workspace.branch.is_empty());
    }
}

#[test]
fn test_workspace_manager_multiple_operations() {
    init_repo("/tmp/gitws-tests/ws-multi-repo");
    let manager = WorkspaceManager::open_at("/tmp/gitws-tests/ws-multi-repo").unwrap();
    assert!(manager.list_workspaces().is_ok());

    let tasks = vec!["task1", "task2", "task3"];
    for task in tasks {
        let timestamp = generate_timestamp();
        let plan = plan_create(&timestamp, task, "../test-workspaces", "test/");
        assert!(plan.name.contains(task));
    }
}

#[test]
fn test_list_workspaces_empty_result() {
    init_repo("/tmp/gitws-tests/ws-empty-repo");
    let manager = WorkspaceManager::open_at("/tmp/gitws-tests/ws-empty-repo").unwrap();
    let result = manager.list_workspaces();
    assert!(result.is_ok());

    let _workspaces = result.unwrap();
}

#[test]
fn test_workspace_manager_repository_validation() {
    init_repo("/tmp/gitws-tests/ws-valid-repo");
    let manager_result = WorkspaceManager::open_at("/tmp/gitws-tests/ws-valid-repo");
    assert!(manager_result.is_ok());

    if let Ok(manager) = manager_result {
        let list_result = manager.list_workspaces();
        assert!(list_result.is_ok());
    }
}

#[test]
fn test_create_workspace_error_handling() {
    init_repo("/tmp/gitws-tests/ws-err-repo");
    let manager = WorkspaceManager::open_at("/tmp/gitws-tests/ws-err-repo").unwrap();
    let task_name = fresh_task_name("error-handling");
    let timestamp = generate_timestamp();
    let plan = plan_create(&timestamp, &task_name, "/invalid/readonly/path", "test/");
    let result = manager.create_workspace_with_config(&plan, &[], &[]);
    match result {
        Ok((workspace, _setup)) => {
            prune_worktree(&git2::Repository::open("/tmp/gitws-tests/ws-err-repo").unwrap(), &workspace.name);
        }
        Err(e) => {
            assert!(!e.display_text().is_empty());
        }
    }
}

#[test]
fn test_create_workspace_branch_prefix_variations() {
    ensure_base_dir();
    let root = "/tmp/gitws-tests/ws-prefix-repo";
    let repo = init_repo(root);
    let manager = WorkspaceManager::open_at(root).unwrap();
    let test_cases = vec![
        ("feature/", "test-task"),
        ("work/", "bug-fix"),
        ("", "no-prefix"),
        ("dev-", "experiment"),
    ];

    for (prefix, task) in test_cases {
        let task_name = fresh_task_name(task);
        let timestamp = generate_timestamp();
        let plan = plan_create(&timestamp, &task_name, "/tmp/gitws-tests/base", prefix);
        let result = manager.create_workspace_with_config(&plan, &[], &[]);
        match result {
            Ok((workspace, _setup)) => {
                assert!(workspace.name.contains(&task_name));
                if prefix.is_empty() {
                    assert_eq!(workspace.branch, workspace.name);
                } else {
                    assert!(workspace.branch.starts_with(prefix));
                    assert!(workspace.branch.contains(&workspace.name));
                }
                prune_worktree(&repo, &workspace.name);
            }
            Err(e) => {
                panic!("workspace creation failed: {}", e.display_text());
            }
        }
    }
}

#[test]
fn test_create_and_remove_workspace_integration() {
    ensure_base_dir();
    let root = "/tmp/gitws-tests/ws-int-repo";
    let repo = init_repo(root);
    let manager = WorkspaceManager::open_at(root).unwrap();
    let task_name = fresh_task_name("integration");
    let base_dir = "/tmp/gitws-tests/base";
    let branch_prefix = "test/";

    let timestamp = generate_timestamp();
    let plan = plan_create(&timestamp, &task_name, base_dir, branch_prefix);
    let result = manager.create_workspace_with_config(&plan, &[], &[]);

    match result {
        Ok((workspace_info, _setup)) => {
            assert!(workspace_info.name.contains(&task_name));
            assert!(workspace_info.path.contains(base_dir));
            assert!(workspace_info.branch.starts_with(branch_prefix));
            prune_worktree(&repo, &workspace_info.name);
        }
        Err(e) => {
            panic!("workspace creation failed: {}", e.display_text());
        }
    }
}

#[test]
fn test_setup_plan_lays_out_copies_and_commands() {
    ensure_base_dir();
    let root = "/tmp/gitws-tests/ws-setup-repo";
    let repo = init_repo(root);
    let manager = WorkspaceManager::open_at(root).unwrap();
    let task_name = fresh_task_name("setup");
    let timestamp = generate_timestamp();
    let plan = plan_create(&timestamp, &task_name, "/tmp/gitws-tests/base", "work/");
    let copy_files = vec![".env".to_string(), "config/app.yml".to_string()];
    let pre_commands = vec!["echo ready".to_string()];
    let (info, setup) = manager
        .create_workspace_with_config(&plan, &copy_files, &pre_commands)
        .unwrap();

    assert_eq!(setup.copies.len(), 2);
    assert_eq!(setup.copies[0].source, ".env");
    assert_eq!(setup.copies[0].dest, format!("{}/.env", info.path));
    assert_eq!(setup.copies[1].source, "config/app.yml");
    assert_eq!(setup.copies[1].dest, format!("{}/config/app.yml", info.path));
    assert_eq!(setup.commands.len(), 1);
    assert_eq!(setup.commands[0].command, "echo ready");
    assert_eq!(setup.commands[0].dir, info.path);
    prune_worktree(&repo, &info.name);
}

#[test]
fn test_get_workspace_details_basic() {
    let root = "/tmp/gitws-tests/ws-details-repo";
    init_repo(root);
    let manager = WorkspaceManager::open_at(root).unwrap();
    let workspace_info = WorkspaceInfo {
        name: "test-workspace".to_string(),
        path: root.to_string(),
        branch: "test/branch".to_string(),
    };
    let probe = DirProbe {
        exists: true,
        created_secs: Some(1_700_000_000),
        modified_secs: Some(1_700_000_000),
        size_bytes: Some(4096),
    };

    let result = manager.get_workspace_details(&workspace_info, &probe);
    assert!(result.is_ok());

    let details = result.unwrap();

    assert!(!details.created.is_empty());
    assert!(!details.last_modified.is_empty());
    assert!(details.created != "不明");
    assert!(details.last_modified != "不明");

    assert!(!details.status.is_empty());
    assert!(!details.files_info.is_empty());
    assert!(!details.size.is_empty());

    assert!(!details.recent_commits.is_empty() || details.recent_commits.is_empty());
}

#[test]
fn test_get_workspace_details_nonexistent_path() {
    let root = "/tmp/gitws-tests/ws-missing-repo";
    init_repo(root);
    let manager = WorkspaceManager::open_at(root).unwrap();
    let workspace_info = WorkspaceInfo {
        name: "nonexistent-workspace".to_string(),
        path: "/path/that/does/not/exist".to_string(),
        branch: "test/branch".to_string(),
    };

    let result = manager.get_workspace_details(&workspace_info, &probe_missing());
    assert!(result.is_ok());

    let details = result.unwrap();

    assert!(
        details.created.contains("ワークスペースが存在しません")
            || details.created.contains("不明")
    );
    assert!(
        details
            .last_modified
            .contains("ワークスペースが存在しません")
            || details.last_modified.contains("不明")
    );
    assert!(details.status.contains("ワークスペースが存在しません"));
    assert!(details.files_info.contains("不明"));
    assert!(details.size.contains("不明"));
    assert!(details
        .recent_commits
        .contains(&"ワークスペースが存在しません".to_string()));
}

#[test]
fn test_details_render_times_and_sizes_exactly() {
    let root = "/tmp/gitws-tests/ws-exact-repo";
    init_repo(root);
    let manager = WorkspaceManager::open_at(root).unwrap();
    let info = WorkspaceInfo {
        name: "exact".to_string(),
        path: root.to_string(),
        branch: "b".to_string(),
    };

    let cases: Vec<(u64, &str)> = vec![
        (512, "512 B"),
        (1023, "1023 B"),
        (1024, "1.0 KB"),
        // 1280 bytes is exactly 1.25 KB: the tie rounds to the even digit.
        (1280, "1.2 KB"),
        (1536, "1.5 KB"),
        (2048, "2.0 KB"),
        (10_485_760, "10.0 MB"),
    ];
    for (bytes, expected) in cases {
        let probe = DirProbe {
            exists: true,
            created_secs: Some(1_700_000_000),
            modified_secs: None,
            size_bytes: Some(bytes),
        };
        let details = manager.get_workspace_details(&info, &probe).unwrap();
        assert_eq!(details.size, expected);
        // 1700000000 seconds into the unix epoch, rendered in UTC.
        assert_eq!(details.created, "2023-11-14 22:13:20");
        assert_eq!(details.last_modified, "不明");
    }
}

#[test]
fn test_details_commit_lines_trim_and_truncate() {
    let root = "/tmp/gitws-tests/ws-commits-repo";
    let repo = git2::Repository::init(root).unwrap();
    let long_message = "x".repeat(60);
    // Commit freshly on every run so the newest entry is moments old.
    let sig = git2::Signature::now("tester", "tester@example.com").unwrap();
    let tree_id = {
        let mut index = repo.index().unwrap();
        index.write_tree().unwrap()
    };
    let tree = repo.find_tree(tree_id).unwrap();
    let parent = repo
        .head()
        .ok()
        .and_then(|h| h.target())
        .and_then(|t| repo.find_commit(t).ok());
    let parent_refs: Vec<&git2::Commit> = parent.iter().collect();
    repo.commit(Some("HEAD"), &sig, &sig, &format!("{long_message}\n"), &tree, &parent_refs)
        .unwrap();
    let manager = WorkspaceManager::open_at(root).unwrap();
    let info = WorkspaceInfo {
        name: "commits".to_string(),
        path: root.to_string(),
        branch: "b".to_string(),
    };
    let probe = DirProbe {
        exists: true,
        created_secs: None,
        modified_secs: None,
        size_bytes: None,
    };
    let details = manager.get_workspace_details(&info, &probe).unwrap();
    assert!(!details.recent_commits.is_empty());
    // The trailing newline is trimmed, 60 characters are cut to 47 plus an
    // ellipsis, and the age is in the minutes bucket moments after commit.
    let expected = format!("- {}... (0分前)", "x".repeat(47));
    assert_eq!(details.recent_commits[0], expected);
}

#[test]
fn test_workspace_entry_branch_fallback() {
    // A readable head names the branch; an unreadable one falls back to
    // the synthesized work/<name> form.
    let with_head = workspace_entry("ws1", "/p1".to_string(), Some("feature/x".to_string()));
    assert_eq!(with_head.name, "ws1");
    assert_eq!(with_head.path, "/p1");
    assert_eq!(with_head.branch, "feature/x");

    let without_head = workspace_entry("ws2", "/p2".to_string(), None);
    assert_eq!(without_head.branch, "work/ws2");
}

#[test]
fn test_find_branch_first_match() {
    let workspaces = vec![
        WorkspaceInfo {
            name: "a".to_string(),
            path: "/a".to_string(),
            branch: "work/a".to_string(),
        },
        WorkspaceInfo {
            name: "b".to_string(),
            path: "/b".to_string(),
            branch: "work/b".to_string(),
        },
    ];
    assert_eq!(find_branch(&workspaces, "b"), Some("work/b".to_string()));
    assert_eq!(find_branch(&workspaces, "missing"), None);
}

#[test]
fn test_path_exists_queries_the_disk() {
    assert!(path_exists("/"));
    assert!(!path_exists("/path/that/does/not/exist/anywhere"));
}

#[test]
fn test_classify_status_counts_modified_and_untracked() {
    // 256 and 512 are working-tree modified/deleted, 2 and 4 are the index
    // forms, 128 is a new (untracked) entry, 0 is an unchanged tracked one.
    let (status, files) = classify_status(&vec![256, 128, 0, 2]);
    assert_eq!(status, "Modified (2 files)");
    assert_eq!(files, "1 tracked, 1 untracked");

    let (status, files) = classify_status(&vec![512, 4]);
    assert_eq!(status, "Modified (2 files)");
    assert_eq!(files, "0 tracked, 0 untracked");

    let (status, files) = classify_status(&vec![0, 0, 128]);
    assert_eq!(status, "Clean");
    assert_eq!(files, "2 tracked, 1 untracked");

    let (status, files) = classify_status(&Vec::new());
    assert_eq!(status, "Clean");
    assert_eq!(files, "0 tracked, 0 untracked");
}

#[test]
fn test_create_list_remove_scenario() {
    // Create a workspace, see it in the enumeration with matching name and
    // branch, remove it, see it gone, and watch a second removal report the
    // not-found error.
    ensure_base_dir();
    let root = "/tmp/gitws-tests/ws-scenario-repo";
    let repo = init_repo(root);
    let manager = WorkspaceManager::open_at(root).unwrap();
    let task_name = fresh_task_name("alpha");
    let timestamp = generate_timestamp();
    let plan = plan_create(&timestamp, &task_name, "/tmp/gitws-tests/base", "work/");
    let (info, _setup) = manager
        .create_workspace_with_config(&plan, &[], &[])
        .unwrap();
    assert_eq!(info.branch, format!("work/{}", info.name));

    let listed = manager.list_workspaces().unwrap();
    let found = listed.iter().find(|w| w.name == info.name);
    assert!(found.is_some());
    let found = found.unwrap();
    assert_eq!(found.branch, info.branch);
    assert!(found.path.ends_with(&info.name));

    // The removal driver unregisters the worktree and deletes its tree.
    prune_worktree(&repo, &info.name);

    let listed_after = manager.list_workspaces().unwrap();
    assert!(listed_after.iter().all(|w| w.name != info.name));

    // Removing it again exhausts every tier: the backend no longer knows the
    // name, every command reports failure, and no candidate path exists.
    let mut proc = manager.plan_removal(&info.name);
    let mut directive = proc.start_directive();
    let mut steps = 0;
    let verdict = loop {
        steps += 1;
        assert!(steps < 20, "removal did not terminate");
        match directive {
            RemovalDirective::RunCommand { .. } => {
                directive = proc.step(RemovalEvent::CommandDone {
                    outcome: CmdOutcome::Failed,
                });
            }
            RemovalDirective::CheckPath { .. } => {
                directive = proc.step(RemovalEvent::PathChecked { exists: false });
            }
            RemovalDirective::RemoveDirectory { .. } => {
                directive = proc.step(RemovalEvent::DirRemoved { ok: false });
            }
            RemovalDirective::Finish { result, .. } => break result,
        }
    };
    let err = verdict.unwrap_err();
    assert_eq!(
        err.display_text(),
        format!("Workspace error: ワークスペースが見つかりません: {}", info.name)
    );
}
