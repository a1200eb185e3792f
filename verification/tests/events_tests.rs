use gitws::tui::app::App;
use gitws::tui::events::{AppAction, KeyIntent, handle_key};
use gitws::workspace::WorkspaceInfo;

// Helper function for AppAction testing
fn create_test_app_with_workspaces() -> App {
    let mut app = App::new();
    app.workspaces = vec![
        WorkspaceInfo {
            name: "test1".to_string(),
            path: "/path/to/workspace1".to_string(),
            branch: "work/test1".to_string(),
        },
        WorkspaceInfo {
            name: "test2".to_string(),
            path: "/path/to/workspace2".to_string(),
            branch: "work/test2".to_string(),
        },
    ];
    app.selected_workspaces = vec![false, false];
    app.selected_index = 0;
    app
}

#[test]
fn test_app_action_equality() {
    assert_eq!(AppAction::Idle, AppAction::Idle);
    assert_eq!(AppAction::Quit, AppAction::Quit);
    assert_eq!(
        AppAction::NavigateToWorkspace("/test/path".to_string()),
        AppAction::NavigateToWorkspace("/test/path".to_string())
    );
    assert_eq!(
        AppAction::DeleteWorkspaces(vec!["workspace1".to_string()]),
        AppAction::DeleteWorkspaces(vec!["workspace1".to_string()])
    );

    assert_ne!(AppAction::Idle, AppAction::Quit);
    assert_ne!(
        AppAction::NavigateToWorkspace("/test/path1".to_string()),
        AppAction::NavigateToWorkspace("/test/path2".to_string())
    );
    assert_ne!(
        AppAction::DeleteWorkspaces(vec!["workspace1".to_string()]),
        AppAction::DeleteWorkspaces(vec!["workspace2".to_string()])
    );
}

#[test]
fn test_app_action_debug() {
    let action = AppAction::NavigateToWorkspace("/test/path".to_string());
    let debug_str = format!("{action:?}");
    assert!(debug_str.contains("NavigateToWorkspace"));
    assert!(debug_str.contains("/test/path"));
}

#[test]
fn test_enter_key_action_with_selected_workspace() {
    let app = create_test_app_with_workspaces();

    // Test expected behavior when Enter key is pressed
    if let Some(workspace) = app.get_selected_workspace() {
        let expected_action = AppAction::NavigateToWorkspace(workspace.path.clone());
        assert_eq!(
            expected_action,
            AppAction::NavigateToWorkspace("/path/to/workspace1".to_string())
        );
    }
}

#[test]
fn test_enter_key_action_with_empty_workspaces() {
    let app = App::new(); // Empty workspace

    // When Enter key is pressed with no selected workspace
    assert!(app.get_selected_workspace().is_none());
    // AppAction::Idle should be returned in this case
}

#[test]
fn test_quit_action() {
    let mut app = create_test_app_with_workspaces();

    // Verify quit processing with q key
    app.quit();
    assert!(app.should_quit);
}

#[test]
fn test_navigation_actions() {
    let mut app = create_test_app_with_workspaces();

    // Initially, item 0 is selected
    assert_eq!(app.selected_index, 0);

    // Test down key
    app.next();
    assert_eq!(app.selected_index, 1);

    // Test up key
    app.previous();
    assert_eq!(app.selected_index, 0);
}

#[test]
fn test_delete_confirmation_flow() {
    let mut app = create_test_app_with_workspaces();

    // Display delete confirmation dialog
    assert!(!app.is_in_delete_confirmation());
    app.show_delete_confirmation();
    assert!(app.is_in_delete_confirmation());

    // Verify navigation control during delete confirmation with app logic
    // (Actual key event disabling is implemented in handle_key)
    assert!(app.is_in_delete_confirmation());

    // Cancel
    app.hide_delete_confirmation();
    assert!(!app.is_in_delete_confirmation());
}

#[test]
fn test_delete_workspace_action() {
    let app = create_test_app_with_workspaces();

    // Selected workspace is returned as delete action
    if let Some(workspace) = app.get_selected_workspace() {
        let expected_action = AppAction::DeleteWorkspaces(vec![workspace.name.clone()]);
        assert_eq!(
            expected_action,
            AppAction::DeleteWorkspaces(vec!["test1".to_string()])
        );
    }
}

#[test]
fn test_handle_key_enter_navigates_to_cursor_workspace() {
    let mut app = create_test_app_with_workspaces();
    let action = handle_key(&mut app, KeyIntent::Confirm);
    assert_eq!(
        action,
        AppAction::NavigateToWorkspace("/path/to/workspace1".to_string())
    );
    // Enter on an empty list does nothing
    let mut empty = App::new();
    assert_eq!(handle_key(&mut empty, KeyIntent::Confirm), AppAction::Idle);
}

#[test]
fn test_handle_key_quit_closes_dialogs_before_quitting() {
    let mut app = create_test_app_with_workspaces();
    app.show_delete_confirmation();
    assert_eq!(handle_key(&mut app, KeyIntent::Quit), AppAction::Idle);
    assert!(!app.is_in_delete_confirmation());
    assert!(!app.should_quit);

    app.show_details();
    assert_eq!(handle_key(&mut app, KeyIntent::Quit), AppAction::Idle);
    assert!(!app.is_in_details_view());
    assert!(!app.should_quit);

    assert_eq!(handle_key(&mut app, KeyIntent::Quit), AppAction::Quit);
    assert!(app.should_quit);
}

#[test]
fn test_handle_key_delete_flow_single_workspace() {
    let mut app = create_test_app_with_workspaces();
    // 'd' opens the confirmation because a workspace sits under the cursor.
    assert_eq!(handle_key(&mut app, KeyIntent::RequestDelete), AppAction::Idle);
    assert!(app.is_in_delete_confirmation());
    // Enter inside the confirmation is a no-op: an explicit yes/no is required.
    assert_eq!(handle_key(&mut app, KeyIntent::Confirm), AppAction::Idle);
    assert!(app.is_in_delete_confirmation());
    // 'n' cancels without emitting anything.
    assert_eq!(handle_key(&mut app, KeyIntent::No), AppAction::Idle);
    assert!(!app.is_in_delete_confirmation());
    // 'd' then 'y' emits the delete action for the cursor workspace.
    handle_key(&mut app, KeyIntent::RequestDelete);
    let action = handle_key(&mut app, KeyIntent::Yes);
    assert_eq!(action, AppAction::DeleteWorkspaces(vec!["test1".to_string()]));
    assert!(!app.is_in_delete_confirmation());
}

#[test]
fn test_handle_key_navigation_ignored_in_dialogs() {
    let mut app = create_test_app_with_workspaces();
    app.show_delete_confirmation();
    handle_key(&mut app, KeyIntent::Down);
    assert_eq!(app.selected_index, 0);
    app.hide_delete_confirmation();
    app.show_details();
    handle_key(&mut app, KeyIntent::Up);
    assert_eq!(app.selected_index, 0);
    // Any other key closes the details view.
    handle_key(&mut app, KeyIntent::Other);
    assert!(!app.is_in_details_view());
}

#[test]
fn test_handle_key_select_and_delete_marked_workspaces() {
    let mut app = create_test_app_with_workspaces();
    // Space marks the first entry, 'a' completes the selection.
    handle_key(&mut app, KeyIntent::ToggleSelect);
    assert_eq!(app.get_selected_count(), 1);
    handle_key(&mut app, KeyIntent::ToggleSelectAll);
    assert_eq!(app.get_selected_count(), 2);
    // 'd' then 'y' emits the delete action for every marked workspace.
    handle_key(&mut app, KeyIntent::RequestDelete);
    let action = handle_key(&mut app, KeyIntent::Yes);
    assert_eq!(
        action,
        AppAction::DeleteWorkspaces(vec!["test1".to_string(), "test2".to_string()])
    );
}

#[test]
fn test_handle_key_details_flow() {
    let mut app = create_test_app_with_workspaces();
    assert_eq!(handle_key(&mut app, KeyIntent::RequestDetails), AppAction::Idle);
    assert!(app.is_in_details_view());
    // Enter closes the details view.
    assert_eq!(handle_key(&mut app, KeyIntent::Confirm), AppAction::Idle);
    assert!(!app.is_in_details_view());
    // On an empty list the details view never opens.
    let mut empty = App::new();
    handle_key(&mut empty, KeyIntent::RequestDetails);
    assert!(!empty.is_in_details_view());
}
