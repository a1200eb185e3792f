use vstd::prelude::*;
use crate::tui::app::{App, all_true, count_true, true_indices, next_index, prev_index,
    same_but_cursor, same_but_selection, same_but_flags, lemma_true_indices_in_range};

verus! {

/// A decoded key intent, as the terminal event source hands it to the
/// controller.
#[derive(Debug, Clone, Copy)]
pub enum KeyIntent {
    /// `q` or Escape
    Quit,
    /// Down arrow or `j`
    Down,
    /// Up arrow or `k`
    Up,
    /// Enter
    Confirm,
    /// `d`
    RequestDelete,
    /// `y` or `Y`
    Yes,
    /// `n` or `N`
    No,
    /// `i`
    RequestDetails,
    /// Space
    ToggleSelect,
    /// `a`
    ToggleSelectAll,
    /// any other key
    Other,
}

/// The action the outer loop must carry out after one key intent.
#[derive(Debug, PartialEq)]
pub enum AppAction {
    Idle,
    Quit,
    /// Change to this workspace path.
    NavigateToWorkspace(String),
    /// Remove these workspaces by name (supports bulk delete).
    DeleteWorkspaces(Vec<String>),
}

/// The two states agree on every field.
pub open spec fn same_state(pre: App, post: App) -> bool {
    &&& same_but_flags(pre, post)
    &&& post.should_quit == pre.should_quit
    &&& post.show_delete_dialog == pre.show_delete_dialog
    &&& post.show_details_dialog == pre.show_details_dialog
}

/// The names of the marked workspaces, in list order.
pub open spec fn selected_names(pre: App) -> Seq<Seq<char>> {
    true_indices(pre.selected_workspaces@).map_values(|i: int| pre.workspaces@[i].name@)
}

/// Whether a delete request is admissible: something is marked, or a
/// workspace sits under the cursor.
pub open spec fn can_request_delete(pre: App) -> bool {
    count_true(pre.selected_workspaces@) > 0 || (pre.selected_index as int)
        < pre.workspaces@.len()
}

/// The names a confirmed delete targets: the marked ones if any, else the
/// one under the cursor, else none.
pub open spec fn delete_targets(pre: App) -> Seq<Seq<char>> {
    if count_true(pre.selected_workspaces@) > 0 {
        selected_names(pre)
    } else if (pre.selected_index as int) < pre.workspaces@.len() {
        seq![pre.workspaces@[pre.selected_index as int].name@]
    } else {
        Seq::empty()
    }
}

/// Drive the controller by one key intent and return the action the outer
/// loop must carry out.
pub fn handle_key(app: &mut App, key: KeyIntent) -> (r: AppAction)
    requires
        old(app).inv(),
    ensures
        final(app).inv(),
        ({
            let pre = *old(app);
            let post = *final(app);
            match key {
                KeyIntent::Quit => {
                    &&& (pre.show_delete_dialog ==> same_but_flags(pre, post)
                        && post.should_quit == pre.should_quit && !post.show_delete_dialog
                        && post.show_details_dialog == pre.show_details_dialog && r is Idle)
                    &&& (!pre.show_delete_dialog && pre.show_details_dialog ==> same_but_flags(
                        pre,
                        post,
                    ) && post.should_quit == pre.should_quit && post.show_delete_dialog
                        == pre.show_delete_dialog && !post.show_details_dialog && r is Idle)
                    &&& (!pre.show_delete_dialog && !pre.show_details_dialog ==> same_but_flags(
                        pre,
                        post,
                    ) && post.should_quit && post.show_delete_dialog == pre.show_delete_dialog
                        && post.show_details_dialog == pre.show_details_dialog && r is Quit)
                },
                KeyIntent::Down => {
                    &&& r is Idle
                    &&& (pre.show_delete_dialog || pre.show_details_dialog ==> same_state(
                        pre,
                        post,
                    ))
                    &&& (!pre.show_delete_dialog && !pre.show_details_dialog ==> same_but_cursor(
                        pre,
                        post,
                    ) && (pre.workspaces@.len() > 0 ==> post.selected_index == next_index(
                        pre.selected_index as int,
                        pre.workspaces@.len() as int,
                    )) && (pre.workspaces@.len() == 0 ==> post.selected_index
                        == pre.selected_index))
                },
                KeyIntent::Up => {
                    &&& r is Idle
                    &&& (pre.show_delete_dialog || pre.show_details_dialog ==> same_state(
                        pre,
                        post,
                    ))
                    &&& (!pre.show_delete_dialog && !pre.show_details_dialog ==> same_but_cursor(
                        pre,
                        post,
                    ) && (pre.workspaces@.len() > 0 ==> post.selected_index == prev_index(
                        pre.selected_index as int,
                        pre.workspaces@.len() as int,
                    )) && (pre.workspaces@.len() == 0 ==> post.selected_index
                        == pre.selected_index))
                },
                KeyIntent::Confirm => {
                    &&& (pre.show_delete_dialog ==> same_state(pre, post) && r is Idle)
                    &&& (!pre.show_delete_dialog && pre.show_details_dialog ==> same_but_flags(
                        pre,
                        post,
                    ) && post.should_quit == pre.should_quit && post.show_delete_dialog
                        == pre.show_delete_dialog && !post.show_details_dialog && r is Idle)
                    &&& (!pre.show_delete_dialog && !pre.show_details_dialog && (
                    pre.selected_index as int) < pre.workspaces@.len() ==> same_state(pre, post)
                        && (r matches AppAction::NavigateToWorkspace(p) && p@
                        == pre.workspaces@[pre.selected_index as int].path@))
                    &&& (!pre.show_delete_dialog && !pre.show_details_dialog && (
                    pre.selected_index as int) >= pre.workspaces@.len() ==> same_state(pre, post)
                        && r is Idle)
                },
                KeyIntent::RequestDelete => {
                    &&& r is Idle
                    &&& (pre.show_delete_dialog || pre.show_details_dialog ==> same_state(
                        pre,
                        post,
                    ))
                    &&& (!pre.show_delete_dialog && !pre.show_details_dialog && can_request_delete(
                        pre,
                    ) ==> same_but_flags(pre, post) && post.should_quit == pre.should_quit
                        && post.show_delete_dialog && post.show_details_dialog
                        == pre.show_details_dialog)
                    &&& (!pre.show_delete_dialog && !pre.show_details_dialog
                        && !can_request_delete(pre) ==> same_state(pre, post))
                },
                KeyIntent::Yes => {
                    &&& (!pre.show_delete_dialog ==> same_state(pre, post) && r is Idle)
                    &&& (pre.show_delete_dialog && delete_targets(pre).len() > 0 ==>
                    same_but_flags(pre, post) && post.should_quit == pre.should_quit
                        && !post.show_delete_dialog && post.show_details_dialog
                        == pre.show_details_dialog && (r matches AppAction::DeleteWorkspaces(names)
                        && names@.map_values(|n: String| n@) == delete_targets(pre)))
                    &&& (pre.show_delete_dialog && delete_targets(pre).len() == 0 ==> same_state(
                        pre,
                        post,
                    ) && r is Idle)
                },
                KeyIntent::No => {
                    &&& r is Idle
                    &&& (pre.show_delete_dialog ==> same_but_flags(pre, post) && post.should_quit
                        == pre.should_quit && !post.show_delete_dialog && post.show_details_dialog
                        == pre.show_details_dialog)
                    &&& (!pre.show_delete_dialog ==> same_state(pre, post))
                },
                KeyIntent::RequestDetails => {
                    &&& r is Idle
                    &&& (!pre.show_delete_dialog && !pre.show_details_dialog && (
                    pre.selected_index as int) < pre.workspaces@.len() ==> same_but_flags(pre, post)
                        && post.should_quit == pre.should_quit && post.show_delete_dialog
                        == pre.show_delete_dialog && post.show_details_dialog)
                    &&& (pre.show_delete_dialog || pre.show_details_dialog || (
                    pre.selected_index as int) >= pre.workspaces@.len() ==> same_state(pre, post))
                },
                KeyIntent::ToggleSelect => {
                    &&& r is Idle
                    &&& (pre.show_delete_dialog || pre.show_details_dialog ==> same_state(
                        pre,
                        post,
                    ))
                    &&& (!pre.show_delete_dialog && !pre.show_details_dialog ==>
                    same_but_selection(pre, post) && ((pre.selected_index as int)
                        < pre.selected_workspaces@.len() ==> post.selected_workspaces@
                        == pre.selected_workspaces@.update(
                        pre.selected_index as int,
                        !pre.selected_workspaces@[pre.selected_index as int],
                    )) && ((pre.selected_index as int) >= pre.selected_workspaces@.len()
                        ==> post.selected_workspaces@ == pre.selected_workspaces@))
                },
                KeyIntent::ToggleSelectAll => {
                    &&& r is Idle
                    &&& (pre.show_delete_dialog || pre.show_details_dialog ==> same_state(
                        pre,
                        post,
                    ))
                    &&& (!pre.show_delete_dialog && !pre.show_details_dialog ==>
                    same_but_selection(pre, post) && post.selected_workspaces@.len()
                        == pre.selected_workspaces@.len() && (forall|i: int|
                        0 <= i < post.selected_workspaces@.len()
                            ==> post.selected_workspaces@[i] == !all_true(
                            pre.selected_workspaces@,
                        )))
                },
                KeyIntent::Other => {
                    &&& r is Idle
                    &&& (pre.show_details_dialog ==> same_but_flags(pre, post) && post.should_quit
                        == pre.should_quit && post.show_delete_dialog == pre.show_delete_dialog
                        && !post.show_details_dialog)
                    &&& (!pre.show_details_dialog ==> same_state(pre, post))
                },
            }
        }),
{
    match key {
        KeyIntent::Quit => {
            if app.is_in_delete_confirmation() {
                app.hide_delete_confirmation();
                AppAction::Idle
            } else if app.is_in_details_view() {
                app.hide_details();
                AppAction::Idle
            } else {
                app.quit();
                AppAction::Quit
            }
        },
        KeyIntent::Down => {
            if !app.is_in_delete_confirmation() && !app.is_in_details_view() {
                app.next();
            }
            AppAction::Idle
        },
        KeyIntent::Up => {
            if !app.is_in_delete_confirmation() && !app.is_in_details_view() {
                app.previous();
            }
            AppAction::Idle
        },
        KeyIntent::Confirm => {
            if app.is_in_delete_confirmation() {
                AppAction::Idle
            } else if app.is_in_details_view() {
                app.hide_details();
                AppAction::Idle
            } else if let Some(workspace) = app.get_selected_workspace() {
                AppAction::NavigateToWorkspace(workspace.path.clone())
            } else {
                AppAction::Idle
            }
        },
        KeyIntent::RequestDelete => {
            if !app.is_in_delete_confirmation() && !app.is_in_details_view() {
                let selected_count = app.get_selected_count();
                if selected_count > 0 || app.get_selected_workspace().is_some() {
                    app.show_delete_confirmation();
                }
            }
            AppAction::Idle
        },
        KeyIntent::Yes => {
            if app.is_in_delete_confirmation() {
                let selected_count = app.get_selected_count();
                let workspace_names: Vec<String> = if selected_count > 0 {
                    let selected = app.get_selected_workspaces();
                    let mut names: Vec<String> = Vec::new();
                    let mut k: usize = 0;
                    proof {
                        lemma_true_indices_in_range(app.selected_workspaces@);
                    }
                    while k < selected.len()
                        invariant
                            0 <= k <= selected@.len(),
                            selected@.len() == true_indices(app.selected_workspaces@).len(),
                            forall|j: int|
                                0 <= j < selected@.len() ==> *selected@[j]
                                    == app.workspaces@[true_indices(app.selected_workspaces@)[j]],
                            names@.len() == k,
                            forall|j: int|
                                0 <= j < k ==> names@[j]@ == app.workspaces@[true_indices(
                                    app.selected_workspaces@,
                                )[j]].name@,
                        decreases selected@.len() - k,
                    {
                        names.push(selected[k].name.clone());
                        k += 1;
                    }
                    names
                } else if let Some(workspace) = app.get_selected_workspace() {
                    let mut names: Vec<String> = Vec::new();
                    names.push(workspace.name.clone());
                    names
                } else {
                    Vec::new()
                };
                if workspace_names.len() > 0 {
                    app.hide_delete_confirmation();
                    proof {
                        assert(workspace_names@.map_values(|n: String| n@) =~= delete_targets(
                            *old(app),
                        ));
                    }
                    AppAction::DeleteWorkspaces(workspace_names)
                } else {
                    AppAction::Idle
                }
            } else {
                AppAction::Idle
            }
        },
        KeyIntent::No => {
            if app.is_in_delete_confirmation() {
                app.hide_delete_confirmation();
            }
            AppAction::Idle
        },
        KeyIntent::RequestDetails => {
            if !app.is_in_delete_confirmation() && !app.is_in_details_view()
                && app.get_selected_workspace().is_some() {
                app.show_details();
            }
            AppAction::Idle
        },
        KeyIntent::ToggleSelect => {
            if !app.is_in_delete_confirmation() && !app.is_in_details_view() {
                app.toggle_current_selection();
            }
            AppAction::Idle
        },
        KeyIntent::ToggleSelectAll => {
            if !app.is_in_delete_confirmation() && !app.is_in_details_view() {
                app.toggle_all_selection();
            }
            AppAction::Idle
        },
        KeyIntent::Other => {
            if app.is_in_details_view() {
                app.hide_details();
            }
            AppAction::Idle
        },
    }
}

} // verus!
