use vstd::prelude::*;
use crate::tui::app::{App, count_true, true_indices, lemma_true_indices_in_range,
    lemma_count_matches_indices};
use crate::text::{concat_strs, concat3, usize_to_string, join_strings, join_seq, dec_str};
use crate::workspace::{WorkspaceInfo, WorkspaceDetails};

verus! {

/// One entry of the rendered workspace list: a heading line with the
/// selection mark and the branch, a detail line with the path, and whether
/// the cursor rests on it.
#[derive(Debug)]
pub struct ListRow {
    pub heading: String,
    pub detail: String,
    pub highlighted: bool,
}

/// Which modal dialog the rendering must overlay, with everything it shows.
#[derive(Debug)]
pub enum DialogModel {
    Hidden,
    DeleteSingle { name: String, path: String },
    DeleteBulk { names: Vec<String> },
    Details { branch: String, path: String },
}

/// The selection mark in front of a list entry.
pub open spec fn checkbox_mark(selected: bool) -> Seq<char> {
    if selected {
        "☑"@
    } else {
        "□"@
    }
}

/// Whether the entry at position `k` is marked.
pub open spec fn marked_at(app: App, k: int) -> bool {
    0 <= k < app.selected_workspaces@.len() && app.selected_workspaces@[k]
}

/// The key help shown under the header, depending on the open dialog.
pub fn help_line(app: &App) -> (r: String)
    ensures
        app.show_delete_dialog ==> r@ == "Y: Confirm deletion  N: Cancel  Esc: Cancel"@,
        !app.show_delete_dialog && app.show_details_dialog ==> r@ == "Press any key to close"@,
        !app.show_delete_dialog && !app.show_details_dialog ==> r@
            == "↑/↓: Select  Space: Multi-select  a: All  d: Delete  i: Details  q: Quit"@,
{
    if app.is_in_delete_confirmation() {
        "Y: Confirm deletion  N: Cancel  Esc: Cancel".to_owned()
    } else if app.is_in_details_view() {
        "Press any key to close".to_owned()
    } else {
        "↑/↓: Select  Space: Multi-select  a: All  d: Delete  i: Details  q: Quit".to_owned()
    }
}

/// The message shown in place of an empty workspace list.
pub fn empty_list_message() -> (r: String)
    ensures
        r@ == "No workspaces found.\n\nCreate a workspace with 'gwork start <task-name>'."@,
{
    "No workspaces found.\n\nCreate a workspace with 'gwork start <task-name>'.".to_owned()
}

/// The title of the workspace list, with the entry count.
pub fn list_title(app: &App) -> (r: String)
    ensures
        r@ == "Workspace List ("@ + dec_str(app.workspaces@.len() as int) + " items)"@,
{
    concat3("Workspace List (", usize_to_string(app.workspaces.len()).as_str(), " items)")
}

/// The rendered rows of the workspace list, one per workspace.
pub fn list_rows(app: &App) -> (r: Vec<ListRow>)
    ensures
        r@.len() == app.workspaces@.len(),
        forall|k: int|
            0 <= k < r@.len() ==> {
                &&& (#[trigger] r@[k]).heading@ == checkbox_mark(marked_at(*app, k)) + " "@
                    + app.workspaces@[k].branch@
                &&& r@[k].detail@ == "  └─ "@ + app.workspaces@[k].path@
                &&& r@[k].highlighted == (k == app.selected_index as int)
            },
{
    let mut rows: Vec<ListRow> = Vec::new();
    let mut i: usize = 0;
    while i < app.workspaces.len()
        invariant
            0 <= i <= app.workspaces@.len(),
            rows@.len() == i,
            forall|k: int|
                0 <= k < i ==> {
                    &&& (#[trigger] rows@[k]).heading@ == checkbox_mark(marked_at(*app, k)) + " "@
                        + app.workspaces@[k].branch@
                    &&& rows@[k].detail@ == "  └─ "@ + app.workspaces@[k].path@
                    &&& rows@[k].highlighted == (k == app.selected_index as int)
                },
        decreases app.workspaces@.len() - i,
    {
        let selected = if i < app.selected_workspaces.len() {
            app.selected_workspaces[i]
        } else {
            false
        };
        let mark: &str = if selected {
            "☑"
        } else {
            "□"
        };
        let heading = concat3(mark, " ", app.workspaces[i].branch.as_str());
        let detail = concat_strs("  └─ ", app.workspaces[i].path.as_str());
        rows.push(ListRow { heading, detail, highlighted: i == app.selected_index });
        i += 1;
    }
    rows
}

/// The selection status line under the list: the marked count when anything
/// is marked, the total otherwise; nothing when the list is empty.
pub fn status_line(app: &App) -> (r: Option<String>)
    ensures
        app.workspaces@.len() == 0 ==> r is None,
        app.workspaces@.len() > 0 && count_true(app.selected_workspaces@) > 0 ==> (r matches Some(s)
            && s@ == "Selected: "@ + dec_str(count_true(app.selected_workspaces@)) + "/"@ + dec_str(
            app.workspaces@.len() as int,
        ) + " workspaces"@),
        app.workspaces@.len() > 0 && count_true(app.selected_workspaces@) == 0 ==> (r matches Some(
            s,
        ) && s@ == "Total: "@ + dec_str(app.workspaces@.len() as int) + " workspaces"@),
{
    if app.workspaces.len() == 0 {
        return None;
    }
    let selected_count = app.get_selected_count();
    let total = app.workspaces.len();
    if selected_count > 0 {
        let r = concat3(
            concat_strs("Selected: ", usize_to_string(selected_count).as_str()).as_str(),
            "/",
            concat_strs(usize_to_string(total).as_str(), " workspaces").as_str(),
        );
        Some(r)
    } else {
        Some(concat3("Total: ", usize_to_string(total).as_str(), " workspaces"))
    }
}

/// Which dialog to overlay: the delete confirmation wins over the details
/// view; a bulk confirmation when more than one workspace is marked, a
/// single-workspace confirmation for one mark or for the workspace under
/// the cursor, nothing when there is nothing to confirm.
pub fn dialog_model(app: &App) -> (r: DialogModel)
    requires
        app.inv(),
    ensures
        !app.show_delete_dialog && !app.show_details_dialog ==> r is Hidden,
        !app.show_delete_dialog && app.show_details_dialog && (app.selected_index as int)
            < app.workspaces@.len() ==> (r matches DialogModel::Details { branch, path } && branch@
            == app.workspaces@[app.selected_index as int].branch@ && path@
            == app.workspaces@[app.selected_index as int].path@),
        app.show_delete_dialog && count_true(app.selected_workspaces@) > 1 ==> (r
            matches DialogModel::DeleteBulk { names } && names@.map_values(|s: String| s@)
            == true_indices(app.selected_workspaces@).map_values(
            |i: int| app.workspaces@[i].name@,
        )),
        app.show_delete_dialog && count_true(app.selected_workspaces@) == 1 ==> (r
            matches DialogModel::DeleteSingle { name, path } && name@
            == app.workspaces@[true_indices(app.selected_workspaces@)[0]].name@ && path@
            == app.workspaces@[true_indices(app.selected_workspaces@)[0]].path@),
        app.show_delete_dialog && count_true(app.selected_workspaces@) == 0 && (
        app.selected_index as int) < app.workspaces@.len() ==> (r
            matches DialogModel::DeleteSingle { name, path } && name@
            == app.workspaces@[app.selected_index as int].name@ && path@
            == app.workspaces@[app.selected_index as int].path@),
        app.show_delete_dialog && count_true(app.selected_workspaces@) == 0 && (
        app.selected_index as int) >= app.workspaces@.len() ==> r is Hidden,
        !app.show_delete_dialog && app.show_details_dialog && (app.selected_index as int)
            >= app.workspaces@.len() ==> r is Hidden,
{
    if app.is_in_delete_confirmation() {
        let selected_count = app.get_selected_count();
        if selected_count > 1 {
            let names = selected_workspace_names(app);
            DialogModel::DeleteBulk { names }
        } else if selected_count == 1 {
            proof {
                lemma_count_matches_indices(app.selected_workspaces@);
                lemma_true_indices_in_range(app.selected_workspaces@);
            }
            let selected = app.get_selected_workspaces();
            if selected.len() > 0 {
                DialogModel::DeleteSingle {
                    name: selected[0].name.clone(),
                    path: selected[0].path.clone(),
                }
            } else {
                DialogModel::Hidden
            }
        } else if let Some(workspace) = app.get_selected_workspace() {
            DialogModel::DeleteSingle {
                name: workspace.name.clone(),
                path: workspace.path.clone(),
            }
        } else {
            DialogModel::Hidden
        }
    } else if app.is_in_details_view() {
        if let Some(workspace) = app.get_selected_workspace() {
            DialogModel::Details {
                branch: workspace.branch.clone(),
                path: workspace.path.clone(),
            }
        } else {
            DialogModel::Hidden
        }
    } else {
        DialogModel::Hidden
    }
}

/// The names of the marked workspaces, in list order.
fn selected_workspace_names(app: &App) -> (r: Vec<String>)
    requires
        app.inv(),
    ensures
        r@.map_values(|s: String| s@) == true_indices(app.selected_workspaces@).map_values(
            |i: int| app.workspaces@[i].name@,
        ),
{
    proof {
        lemma_true_indices_in_range(app.selected_workspaces@);
    }
    let selected = app.get_selected_workspaces();
    let mut names: Vec<String> = Vec::new();
    let mut k: usize = 0;
    while k < selected.len()
        invariant
            app.inv(),
            0 <= k <= selected@.len(),
            selected@.len() == true_indices(app.selected_workspaces@).len(),
            forall|j: int|
                0 <= j < selected@.len() ==> *selected@[j] == app.workspaces@[true_indices(
                    app.selected_workspaces@,
                )[j]],
            names@.len() == k,
            forall|j: int|
                0 <= j < k ==> names@[j]@ == app.workspaces@[true_indices(
                    app.selected_workspaces@,
                )[j]].name@,
        decreases selected@.len() - k,
    {
        names.push(selected[k].name.clone());
        k += 1;
    }
    proof {
        assert(names@.map_values(|s: String| s@) =~= true_indices(
            app.selected_workspaces@,
        ).map_values(|i: int| app.workspaces@[i].name@));
    }
    names
}

/// The lines of the bulk-delete confirmation: at most five bullet entries,
/// and a trailing `... and n more` line when more are marked.
pub fn bulk_delete_lines(names: &Vec<String>) -> (r: Vec<String>)
    ensures
        names@.len() <= 5 ==> r@.len() == names@.len(),
        names@.len() > 5 ==> r@.len() == 6,
        forall|k: int|
            0 <= k < r@.len() && (k < 5 || names@.len() <= 5) ==> (#[trigger] r@[k])@ == "• "@
                + names@[k]@,
        names@.len() > 5 ==> r@[5]@ == "... and "@ + dec_str(names@.len() - 5) + " more"@,
{
    let mut lines: Vec<String> = Vec::new();
    let shown: usize = if names.len() < 5 {
        names.len()
    } else {
        5
    };
    let mut k: usize = 0;
    while k < shown
        invariant
            0 <= k <= shown,
            shown <= names@.len(),
            lines@.len() == k,
            forall|j: int| 0 <= j < k ==> (#[trigger] lines@[j])@ == "• "@ + names@[j]@,
        decreases shown - k,
    {
        lines.push(concat_strs("• ", names[k].as_str()));
        k += 1;
    }
    if names.len() > 5 {
        let extra = names.len() - 5;
        lines.push(
            concat3("... and ", usize_to_string(extra).as_str(), " more"),
        );
    }
    lines
}

/// The question line of the bulk-delete confirmation.
pub fn bulk_delete_question(count: usize) -> (r: String)
    ensures
        r@ == "Are you sure you want to delete these "@ + dec_str(count as int) + " workspaces?"@,
{
    concat3(
        "Are you sure you want to delete these ",
        usize_to_string(count).as_str(),
        " workspaces?",
    )
}

/// The name/path block of the single-workspace delete confirmation.
pub fn delete_dialog_info(name: &str, path: &str) -> (r: String)
    ensures
        r@ == "Name: "@ + name@ + "\nPath: "@ + path@,
{
    let r = concat3(
        "Name: ",
        name,
        concat_strs("\nPath: ", path).as_str(),
    );
    proof {
        assert(r@ =~= "Name: "@ + name@ + "\nPath: "@ + path@);
    }
    r
}

/// The branch/path block of the details dialog.
pub fn details_basic_info(w: &WorkspaceInfo) -> (r: String)
    ensures
        r@ == "Branch: "@ + w.branch@ + "\nPath: "@ + w.path@,
{
    let r = concat3(
        "Branch: ",
        w.branch.as_str(),
        concat_strs("\nPath: ", w.path.as_str()).as_str(),
    );
    proof {
        assert(r@ =~= "Branch: "@ + w.branch@ + "\nPath: "@ + w.path@);
    }
    r
}

/// The creation/modification block of the details dialog.
pub fn details_time_info(d: &WorkspaceDetails) -> (r: String)
    ensures
        r@ == "Created: "@ + d.created@ + "\nLast Modified: "@ + d.last_modified@,
{
    let r = concat3(
        "Created: ",
        d.created.as_str(),
        concat_strs("\nLast Modified: ", d.last_modified.as_str()).as_str(),
    );
    proof {
        assert(r@ =~= "Created: "@ + d.created@ + "\nLast Modified: "@ + d.last_modified@);
    }
    r
}

/// The status/files/size block of the details dialog.
pub fn details_status_info(d: &WorkspaceDetails) -> (r: String)
    ensures
        r@ == "Status: "@ + d.status@ + "\nFiles: "@ + d.files_info@ + "  Size: "@ + d.size@,
{
    let r = concat3(
        "Status: ",
        d.status.as_str(),
        concat3(
            "\nFiles: ",
            d.files_info.as_str(),
            concat_strs("  Size: ", d.size.as_str()).as_str(),
        ).as_str(),
    );
    proof {
        assert(r@ =~= "Status: "@ + d.status@ + "\nFiles: "@ + d.files_info@ + "  Size: "@
            + d.size@);
    }
    r
}

/// The recent-commits block of the details dialog.
pub fn details_commits_text(d: &WorkspaceDetails) -> (r: String)
    ensures
        d.recent_commits@.len() == 0 ==> r@ == "Recent Commits:\nNone"@,
        d.recent_commits@.len() > 0 ==> r@ == "Recent Commits:\n"@ + join_seq(
            d.recent_commits@.map_values(|s: String| s@),
            "\n"@,
        ),
{
    if d.recent_commits.len() == 0 {
        "Recent Commits:\nNone".to_owned()
    } else {
        concat_strs("Recent Commits:\n", join_strings(&d.recent_commits, "\n").as_str())
    }
}

} // verus!
