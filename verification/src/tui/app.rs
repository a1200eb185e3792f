use vstd::prelude::*;
use crate::workspace::WorkspaceInfo;
use vstd::pervasive::VecAdditionalExecFns;

verus! {

/// Cursor position after moving one step down with wraparound.
pub open spec fn next_index(cur: int, len: int) -> int {
    (cur + 1) % len
}

/// Cursor position after moving one step up with wraparound.
pub open spec fn prev_index(cur: int, len: int) -> int {
    if cur == 0 {
        len - 1
    } else {
        cur - 1
    }
}

/// How many entries of a selection vector are set.
pub open spec fn count_true(s: Seq<bool>) -> int
    decreases s.len(),
{
    if s.len() == 0 {
        0
    } else {
        count_true(s.drop_last()) + if s.last() {
            1int
        } else {
            0int
        }
    }
}

/// Whether every entry of a selection vector is set.
pub open spec fn all_true(s: Seq<bool>) -> bool {
    forall|i: int| 0 <= i < s.len() ==> s[i]
}

/// The positions of the set entries of a selection vector, in ascending order.
pub open spec fn true_indices(s: Seq<bool>) -> Seq<int>
    decreases s.len(),
{
    if s.len() == 0 {
        Seq::empty()
    } else {
        true_indices(s.drop_last()) + if s.last() {
            seq![s.len() - 1]
        } else {
            Seq::empty()
        }
    }
}

/// Interactive browser state: the list of workspaces under view, the cursor,
/// the per-entry multi-select marks, and which modal dialog (if any) is open.
pub struct App {
    pub should_quit: bool,
    pub workspaces: Vec<WorkspaceInfo>,
    pub selected_index: usize,
    pub show_delete_dialog: bool,
    pub show_details_dialog: bool,
    pub selected_workspaces: Vec<bool>,
}

/// The two states agree on everything but the selection marks.
pub open spec fn same_but_selection(pre: App, post: App) -> bool {
    &&& post.should_quit == pre.should_quit
    &&& post.workspaces@ == pre.workspaces@
    &&& post.selected_index == pre.selected_index
    &&& post.show_delete_dialog == pre.show_delete_dialog
    &&& post.show_details_dialog == pre.show_details_dialog
}

/// The two states agree on everything but the cursor.
pub open spec fn same_but_cursor(pre: App, post: App) -> bool {
    &&& post.should_quit == pre.should_quit
    &&& post.workspaces@ == pre.workspaces@
    &&& post.show_delete_dialog == pre.show_delete_dialog
    &&& post.show_details_dialog == pre.show_details_dialog
    &&& post.selected_workspaces@ == pre.selected_workspaces@
}

/// The two states agree on everything but the dialog flags and the quit flag.
pub open spec fn same_but_flags(pre: App, post: App) -> bool {
    &&& post.workspaces@ == pre.workspaces@
    &&& post.selected_index == pre.selected_index
    &&& post.selected_workspaces@ == pre.selected_workspaces@
}

impl App {
    /// Well-formedness: one selection mark per workspace, and the cursor
    /// within bounds (position 0 when the list is empty).
    pub open spec fn inv(self) -> bool {
        &&& self.selected_workspaces@.len() == self.workspaces@.len()
        &&& (self.workspaces@.len() == 0 ==> self.selected_index == 0)
        &&& (self.workspaces@.len() > 0 ==> (self.selected_index as int) < self.workspaces@.len())
    }

    pub fn new() -> (app: App)
        ensures
            app.inv(),
            !app.should_quit,
            app.workspaces@.len() == 0,
            app.selected_index == 0,
            !app.show_delete_dialog,
            !app.show_details_dialog,
            app.selected_workspaces@.len() == 0,
    {
        App {
            should_quit: false,
            workspaces: Vec::new(),
            selected_index: 0,
            show_delete_dialog: false,
            show_details_dialog: false,
            selected_workspaces: Vec::new(),
        }
    }

    /// Install a freshly enumerated list: it replaces the workspaces, every
    /// selection mark is reset, and the cursor is clamped into the new list.
    pub fn install_workspaces(&mut self, list: Vec<WorkspaceInfo>)
        ensures
            final(self).inv(),
            final(self).workspaces@ == list@,
            final(self).selected_workspaces@.len() == list@.len(),
            forall|i: int|
                0 <= i < final(self).selected_workspaces@.len() ==> !final(self).selected_workspaces@[i],
            final(self).selected_index as int == (if list@.len() == 0 {
                0int
            } else if old(self).selected_index as int >= list@.len() {
                list@.len() - 1
            } else {
                old(self).selected_index as int
            }),
            final(self).should_quit == old(self).should_quit,
            final(self).show_delete_dialog == old(self).show_delete_dialog,
            final(self).show_details_dialog == old(self).show_details_dialog,
    {
        let n = list.len();
        self.workspaces = list;
        self.selected_workspaces = vec![false; n];
        if self.workspaces.len() == 0 {
            self.selected_index = 0;
        } else if self.selected_index > self.workspaces.len() - 1 {
            self.selected_index = self.workspaces.len() - 1;
        }
    }

    /// Replace the list with a fresh enumeration from the manager, through
    /// `install_workspaces`.  When the enumeration fails, the state is left
    /// untouched and the error is handed through.
    pub fn load_workspaces(&mut self, workspace_manager: &crate::workspace::WorkspaceManager) -> (r:
        crate::error::GitwsResult<()>)
        requires
            old(self).inv(),
        ensures
            final(self).inv(),
            r is Ok ==> {
                &&& final(self).selected_workspaces@.len() == final(self).workspaces@.len()
                &&& (forall|i: int|
                    0 <= i < final(self).selected_workspaces@.len() ==> !final(self).selected_workspaces@[i])
                &&& (forall|i: int|
                    0 <= i < final(self).workspaces@.len()
                        ==> !crate::workspace::excluded_from_listing(
                        #[trigger] final(self).workspaces@[i],
                    ))
                &&& final(self).selected_index as int == (if final(self).workspaces@.len() == 0 {
                    0int
                } else if old(self).selected_index as int >= final(self).workspaces@.len() {
                    final(self).workspaces@.len() - 1
                } else {
                    old(self).selected_index as int
                })
                &&& final(self).should_quit == old(self).should_quit
                &&& final(self).show_delete_dialog == old(self).show_delete_dialog
                &&& final(self).show_details_dialog == old(self).show_details_dialog
            },
            r matches Err(e) ==> *final(self) == *old(self),
    {
        match workspace_manager.list_workspaces() {
            Ok(list) => {
                self.install_workspaces(list);
                Ok(())
            },
            Err(e) => Err(e),
        }
    }

    /// The workspace under the cursor, if any.
    pub fn get_selected_workspace(&self) -> (r: Option<&WorkspaceInfo>)
        ensures
            (self.selected_index as int) < self.workspaces@.len() ==> (r matches Some(w)
                && *w == self.workspaces@[self.selected_index as int]),
            (self.selected_index as int) >= self.workspaces@.len() ==> r is None,
    {
        self.workspaces.get(self.selected_index)
    }

    /// Move the cursor one entry down, wrapping to the top; no-op on an
    /// empty list.
    pub fn next(&mut self)
        requires
            old(self).inv(),
        ensures
            final(self).inv(),
            same_but_cursor(*old(self), *final(self)),
            old(self).workspaces@.len() > 0 ==> final(self).selected_index == next_index(
                old(self).selected_index as int,
                old(self).workspaces@.len() as int,
            ),
            old(self).workspaces@.len() == 0 ==> final(self).selected_index == old(self).selected_index,
    {
        if self.workspaces.len() > 0 {
            self.selected_index = (self.selected_index + 1) % self.workspaces.len();
        }
    }

    /// Move the cursor one entry up, wrapping to the bottom; no-op on an
    /// empty list.
    pub fn previous(&mut self)
        requires
            old(self).inv(),
        ensures
            final(self).inv(),
            same_but_cursor(*old(self), *final(self)),
            old(self).workspaces@.len() > 0 ==> final(self).selected_index == prev_index(
                old(self).selected_index as int,
                old(self).workspaces@.len() as int,
            ),
            old(self).workspaces@.len() == 0 ==> final(self).selected_index == old(self).selected_index,
    {
        if self.workspaces.len() > 0 {
            self.selected_index = if self.selected_index == 0 {
                self.workspaces.len() - 1
            } else {
                self.selected_index - 1
            };
        }
    }

    pub fn quit(&mut self)
        ensures
            same_but_flags(*old(self), *final(self)),
            final(self).should_quit,
            final(self).show_delete_dialog == old(self).show_delete_dialog,
            final(self).show_details_dialog == old(self).show_details_dialog,
    {
        self.should_quit = true;
    }

    pub fn show_delete_confirmation(&mut self)
        ensures
            same_but_flags(*old(self), *final(self)),
            final(self).should_quit == old(self).should_quit,
            final(self).show_delete_dialog,
            final(self).show_details_dialog == old(self).show_details_dialog,
    {
        self.show_delete_dialog = true;
    }

    pub fn hide_delete_confirmation(&mut self)
        ensures
            same_but_flags(*old(self), *final(self)),
            final(self).should_quit == old(self).should_quit,
            !final(self).show_delete_dialog,
            final(self).show_details_dialog == old(self).show_details_dialog,
    {
        self.show_delete_dialog = false;
    }

    pub fn is_in_delete_confirmation(&self) -> (r: bool)
        ensures
            r == self.show_delete_dialog,
    {
        self.show_delete_dialog
    }

    /// Drop the first entry whose name matches, shrink the selection vector
    /// in lock-step, and re-clamp the cursor.
    pub fn remove_workspace(&mut self, workspace_name: &str)
        requires
            old(self).inv(),
        ensures
            final(self).inv(),
            final(self).should_quit == old(self).should_quit,
            final(self).show_delete_dialog == old(self).show_delete_dialog,
            final(self).show_details_dialog == old(self).show_details_dialog,
            (forall|j: int|
                0 <= j < old(self).workspaces@.len() ==> old(self).workspaces@[j].name@
                    != workspace_name@) ==> {
                &&& final(self).workspaces@ == old(self).workspaces@
                &&& final(self).selected_workspaces@ == old(self).selected_workspaces@
            },
            (exists|j: int|
                0 <= j < old(self).workspaces@.len() && old(self).workspaces@[j].name@
                    == workspace_name@) ==> (exists|k: int|
                {
                    &&& 0 <= k < old(self).workspaces@.len()
                    &&& old(self).workspaces@[k].name@ == workspace_name@
                    &&& (forall|j: int|
                        0 <= j < k ==> old(self).workspaces@[j].name@ != workspace_name@)
                    &&& final(self).workspaces@ == old(self).workspaces@.remove(k)
                    &&& final(self).selected_workspaces@ == old(self).selected_workspaces@.remove(k)
                }),
            final(self).selected_index as int == (if final(self).workspaces@.len() == 0 {
                0int
            } else if old(self).selected_index as int >= final(self).workspaces@.len() {
                final(self).workspaces@.len() - 1
            } else {
                old(self).selected_index as int
            }),
    {
        let found = find_by_name(&self.workspaces, workspace_name);
        if let Some(index) = found {
            self.workspaces.remove(index);
            if index < self.selected_workspaces.len() {
                self.selected_workspaces.remove(index);
            }
        }
        if self.selected_index >= self.workspaces.len() && self.workspaces.len() > 0 {
            self.selected_index = self.workspaces.len() - 1;
        } else if self.workspaces.len() == 0 {
            self.selected_index = 0;
        }
    }

    pub fn show_details(&mut self)
        ensures
            same_but_flags(*old(self), *final(self)),
            final(self).should_quit == old(self).should_quit,
            final(self).show_delete_dialog == old(self).show_delete_dialog,
            final(self).show_details_dialog,
    {
        self.show_details_dialog = true;
    }

    pub fn hide_details(&mut self)
        ensures
            same_but_flags(*old(self), *final(self)),
            final(self).should_quit == old(self).should_quit,
            final(self).show_delete_dialog == old(self).show_delete_dialog,
            !final(self).show_details_dialog,
    {
        self.show_details_dialog = false;
    }

    pub fn is_in_details_view(&self) -> (r: bool)
        ensures
            r == self.show_details_dialog,
    {
        self.show_details_dialog
    }

    /// Flip the selection mark under the cursor.
    pub fn toggle_current_selection(&mut self)
        ensures
            same_but_selection(*old(self), *final(self)),
            (old(self).selected_index as int) < old(self).selected_workspaces@.len() ==> final(self).selected_workspaces@ == old(self).selected_workspaces@.update(
                old(self).selected_index as int,
                !old(self).selected_workspaces@[old(self).selected_index as int],
            ),
            (old(self).selected_index as int) >= old(self).selected_workspaces@.len() ==> final(self).selected_workspaces@ == old(self).selected_workspaces@,
    {
        if self.selected_index < self.selected_workspaces.len() {
            let v = !self.selected_workspaces[self.selected_index];
            self.selected_workspaces.set(self.selected_index, v);
        }
    }

    /// Select every workspace, unless all are already selected, in which
    /// case clear every mark.
    pub fn toggle_all_selection(&mut self)
        ensures
            same_but_selection(*old(self), *final(self)),
            final(self).selected_workspaces@.len() == old(self).selected_workspaces@.len(),
            forall|i: int|
                0 <= i < final(self).selected_workspaces@.len() ==> final(self).selected_workspaces@[i] == !all_true(old(self).selected_workspaces@),
    {
        let mut i: usize = 0;
        let mut all_selected = true;
        while i < self.selected_workspaces.len()
            invariant
                0 <= i <= self.selected_workspaces@.len(),
                all_selected == all_true(self.selected_workspaces@.take(i as int)),
                *self == *old(self),
            decreases self.selected_workspaces@.len() - i,
        {
            proof {
                assert(self.selected_workspaces@.take(i + 1).drop_last() =~= self
                    .selected_workspaces@.take(i as int));
                assert(self.selected_workspaces@.take(i + 1).last()
                    == self.selected_workspaces@[i as int]);
            }
            if !self.selected_workspaces[i] {
                all_selected = false;
            }
            i += 1;
        }
        proof {
            assert(self.selected_workspaces@.take(self.selected_workspaces@.len() as int) =~= self
                .selected_workspaces@);
        }
        let new_state = !all_selected;
        let mut j: usize = 0;
        while j < self.selected_workspaces.len()
            invariant
                0 <= j <= self.selected_workspaces@.len(),
                self.selected_workspaces@.len() == old(self).selected_workspaces@.len(),
                forall|k: int| 0 <= k < j ==> self.selected_workspaces@[k] == new_state,
                forall|k: int|
                    j <= k < self.selected_workspaces@.len() ==> self.selected_workspaces@[k]
                        == old(self).selected_workspaces@[k],
                new_state == !all_true(old(self).selected_workspaces@),
                same_but_selection(*old(self), *self),
            decreases self.selected_workspaces@.len() - j,
        {
            self.selected_workspaces.set(j, new_state);
            j += 1;
        }
    }

    /// How many workspaces are currently marked.
    pub fn get_selected_count(&self) -> (r: usize)
        ensures
            r as int == count_true(self.selected_workspaces@),
    {
        let mut count: usize = 0;
        let mut i: usize = 0;
        while i < self.selected_workspaces.len()
            invariant
                0 <= i <= self.selected_workspaces@.len(),
                count as int == count_true(self.selected_workspaces@.take(i as int)),
                count <= i,
            decreases self.selected_workspaces@.len() - i,
        {
            proof {
                assert(self.selected_workspaces@.take(i + 1).drop_last() =~= self
                    .selected_workspaces@.take(i as int));
            }
            if self.selected_workspaces[i] {
                count += 1;
            }
            i += 1;
        }
        proof {
            assert(self.selected_workspaces@.take(self.selected_workspaces@.len() as int) =~= self
                .selected_workspaces@);
        }
        count
    }

    /// The positions of the marked workspaces, in ascending order.
    pub fn get_selected_indices(&self) -> (r: Vec<usize>)
        ensures
            r@.map_values(|u: usize| u as int) == true_indices(self.selected_workspaces@),
            forall|k: int| 0 <= k < r@.len() ==> (r@[k] as int) < self.selected_workspaces@.len(),
    {
        let mut result: Vec<usize> = Vec::new();
        let mut i: usize = 0;
        while i < self.selected_workspaces.len()
            invariant
                0 <= i <= self.selected_workspaces@.len(),
                result@.map_values(|u: usize| u as int) == true_indices(
                    self.selected_workspaces@.take(i as int),
                ),
                forall|k: int| 0 <= k < result@.len() ==> (result@[k] as int) < i,
            decreases self.selected_workspaces@.len() - i,
        {
            proof {
                assert(self.selected_workspaces@.take(i + 1).drop_last() =~= self
                    .selected_workspaces@.take(i as int));
            }
            if self.selected_workspaces[i] {
                result.push(i);
                proof {
                    assert(result@.map_values(|u: usize| u as int) =~= result@.drop_last()
                        .map_values(|u: usize| u as int) + seq![i as int]);
                }
            }
            i += 1;
        }
        proof {
            assert(self.selected_workspaces@.take(self.selected_workspaces@.len() as int) =~= self
                .selected_workspaces@);
        }
        result
    }

    /// The marked workspaces themselves, in list order.
    pub fn get_selected_workspaces(&self) -> (r: Vec<&WorkspaceInfo>)
        requires
            self.inv(),
        ensures
            r@.len() == true_indices(self.selected_workspaces@).len(),
            forall|k: int|
                0 <= k < r@.len() ==> *r@[k] == self.workspaces@[true_indices(
                    self.selected_workspaces@,
                )[k]],
    {
        proof {
            lemma_true_indices_in_range(self.selected_workspaces@);
        }
        let indices = self.get_selected_indices();
        let mut result: Vec<&WorkspaceInfo> = Vec::new();
        let mut k: usize = 0;
        while k < indices.len()
            invariant
                self.inv(),
                0 <= k <= indices@.len(),
                indices@.map_values(|u: usize| u as int) == true_indices(
                    self.selected_workspaces@,
                ),
                forall|j: int|
                    0 <= j < indices@.len() ==> (indices@[j] as int)
                        < self.selected_workspaces@.len(),
                result@.len() == k,
                forall|j: int|
                    0 <= j < k ==> *result@[j] == self.workspaces@[true_indices(
                        self.selected_workspaces@,
                    )[j]],
            decreases indices@.len() - k,
        {
            let idx = indices[k];
            proof {
                assert(indices@.map_values(|u: usize| u as int)[k as int] == indices@[k as int]
                    as int);
            }
            result.push(&self.workspaces[idx]);
            k += 1;
        }
        result
    }

    /// Clear every selection mark.
    pub fn clear_all_selections(&mut self)
        ensures
            same_but_selection(*old(self), *final(self)),
            final(self).selected_workspaces@.len() == old(self).selected_workspaces@.len(),
            forall|i: int|
                0 <= i < final(self).selected_workspaces@.len() ==> !final(self).selected_workspaces@[i],
    {
        let mut i: usize = 0;
        while i < self.selected_workspaces.len()
            invariant
                0 <= i <= self.selected_workspaces@.len(),
                self.selected_workspaces@.len() == old(self).selected_workspaces@.len(),
                forall|k: int| 0 <= k < i ==> !self.selected_workspaces@[k],
                same_but_selection(*old(self), *self),
            decreases self.selected_workspaces@.len() - i,
        {
            self.selected_workspaces.set(i, false);
            i += 1;
        }
    }

    /// Whether the workspace under the cursor is marked.
    pub fn is_current_workspace_selected(&self) -> (r: bool)
        ensures
            r == ((self.selected_index as int) < self.selected_workspaces@.len()
                && self.selected_workspaces@[self.selected_index as int]),
    {
        if self.selected_index < self.selected_workspaces.len() {
            self.selected_workspaces[self.selected_index]
        } else {
            false
        }
    }
}

/// Position of the first workspace with the given name, if any.
fn find_by_name(ws: &Vec<WorkspaceInfo>, name: &str) -> (r: Option<usize>)
    ensures
        r matches Some(k) ==> {
            &&& (k as int) < ws@.len()
            &&& ws@[k as int].name@ == name@
            &&& (forall|j: int| 0 <= j < k as int ==> ws@[j].name@ != name@)
        },
        r is None ==> (forall|j: int| 0 <= j < ws@.len() ==> ws@[j].name@ != name@),
{
    let mut i: usize = 0;
    while i < ws.len()
        invariant
            0 <= i <= ws@.len(),
            forall|j: int| 0 <= j < i ==> ws@[j].name@ != name@,
        decreases ws@.len() - i,
    {
        if crate::text::str_eq(ws[i].name.as_str(), name) {
            return Some(i);
        }
        i += 1;
    }
    None
}

/// Every position reported by `true_indices` is a valid position of the
/// vector it was taken from.
pub proof fn lemma_true_indices_in_range(s: Seq<bool>)
    ensures
        forall|k: int| 0 <= k < true_indices(s).len() ==> 0 <= #[trigger] true_indices(s)[k]
            < s.len(),
    decreases s.len(),
{
    if s.len() > 0 {
        lemma_true_indices_in_range(s.drop_last());
        assert forall|k: int| 0 <= k < true_indices(s).len() implies 0 <= #[trigger] true_indices(
            s,
        )[k] < s.len() by {
            let head = true_indices(s.drop_last());
            if k < head.len() {
                assert(true_indices(s)[k] == head[k]);
            } else {
                assert(s.last());
                assert(true_indices(s)[k] == s.len() - 1);
            }
        }
    }
}

/// The count of set marks equals the number of positions `true_indices`
/// reports.
pub proof fn lemma_count_matches_indices(s: Seq<bool>)
    ensures
        count_true(s) == true_indices(s).len(),
    decreases s.len(),
{
    if s.len() > 0 {
        lemma_count_matches_indices(s.drop_last());
    }
}

/// Wraparound symmetry of cursor navigation: from any position of a
/// non-empty list, one step down followed by one step up (and the other way
/// round) returns to the original position.
pub proof fn lemma_wraparound_symmetry(cur: int, len: int)
    requires
        0 < len,
        0 <= cur < len,
    ensures
        prev_index(next_index(cur, len), len) == cur,
        next_index(prev_index(cur, len), len) == cur,
{
    if cur + 1 == len {
        assert((cur + 1) % len == 0) by {
            vstd::arithmetic::div_mod::lemma_mod_self_0(len);
        }
    } else {
        assert((cur + 1) % len == cur + 1) by {
            vstd::arithmetic::div_mod::lemma_small_mod((cur + 1) as nat, len as nat);
        }
    }
    if cur == 0 {
        assert((len - 1 + 1) % len == 0) by {
            vstd::arithmetic::div_mod::lemma_mod_self_0(len);
        }
    } else {
        assert((cur - 1 + 1) % len == cur) by {
            vstd::arithmetic::div_mod::lemma_small_mod(cur as nat, len as nat);
        }
    }
}

/// For any non-empty workspace list, stepping the cursor one entry down and
/// then one entry up (or the other way round) returns it to the original
/// position, whatever that position was: wraparound symmetry of `next` and
/// `previous`.
pub proof fn lemma_next_previous_roundtrip(a: App, b: App, c: App)
    requires
        a.inv(),
        a.workspaces@.len() > 0,
        same_but_cursor(a, b),
        same_but_cursor(b, c),
        ({
            let len = a.workspaces@.len() as int;
            (b.selected_index as int == next_index(a.selected_index as int, len)
                && c.selected_index as int == prev_index(b.selected_index as int, len)) || (
            b.selected_index as int == prev_index(a.selected_index as int, len)
                && c.selected_index as int == next_index(b.selected_index as int, len))
        }),
    ensures
        c.selected_index == a.selected_index,
        same_but_cursor(a, c),
{
    lemma_wraparound_symmetry(a.selected_index as int, a.workspaces@.len() as int);
}

/// Toggling all selections twice restores a uniform selection vector
/// exactly: one in which every mark has the same value.  (A partially
/// selected vector is first completed, then cleared, so it is not restored.)
pub proof fn lemma_toggle_all_twice_restores(s: Seq<bool>, s1: Seq<bool>, s2: Seq<bool>)
    requires
        forall|i: int, j: int| 0 <= i < s.len() && 0 <= j < s.len() ==> s[i] == s[j],
        s1.len() == s.len(),
        forall|i: int| 0 <= i < s1.len() ==> s1[i] == !all_true(s),
        s2.len() == s1.len(),
        forall|i: int| 0 <= i < s2.len() ==> s2[i] == !all_true(s1),
    ensures
        s2 =~= s,
{
    if s.len() > 0 {
        if all_true(s) {
            assert(!s1[0]);
            assert(!all_true(s1));
        } else {
            assert(exists|i: int| 0 <= i < s.len() && !s[i]);
            let w = choose|i: int| 0 <= i < s.len() && !s[i];
            assert(forall|j: int| 0 <= j < s.len() ==> s[j] == s[w]);
            assert(all_true(s1));
        }
    }
}

/// Removing an entry leaves the cursor within the shrunken list (or at 0 if
/// the list became empty) and keeps the selection vector in lock-step with
/// the workspace list.
pub proof fn lemma_removal_keeps_cursor_in_range(pre: App, post: App)
    requires
        pre.inv(),
        post.workspaces@.len() == pre.workspaces@.len() - 1 || post.workspaces@.len()
            == pre.workspaces@.len(),
        post.selected_workspaces@.len() == post.workspaces@.len(),
        post.selected_index as int == (if post.workspaces@.len() == 0 {
            0int
        } else if pre.selected_index as int >= post.workspaces@.len() {
            post.workspaces@.len() - 1
        } else {
            pre.selected_index as int
        }),
    ensures
        post.inv(),
        post.workspaces@.len() == 0 ==> post.selected_index == 0,
        post.workspaces@.len() > 0 ==> (post.selected_index as int) < post.workspaces@.len(),
{
}

} // verus!
