//! The window controller: the two operations a front-end can invoke.
//!
//! Each operation resolves the well-known "main" window in the registry and
//! applies host primitives to it. Whether a primitive succeeds is the host's
//! to report; that report enters here as a [`HostOutcome`] value, and the
//! operation's effect on the registry and its returned result are proved for
//! every combination of outcomes. The step functions [`show_step`] and
//! [`grab_step`] state each operation as a mathematical transition, and the
//! executable operations are proved to follow them exactly.

use vstd::prelude::*;

use crate::registry::{
    Registry, WindowModel, has_window, index_of, lemma_index_of_agrees, lemma_wf_update, wf,
};

verus! {

/// Why an operation did not complete.
#[derive(Clone, Copy, Debug, PartialEq, Eq, Structural)]
pub enum ControllerError {
    /// No window is registered under the expected identifier.
    WindowNotFound,
    /// A host primitive (show or cursor grab) reported failure.
    HostOperationFailed,
}

/// What a host primitive reported when it was applied.
#[derive(Clone, Copy, Debug, PartialEq, Eq, Structural)]
pub enum HostOutcome {
    Succeeded,
    Failed,
}

/// The identifier of the one well-known application window.
pub open spec fn main_id() -> Seq<char> {
    "main"@
}

/// The transition `grab_cursor` makes on a registry: resolve the window under
/// `id`, and if the host's grab primitive succeeded, set its cursor-grab flag.
/// The pair is the registry after the call and the returned result.
pub open spec fn grab_step(
    s: Seq<WindowModel>,
    id: Seq<char>,
    host_ok: bool,
) -> (Seq<WindowModel>, Result<(), ControllerError>) {
    if !has_window(s, id) {
        (s, Err(ControllerError::WindowNotFound))
    } else if !host_ok {
        (s, Err(ControllerError::HostOperationFailed))
    } else {
        let i = index_of(s, id);
        (
            s.update(i, (WindowModel { id: s[i].id, visible: s[i].visible, cursor_grab: true })),
            Ok(()),
        )
    }
}

/// The transition `show_window` makes on a registry: resolve the window under
/// `id`, show it, then grab the cursor for it. The show primitive is applied
/// first; if it fails nothing has changed. The grab primitive is applied only
/// after a successful show; if it fails the window stays visible with its
/// cursor-grab flag as it was — the partial state the sequential host calls
/// leave behind.
pub open spec fn show_step(
    s: Seq<WindowModel>,
    id: Seq<char>,
    show_ok: bool,
    grab_ok: bool,
) -> (Seq<WindowModel>, Result<(), ControllerError>) {
    if !has_window(s, id) {
        (s, Err(ControllerError::WindowNotFound))
    } else if !show_ok {
        (s, Err(ControllerError::HostOperationFailed))
    } else {
        let i = index_of(s, id);
        let shown = s.update(
            i,
            (WindowModel { id: s[i].id, visible: true, cursor_grab: s[i].cursor_grab }),
        );
        if !grab_ok {
            (shown, Err(ControllerError::HostOperationFailed))
        } else {
            (
                shown.update(i, (WindowModel { id: s[i].id, visible: true, cursor_grab: true })),
                Ok(()),
            )
        }
    }
}

/// Grabbing the cursor is idempotent: on a registry that holds a window
/// under `id`, a successful grab leaves its cursor-grab flag true, and a
/// second successful grab returns success again and leaves the registry
/// exactly as the first one did — there is no toggle.
pub proof fn lemma_grab_idempotent(s: Seq<WindowModel>, id: Seq<char>)
    requires
        wf(s),
        has_window(s, id),
    ensures
        ({
            let first = grab_step(s, id, true);
            let second = grab_step(first.0, id, true);
            &&& first.1 == Ok::<(), ControllerError>(())
            &&& first.0[index_of(first.0, id)].cursor_grab
            &&& second.1 == Ok::<(), ControllerError>(())
            &&& second.0 == first.0
        }),
{
    let i = index_of(s, id);
    assert(0 <= i < s.len() && s[i].id == id);
    let w = WindowModel { id: s[i].id, visible: s[i].visible, cursor_grab: true };
    let s1 = s.update(i, w);
    lemma_wf_update(s, i, w);
    lemma_index_of_agrees(s1, id, i);
    assert(s1[i] == w);
    assert(grab_step(s1, id, true).0 =~= s1);
}

/// Grabs the cursor for the "main" window.
///
/// `host` is what the host's cursor-grab primitive reported when it was
/// applied; when no window is found, or the report is a failure, the registry
/// keeps its old state. On success only the cursor-grab flag of the "main"
/// window changes: its visibility, and every other window, stay as they were.
pub fn grab_cursor(reg: &mut Registry, host: HostOutcome) -> (r: Result<(), ControllerError>)
    requires
        wf(old(reg)@),
    ensures
        wf(final(reg)@),
        (final(reg)@, r) == grab_step(old(reg)@, main_id(), host is Succeeded),
        !has_window(old(reg)@, main_id()) ==> r == Err::<(), ControllerError>(
            ControllerError::WindowNotFound,
        ) && final(reg)@ == old(reg)@,
        has_window(old(reg)@, main_id()) && host is Failed ==> r == Err::<(), ControllerError>(
            ControllerError::HostOperationFailed,
        ) && final(reg)@ == old(reg)@,
        has_window(old(reg)@, main_id()) && host is Succeeded ==> {
            let i = index_of(old(reg)@, main_id());
            &&& r == Ok::<(), ControllerError>(())
            &&& final(reg)@.len() == old(reg)@.len()
            &&& final(reg)@[i].cursor_grab
            &&& final(reg)@[i].visible == old(reg)@[i].visible
            &&& final(reg)@[i].id == old(reg)@[i].id
            &&& forall|j: int|
                0 <= j < old(reg)@.len() && j != i ==> final(reg)@[j] == old(reg)@[j]
        },
{
    let id: String = "main".to_owned();
    match reg.find(&id) {
        None => Err(ControllerError::WindowNotFound),
        Some(i) => {
            proof {
                lemma_index_of_agrees(reg@, main_id(), i as int);
            }
            match host {
                HostOutcome::Failed => Err(ControllerError::HostOperationFailed),
                HostOutcome::Succeeded => {
                    proof {
                        lemma_wf_update(
                            reg@,
                            i as int,
                            (WindowModel {
                                id: reg@[i as int].id,
                                visible: reg@[i as int].visible,
                                cursor_grab: true,
                            }),
                        );
                    }
                    reg.set_cursor_grab(i, true);
                    Ok(())
                },
            }
        },
    }
}

/// Shows the "main" window and, in the same invocation, grabs the cursor
/// for it.
///
/// `show` and `grab` are what the host's two primitives reported; the grab
/// primitive is applied only after a successful show, so `grab` is consulted
/// only then. When no window is found, or the show primitive fails, the
/// registry keeps its old state. After a successful show the window is
/// visible even if the grab primitive then fails — the two host calls are
/// sequential and nothing rolls the first one back.
pub fn show_window(
    reg: &mut Registry,
    show: HostOutcome,
    grab: HostOutcome,
) -> (r: Result<(), ControllerError>)
    requires
        wf(old(reg)@),
    ensures
        wf(final(reg)@),
        (final(reg)@, r) == show_step(old(reg)@, main_id(), show is Succeeded, grab is Succeeded),
        !has_window(old(reg)@, main_id()) ==> r == Err::<(), ControllerError>(
            ControllerError::WindowNotFound,
        ) && final(reg)@ == old(reg)@,
        has_window(old(reg)@, main_id()) && show is Failed ==> r == Err::<(), ControllerError>(
            ControllerError::HostOperationFailed,
        ) && final(reg)@ == old(reg)@,
        has_window(old(reg)@, main_id()) && show is Succeeded ==> {
            let i = index_of(old(reg)@, main_id());
            &&& final(reg)@.len() == old(reg)@.len()
            &&& final(reg)@[i].visible
            &&& final(reg)@[i].id == old(reg)@[i].id
            &&& forall|j: int|
                0 <= j < old(reg)@.len() && j != i ==> final(reg)@[j] == old(reg)@[j]
            &&& grab is Succeeded ==> r == Ok::<(), ControllerError>(())
                && final(reg)@[i].cursor_grab
            &&& grab is Failed ==> r == Err::<(), ControllerError>(
                ControllerError::HostOperationFailed,
            ) && final(reg)@[i].cursor_grab == old(reg)@[i].cursor_grab
        },
{
    let id: String = "main".to_owned();
    match reg.find(&id) {
        None => Err(ControllerError::WindowNotFound),
        Some(i) => {
            proof {
                lemma_index_of_agrees(reg@, main_id(), i as int);
            }
            match show {
                HostOutcome::Failed => Err(ControllerError::HostOperationFailed),
                HostOutcome::Succeeded => {
                    proof {
                        lemma_wf_update(
                            reg@,
                            i as int,
                            (WindowModel {
                                id: reg@[i as int].id,
                                visible: true,
                                cursor_grab: reg@[i as int].cursor_grab,
                            }),
                        );
                    }
                    reg.show(i);
                    proof {
                        lemma_index_of_agrees(reg@, main_id(), i as int);
                    }
                    match grab {
                        HostOutcome::Failed => Err(ControllerError::HostOperationFailed),
                        HostOutcome::Succeeded => {
                            proof {
                                lemma_wf_update(
                                    reg@,
                                    i as int,
                                    (WindowModel {
                                        id: reg@[i as int].id,
                                        visible: reg@[i as int].visible,
                                        cursor_grab: true,
                                    }),
                                );
                            }
                            reg.set_cursor_grab(i, true);
                            Ok(())
                        },
                    }
                },
            }
        },
    }
}

} // verus!
