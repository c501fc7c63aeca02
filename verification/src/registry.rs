//! A model of the host's window registry.
//!
//! The host owns a set of windows, each under a unique string identifier and
//! carrying a visibility flag and a cursor-grab flag. The registry here holds
//! those windows as plain values, so the effect of a host primitive (show a
//! window, set its cursor grab) can be stated and proved on it.

use vstd::prelude::*;

verus! {

/// One window of the host: its identifier, whether it is visible, and
/// whether the cursor is currently grabbed (captured) for it.
pub struct Window {
    pub id: String,
    pub visible: bool,
    pub cursor_grab: bool,
}

/// The mathematical image of a [`Window`]: the identifier as a sequence of
/// characters beside the two flags.
pub struct WindowModel {
    pub id: Seq<char>,
    pub visible: bool,
    pub cursor_grab: bool,
}

impl View for Window {
    type V = WindowModel;

    open spec fn view(&self) -> WindowModel {
        WindowModel { id: self.id@, visible: self.visible, cursor_grab: self.cursor_grab }
    }
}

/// Whether `s` holds a window under the identifier `id`.
pub open spec fn has_window(s: Seq<WindowModel>, id: Seq<char>) -> bool {
    exists|i: int| 0 <= i < s.len() && s[i].id == id
}

/// The position of the window under `id` in `s`; meaningful only when
/// `has_window(s, id)` holds, and unique when `wf(s)` holds.
pub open spec fn index_of(s: Seq<WindowModel>, id: Seq<char>) -> int {
    choose|i: int| 0 <= i < s.len() && s[i].id == id
}

/// Well-formedness of a registry: no two windows share an identifier.
pub open spec fn wf(s: Seq<WindowModel>) -> bool {
    forall|i: int, j: int|
        0 <= i < s.len() && 0 <= j < s.len() && i != j ==> s[i].id != s[j].id
}

/// Under `wf`, any position whose window carries `id` is the position
/// `index_of` denotes.
pub proof fn lemma_index_of_agrees(s: Seq<WindowModel>, id: Seq<char>, i: int)
    requires
        wf(s),
        0 <= i < s.len(),
        s[i].id == id,
    ensures
        has_window(s, id),
        index_of(s, id) == i,
{
    assert(has_window(s, id));
    assert(0 <= index_of(s, id) < s.len() && s[index_of(s, id)].id == id);
    if index_of(s, id) != i {
        assert(s[index_of(s, id)].id != s[i].id);
    }
}

/// Replacing a window with one under the same identifier keeps the
/// registry well-formed.
pub proof fn lemma_wf_update(s: Seq<WindowModel>, i: int, w: WindowModel)
    requires
        wf(s),
        0 <= i < s.len(),
        w.id == s[i].id,
    ensures
        wf(s.update(i, w)),
{
    let t = s.update(i, w);
    assert forall|p: int, q: int|
        0 <= p < t.len() && 0 <= q < t.len() && p != q implies t[p].id != t[q].id by {
        assert(s[p].id != s[q].id);
    }
}

/// The host's window registry, modelled as the sequence of its windows.
pub struct Registry {
    pub windows: Vec<Window>,
}

impl View for Registry {
    type V = Seq<WindowModel>;

    open spec fn view(&self) -> Seq<WindowModel> {
        self.windows@.map_values(|w: Window| w@)
    }
}

impl Registry {
    /// An empty registry: no window under any identifier.
    pub fn new() -> (r: Registry)
        ensures
            r@.len() == 0,
            wf(r@),
    {
        Registry { windows: Vec::new() }
    }

    /// The position of the window under `id`, if any.
    ///
    /// Relies on nothing outside the registry: it walks the windows and
    /// compares identifiers.
    pub fn find(&self, id: &String) -> (r: Option<usize>)
        ensures
            match r {
                Some(i) => 0 <= i < self@.len() && self@[i as int].id == id@,
                None => !has_window(self@, id@),
            },
    {
        let mut k: usize = 0;
        while k < self.windows.len()
            invariant
                k <= self.windows@.len(),
                self@.len() == self.windows@.len(),
                forall|j: int| 0 <= j < k ==> self@[j].id != id@,
            decreases self.windows@.len() - k,
        {
            if self.windows[k].id.eq(id) {
                return Some(k);
            }
            k = k + 1;
        }
        None
    }

    /// Decides well-formedness: whether no two windows share an identifier.
    ///
    /// A registry built through [`Registry::new`] and [`Registry::register`]
    /// is well-formed by construction; a caller that assembled one by hand
    /// can check it here before handing it to the controller.
    pub fn is_wf(&self) -> (b: bool)
        ensures
            b == wf(self@),
    {
        let n = self.windows.len();
        let mut i: usize = 0;
        while i < n
            invariant
                n == self@.len(),
                i <= n,
                forall|p: int, q: int|
                    0 <= p < i && 0 <= q < self@.len() && p != q ==> self@[p].id != self@[q].id,
            decreases n - i,
        {
            let mut j: usize = i + 1;
            while j < n
                invariant
                    n == self@.len(),
                    i < n,
                    i < j <= n,
                    forall|q: int| i < q < j ==> self@[i as int].id != self@[q].id,
                decreases n - j,
            {
                if self.windows[i].id.eq(&self.windows[j].id) {
                    proof {
                        assert(self@[i as int].id == self@[j as int].id);
                        assert(wf(self@) ==> self@[i as int].id != self@[j as int].id);
                    }
                    return false;
                }
                j = j + 1;
            }
            proof {
                assert forall|p: int, q: int|
                    0 <= p < i + 1 && 0 <= q < self@.len() && p != q
                    implies self@[p].id != self@[q].id by {
                    if p < i {
                    } else if q < i {
                        assert(self@[q].id != self@[p].id);
                    }
                }
            }
            i = i + 1;
        }
        true
    }

    /// Adds a window under `id`, hidden and with the cursor free, as the host
    /// does at startup; refuses an identifier that is already taken.
    pub fn register(&mut self, id: String) -> (added: bool)
        ensures
            added == !has_window(old(self)@, id@),
            added ==> final(self)@ == old(self)@.push(
                (WindowModel { id: id@, visible: false, cursor_grab: false }),
            ),
            !added ==> final(self)@ == old(self)@,
            wf(old(self)@) ==> wf(final(self)@),
    {
        match self.find(&id) {
            Some(_) => false,
            None => {
                let ghost s0 = self@;
                let ghost w = WindowModel { id: id@, visible: false, cursor_grab: false };
                self.windows.push(Window { id, visible: false, cursor_grab: false });
                proof {
                    assert(self@ =~= s0.push(w));
                    if wf(s0) {
                        assert forall|p: int, q: int|
                            0 <= p < self@.len() && 0 <= q < self@.len() && p != q
                            implies self@[p].id != self@[q].id by {
                            if p < s0.len() && q < s0.len() {
                                assert(s0[p].id != s0[q].id);
                            } else if p == s0.len() {
                                assert(!(0 <= q < s0.len() && s0[q].id == w.id));
                            } else {
                                assert(!(0 <= p < s0.len() && s0[p].id == w.id));
                            }
                        }
                    }
                }
                true
            },
        }
    }

    /// The effect of the host's show primitive on the window at `i`: its
    /// visibility flag becomes true, everything else stays.
    pub fn show(&mut self, i: usize)
        requires
            i < old(self)@.len(),
        ensures
            final(self)@ == old(self)@.update(i as int, (WindowModel {
                id: old(self)@[i as int].id,
                visible: true,
                cursor_grab: old(self)@[i as int].cursor_grab,
            })),
    {
        let ghost s0 = self@;
        self.windows[i].visible = true;
        proof {
            assert(self@ =~= s0.update(i as int, (WindowModel {
                id: s0[i as int].id,
                visible: true,
                cursor_grab: s0[i as int].cursor_grab,
            })));
        }
    }

    /// The effect of the host's cursor-grab primitive on the window at `i`:
    /// its cursor-grab flag becomes `grab`, everything else stays.
    pub fn set_cursor_grab(&mut self, i: usize, grab: bool)
        requires
            i < old(self)@.len(),
        ensures
            final(self)@ == old(self)@.update(i as int, (WindowModel {
                id: old(self)@[i as int].id,
                visible: old(self)@[i as int].visible,
                cursor_grab: grab,
            })),
    {
        let ghost s0 = self@;
        self.windows[i].cursor_grab = grab;
        proof {
            assert(self@ =~= s0.update(i as int, (WindowModel {
                id: s0[i as int].id,
                visible: s0[i as int].visible,
                cursor_grab: grab,
            })));
        }
    }
}

} // verus!
