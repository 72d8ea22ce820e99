//! Bookkeeping of the windows that listen to mouse buttons: the listeners
//! are registered with the first window and released with the last.

use vstd::prelude::*;

verus! {

/// A mouse button went down.
#[derive(Debug, Clone, Copy, PartialEq, Eq, Structural)]
pub struct ListenMouseDownEvent {
    pub button: usize,
}

/// A mouse button went up.
#[derive(Debug, Clone, Copy, PartialEq, Eq, Structural)]
pub struct ListenMouseUpEvent {
    pub button: usize,
}

/// The labels held in a list, as a set.
pub open spec fn labels_of(list: Seq<String>) -> Set<Seq<char>> {
    Set::new(
        |label: Seq<char>| exists|i: int| 0 <= i < list.len() && (#[trigger] list[i])@ == label,
    )
}

/// Whether no label stands twice in a list.
pub open spec fn distinct(list: Seq<String>) -> bool {
    forall|i: int, j: int|
        0 <= i < list.len() && 0 <= j < list.len() && i != j ==> (#[trigger] list[i])@
            != (#[trigger] list[j])@
}

/// What the service knows: the windows that listen, and which listeners
/// are registered.
pub struct ListenView {
    pub labels: Set<Seq<char>>,
    pub mouse_down: bool,
    pub mouse_up: bool,
}

/// The windows that listen to mouse buttons, and the listeners that serve
/// them.
pub struct ListenMouseService {
    window_label_set: Vec<String>,
    mouse_down_guard: bool,
    mouse_up_guard: bool,
}

impl View for ListenMouseService {
    type V = ListenView;

    closed spec fn view(&self) -> ListenView {
        ListenView {
            labels: labels_of(self.window_label_set@),
            mouse_down: self.mouse_down_guard,
            mouse_up: self.mouse_up_guard,
        }
    }
}

impl ListenMouseService {
    /// Whether the service's state is sound: no window is listed twice.
    pub closed spec fn wf(&self) -> bool {
        distinct(self.window_label_set@)
    }

    /// A service without windows and without listeners.
    pub fn new() -> (service: Self)
        ensures
            service.wf(),
            service@.labels == Set::<Seq<char>>::empty(),
            !service@.mouse_down,
            !service@.mouse_up,
    {
        let service = Self {
            window_label_set: Vec::new(),
            mouse_down_guard: false,
            mouse_up_guard: false,
        };
        assert(service@.labels =~= Set::<Seq<char>>::empty());
        service
    }

    /// Adds a window. The result says which listeners the caller has to
    /// register now: the one for buttons going down, and the one for
    /// buttons going up. The caller reports those it has registered with
    /// `registered`.
    pub fn start(&mut self, window_label: &str) -> (register: (bool, bool))
        requires
            old(self).wf(),
        ensures
            final(self).wf(),
            final(self)@.labels == old(self)@.labels.insert(window_label@),
            final(self)@.mouse_down == old(self)@.mouse_down,
            final(self)@.mouse_up == old(self)@.mouse_up,
            register.0 == !old(self)@.mouse_down,
            register.1 == !old(self)@.mouse_up,
    {
        let label = window_label.to_owned();
        let ghost before = self.window_label_set@;
        let mut known = false;
        let mut i: usize = 0;
        while i < self.window_label_set.len()
            invariant
                self.window_label_set@ == before,
                i <= before.len(),
                label@ == window_label@,
                known == exists|j: int| 0 <= j < i && (#[trigger] before[j])@ == label@,
            decreases self.window_label_set.len() - i,
        {
            if self.window_label_set[i] == label {
                known = true;
            }
            i = i + 1;
        }
        if !known {
            self.window_label_set.push(label);
            assert(self.window_label_set@[before.len() as int]@ == window_label@);
            assert forall|j: int| 0 <= j < before.len() implies (
            #[trigger] self.window_label_set@[j]) == before[j] by {}
        }
        let register = (!self.mouse_down_guard, !self.mouse_up_guard);
        assert(labels_of(self.window_label_set@) =~= labels_of(before).insert(window_label@)) by {
            let after = self.window_label_set@;
            assert forall|s: Seq<char>| labels_of(after).contains(s) implies labels_of(
                before,
            ).insert(window_label@).contains(s) by {
                let k = choose|k: int| 0 <= k < after.len() && (#[trigger] after[k])@ == s;
                if k < before.len() {
                    assert(before[k]@ == s);
                }
            }
            assert forall|s: Seq<char>|
                labels_of(before).insert(window_label@).contains(s) implies labels_of(
                after,
            ).contains(s) by {
                if s == window_label@ {
                    if known {
                        let k = choose|k: int| 0 <= k < before.len() && (#[trigger] before[k])@
                            == label@;
                        assert(after[k]@ == s);
                    } else {
                        assert(after[before.len() as int]@ == s);
                    }
                } else {
                    let k = choose|k: int| 0 <= k < before.len() && (#[trigger] before[k])@ == s;
                    assert(after[k]@ == s);
                }
            }
        }
        register
    }

    /// Notes which listeners the caller has registered.
    pub fn registered(&mut self, mouse_down: bool, mouse_up: bool)
        requires
            old(self).wf(),
        ensures
            final(self).wf(),
            final(self)@.labels == old(self)@.labels,
            final(self)@.mouse_down == (old(self)@.mouse_down || mouse_down),
            final(self)@.mouse_up == (old(self)@.mouse_up || mouse_up),
    {
        if mouse_down {
            self.mouse_down_guard = true;
        }
        if mouse_up {
            self.mouse_up_guard = true;
        }
    }

    /// Takes a window out of the list. When it was the last one the
    /// listeners are dropped, and the result tells the caller to release
    /// the source of the events.
    pub fn stop_core(
        window_label_set: &mut Vec<String>,
        mouse_down_guard: &mut bool,
        mouse_up_guard: &mut bool,
        window_label: &str,
    ) -> (release: bool)
        requires
            distinct(old(window_label_set)@),
        ensures
            distinct(final(window_label_set)@),
            labels_of(final(window_label_set)@) == labels_of(old(window_label_set)@).remove(
                window_label@,
            ),
            release == (final(window_label_set)@.len() == 0),
            release ==> !*final(mouse_down_guard) && !*final(mouse_up_guard),
            !release ==> *final(mouse_down_guard) == *old(mouse_down_guard),
            !release ==> *final(mouse_up_guard) == *old(mouse_up_guard),
    {
        let label = window_label.to_owned();
        let ghost before = window_label_set@;
        let mut at: Option<usize> = None;
        let mut i: usize = 0;
        while i < window_label_set.len()
            invariant
                window_label_set@ == before,
                i <= before.len(),
                label@ == window_label@,
                at matches Some(k) ==> k < i && before[k as int]@ == label@,
                at is None ==> forall|j: int| 0 <= j < i ==> (#[trigger] before[j])@ != label@,
            decreases window_label_set.len() - i,
        {
            if window_label_set[i] == label {
                at = Some(i);
            }
            i = i + 1;
        }
        if let Some(k) = at {
            window_label_set.remove(k);
        }
        proof {
            let after = window_label_set@;
            assert(distinct(after));
            assert(labels_of(after) =~= labels_of(before).remove(window_label@)) by {
                assert forall|s: Seq<char>| labels_of(after).contains(s) implies labels_of(
                    before,
                ).remove(window_label@).contains(s) by {
                    let j = choose|j: int| 0 <= j < after.len() && (#[trigger] after[j])@ == s;
                    if let Some(k) = at {
                        if j < k {
                            assert(before[j]@ == s);
                        } else {
                            assert(before[j + 1]@ == s);
                        }
                    } else {
                        assert(before[j]@ == s);
                    }
                }
                assert forall|s: Seq<char>|
                    labels_of(before).remove(window_label@).contains(s) implies labels_of(
                    after,
                ).contains(s) by {
                    let j = choose|j: int| 0 <= j < before.len() && (#[trigger] before[j])@ == s;
                    if let Some(k) = at {
                        if j < k {
                            assert(after[j]@ == s);
                        } else {
                            assert(after[j - 1]@ == s);
                        }
                    } else {
                        assert(after[j]@ == s);
                    }
                }
            }
        }
        if window_label_set.len() != 0 {
            return false;
        }
        // No window listens any more.
        *mouse_down_guard = false;
        *mouse_up_guard = false;
        true
    }

    /// Takes a window out of the list of this service. The result tells
    /// the caller whether to release the source of the events.
    pub fn stop_by_window_label(&mut self, window_label: &str) -> (release: bool)
        requires
            old(self).wf(),
        ensures
            final(self).wf(),
            final(self)@.labels == old(self)@.labels.remove(window_label@),
            release == (final(self)@.labels == Set::<Seq<char>>::empty()),
            release ==> !final(self)@.mouse_down && !final(self)@.mouse_up,
            !release ==> final(self)@.mouse_down == old(self)@.mouse_down && final(self)@.mouse_up
                == old(self)@.mouse_up,
    {
        let release = Self::stop_core(
            &mut self.window_label_set,
            &mut self.mouse_down_guard,
            &mut self.mouse_up_guard,
            window_label,
        );
        proof {
            let after = self.window_label_set@;
            if after.len() == 0 {
                assert(labels_of(after) =~= Set::<Seq<char>>::empty());
            } else {
                assert(labels_of(after).contains(after[0]@));
            }
        }
        release
    }

    /// Whether the given window listens.
    pub fn is_listening(&self, window_label: &str) -> (listening: bool)
        ensures
            listening == self@.labels.contains(window_label@),
    {
        let label = window_label.to_owned();
        let mut i: usize = 0;
        while i < self.window_label_set.len()
            invariant
                i <= self.window_label_set@.len(),
                label@ == window_label@,
                forall|j: int| 0 <= j < i ==> (#[trigger] self.window_label_set@[j])@ != label@,
            decreases self.window_label_set.len() - i,
        {
            if self.window_label_set[i] == label {
                return true;
            }
            i = i + 1;
        }
        false
    }
}

} // verus!
