//! UI-independent accessibility preferences and keyboard navigation.
//!
//! A UI maps its widgets to [`FocusTarget`] values, passes keys to
//! [`KeyboardNavigation`], and applies the resulting state change.

use vstd::prelude::*;

verus! {

/// User preferences that affect accessibility-related presentation behavior.
#[derive(Debug, Clone, Copy, PartialEq, Eq)]
pub struct AccessibilityPreferences {
    high_contrast: bool,
    reduced_motion: bool,
}

/// The abstract state of [`AccessibilityPreferences`].
pub struct PreferencesModel {
    pub high_contrast: bool,
    pub reduced_motion: bool,
}

impl View for AccessibilityPreferences {
    type V = PreferencesModel;

    closed spec fn view(&self) -> PreferencesModel {
        PreferencesModel { high_contrast: self.high_contrast, reduced_motion: self.reduced_motion }
    }
}

impl Default for AccessibilityPreferences {
    fn default() -> (p: Self)
        ensures
            !p@.high_contrast && !p@.reduced_motion,
    {
        Self::new()
    }
}

impl AccessibilityPreferences {
    /// Creates preferences with both accessibility options disabled.
    pub fn new() -> (p: Self)
        ensures
            !p@.high_contrast,
            !p@.reduced_motion,
    {
        AccessibilityPreferences { high_contrast: false, reduced_motion: false }
    }

    /// Creates preferences from their two independent options.
    pub fn with_options(high_contrast: bool, reduced_motion: bool) -> (p: Self)
        ensures
            p@.high_contrast == high_contrast,
            p@.reduced_motion == reduced_motion,
    {
        AccessibilityPreferences { high_contrast, reduced_motion }
    }

    pub fn high_contrast(&self) -> (b: bool)
        ensures
            b == self@.high_contrast,
    {
        self.high_contrast
    }

    pub fn reduced_motion(&self) -> (b: bool)
        ensures
            b == self@.reduced_motion,
    {
        self.reduced_motion
    }

    pub fn set_high_contrast(&mut self, enabled: bool)
        ensures
            final(self)@.high_contrast == enabled,
            final(self)@.reduced_motion == old(self)@.reduced_motion,
    {
        self.high_contrast = enabled;
    }

    pub fn set_reduced_motion(&mut self, enabled: bool)
        ensures
            final(self)@.reduced_motion == enabled,
            final(self)@.high_contrast == old(self)@.high_contrast,
    {
        self.reduced_motion = enabled;
    }

    pub fn toggle_high_contrast(&mut self)
        ensures
            final(self)@.high_contrast == !old(self)@.high_contrast,
            final(self)@.reduced_motion == old(self)@.reduced_motion,
    {
        self.high_contrast = !self.high_contrast;
    }

    pub fn toggle_reduced_motion(&mut self)
        ensures
            final(self)@.reduced_motion == !old(self)@.reduced_motion,
            final(self)@.high_contrast == old(self)@.high_contrast,
    {
        self.reduced_motion = !self.reduced_motion;
    }
}

/// A focusable item in the application chrome, identified by a stable index
/// supplied by the caller.
#[derive(Debug, Clone, Copy, PartialEq, Eq, Structural)]
pub enum FocusTarget {
    Tab(usize),
    Action(usize),
}

/// Keys understood by [`KeyboardNavigation`].
#[derive(Debug, Clone, Copy, PartialEq, Eq, Structural)]
pub enum NavigationKey {
    Tab,
    ShiftTab,
    Left,
    Right,
    Up,
    Down,
    Home,
    End,
    Enter,
    Space,
}

/// The result of processing a navigation key.
#[derive(Debug, Clone, Copy, PartialEq, Eq, Structural)]
pub enum NavigationResult {
    /// Focus moved to this item.
    Focused(FocusTarget),
    /// The focused item was activated.
    Activated(FocusTarget),
    /// The key has no effect for the current model state.
    Ignored,
}

/// The complete focus order: all tabs in order, then all actions in order.
pub open spec fn focus_order_spec(tab_count: nat, action_count: nat) -> Seq<FocusTarget> {
    Seq::new(
        tab_count + action_count,
        |i: int|
            if i < tab_count {
                FocusTarget::Tab(i as usize)
            } else {
                FocusTarget::Action((i - tab_count) as usize)
            },
    )
}

/// The abstract state of a [`KeyboardNavigation`].
pub struct NavigationModel {
    pub order: Seq<FocusTarget>,
    pub focused: Option<nat>,
    pub active_tab: Option<usize>,
}

/// State machine for keyboard focus and activation of tabs and actions.
///
/// Focus order is always all tabs in declaration order followed by all actions
/// in declaration order. Tab and arrow navigation wraps within that complete
/// order; `Home` and `End` select its first and last item. Activation changes
/// the active tab when a tab is activated and reports the target for actions.
#[derive(Debug, PartialEq, Eq)]
pub struct KeyboardNavigation {
    focus_order: Vec<FocusTarget>,
    focused: Option<usize>,
    active_tab: Option<usize>,
}

impl Clone for KeyboardNavigation {
    fn clone(&self) -> (c: Self)
        ensures
            c@ == self@,
    {
        proof {
            use_type_invariant(self);
        }
        let mut focus_order: Vec<FocusTarget> = Vec::new();
        let mut i: usize = 0;
        while i < self.focus_order.len()
            invariant
                i <= self.focus_order.len(),
                focus_order@ =~= self.focus_order@.take(i as int),
            decreases self.focus_order.len() - i,
        {
            focus_order.push(self.focus_order[i]);
            i = i + 1;
        }
        assert(focus_order@ =~= self.focus_order@);
        KeyboardNavigation { focus_order, focused: self.focused, active_tab: self.active_tab }
    }
}

impl View for KeyboardNavigation {
    type V = NavigationModel;

    closed spec fn view(&self) -> NavigationModel {
        NavigationModel {
            order: self.focus_order@,
            focused: match self.focused {
                Some(i) => Some(i as nat),
                None => None,
            },
            active_tab: self.active_tab,
        }
    }
}

/// The active tab after a key that produced `r`, when it was `before`: only
/// activating a tab changes it, to that tab.
pub open spec fn tab_after(before: Option<usize>, r: NavigationResult) -> Option<usize> {
    match r {
        NavigationResult::Activated(FocusTarget::Tab(tab)) => Some(tab),
        _ => before,
    }
}

/// The focus position after one step forward in a wrapping order of `len`.
pub open spec fn step_forward(current: nat, len: nat) -> nat {
    (current + 1) % (len as int) as nat
}

/// The focus position after one step backward in a wrapping order of `len`.
pub open spec fn step_backward(current: nat, len: nat) -> nat {
    ((current + len - 1) % (len as int)) as nat
}

impl KeyboardNavigation {
    /// The focused position is always inside the focus order.
    #[verifier::type_invariant]
    closed spec fn well_formed(&self) -> bool {
        self.focused matches Some(i) ==> i < self.focus_order.len()
    }

    /// Builds a navigation model with `tab_count` tabs and `action_count`
    /// actions. The initial focus is the first item, if any.
    pub fn new(tab_count: usize, action_count: usize) -> (n: Self)
        requires
            tab_count + action_count <= usize::MAX,
        ensures
            n@.order == focus_order_spec(tab_count as nat, action_count as nat),
            n@.focused == if tab_count + action_count > 0 {
                Some(0nat)
            } else {
                None::<nat>
            },
            n@.active_tab == if tab_count > 0 {
                Some(0usize)
            } else {
                None::<usize>
            },
    {
        let mut focus_order: Vec<FocusTarget> = Vec::new();
        let mut i: usize = 0;
        while i < tab_count
            invariant
                i <= tab_count,
                focus_order@ =~= focus_order_spec(tab_count as nat, action_count as nat).take(
                    i as int,
                ),
            decreases tab_count - i,
        {
            focus_order.push(FocusTarget::Tab(i));
            i = i + 1;
        }
        let mut j: usize = 0;
        while j < action_count
            invariant
                j <= action_count,
                tab_count + action_count <= usize::MAX,
                focus_order@ =~= focus_order_spec(tab_count as nat, action_count as nat).take(
                    tab_count + j,
                ),
            decreases action_count - j,
        {
            focus_order.push(FocusTarget::Action(j));
            j = j + 1;
        }
        let focused = if focus_order.len() > 0 {
            Some(0usize)
        } else {
            None
        };
        let active_tab = if tab_count > 0 {
            Some(0usize)
        } else {
            None
        };
        KeyboardNavigation { focus_order, focused, active_tab }
    }

    /// Returns the complete, stable focus order.
    pub fn focus_order(&self) -> (s: &[FocusTarget])
        ensures
            s@ == self@.order,
    {
        self.focus_order.as_slice()
    }

    /// The focused item, if any.
    pub fn focused(&self) -> (f: Option<FocusTarget>)
        ensures
            f == match self@.focused {
                Some(i) => if i < self@.order.len() {
                    Some(self@.order[i as int])
                } else {
                    None
                },
                None => None,
            },
    {
        match self.focused {
            Some(index) => {
                if index < self.focus_order.len() {
                    Some(self.focus_order[index])
                } else {
                    None
                }
            },
            None => None,
        }
    }

    /// The most recently activated tab.
    pub fn active_tab(&self) -> (t: Option<usize>)
        ensures
            t == self@.active_tab,
    {
        self.active_tab
    }

    /// Processes a key and returns the focus or activation event it produced.
    pub fn handle_key(&mut self, key: NavigationKey) -> (r: NavigationResult)
        ensures
            final(self)@.order == old(self)@.order,
            final(self)@.active_tab == tab_after(old(self)@.active_tab, r),
            old(self)@.order.len() == 0 ==> r == NavigationResult::Ignored && final(self)@
                == old(self)@,
            old(self)@.order.len() > 0 ==> {
                let len = old(self)@.order.len();
                let current = match old(self)@.focused {
                    Some(i) => i,
                    None => 0nat,
                };
                match key {
                    NavigationKey::Tab | NavigationKey::Right | NavigationKey::Down => {
                        let next = step_forward(current, len);
                        &&& final(self)@.focused == Some(next)
                        &&& final(self)@.active_tab == old(self)@.active_tab
                        &&& r == NavigationResult::Focused(old(self)@.order[next as int])
                    },
                    NavigationKey::ShiftTab | NavigationKey::Left | NavigationKey::Up => {
                        let next = step_backward(current, len);
                        &&& final(self)@.focused == Some(next)
                        &&& final(self)@.active_tab == old(self)@.active_tab
                        &&& r == NavigationResult::Focused(old(self)@.order[next as int])
                    },
                    NavigationKey::Home => {
                        &&& final(self)@.focused == Some(0nat)
                        &&& final(self)@.active_tab == old(self)@.active_tab
                        &&& r == NavigationResult::Focused(old(self)@.order[0])
                    },
                    NavigationKey::End => {
                        &&& final(self)@.focused == Some((len - 1) as nat)
                        &&& final(self)@.active_tab == old(self)@.active_tab
                        &&& r == NavigationResult::Focused(old(self)@.order[len - 1])
                    },
                    NavigationKey::Enter | NavigationKey::Space => match old(self)@.focused {
                        None => r == NavigationResult::Ignored && final(self)@ == old(self)@,
                        Some(i) => {
                            let target = old(self)@.order[i as int];
                            &&& r == NavigationResult::Activated(target)
                            &&& final(self)@.focused == old(self)@.focused
                            &&& final(self)@.active_tab == match target {
                                FocusTarget::Tab(tab) => Some(tab),
                                FocusTarget::Action(_) => old(self)@.active_tab,
                            }
                        },
                    },
                }
            },
    {
        proof {
            use_type_invariant(&*self);
        }
        if self.focus_order.len() == 0 {
            return NavigationResult::Ignored;
        }
        match key {
            NavigationKey::Tab | NavigationKey::Right | NavigationKey::Down => self.move_forward(),
            NavigationKey::ShiftTab | NavigationKey::Left | NavigationKey::Up => self.move_backward(),
            NavigationKey::Home => self.set_focus(0),
            NavigationKey::End => {
                let last = self.focus_order.len() - 1;
                self.set_focus(last)
            },
            NavigationKey::Enter | NavigationKey::Space => self.activate(),
        }
    }

    /// Sets focus to a target in the model's order, returning whether it exists.
    pub fn focus(&mut self, target: FocusTarget) -> (found: bool)
        ensures
            found == old(self)@.order.contains(target),
            final(self)@.order == old(self)@.order,
            final(self)@.active_tab == old(self)@.active_tab,
            found ==> (final(self)@.focused matches Some(i) && i < old(self)@.order.len()
                && old(self)@.order[i as int] == target && forall|j: int|
                0 <= j < i ==> old(self)@.order[j] != target),
            !found ==> final(self)@ == old(self)@,
    {
        let mut index: usize = 0;
        while index < self.focus_order.len()
            invariant
                *self == *old(self),
                index <= self.focus_order.len(),
                forall|j: int| 0 <= j < index ==> self.focus_order@[j] != target,
            decreases self.focus_order.len() - index,
        {
            if self.focus_order[index] == target {
                self.focused = Some(index);
                return true;
            }
            index = index + 1;
        }
        assert(!self.focus_order@.contains(target));
        false
    }

    fn move_forward(&mut self) -> (r: NavigationResult)
        requires
            old(self).focus_order.len() > 0,
        ensures
            final(self).focus_order == old(self).focus_order,
            final(self).active_tab == old(self).active_tab,
            final(self).focused == Some(
                step_forward(
                    match old(self).focused {
                        Some(i) => i as nat,
                        None => 0nat,
                    },
                    old(self).focus_order.len() as nat,
                ) as usize,
            ),
            r == NavigationResult::Focused(old(self).focus_order@[final(self).focused.unwrap() as int]),
    {
        proof {
            use_type_invariant(&*self);
        }
        let current = match self.focused {
            Some(i) => i,
            None => 0,
        };
        let next = (current + 1) % self.focus_order.len();
        self.set_focus(next)
    }

    fn move_backward(&mut self) -> (r: NavigationResult)
        requires
            old(self).focus_order.len() > 0,
        ensures
            final(self).focus_order == old(self).focus_order,
            final(self).active_tab == old(self).active_tab,
            final(self).focused == Some(
                step_backward(
                    match old(self).focused {
                        Some(i) => i as nat,
                        None => 0nat,
                    },
                    old(self).focus_order.len() as nat,
                ) as usize,
            ),
            r == NavigationResult::Focused(old(self).focus_order@[final(self).focused.unwrap() as int]),
    {
        proof {
            use_type_invariant(&*self);
        }
        let current = match self.focused {
            Some(i) => i,
            None => 0,
        };
        let len = self.focus_order.len();
        let next = if current == 0 {
            len - 1
        } else {
            current - 1
        };
        proof {
            let l = len as int;
            let c = current as int;
            assert((c + l - 1) % l == next) by {
                if c == 0 {
                    vstd::arithmetic::div_mod::lemma_mod_self_0(l);
                    vstd::arithmetic::div_mod::lemma_small_mod((l - 1) as nat, l as nat);
                } else {
                    vstd::arithmetic::div_mod::lemma_mod_add_multiples_vanish(c - 1, l);
                    vstd::arithmetic::div_mod::lemma_small_mod((c - 1) as nat, l as nat);
                }
            }
        }
        self.set_focus(next)
    }

    fn set_focus(&mut self, index: usize) -> (r: NavigationResult)
        requires
            index < old(self).focus_order.len(),
        ensures
            final(self).focus_order == old(self).focus_order,
            final(self).active_tab == old(self).active_tab,
            final(self).focused == Some(index),
            r == NavigationResult::Focused(old(self).focus_order@[index as int]),
    {
        self.focused = Some(index);
        NavigationResult::Focused(self.focus_order[index])
    }

    fn activate(&mut self) -> (r: NavigationResult)
        ensures
            final(self).focus_order == old(self).focus_order,
            final(self).focused == old(self).focused,
            match old(self).focused {
                None => r == NavigationResult::Ignored && final(self).active_tab == old(self).active_tab,
                Some(i) => {
                    let target = old(self).focus_order@[i as int];
                    &&& r == NavigationResult::Activated(target)
                    &&& final(self).active_tab == match target {
                        FocusTarget::Tab(tab) => Some(tab),
                        FocusTarget::Action(_) => old(self).active_tab,
                    }
                },
            },
    {
        proof {
            use_type_invariant(&*self);
        }
        let index = match self.focused {
            Some(index) => index,
            None => {
                return NavigationResult::Ignored;
            },
        };
        let target = self.focus_order[index];
        if let FocusTarget::Tab(tab) = target {
            self.active_tab = Some(tab);
        }
        NavigationResult::Activated(target)
    }
}

/// Keys never move focus outside the focus order, and the order never changes.
pub proof fn lemma_navigation_stays_in_order(current: nat, len: nat)
    requires
        len > 0,
    ensures
        step_forward(current, len) < len,
        step_backward(current, len) < len,
{
}

} // verus!
