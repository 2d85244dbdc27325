//! Keyboard focus of the main window.
//!
//! Five components can own the keyboard. They are ordered in a cycle, and three
//! of them live in the sidebar, which can be hidden. Focus never rests on a
//! hidden component.

use vstd::prelude::*;

verus! {

/// The component of the main window that receives key presses.
#[derive(Clone, Copy, PartialEq, Eq, Structural, Debug)]
pub enum MainFocusComponent {
    /// The message input line.
    InputField,
    /// The sidebar button that starts a new conversation.
    NewChatButton,
    /// The sidebar list of stored conversations.
    ChatItemList,
    /// The sidebar button that opens the settings.
    SettingButton,
    /// The transcript of the active conversation.
    ChatShow,
}

impl MainFocusComponent {
    /// Number of components in the focus cycle.
    pub const COUNT: usize = 5;

    /// Place of the component in the focus cycle, counted from zero.
    pub open spec fn position(self) -> int {
        match self {
            MainFocusComponent::InputField => 0,
            MainFocusComponent::NewChatButton => 1,
            MainFocusComponent::ChatItemList => 2,
            MainFocusComponent::SettingButton => 3,
            MainFocusComponent::ChatShow => 4,
        }
    }

    /// The component at a place of the focus cycle, if the place exists.
    pub open spec fn at(position: int) -> Option<MainFocusComponent> {
        if position == 0 {
            Some(MainFocusComponent::InputField)
        } else if position == 1 {
            Some(MainFocusComponent::NewChatButton)
        } else if position == 2 {
            Some(MainFocusComponent::ChatItemList)
        } else if position == 3 {
            Some(MainFocusComponent::SettingButton)
        } else if position == 4 {
            Some(MainFocusComponent::ChatShow)
        } else {
            None
        }
    }

    /// Whether the component is drawn inside the sidebar.
    pub open spec fn in_sidebar(self) -> bool {
        self == MainFocusComponent::NewChatButton || self == MainFocusComponent::ChatItemList
            || self == MainFocusComponent::SettingButton
    }

    /// Whether the component is on screen for the given sidebar state.
    pub open spec fn shown(self, sidebar: bool) -> bool {
        sidebar || !self.in_sidebar()
    }

    /// The component that takes focus when the user advances.
    ///
    /// With the sidebar on screen focus moves one place along the cycle. With
    /// the sidebar hidden it alternates between the input line and the
    /// transcript, and any other component gives way to the input line.
    pub open spec fn successor(self, sidebar: bool) -> MainFocusComponent {
        if sidebar {
            match self {
                MainFocusComponent::InputField => MainFocusComponent::NewChatButton,
                MainFocusComponent::NewChatButton => MainFocusComponent::ChatItemList,
                MainFocusComponent::ChatItemList => MainFocusComponent::SettingButton,
                MainFocusComponent::SettingButton => MainFocusComponent::ChatShow,
                MainFocusComponent::ChatShow => MainFocusComponent::InputField,
            }
        } else {
            match self {
                MainFocusComponent::InputField => MainFocusComponent::ChatShow,
                _ => MainFocusComponent::InputField,
            }
        }
    }

    /// The component that keeps focus when the sidebar is switched.
    ///
    /// Hiding the sidebar moves focus from a sidebar component to the input
    /// line. Showing it changes nothing.
    pub open spec fn after_toggle(self, sidebar_before: bool) -> MainFocusComponent {
        if sidebar_before && self.in_sidebar() {
            MainFocusComponent::InputField
        } else {
            self
        }
    }

    /// Repeated advancing: the component reached after `steps` advances.
    pub open spec fn advanced(self, sidebar: bool, steps: nat) -> MainFocusComponent
        decreases steps,
    {
        if steps == 0 {
            self
        } else {
            self.advanced(sidebar, (steps - 1) as nat).successor(sidebar)
        }
    }

    /// Place of the component in the focus cycle.
    pub fn repr(self) -> (place: usize)
        ensures
            place == self.position(),
            place < MainFocusComponent::COUNT,
            MainFocusComponent::at(place as int) == Some(self),
    {
        match self {
            MainFocusComponent::InputField => 0,
            MainFocusComponent::NewChatButton => 1,
            MainFocusComponent::ChatItemList => 2,
            MainFocusComponent::SettingButton => 3,
            MainFocusComponent::ChatShow => 4,
        }
    }

    /// The component at `place` of the focus cycle, or `None` past its end.
    pub fn from_repr(place: usize) -> (found: Option<MainFocusComponent>)
        ensures
            found == MainFocusComponent::at(place as int),
            found is Some <==> place < MainFocusComponent::COUNT,
    {
        if place == 0 {
            Some(MainFocusComponent::InputField)
        } else if place == 1 {
            Some(MainFocusComponent::NewChatButton)
        } else if place == 2 {
            Some(MainFocusComponent::ChatItemList)
        } else if place == 3 {
            Some(MainFocusComponent::SettingButton)
        } else if place == 4 {
            Some(MainFocusComponent::ChatShow)
        } else {
            None
        }
    }

    /// Whether the component lives in the sidebar.
    pub fn is_in_sidebar(self) -> (inside: bool)
        ensures
            inside == self.in_sidebar(),
    {
        match self {
            MainFocusComponent::NewChatButton => true,
            MainFocusComponent::ChatItemList => true,
            MainFocusComponent::SettingButton => true,
            _ => false,
        }
    }

    /// Advances focus by one step.
    pub fn next(self, sidebar: bool) -> (target: MainFocusComponent)
        ensures
            target == self.successor(sidebar),
            target.shown(sidebar),
            sidebar ==> target.position() == (self.position() + 1) % 5,
    {
        if sidebar {
            let place: usize = (self.repr() + 1) % MainFocusComponent::COUNT;
            match MainFocusComponent::from_repr(place) {
                Some(target) => target,
                None => MainFocusComponent::InputField,
            }
        } else {
            match self {
                MainFocusComponent::InputField => MainFocusComponent::ChatShow,
                _ => MainFocusComponent::InputField,
            }
        }
    }

    /// Focus after the sidebar has been switched from `sidebar_before`.
    pub fn toggled(self, sidebar_before: bool) -> (target: MainFocusComponent)
        ensures
            target == self.after_toggle(sidebar_before),
            target.shown(!sidebar_before),
    {
        if sidebar_before && self.is_in_sidebar() {
            MainFocusComponent::InputField
        } else {
            self
        }
    }
}

impl Default for MainFocusComponent {
    /// Focus starts on the input line.
    fn default() -> (start: MainFocusComponent)
        ensures
            start == MainFocusComponent::InputField,
    {
        MainFocusComponent::InputField
    }
}

/// With the sidebar on screen, advancing five times leads back to the start,
/// and fewer advances (but at least one) lead elsewhere.
pub proof fn lemma_focus_cycle(start: MainFocusComponent, steps: nat)
    ensures
        start.advanced(true, 5) == start,
        0 < steps < 5 ==> start.advanced(true, steps) != start,
        start.advanced(true, steps).position() == (start.position() + steps) % 5,
    decreases steps,
{
    reveal_with_fuel(MainFocusComponent::advanced, 6);
    if steps > 0 {
        lemma_focus_cycle(start, (steps - 1) as nat);
    }
}

/// With the sidebar hidden, advancing lands on the input line or the
/// transcript, and from either of the two it alternates between them.
pub proof fn lemma_focus_without_sidebar(start: MainFocusComponent)
    ensures
        start.successor(false).shown(false),
        start.shown(false) ==> start.successor(false) != start,
        start.shown(false) ==> start.successor(false).successor(false) == start,
{
}

/// Focus that was on screen stays on screen through every advance and every
/// switch of the sidebar.
pub proof fn lemma_focus_stays_shown(start: MainFocusComponent, sidebar: bool)
    requires
        start.shown(sidebar),
    ensures
        start.successor(sidebar).shown(sidebar),
        start.after_toggle(sidebar).shown(!sidebar),
{
}

} // verus!
