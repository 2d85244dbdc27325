use gemini::focus::MainFocusComponent;

const ALL: [MainFocusComponent; 5] = [
    MainFocusComponent::InputField,
    MainFocusComponent::NewChatButton,
    MainFocusComponent::ChatItemList,
    MainFocusComponent::SettingButton,
    MainFocusComponent::ChatShow,
];

#[test]
fn focus_starts_on_the_input_line() {
    assert_eq!(MainFocusComponent::default(), MainFocusComponent::InputField);
}

#[test]
fn focus_cycles_through_all_components_with_sidebar() {
    let mut focus = MainFocusComponent::InputField;
    let mut seen = vec![focus];
    for _ in 0..4 {
        focus = focus.next(true);
        seen.push(focus);
    }
    assert_eq!(seen, ALL.to_vec());
    assert_eq!(focus.next(true), MainFocusComponent::InputField);
}

#[test]
fn focus_alternates_without_sidebar() {
    assert_eq!(MainFocusComponent::InputField.next(false), MainFocusComponent::ChatShow);
    assert_eq!(MainFocusComponent::ChatShow.next(false), MainFocusComponent::InputField);
    assert_eq!(MainFocusComponent::NewChatButton.next(false), MainFocusComponent::InputField);
    assert_eq!(MainFocusComponent::ChatItemList.next(false), MainFocusComponent::InputField);
    assert_eq!(MainFocusComponent::SettingButton.next(false), MainFocusComponent::InputField);
}

#[test]
fn focus_never_lands_on_a_hidden_component() {
    for start in ALL {
        assert!(!start.next(false).is_in_sidebar());
        assert!(!start.toggled(true).is_in_sidebar());
    }
}

#[test]
fn hiding_the_sidebar_moves_focus_to_the_input_line() {
    assert_eq!(MainFocusComponent::ChatItemList.toggled(true), MainFocusComponent::InputField);
    assert_eq!(MainFocusComponent::SettingButton.toggled(true), MainFocusComponent::InputField);
    assert_eq!(MainFocusComponent::ChatShow.toggled(true), MainFocusComponent::ChatShow);
    assert_eq!(MainFocusComponent::ChatShow.toggled(false), MainFocusComponent::ChatShow);
}

#[test]
fn places_and_components_correspond() {
    assert_eq!(MainFocusComponent::COUNT, 5);
    for (place, component) in ALL.iter().enumerate() {
        assert_eq!(component.repr(), place);
        assert_eq!(MainFocusComponent::from_repr(place), Some(*component));
    }
    assert_eq!(MainFocusComponent::from_repr(5), None);
}
