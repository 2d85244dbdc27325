use gemini::layout::{chat_area_width, image_popup_width, input_width, popup_area, Area, CHAT_MARGIN, SIDEBAR_WIDTH};

#[test]
fn popup_sits_in_the_middle() {
    let screen = Area { x: 0, y: 0, width: 100, height: 40 };
    assert_eq!(popup_area(screen, 40, 5), Area { x: 30, y: 17, width: 40, height: 5 });
    assert_eq!(popup_area(screen, 50, 3), Area { x: 25, y: 18, width: 50, height: 3 });
    let shifted = Area { x: 10, y: 4, width: 20, height: 10 };
    assert_eq!(popup_area(shifted, 10, 4), Area { x: 15, y: 7, width: 10, height: 4 });
}

#[test]
fn popup_larger_than_the_screen_is_cut_down() {
    let screen = Area { x: 0, y: 0, width: 30, height: 2 };
    assert_eq!(popup_area(screen, 40, 5), Area { x: 0, y: 0, width: 30, height: 2 });
    assert_eq!(popup_area(screen, usize::MAX, usize::MAX), screen);
    let edge = Area { x: u16::MAX, y: u16::MAX, width: 10, height: 10 };
    assert_eq!(popup_area(edge, 2, 2), Area { x: u16::MAX, y: u16::MAX, width: 2, height: 2 });
}

#[test]
fn widths_follow_the_screen() {
    assert_eq!((SIDEBAR_WIDTH, CHAT_MARGIN), (30, 16));
    assert_eq!(chat_area_width(80), 64);
    assert_eq!(chat_area_width(16), 0);
    assert_eq!(chat_area_width(3), 0);
    assert_eq!(input_width(80), 78);
    assert_eq!(input_width(1), 0);
    assert_eq!(image_popup_width(200), 150);
    assert_eq!(image_popup_width(100), 50);
    assert_eq!(image_popup_width(99), 50);
    assert_eq!(image_popup_width(10), 50);
}
