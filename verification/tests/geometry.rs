use opengl3_hooks::geometry::{get_client_rect, Rect, Size};

#[test]
fn size_is_the_distance_of_the_edges() {
    let rect = Rect { left: 10, top: -20, right: 650, bottom: 460 };
    assert!(rect.is_measurable());
    assert_eq!(rect.size(), Size { width: 640, height: 480 });
    let inverted = Rect { left: 5, top: 5, right: 0, bottom: 5 };
    assert!(inverted.is_measurable());
    assert_eq!(inverted.size(), Size { width: -5, height: 0 });
}

#[test]
fn size_may_not_be_representable() {
    assert!(!Rect { left: -1, top: 0, right: i32::MAX, bottom: 0 }.is_measurable());
    assert!(!Rect { left: 0, top: 1, right: 0, bottom: i32::MIN }.is_measurable());
    assert!(Rect { left: 0, top: 0, right: i32::MAX, bottom: i32::MIN }.is_measurable());
}

#[test]
fn client_rect_is_there_if_it_was_written() {
    let rect = Rect { left: 0, top: 0, right: 640, bottom: 480 };
    assert_eq!(get_client_rect(true, rect), Some(rect));
    assert_eq!(get_client_rect(false, rect), None);
}
