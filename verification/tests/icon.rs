use deadlockshock::icon::{app_icon, Icon};

/// A red and a green pixel side by side, without transparency.
const OPAQUE: [u8; 72] = [
    137, 80, 78, 71, 13, 10, 26, 10, 0, 0, 0, 13, 73, 72, 68, 82,
    0, 0, 0, 2, 0, 0, 0, 1, 8, 2, 0, 0, 0, 123, 64, 232,
    221, 0, 0, 0, 15, 73, 68, 65, 84, 120, 218, 99, 248, 207, 192, 192,
    208, 224, 0, 0, 7, 65, 1, 192, 233, 168, 218, 246, 0, 0, 0, 0,
    73, 69, 78, 68, 174, 66, 96, 130,
];

/// Two pixels above each other, with transparency.
const TRANSPARENT: [u8; 75] = [
    137, 80, 78, 71, 13, 10, 26, 10, 0, 0, 0, 13, 73, 72, 68, 82,
    0, 0, 0, 1, 0, 0, 0, 2, 8, 6, 0, 0, 0, 153, 129, 182,
    39, 0, 0, 0, 18, 73, 68, 65, 84, 120, 218, 99, 96, 100, 98, 102,
    97, 96, 101, 99, 231, 0, 0, 0, 140, 0, 37, 210, 32, 80, 25, 0,
    0, 0, 0, 73, 69, 78, 68, 174, 66, 96, 130,
];

#[test]
fn icons_hold_four_bytes_for_each_pixel() {
    assert_eq!(
        app_icon(&OPAQUE),
        Some(Icon {
            width: 2,
            height: 1,
            rgba: vec![255, 0, 0, 255, 0, 128, 64, 255],
        })
    );
    assert_eq!(
        app_icon(&TRANSPARENT),
        Some(Icon {
            width: 1,
            height: 2,
            rgba: vec![1, 2, 3, 4, 5, 6, 7, 8],
        })
    );
}

#[test]
fn files_that_hold_no_picture_give_no_icon() {
    assert_eq!(app_icon(b"not a picture"), None);
    assert_eq!(app_icon(&OPAQUE[..40]), None);
}
