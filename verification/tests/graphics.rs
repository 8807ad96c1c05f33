use vexide_runtime::graphics::{
    pack_rgb, BrainDisplay, Pixel, BUFFER_LEN, HORIZONTAL_RESOLUTION, VERTICAL_RESOLUTION,
};

#[test]
fn colours_pack_into_one_word() {
    assert_eq!(pack_rgb(0, 0, 0), 0);
    assert_eq!(pack_rgb(0x12, 0x34, 0x56), 0x0012_3456);
    assert_eq!(pack_rgb(255, 255, 255), 0x00FF_FFFF);
    assert_eq!(pack_rgb(255, 0, 0), 0x00FF_0000);
}

#[test]
fn new_display_is_black() {
    let display = BrainDisplay::new();
    assert_eq!(display.frame().len(), BUFFER_LEN);
    assert_eq!(BUFFER_LEN, (HORIZONTAL_RESOLUTION * VERTICAL_RESOLUTION) as usize);
    assert!(display.frame().iter().all(|word| *word == 0));
    assert_eq!(display.bounding_box(), (0, 0, 480, 272));
}

#[test]
fn pixels_land_at_their_row_major_index() {
    let mut display = BrainDisplay::new();
    let pixels = vec![
        Pixel { x: 0, y: 0, r: 1, g: 2, b: 3 },
        Pixel { x: 479, y: 0, r: 4, g: 5, b: 6 },
        Pixel { x: 2, y: 1, r: 7, g: 8, b: 9 },
        Pixel { x: 479, y: 271, r: 10, g: 11, b: 12 },
    ];
    display.draw_iter(&pixels);
    let frame = display.frame();
    assert_eq!(frame[0], 0x0001_0203);
    assert_eq!(frame[479], 0x0004_0506);
    assert_eq!(frame[482], 0x0007_0809);
    assert_eq!(frame[BUFFER_LEN - 1], 0x000A_0B0C);
    assert_eq!(frame.iter().filter(|word| **word != 0).count(), 4);
}

#[test]
fn later_pixel_overwrites_earlier_one() {
    let mut display = BrainDisplay::new();
    let pixels = vec![
        Pixel { x: 5, y: 5, r: 1, g: 1, b: 1 },
        Pixel { x: 5, y: 5, r: 2, g: 2, b: 2 },
    ];
    display.draw_iter(&pixels);
    assert_eq!(display.frame()[5 * 480 + 5], 0x0002_0202);
    display.draw_iter(&vec![]);
    assert_eq!(display.frame()[5 * 480 + 5], 0x0002_0202);
}

#[test]
fn pixels_outside_the_buffer_are_recognised() {
    assert!(Pixel { x: 0, y: 0, r: 0, g: 0, b: 0 }.is_in_buffer());
    assert!(Pixel { x: 479, y: 271, r: 0, g: 0, b: 0 }.is_in_buffer());
    assert!(Pixel { x: 480, y: 0, r: 0, g: 0, b: 0 }.is_in_buffer());
    assert!(!Pixel { x: 0, y: 272, r: 0, g: 0, b: 0 }.is_in_buffer());
    assert!(!Pixel { x: -1, y: 0, r: 0, g: 0, b: 0 }.is_in_buffer());
    assert!(!Pixel { x: 0, y: -1, r: 0, g: 0, b: 0 }.is_in_buffer());
    assert!(!Pixel { x: i32::MAX, y: i32::MAX, r: 0, g: 0, b: 0 }.is_in_buffer());
}
