use ballpit::frame::{on_resize_system, WindowResized};
use ballpit::report::resize_line;

#[test]
fn resize_line_has_one_decimal() {
    assert_eq!(resize_line(800_000, 600_000), b"800.0 x 600.0".to_vec());
    assert_eq!(resize_line(0, 0), b"0.0 x 0.0".to_vec());
    assert_eq!(resize_line(1_250, 1_249), b"1.2 x 1.2".to_vec());
    assert_eq!(resize_line(1_350, 1_251), b"1.4 x 1.3".to_vec());
    assert_eq!(resize_line(800_250, 600_000), b"800.2 x 600.0".to_vec());
    assert_eq!(resize_line(800_350, 600_050), b"800.4 x 600.0".to_vec());
    assert_eq!(resize_line(999_950, 950), b"1000.0 x 1.0".to_vec());
    assert_eq!(resize_line(99_950, 12_345_678), b"100.0 x 12345.7".to_vec());
}

#[test]
fn resize_observer_reports_every_event_in_order() {
    let events = vec![
        WindowResized { width: 640_000, height: 480_000 },
        WindowResized { width: 1_920_500, height: 1_080_040 },
    ];
    let lines = on_resize_system(&events);
    assert_eq!(lines, vec![b"640.0 x 480.0".to_vec(), b"1920.5 x 1080.0".to_vec()]);
    assert!(on_resize_system(&vec![]).is_empty());
}
