use ratherapia::app::VisualMode;
use ratherapia::ratty::{
    delete_sequence, mouse_delete_sequence, mouse_object_area, mouse_place_sequence, mouse_placement,
    mouse_overlay, push_hex_byte, ratty_requested, register_sequence, Placement, Rect, MOUSE_ID,
};

/// The placement sequence as the terminal expects it, with the decimal fields
/// formatted to two places.
fn expected_place(area: Rect, color: [u8; 3], brightness: f32, pulse: f32, animate: bool) -> String {
    let row = area.y.saturating_add(area.height.saturating_sub(1) / 2);
    let col = area.x.saturating_add(area.width.saturating_sub(1) / 2);
    let scale = 1.0 + pulse.clamp(0.0, 1.0) * 0.16;
    let depth = 1.9 + pulse.clamp(0.0, 1.0) * 0.8;
    let animate = u8::from(animate);
    format!(
        "\x1b_ratty;g;p;id={MOUSE_ID};row={row};col={col};w={};h={};animate={animate};scale={scale:.2};depth={depth:.2};color={:02x}{:02x}{:02x};brightness={brightness:.2}\x1b\\",
        area.width.max(1),
        area.height.max(1),
        color[0],
        color[1],
        color[2],
    )
}

fn place(area: Rect, color: [u8; 3], brightness: f32, pulse: f32, animate: bool) -> String {
    let scale = format!("{:.2}", 1.0 + pulse.clamp(0.0, 1.0) * 0.16);
    let depth = format!("{:.2}", 1.9 + pulse.clamp(0.0, 1.0) * 0.8);
    let brightness = format!("{brightness:.2}");
    mouse_place_sequence(area, color, &scale, &depth, &brightness, animate)
}

#[test]
fn delete_sequence_text() {
    assert_eq!(delete_sequence(), "\x1b_ratty;g;d;id=42\x1b\\");
    assert_eq!(mouse_delete_sequence(), delete_sequence());
}

#[test]
fn register_sequence_text() {
    assert_eq!(
        register_sequence("glb", "/tmp/ratherapia/assets/objects/SpinyMouse.glb"),
        "\x1b_ratty;g;r;id=42;fmt=glb;path=/tmp/ratherapia/assets/objects/SpinyMouse.glb\x1b\\"
    );
    assert_eq!(register_sequence("obj", "m.obj"), "\x1b_ratty;g;r;id=42;fmt=obj;path=m.obj\x1b\\");
}

#[test]
fn place_sequence_text() {
    let area = Rect { x: 30, y: 5, width: 28, height: 14 };
    assert_eq!(
        place(area, [88, 122, 146], 0.81, 0.48, false),
        "\x1b_ratty;g;p;id=42;row=11;col=43;w=28;h=14;animate=0;scale=1.08;depth=2.28;color=587a92;brightness=0.81\x1b\\"
    );
}

#[test]
fn place_sequence_matches_reference_format() {
    let areas = [
        Rect { x: 0, y: 0, width: 0, height: 0 },
        Rect { x: 0, y: 3, width: 1, height: 1 },
        Rect { x: 30, y: 5, width: 28, height: 14 },
        Rect { x: 65535, y: 65534, width: 9, height: 5 },
    ];
    let colors = [[0, 0, 0], [126, 166, 168], [255, 16, 9]];
    for area in areas {
        for color in colors {
            for (brightness, pulse, animate) in [(0.62, 0.22, false), (0.9, 1.5, true), (0.0, -1.0, false)] {
                assert_eq!(
                    place(area, color, brightness, pulse, animate),
                    expected_place(area, color, brightness, pulse, animate)
                );
            }
        }
    }
}

#[test]
fn placement_centres_and_saturates() {
    assert_eq!(
        mouse_placement(Rect { x: 0, y: 0, width: 0, height: 0 }),
        Placement { row: 0, col: 0, width: 1, height: 1 }
    );
    assert_eq!(
        mouse_placement(Rect { x: 10, y: 4, width: 7, height: 4 }),
        Placement { row: 5, col: 13, width: 7, height: 4 }
    );
    assert_eq!(
        mouse_placement(Rect { x: 65535, y: 65535, width: 9, height: 9 }),
        Placement { row: 65535, col: 65535, width: 9, height: 9 }
    );
}

#[test]
fn hex_bytes() {
    let mut s = String::new();
    for b in [0u8, 9, 10, 15, 16, 171, 255] {
        push_hex_byte(&mut s, b);
    }
    assert_eq!(s, "00090a0f10abff");
}

#[test]
fn ratty_request_sources() {
    let args = |v: &[&str]| v.iter().map(|s| s.to_string()).collect::<Vec<String>>();
    assert!(ratty_requested(true, &args(&[])));
    assert!(!ratty_requested(false, &args(&[])));
    assert!(ratty_requested(false, &args(&["ratherapia", "--ratty"])));
    assert!(ratty_requested(false, &args(&["--ratty", "render-video"])));
    assert!(!ratty_requested(false, &args(&["ratherapia", "--rattyx", "ratty"])));
}

#[test]
fn object_area_centred_and_clamped() {
    let area = Rect { x: 0, y: 3, width: 88, height: 18 };
    assert_eq!(mouse_object_area(area, 0), Rect { x: 30, y: 5, width: 28, height: 14 });
    assert_eq!(mouse_object_area(area, 1), Rect { x: 31, y: 5, width: 28, height: 14 });
    assert_eq!(mouse_object_area(area, 40), Rect { x: 60, y: 5, width: 28, height: 14 });
    assert_eq!(mouse_object_area(area, -40), Rect { x: 0, y: 5, width: 28, height: 14 });
    let small = Rect { x: 7, y: 2, width: 10, height: 4 };
    assert_eq!(mouse_object_area(small, 3), Rect { x: 7, y: 2, width: 10, height: 4 });
}

#[test]
fn object_area_stays_inside() {
    for (x, y, width, height) in [(0u16, 0u16, 1u16, 1u16), (5, 3, 30, 20), (2, 9, 100, 40), (0, 0, 27, 13)] {
        let area = Rect { x, y, width, height };
        for wind in -50i32..=50 {
            let r = mouse_object_area(area, wind);
            assert!(area.x <= r.x && r.x + r.width <= area.x + area.width);
            assert!(area.y <= r.y && r.y + r.height <= area.y + area.height);
            assert!(1 <= r.width && r.width <= 28 && 1 <= r.height && r.height <= 14);
        }
    }
}

#[test]
fn mouse_overlay_dispatch() {
    let area = Rect { x: 0, y: 3, width: 88, height: 18 };
    let color = [88, 122, 146];
    assert_eq!(mouse_overlay(false, area, VisualMode::ThreeD, 0, color, "1.08", "2.28", "0.81"), None);
    let empty = Rect { x: 4, y: 4, width: 0, height: 9 };
    assert_eq!(mouse_overlay(true, empty, VisualMode::ThreeD, 0, color, "1.08", "2.28", "0.81"), None);
    assert_eq!(
        mouse_overlay(true, area, VisualMode::TwoD, 0, color, "1.08", "2.28", "0.81"),
        Some((0, 3, delete_sequence()))
    );
    let r = mouse_object_area(area, 2);
    assert_eq!(
        mouse_overlay(true, area, VisualMode::ThreeD, 2, color, "1.08", "2.28", "0.81"),
        Some((r.x, r.y, mouse_place_sequence(r, color, "1.08", "2.28", "0.81", false)))
    );
    assert_eq!((r.x, r.y), (32, 5));
}
