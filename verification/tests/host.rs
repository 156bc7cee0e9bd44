use compositing::basedir::{default_config_dir, ConfigDir, Environment};
use compositing::effects::TouchEventType;
use compositing::host::{
    click, get_coordinates, history_flags, is_animating, page_title, resource_file, scroll, touch_phase,
    ReadFileTrait, Resource, ResourceReader, ScrollInput,
};
use compositing::platform::{deinit, Platform};
use compositing::scroll::ScrollLocation;
use compositing::units::{Fixed, IntPoint, Point2D, UintPoint, UintRect, UintSize, Vector2D};
use compositing::vslogger::{Level, VSLogger};
use compositing::windowing::{AnimationState, MouseButton, MouseWindowEvent};

struct Echo;

impl ReadFileTrait for Echo {
    fn readfile(&self, file: &str) -> Vec<u8> {
        file.as_bytes().to_vec()
    }
}

#[test]
fn resources_are_read_from_their_files() {
    let names = [
        (Resource::Preferences, "prefs.json"),
        (Resource::BluetoothBlocklist, "gatt_blocklist.txt"),
        (Resource::DomainList, "public_domains.txt"),
        (Resource::HstsPreloadList, "hsts_preload.json"),
        (Resource::SSLCertificates, "certs"),
        (Resource::BadCertHTML, "badcert.html"),
        (Resource::NetErrorHTML, "neterror.html"),
        (Resource::UserAgentCSS, "user-agent.css"),
        (Resource::ServoCSS, "servo.css"),
        (Resource::PresentationalHintsCSS, "presentational-hints.css"),
        (Resource::QuirksModeCSS, "quirks-mode.css"),
        (Resource::RippyPNG, "rippy.png"),
    ];
    let reader = ResourceReader(Echo);
    for (resource, name) in names.iter() {
        assert_eq!(resource_file(*resource), *name);
        assert_eq!(reader.read(*resource), name.as_bytes().to_vec());
    }
}

#[test]
fn touch_phases_are_named_by_number() {
    assert_eq!(touch_phase(0), TouchEventType::Down);
    assert_eq!(touch_phase(1), TouchEventType::Move);
    assert_eq!(touch_phase(2), TouchEventType::Up);
    assert_eq!(touch_phase(3), TouchEventType::Cancel);
    assert_eq!(touch_phase(u32::MAX), TouchEventType::Cancel);
}

#[test]
fn a_host_scroll_is_in_whole_pixels() {
    assert_eq!(
        scroll(-3, 7, 10, 20, 1),
        ScrollInput {
            location: ScrollLocation::Delta(Vector2D::new(
                Fixed::new(-3_000_000),
                Fixed::new(7_000_000)
            )),
            cursor: IntPoint::new(10, 20),
            phase: TouchEventType::Move,
        }
    );
    let wrapped = scroll(i32::MIN, i32::MAX, u32::MAX, 0x8000_0000, 9);
    assert_eq!(wrapped.cursor, IntPoint::new(-1, i32::MIN));
    assert_eq!(wrapped.phase, TouchEventType::Cancel);
    assert_eq!(
        wrapped.location,
        ScrollLocation::Delta(Vector2D::new(
            Fixed::new(-2_147_483_648_000_000),
            Fixed::new(2_147_483_647_000_000)
        ))
    );
}

#[test]
fn a_host_click_is_a_left_click_in_whole_pixels() {
    assert_eq!(
        click(3, u32::MAX),
        MouseWindowEvent::Click(
            MouseButton::Left,
            Point2D::new(Fixed::new(3_000_000), Fixed::new(4_294_967_295_000_000))
        )
    );
}

#[test]
fn history_allows_steps_within_its_entries() {
    assert_eq!(history_flags(1, 0), (false, false));
    assert_eq!(history_flags(3, 0), (false, true));
    assert_eq!(history_flags(3, 1), (true, true));
    assert_eq!(history_flags(3, 2), (true, false));
}

#[test]
fn the_title_falls_back_to_the_address_and_then_to_a_word() {
    assert_eq!(page_title(Some("Home"), Some("https://a.example/")), "Home");
    assert_eq!(page_title(Some(""), Some("https://a.example/")), "https://a.example/");
    assert_eq!(page_title(None, Some("https://a.example/")), "https://a.example/");
    assert_eq!(page_title(Some(""), None), "Untitled");
    assert_eq!(page_title(None, None), "Untitled");
    assert_eq!(page_title(Some("Home"), None), "Home");
}

#[test]
fn the_host_surface_fills_its_screen_at_double_density() {
    let coordinates = get_coordinates(640, 480);
    let size = UintSize::new(640, 480);
    assert_eq!(coordinates.hidpi_factor, Fixed::new(2_000_000));
    assert_eq!(coordinates.framebuffer, size);
    assert_eq!(coordinates.screen, size);
    assert_eq!(coordinates.screen_avail, size);
    assert_eq!(coordinates.window_size, size);
    assert_eq!(coordinates.window_position, IntPoint::new(0, 0));
    assert_eq!(coordinates.viewport, UintRect { origin: UintPoint { x: 0, y: 0 }, size });
}

#[test]
fn the_host_is_told_of_animations() {
    assert!(is_animating(AnimationState::Animating));
    assert!(!is_animating(AnimationState::Idle));
}

#[test]
fn the_logger_takes_everything_down_to_debug() {
    let logger = VSLogger;
    assert!(logger.enabled(Level::Error));
    assert!(logger.enabled(Level::Warn));
    assert!(logger.enabled(Level::Info));
    assert!(logger.enabled(Level::Debug));
    assert!(!logger.enabled(Level::Trace));
}

#[test]
fn a_record_becomes_a_line_in_utf16() {
    let logger = VSLogger;
    let expected: Vec<u16> = "RUST: WARN - disk is full\r\n".encode_utf16().collect();
    assert_eq!(logger.log(Level::Warn, "disk is full"), Some(expected));
    assert_eq!(logger.log(Level::Trace, "disk is full"), None);
    let names = [
        (Level::Error, "ERROR"),
        (Level::Warn, "WARN"),
        (Level::Info, "INFO"),
        (Level::Debug, "DEBUG"),
    ];
    for (level, name) in names.iter() {
        let text = format!("RUST: {} - \u{1F980} caf\u{e9} \u{ffff}\u{10000}\u{10ffff}\r\n", name);
        let expected: Vec<u16> = text.encode_utf16().collect();
        assert_eq!(
            logger.log(*level, "\u{1F980} caf\u{e9} \u{ffff}\u{10000}\u{10ffff}"),
            Some(expected)
        );
    }
    let empty: Vec<u16> = "RUST: INFO - \r\n".encode_utf16().collect();
    assert_eq!(logger.log(Level::Info, ""), Some(empty));
}

fn environment<'a>(
    xdg: Option<&'a str>,
    home: Option<&'a str>,
    appdata: Option<&'a str>,
) -> Environment<'a> {
    Environment { xdg_config_home: xdg, home, appdata }
}

#[test]
fn the_config_dir_depends_on_the_platform() {
    assert_eq!(
        default_config_dir(Platform::Unix, environment(Some("/home/u/.config/servo/default"), None, None)),
        Some(ConfigDir { base: "/home/u/.config/servo/default", below: vec![] })
    );
    assert_eq!(
        default_config_dir(Platform::Android, environment(None, Some("/data"), None)),
        None
    );
    assert_eq!(
        default_config_dir(Platform::MacOs, environment(None, Some("/Users/u"), None)),
        Some(ConfigDir {
            base: "/Users/u",
            below: vec!["Library", "Application Support", "Servo"]
        })
    );
    assert_eq!(
        default_config_dir(
            Platform::Windows,
            environment(None, Some("C:\\Users\\u"), Some("C:\\Users\\u\\AppData\\Roaming"))
        ),
        Some(ConfigDir { base: "C:\\Users\\u\\AppData\\Roaming", below: vec!["Servo"] })
    );
    assert_eq!(
        default_config_dir(Platform::Windows, environment(None, Some("C:\\Users\\u"), None)),
        Some(ConfigDir { base: "C:\\Users\\u", below: vec!["Appdata", "Roaming", "Servo"] })
    );
}

#[test]
fn the_platform_layer_has_nothing_to_release() {
    deinit();
}
