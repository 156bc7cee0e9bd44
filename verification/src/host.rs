//! What the embedding glue decides between the host application and the
//! browser: which host callback an event of the browser leads to, which file
//! a resource is read from, and what the host's input means.

use vstd::prelude::*;
use crate::effects::TouchEventType;
use crate::scroll::ScrollLocation;
use crate::units::{Fixed, IntPoint, Point2D, UintPoint, UintRect, UintSize, Vector2D, UNIT};
use crate::windowing::{AnimationState, EmbedderCoordinates, MouseButton, MouseWindowEvent};

verus! {

/// Reads the files that the browser needs from wherever the host keeps them.
pub trait ReadFileTrait {
    fn readfile(&self, file: &str) -> Vec<u8>;
}

/// What the host application is told by the browser.
pub trait HostTrait {
    /// A frame is ready to be shown.
    fn flush(&self);

    /// A page has started to load.
    fn on_load_started(&self);

    /// A page has loaded.
    fn on_load_ended(&self);

    /// The title of the page has changed.
    fn on_title_changed(&self, title: String);

    /// The address of the page has changed.
    fn on_url_changed(&self, url: String);

    /// The session history has changed.
    fn on_history_changed(&self, can_go_back: bool, can_go_forward: bool);

    /// Animations have started or stopped.
    fn on_animating_changed(&self, animating: bool);
}

/// A file that the browser needs.
#[derive(Clone, Copy, Debug, PartialEq, Eq, Structural)]
pub enum Resource {
    Preferences,
    BluetoothBlocklist,
    DomainList,
    HstsPreloadList,
    SSLCertificates,
    BadCertHTML,
    NetErrorHTML,
    UserAgentCSS,
    ServoCSS,
    PresentationalHintsCSS,
    QuirksModeCSS,
    RippyPNG,
}

/// The name of the file that holds a resource.
pub open spec fn resource_file_name(resource: Resource) -> Seq<char> {
    match resource {
        Resource::Preferences => "prefs.json"@,
        Resource::BluetoothBlocklist => "gatt_blocklist.txt"@,
        Resource::DomainList => "public_domains.txt"@,
        Resource::HstsPreloadList => "hsts_preload.json"@,
        Resource::SSLCertificates => "certs"@,
        Resource::BadCertHTML => "badcert.html"@,
        Resource::NetErrorHTML => "neterror.html"@,
        Resource::UserAgentCSS => "user-agent.css"@,
        Resource::ServoCSS => "servo.css"@,
        Resource::PresentationalHintsCSS => "presentational-hints.css"@,
        Resource::QuirksModeCSS => "quirks-mode.css"@,
        Resource::RippyPNG => "rippy.png"@,
    }
}

/// The name of the file that holds a resource.
pub fn resource_file(resource: Resource) -> (name: &'static str)
    ensures
        name@ == resource_file_name(resource),
{
    match resource {
        Resource::Preferences => "prefs.json",
        Resource::BluetoothBlocklist => "gatt_blocklist.txt",
        Resource::DomainList => "public_domains.txt",
        Resource::HstsPreloadList => "hsts_preload.json",
        Resource::SSLCertificates => "certs",
        Resource::BadCertHTML => "badcert.html",
        Resource::NetErrorHTML => "neterror.html",
        Resource::UserAgentCSS => "user-agent.css",
        Resource::ServoCSS => "servo.css",
        Resource::PresentationalHintsCSS => "presentational-hints.css",
        Resource::QuirksModeCSS => "quirks-mode.css",
        Resource::RippyPNG => "rippy.png",
    }
}

/// Reads the browser's resources through the host's reader.
pub struct ResourceReader<R: ReadFileTrait>(pub R);

impl<R: ReadFileTrait> ResourceReader<R> {
    /// Reads a resource: what comes back is what the host's reader gives
    /// for the name of the file that holds the resource.
    pub fn read(&self, file: Resource) -> (bytes: Vec<u8>)
        ensures
            exists|name: &str|
                name@ == resource_file_name(file) && call_ensures(
                    R::readfile,
                    (&self.0, name),
                    bytes,
                ),
    {
        self.0.readfile(resource_file(file))
    }
}

/// The phase of a touch that the host names by a number: 0 for down, 1 for
/// move, 2 for up, and anything else for cancel.
pub open spec fn spec_touch_phase(state: u32) -> TouchEventType {
    if state == 0 {
        TouchEventType::Down
    } else if state == 1 {
        TouchEventType::Move
    } else if state == 2 {
        TouchEventType::Up
    } else {
        TouchEventType::Cancel
    }
}

/// The phase of a touch that the host names by a number.
pub fn touch_phase(state: u32) -> (phase: TouchEventType)
    ensures
        phase == spec_touch_phase(state),
{
    match state {
        0 => TouchEventType::Down,
        1 => TouchEventType::Move,
        2 => TouchEventType::Up,
        _ => TouchEventType::Cancel,
    }
}

/// A coordinate of the host, which counts from zero, as a coordinate of the
/// pixel grid: what does not fit wraps around.
pub open spec fn grid_coordinate(x: u32) -> i32 {
    if x <= i32::MAX {
        x as i32
    } else {
        (x - 0x1_0000_0000) as i32
    }
}

/// A scroll as the compositor takes it.
#[derive(Clone, Copy, Debug, PartialEq, Eq, Structural)]
pub struct ScrollInput {
    pub location: ScrollLocation,
    pub cursor: IntPoint,
    pub phase: TouchEventType,
}

/// The scroll that the host asks for: by whole pixels, at a position, in a phase.
pub fn scroll(dx: i32, dy: i32, x: u32, y: u32, state: u32) -> (input: ScrollInput)
    ensures
        input == (ScrollInput {
            location: ScrollLocation::Delta(
                Vector2D { x: Fixed { raw: (dx * UNIT) as i64 }, y: Fixed { raw: (dy * UNIT) as i64 } },
            ),
            cursor: IntPoint { x: grid_coordinate(x), y: grid_coordinate(y) },
            phase: spec_touch_phase(state),
        }),
{
    let delta = Vector2D::new(Fixed::from_i32(dx), Fixed::from_i32(dy));
    ScrollInput {
        location: ScrollLocation::Delta(delta),
        cursor: IntPoint::new(wrap_to_grid(x), wrap_to_grid(y)),
        phase: touch_phase(state),
    }
}

fn wrap_to_grid(x: u32) -> (r: i32)
    ensures
        r == grid_coordinate(x),
{
    if x <= 0x7fff_ffff {
        x as i32
    } else {
        ((x as i64) - 0x1_0000_0000) as i32
    }
}

/// The click that the host asks for: of the left button, at a position
/// in whole pixels.
pub fn click(x: u32, y: u32) -> (event: MouseWindowEvent)
    ensures
        event == MouseWindowEvent::Click(
            MouseButton::Left,
            Point2D { x: Fixed::spec_from_int(x as int), y: Fixed::spec_from_int(y as int) },
        ),
{
    MouseWindowEvent::Click(MouseButton::Left, Point2D::new(Fixed::from_u32(x), Fixed::from_u32(y)))
}

/// Whether the session history allows a step back and a step forward from
/// the entry that is shown.
pub fn history_flags(entries: usize, current: usize) -> (flags: (bool, bool))
    requires
        current < entries,
    ensures
        flags.0 == (current > 0),
        flags.1 == (current + 1 < entries),
{
    let can_go_back = current > 0;
    let can_go_forward = current < entries - 1;
    (can_go_back, can_go_forward)
}

/// The title that is shown for a page: its own title if it has one that
/// is not empty, else its address, else a word for a page without either.
pub open spec fn spec_page_title(title: Option<&str>, current_url: Option<&str>) -> Seq<char> {
    match title {
        Some(title) if title@.len() > 0 => title@,
        _ => match current_url {
            Some(url) => url@,
            None => "Untitled"@,
        },
    }
}

/// The title that is shown for a page, before the browser's name is added to it.
pub fn page_title<'a>(title: Option<&'a str>, current_url: Option<&'a str>) -> (shown: &'a str)
    ensures
        shown@ == spec_page_title(title, current_url),
{
    let fallback_title: &'a str = match current_url {
        Some(current_url) => current_url,
        None => "Untitled",
    };
    match title {
        Some(title) => if !title.is_empty() {
            title
        } else {
            fallback_title
        },
        None => fallback_title,
    }
}

/// The geometry of a surface of the given size that fills its window and
/// its screen, at two device pixels per pixel.
pub open spec fn spec_coordinates(width: u32, height: u32) -> EmbedderCoordinates {
    let size = UintSize { width, height };
    EmbedderCoordinates {
        hidpi_factor: Fixed { raw: 2_000_000 },
        screen: size,
        screen_avail: size,
        window_size: size,
        window_position: IntPoint { x: 0, y: 0 },
        framebuffer: size,
        viewport: UintRect { origin: UintPoint { x: 0, y: 0 }, size },
    }
}

/// The geometry that the glue reports for a host surface of the given size.
pub fn get_coordinates(width: u32, height: u32) -> (coordinates: EmbedderCoordinates)
    ensures
        coordinates == spec_coordinates(width, height),
{
    let size = UintSize::new(width, height);
    EmbedderCoordinates {
        viewport: UintRect { origin: UintPoint { x: 0, y: 0 }, size },
        framebuffer: size,
        window_size: size,
        window_position: IntPoint::new(0, 0),
        screen: size,
        screen_avail: size,
        hidpi_factor: Fixed::new(2_000_000),
    }
}

/// Whether the host is told that something animates.
pub fn is_animating(state: AnimationState) -> (animating: bool)
    ensures
        animating == (state is Animating),
{
    state == AnimationState::Animating
}

} // verus!
