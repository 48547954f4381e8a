//! Where the controls of a mouse are on its picture.
//!
//! All lengths are in thousandths of a pixel, all fractions in parts per
//! million.

use crate::binding::ButtonId;
use crate::features::mouse::hotspots::{Hotspot, MouseControlId, MOUSE_MODEL_SIZE};
use crate::services::assets::metadata::{Assignment, ImageEntry, Metadata, ResolvedAsset};
use crate::text::{
    characters, occurs_at, parse_small_number, same_text, small_number, stands_at, text_of,
};
use vstd::prelude::*;

verus! {

/// How wide and high the rectangle around a marker is.
pub const ASSET_HOTSPOT: i32 = 56_000;

/// The largest canvas that a picture is drawn on.
pub const MAX_CANVAS: u32 = 1_000_000_000;

/// One, in parts per million.
pub const WHOLE: u32 = 1_000_000;

/// The size at which a picture fills a box without losing its proportions:
/// bound by the box's width if it is wider than the box, else by its height. A
/// picture without height gets the plain silhouette's size.
pub open spec fn fitted(png_width: u32, png_height: u32, target_h: u32, max_w: u32) -> (int, int) {
    if png_height == 0 {
        (MOUSE_MODEL_SIZE.0 as int, MOUSE_MODEL_SIZE.1 as int)
    } else if target_h * png_width > max_w * png_height {
        (max_w as int, (max_w * png_height) / png_width as int)
    } else {
        ((target_h * png_width) / png_height as int, target_h as int)
    }
}

/// The size at which a picture fills a box without losing its proportions.
pub fn asset_dimensions(png_width: u32, png_height: u32, target_h: u32, max_w: u32) -> (size: (
    u32,
    u32,
))
    ensures
        (size.0 as int, size.1 as int) == fitted(png_width, png_height, target_h, max_w),
{
    if png_height == 0 {
        return MOUSE_MODEL_SIZE;
    }
    proof {
        products_fit(target_h, png_width);
        products_fit(max_w, png_height);
    }
    let tall: u64 = target_h as u64 * png_width as u64;
    let wide: u64 = max_w as u64 * png_height as u64;
    if tall > wide {
        assert(png_width > 0) by (nonlinear_arith)
            requires
                tall == target_h * png_width,
                tall > 0,
        ;
        assert(0 <= wide as int / png_width as int <= target_h) by (nonlinear_arith)
            requires
                wide < target_h * png_width,
                0 <= wide,
                png_width > 0,
        ;
        (max_w, (wide / png_width as u64) as u32)
    } else {
        assert(0 <= tall as int / png_height as int <= max_w) by (nonlinear_arith)
            requires
                tall <= max_w * png_height,
                0 <= tall,
                png_height > 0,
        ;
        ((tall / png_height as u64) as u32, target_h)
    }
}

proof fn products_fit(a: u32, b: u32)
    ensures
        0 <= a * b <= u64::MAX,
{
    assert(0 <= a * b <= 0xffff_ffff * 0xffff_ffff) by (nonlinear_arith)
        requires
            0 <= a <= 0xffff_ffff,
            0 <= b <= 0xffff_ffff,
    ;
}

/// A device's picture, sized to fill a box without losing its proportions.
pub fn asset_dimensions_for_png(asset: &ResolvedAsset, target_h: u32, max_w: u32) -> (size: (
    u32,
    u32,
))
    ensures
        (size.0 as int, size.1 as int) == fitted(
            asset.png_width,
            asset.png_height,
            target_h,
            max_w,
        ),
{
    asset_dimensions(asset.png_width, asset.png_height, target_h, max_w)
}

/// A picture with a height never leaves its box, fills it in one direction, and
/// keeps its proportions to within a thousandth of a pixel.
pub proof fn pictures_fit_their_box(png_width: u32, png_height: u32, target_h: u32, max_w: u32)
    requires
        png_height > 0,
    ensures
        ({
            let (w, h) = fitted(png_width, png_height, target_h, max_w);
            &&& 0 <= w <= max_w
            &&& 0 <= h <= target_h
            &&& w == max_w || h == target_h
            &&& w == max_w && h < target_h ==> h * png_width <= w * png_height < (h + 1)
                * png_width
            &&& h == target_h && w < max_w ==> w * png_height <= h * png_width < (w + 1)
                * png_height
        }),
{
    let (w, h) = fitted(png_width, png_height, target_h, max_w);
    if target_h * png_width > max_w * png_height {
        assert(png_width > 0) by (nonlinear_arith)
            requires
                target_h * png_width > 0 || target_h * png_width > max_w * png_height,
                0 <= max_w * png_height,
        ;
        let n = max_w * png_height;
        assert(0 <= h <= target_h && h * png_width <= n < (h + 1) * png_width) by (nonlinear_arith)
            requires
                h == n / png_width as int,
                0 <= n < target_h * png_width,
                png_width > 0,
        ;
    } else {
        let n = target_h * png_width;
        assert(0 <= w <= max_w && w * png_height <= n < (w + 1) * png_height) by (nonlinear_arith)
            requires
                w == n / png_height as int,
                0 <= n <= max_w * png_height,
                png_height > 0,
        ;
    }
}

/// `value` brought into the range from `0` to one.
pub open spec fn clamped(value: int) -> int {
    if value < 0 {
        0
    } else if value > WHOLE {
        WHOLE as int
    } else {
        value
    }
}

fn clamp(value: i64) -> (clamped: u32)
    ensures
        clamped == self::clamped(value as int),
        clamped <= WHOLE,
{
    if value < 0 {
        0
    } else if value > WHOLE as i64 {
        WHOLE
    } else {
        value as u32
    }
}

/// Whether a marker is given in pixels: percentages do not exceed a hundred.
pub open spec fn in_pixels(mx: i32, my: i32) -> bool {
    mx > 100_000 || my > 100_000
}

/// A coordinate as a fraction of its canvas.
pub open spec fn fraction(coordinate: i32, origin: u32, pixels: bool) -> int {
    if !pixels {
        clamped(coordinate * 10)
    } else if origin == 0 || coordinate < 0 {
        0
    } else {
        clamped((coordinate * 1000) / origin as int)
    }
}

fn to_fraction(coordinate: i32, origin: u32, pixels: bool) -> (part: u32)
    ensures
        part == fraction(coordinate, origin, pixels),
        part <= WHOLE,
{
    if !pixels {
        clamp(coordinate as i64 * 10)
    } else if origin == 0 || coordinate < 0 {
        0
    } else {
        let scaled: i64 = coordinate as i64 * 1000;
        assert(0 <= scaled as int / origin as int <= scaled) by (nonlinear_arith)
            requires
                0 <= scaled,
                0 < origin,
        ;
        clamp(scaled / origin as i64)
    }
}

/// A marker as fractions of its canvas.
pub fn marker_fractions(mx: i32, my: i32, origin_w: u32, origin_h: u32) -> (fractions: (u32, u32))
    ensures
        fractions.0 == fraction(mx, origin_w, in_pixels(mx, my)),
        fractions.1 == fraction(my, origin_h, in_pixels(mx, my)),
        fractions.0 <= WHOLE,
        fractions.1 <= WHOLE,
{
    let pixels = mx > 100_000 || my > 100_000;
    (to_fraction(mx, origin_w, pixels), to_fraction(my, origin_h, pixels))
}

/// The control that a slot name stands for.
pub open spec fn named_control(name: Seq<char>) -> Option<MouseControlId> {
    if name == "SLOT_NAME_LEFT_BUTTON"@ {
        Some(MouseControlId::Button(ButtonId::LeftClick))
    } else if name == "SLOT_NAME_RIGHT_BUTTON"@ {
        Some(MouseControlId::Button(ButtonId::RightClick))
    } else if name == "SLOT_NAME_MIDDLE_BUTTON"@ {
        Some(MouseControlId::Button(ButtonId::MiddleClick))
    } else if name == "SLOT_NAME_LEFT_SCROLL_BUTTON"@ || name == "SLOT_NAME_SCROLL_LEFT"@ {
        Some(MouseControlId::Button(ButtonId::WheelTiltLeft))
    } else if name == "SLOT_NAME_RIGHT_SCROLL_BUTTON"@ || name == "SLOT_NAME_SCROLL_RIGHT"@ {
        Some(MouseControlId::Button(ButtonId::WheelTiltRight))
    } else if name == "SLOT_NAME_BACK_BUTTON"@ {
        Some(MouseControlId::Button(ButtonId::Back))
    } else if name == "SLOT_NAME_FORWARD_BUTTON"@ {
        Some(MouseControlId::Button(ButtonId::Forward))
    } else if name == "SLOT_NAME_MODESHIFT_BUTTON"@ || name == "SLOT_NAME_DPI_BUTTON"@ {
        Some(MouseControlId::Button(ButtonId::DpiToggle))
    } else if name == "SLOT_NAME_THUMBWHEEL"@ {
        Some(MouseControlId::ThumbwheelRotation)
    } else if name == "SLOT_NAME_GESTURE_BUTTON"@ {
        Some(MouseControlId::Button(ButtonId::GestureButton))
    } else if name == "ASSIGNMENT_NAME_SHOW_RADIAL_MENU"@ {
        Some(MouseControlId::Button(ButtonId::HapticPanel))
    } else {
        None
    }
}

/// The control that a slot name stands for. Names that are not known stand for
/// none.
pub fn map_slot_name(name: &str) -> (control: Option<MouseControlId>)
    ensures
        control == named_control(name@),
{
    if same_text(name, "SLOT_NAME_LEFT_BUTTON") {
        Some(MouseControlId::Button(ButtonId::LeftClick))
    } else if same_text(name, "SLOT_NAME_RIGHT_BUTTON") {
        Some(MouseControlId::Button(ButtonId::RightClick))
    } else if same_text(name, "SLOT_NAME_MIDDLE_BUTTON") {
        Some(MouseControlId::Button(ButtonId::MiddleClick))
    } else if same_text(name, "SLOT_NAME_LEFT_SCROLL_BUTTON") || same_text(
        name,
        "SLOT_NAME_SCROLL_LEFT",
    ) {
        Some(MouseControlId::Button(ButtonId::WheelTiltLeft))
    } else if same_text(name, "SLOT_NAME_RIGHT_SCROLL_BUTTON") || same_text(
        name,
        "SLOT_NAME_SCROLL_RIGHT",
    ) {
        Some(MouseControlId::Button(ButtonId::WheelTiltRight))
    } else if same_text(name, "SLOT_NAME_BACK_BUTTON") {
        Some(MouseControlId::Button(ButtonId::Back))
    } else if same_text(name, "SLOT_NAME_FORWARD_BUTTON") {
        Some(MouseControlId::Button(ButtonId::Forward))
    } else if same_text(name, "SLOT_NAME_MODESHIFT_BUTTON") || same_text(
        name,
        "SLOT_NAME_DPI_BUTTON",
    ) {
        Some(MouseControlId::Button(ButtonId::DpiToggle))
    } else if same_text(name, "SLOT_NAME_THUMBWHEEL") {
        Some(MouseControlId::ThumbwheelRotation)
    } else if same_text(name, "SLOT_NAME_GESTURE_BUTTON") {
        Some(MouseControlId::Button(ButtonId::GestureButton))
    } else if same_text(name, "ASSIGNMENT_NAME_SHOW_RADIAL_MENU") {
        Some(MouseControlId::Button(ButtonId::HapticPanel))
    } else {
        None
    }
}

/// The button with this number on a G-series mouse.
pub open spec fn numbered_button(number: u8) -> Option<ButtonId> {
    match number {
        1 => Some(ButtonId::LeftClick),
        2 => Some(ButtonId::RightClick),
        3 => Some(ButtonId::MiddleClick),
        4 => Some(ButtonId::Back),
        5 => Some(ButtonId::Forward),
        6 => Some(ButtonId::DpiToggle),
        7 => Some(ButtonId::DpiUp),
        8 => Some(ButtonId::DpiDown),
        9 => Some(ButtonId::ProfileCycle),
        10 => Some(ButtonId::WheelTiltLeft),
        11 => Some(ButtonId::WheelTiltRight),
        _ => None,
    }
}

/// Where the last `_g` of `id` stands among its first `upto` positions.
pub open spec fn last_mark(id: Seq<char>, upto: int) -> Option<int>
    decreases upto,
{
    if upto <= 0 {
        None
    } else if stands_at(id, upto - 1, "_g"@) {
        Some(upto - 1)
    } else {
        last_mark(id, upto - 1)
    }
}

/// The first `_` of `id` from position `from` on, or the end.
pub open spec fn next_break(id: Seq<char>, from: int) -> int
    decreases id.len() - from,
{
    if from < 0 || from >= id.len() || id[from] == '_' {
        from
    } else {
        next_break(id, from + 1)
    }
}

/// The control that a slot id stands for: that of the number between its last
/// `_g` and the next `_`.
pub open spec fn numbered_control(id: Seq<char>) -> Option<MouseControlId> {
    match last_mark(id, id.len() as int) {
        None => None,
        Some(at) => match small_number(id.subrange(at + 2, next_break(id, at + 2))) {
            None => None,
            Some(number) => match numbered_button(number) {
                Some(button) => Some(MouseControlId::Button(button)),
                None => None,
            },
        },
    }
}

fn find_last_mark(id: &Vec<char>) -> (found: Option<usize>)
    ensures
        match found {
            Some(at) => last_mark(id@, id@.len() as int) == Some(at as int) && at + 2
                <= id.len(),
            None => last_mark(id@, id@.len() as int) is None,
        },
{
    let mark = characters("_g");
    proof {
        reveal_strlit("_g");
    }
    let mut upto: usize = id.len();
    while upto > 0
        invariant
            upto <= id.len(),
            mark@ == "_g"@,
            "_g"@.len() == 2,
            last_mark(id@, id@.len() as int) == last_mark(id@, upto as int),
        decreases upto,
    {
        if occurs_at(id, upto - 1, &mark) {
            return Some(upto - 1);
        }
        upto -= 1;
    }
    None
}

fn find_next_break(id: &Vec<char>, from: usize) -> (at: usize)
    requires
        from <= id@.len(),
    ensures
        at == next_break(id@, from as int),
        from <= at <= id@.len(),
{
    let mut at: usize = from;
    while at < id.len() && id[at] != '_'
        invariant
            from <= at <= id@.len(),
            next_break(id@, from as int) == next_break(id@, at as int),
        decreases id@.len() - at,
    {
        at += 1;
    }
    at
}

/// The control that a slot id stands for, such as `g502core_g7_m1`.
pub fn map_slot_id(id: &str) -> (control: Option<MouseControlId>)
    ensures
        control == numbered_control(id@),
{
    let chars = characters(id);
    let at: usize = match find_last_mark(&chars) {
        Some(at) => at + 2,
        None => {
            return None;
        },
    };
    let end = find_next_break(&chars, at);
    let number = match parse_small_number(text_of(&chars, at, end).as_str()) {
        Some(number) => number,
        None => {
            return None;
        },
    };
    let button = match number {
        1 => ButtonId::LeftClick,
        2 => ButtonId::RightClick,
        3 => ButtonId::MiddleClick,
        4 => ButtonId::Back,
        5 => ButtonId::Forward,
        6 => ButtonId::DpiToggle,
        7 => ButtonId::DpiUp,
        8 => ButtonId::DpiDown,
        9 => ButtonId::ProfileCycle,
        10 => ButtonId::WheelTiltLeft,
        11 => ButtonId::WheelTiltRight,
        _ => {
            return None;
        },
    };
    Some(MouseControlId::Button(button))
}

/// The control that a marker stands for: by its slot name, else by its slot id.
pub open spec fn assigned_control(assignment: Assignment) -> Option<MouseControlId> {
    match named_control(assignment.slot_name@) {
        Some(control) => Some(control),
        None => numbered_control(assignment.slot_id@),
    }
}

fn map_assignment(assignment: &Assignment) -> (control: Option<MouseControlId>)
    ensures
        control == assigned_control(*assignment),
{
    match map_slot_name(assignment.slot_name.as_str()) {
        Some(control) => Some(control),
        None => map_slot_id(assignment.slot_id.as_str()),
    }
}

/// Whether a picture marks a control.
pub open spec fn marks_a_control(image: ImageEntry) -> bool {
    exists|i: int|
        0 <= i < image.assignments@.len() && assigned_control(
            #[trigger] image.assignments@[i],
        ) is Some
}

/// Whether any picture marks a control.
pub open spec fn has_controls(metadata: Metadata) -> bool {
    exists|i: int| 0 <= i < metadata.images@.len() && marks_a_control(#[trigger] metadata.images@[i])
}

fn image_marks_a_control(image: &ImageEntry) -> (marks: bool)
    ensures
        marks == marks_a_control(*image),
{
    let mut i: usize = 0;
    while i < image.assignments.len()
        invariant
            i <= image.assignments@.len(),
            forall|j: int|
                0 <= j < i ==> assigned_control(#[trigger] image.assignments@[j]) is None,
        decreases image.assignments@.len() - i,
    {
        if map_assignment(&image.assignments[i]).is_some() {
            return true;
        }
        i += 1;
    }
    false
}

/// Whether the art marks any control, so that the panel keeps room for labels.
pub fn asset_has_button_labels(asset: &ResolvedAsset) -> (labels: bool)
    ensures
        labels == has_controls(asset.metadata),
{
    let images = &asset.metadata.images;
    let mut i: usize = 0;
    while i < images.len()
        invariant
            images@ == asset.metadata.images@,
            i <= images@.len(),
            forall|j: int| 0 <= j < i ==> !marks_a_control(#[trigger] images@[j]),
        decreases images@.len() - i,
    {
        if image_marks_a_control(&images[i]) {
            return true;
        }
        i += 1;
    }
    false
}

/// Whether `image` is the picture of the buttons and marks anything.
pub open spec fn shows_buttons(image: ImageEntry) -> bool {
    image.key@ == "device_buttons_image"@ && image.assignments@.len() > 0
}

/// Which picture the markers of the panel are taken from: that of the buttons
/// where it marks anything.
pub open spec fn marker_image(images: Seq<ImageEntry>) -> Seq<char> {
    if exists|i: int| 0 <= i < images.len() && shows_buttons(#[trigger] images[i]) {
        "device_buttons_image"@
    } else {
        "device_image"@
    }
}

/// Which picture the markers of the panel are taken from.
pub fn hotspot_image_key(asset: &ResolvedAsset) -> (key: &'static str)
    ensures
        key@ == marker_image(asset.metadata.images@),
{
    let images = &asset.metadata.images;
    let mut i: usize = 0;
    while i < images.len()
        invariant
            images@ == asset.metadata.images@,
            i <= images@.len(),
            forall|j: int| 0 <= j < i ==> !shows_buttons(#[trigger] images@[j]),
        decreases images@.len() - i,
    {
        if images[i].assignments.len() > 0 && same_text(
            images[i].key.as_str(),
            "device_buttons_image",
        ) {
            return "device_buttons_image";
        }
        i += 1;
    }
    "device_image"
}

/// How wide the marked canvas is on the drawn picture: the picture may pad it
/// on both sides.
pub open spec fn canvas_width(mouse_w: u32, origin_w: u32, png_w: u32) -> int {
    if png_w == 0 {
        mouse_w as int
    } else {
        (mouse_w * least(origin_w, png_w)) / png_w as int
    }
}

/// The lesser of two numbers.
pub open spec fn least(a: u32, b: u32) -> u32 {
    if a < b {
        a
    } else {
        b
    }
}

/// The greater of a number and one.
pub open spec fn at_least_one(a: u32) -> u32 {
    if a < 1 {
        1
    } else {
        a
    }
}

/// A part of a length.
pub open spec fn share(part: int, length: int) -> int {
    (part * length) / WHOLE as int
}

/// The rectangle around a marker on the drawn picture. The canvas is centred
/// between its paddings and is as high as the picture.
pub open spec fn marked_hotspot(
    image: ImageEntry,
    assignment: Assignment,
    mouse_w: u32,
    mouse_h: u32,
    png_w: u32,
) -> (int, int) {
    let marker = assignment.marker;
    let canvas = canvas_width(mouse_w, image.origin.width, png_w);
    let pixels = in_pixels(marker.x, marker.y);
    let fx = fraction(marker.x, least(image.origin.width, png_w), pixels);
    let fy = fraction(marker.y, at_least_one(image.origin.height), pixels);
    (
        (mouse_w - canvas) / 2 + share(fx, canvas) - ASSET_HOTSPOT / 2,
        share(fy, mouse_h as int) - ASSET_HOTSPOT / 2,
    )
}

/// The rectangles of the first `upto` markers of a picture that stand for a
/// control.
pub open spec fn marked_hotspots(
    image: ImageEntry,
    mouse_w: u32,
    mouse_h: u32,
    png_w: u32,
    upto: int,
) -> Seq<Hotspot>
    decreases upto,
{
    if upto <= 0 {
        seq![]
    } else {
        let rest = marked_hotspots(image, mouse_w, mouse_h, png_w, upto - 1);
        let assignment = image.assignments@[upto - 1];
        match assigned_control(assignment) {
            Some(id) => {
                let (x, y) = marked_hotspot(image, assignment, mouse_w, mouse_h, png_w);
                rest.push(
                    Hotspot {
                        id,
                        x: x as i32,
                        y: y as i32,
                        w: ASSET_HOTSPOT,
                        h: ASSET_HOTSPOT,
                    },
                )
            },
            None => rest,
        }
    }
}

/// Whether `at` is the first picture with this key.
pub open spec fn first_image(images: Seq<ImageEntry>, key: Seq<char>, at: int) -> bool {
    &&& 0 <= at < images.len()
    &&& images[at].key@ == key
    &&& forall|i: int| 0 <= i < at ==> (#[trigger] images[i]).key@ != key
}

/// Whether no picture has this key.
pub open spec fn no_image(images: Seq<ImageEntry>, key: Seq<char>) -> bool {
    forall|i: int| 0 <= i < images.len() ==> (#[trigger] images[i]).key@ != key
}

/// The first picture with this key.
pub fn find_image(images: &Vec<ImageEntry>, key: &str) -> (found: Option<usize>)
    ensures
        match found {
            Some(at) => first_image(images@, key@, at as int),
            None => no_image(images@, key@),
        },
{
    let mut i: usize = 0;
    while i < images.len()
        invariant
            i <= images@.len(),
            forall|j: int| 0 <= j < i ==> (#[trigger] images@[j]).key@ != key@,
        decreases images@.len() - i,
    {
        if same_text(images[i].key.as_str(), key) {
            return Some(i);
        }
        i += 1;
    }
    None
}

proof fn shares_fit(part: int, length: int)
    requires
        0 <= part <= WHOLE,
        0 <= length,
    ensures
        0 <= share(part, length) <= length,
        0 <= part * length <= WHOLE * length,
{
    assert(0 <= part * length <= WHOLE * length) by (nonlinear_arith)
        requires
            0 <= part <= WHOLE,
            0 <= length,
    ;
}

/// The rectangles of the controls that the picture with this key marks, as it
/// is drawn `mouse_w` wide and `mouse_h` high.
pub fn asset_hotspots_for_image(
    asset: &ResolvedAsset,
    mouse_w: u32,
    mouse_h: u32,
    image_key: &str,
    png_width: u32,
    _png_height: u32,
) -> (hotspots: Vec<Hotspot>)
    requires
        mouse_w <= MAX_CANVAS,
        mouse_h <= MAX_CANVAS,
    ensures
        no_image(asset.metadata.images@, image_key@) ==> hotspots@.len() == 0,
        forall|at: int| #[trigger]
            first_image(asset.metadata.images@, image_key@, at) ==> hotspots@ == marked_hotspots(
                asset.metadata.images@[at],
                mouse_w,
                mouse_h,
                png_width,
                asset.metadata.images@[at].assignments@.len() as int,
            ),
{
    let mut hotspots: Vec<Hotspot> = Vec::new();
    let at: usize = match find_image(&asset.metadata.images, image_key) {
        Some(at) => at,
        None => {
            return hotspots;
        },
    };
    let image = &asset.metadata.images[at];
    proof {
        products_fit(mouse_w, least(image.origin.width, png_width));
    }
    let origin_w: u32 = if image.origin.width < png_width {
        image.origin.width
    } else {
        png_width
    };
    let origin_h: u32 = if image.origin.height < 1 {
        1
    } else {
        image.origin.height
    };
    let canvas: i64 = if png_width == 0 {
        mouse_w as i64
    } else {
        let product: u64 = mouse_w as u64 * origin_w as u64;
        assert(0 <= product as int / png_width as int <= mouse_w) by (nonlinear_arith)
            requires
                product == mouse_w * origin_w,
                0 <= mouse_w,
                0 <= origin_w <= png_width,
                0 < png_width,
        ;
        (product / png_width as u64) as i64
    };
    let mut i: usize = 0;
    while i < image.assignments.len()
        invariant
            i <= image.assignments@.len(),
            mouse_w <= MAX_CANVAS,
            mouse_h <= MAX_CANVAS,
            origin_w == least(image.origin.width, png_width),
            origin_h == at_least_one(image.origin.height),
            canvas == canvas_width(mouse_w, image.origin.width, png_width),
            0 <= canvas <= mouse_w,
            hotspots@ == marked_hotspots(*image, mouse_w, mouse_h, png_width, i as int),
        decreases image.assignments@.len() - i,
    {
        let assignment = &image.assignments[i];
        if let Some(id) = map_assignment(assignment) {
            let (fx, fy) = marker_fractions(
                assignment.marker.x,
                assignment.marker.y,
                origin_w,
                origin_h,
            );
            proof {
                shares_fit(fx as int, canvas as int);
                shares_fit(fy as int, mouse_h as int);
            }
            let cx: i64 = (mouse_w as i64 - canvas) / 2 + (fx as i64 * canvas) / WHOLE as i64;
            let cy: i64 = (fy as i64 * mouse_h as i64) / WHOLE as i64;
            hotspots.push(
                Hotspot {
                    id,
                    x: (cx - ASSET_HOTSPOT as i64 / 2) as i32,
                    y: (cy - ASSET_HOTSPOT as i64 / 2) as i32,
                    w: ASSET_HOTSPOT,
                    h: ASSET_HOTSPOT,
                },
            );
        }
        i += 1;
    }
    assert forall|k: int| #[trigger]
        first_image(asset.metadata.images@, image_key@, k) implies k == at by {
        if k < at {
            assert(asset.metadata.images@[k].key@ != image_key@);
        } else if at < k {
            assert(asset.metadata.images@[at as int].key@ != image_key@);
        }
    }
    hotspots
}

/// The rectangles of the controls that the panel's picture marks.
pub fn asset_hotspots_for_png(asset: &ResolvedAsset, mouse_w: u32, mouse_h: u32) -> (hotspots: Vec<
    Hotspot,
>)
    requires
        mouse_w <= MAX_CANVAS,
        mouse_h <= MAX_CANVAS,
    ensures
        no_image(asset.metadata.images@, marker_image(asset.metadata.images@))
            ==> hotspots@.len() == 0,
        forall|at: int| #[trigger]
            first_image(asset.metadata.images@, marker_image(asset.metadata.images@), at)
                ==> hotspots@ == marked_hotspots(
                asset.metadata.images@[at],
                mouse_w,
                mouse_h,
                asset.png_width,
                asset.metadata.images@[at].assignments@.len() as int,
            ),
{
    asset_hotspots_for_image(
        asset,
        mouse_w,
        mouse_h,
        hotspot_image_key(asset),
        asset.png_width,
        asset.png_height,
    )
}

/// The centre of a marked control is on the drawn picture.
pub proof fn markers_are_on_the_picture(
    image: ImageEntry,
    assignment: Assignment,
    mouse_w: u32,
    mouse_h: u32,
    png_w: u32,
)
    ensures
        ({
            let (x, y) = marked_hotspot(image, assignment, mouse_w, mouse_h, png_w);
            &&& 0 <= x + ASSET_HOTSPOT / 2 <= mouse_w
            &&& 0 <= y + ASSET_HOTSPOT / 2 <= mouse_h
        }),
{
    let marker = assignment.marker;
    let canvas = canvas_width(mouse_w, image.origin.width, png_w);
    let origin_w = least(image.origin.width, png_w);
    if png_w > 0 {
        assert(0 <= canvas <= mouse_w) by (nonlinear_arith)
            requires
                canvas == (mouse_w * origin_w) / png_w as int,
                0 <= mouse_w,
                0 <= origin_w <= png_w,
                0 < png_w,
        ;
    }
    let pixels = in_pixels(marker.x, marker.y);
    shares_fit(fraction(marker.x, origin_w, pixels), canvas);
    shares_fit(
        fraction(marker.y, at_least_one(image.origin.height), pixels),
        mouse_h as int,
    );
}

} // verus!
