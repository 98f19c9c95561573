use vstd::prelude::*;

use crate::frame::{crop_pixels, cropped};

verus! {

/// A screenshot as an RGBA image with 8 bits per channel, rows top to bottom
/// and pixels left to right; the byte of channel `c` of pixel `(x, y)` is
/// `data[(y * width + x) * 4 + c]`.
#[derive(Debug)]
pub struct CapturedFrame {
    pub width: u32,
    pub height: u32,
    pub data: Vec<u8>,
}

impl CapturedFrame {
    /// The pixel data holds exactly `width * height` pixels.
    pub open spec fn wf(&self) -> bool {
        self.data@.len() == self.width * self.height * 4
    }
}

/// The area a monitor covers in the desktop's coordinate space.
#[derive(Clone, Copy, Debug, PartialEq, Eq, Structural)]
pub struct DisplayArea {
    pub x: i32,
    pub y: i32,
    pub width: u32,
    pub height: u32,
}

/// Whether the point `(px, py)` lies on the monitor.
pub open spec fn covers(d: DisplayArea, px: int, py: int) -> bool {
    &&& d.x <= px < d.x + d.width
    &&& d.y <= py < d.y + d.height
}

/// Whether `i` is the monitor a screenshot taken with the cursor at `(px, py)`
/// keeps: the first monitor that covers the cursor, or the first monitor when
/// none does.
pub open spec fn is_chosen_display(ds: Seq<DisplayArea>, px: int, py: int, i: int) -> bool {
    &&& 0 <= i < ds.len()
    &&& forall|j: int| 0 <= j < i ==> !covers(#[trigger] ds[j], px, py)
    &&& (covers(ds[i], px, py) || (i == 0 && forall|j: int| 0 <= j < ds.len() ==> !covers(#[trigger] ds[j], px, py)))
}

impl DisplayArea {
    /// Tells whether the point `(px, py)` lies on the monitor.
    pub fn covers(&self, px: i32, py: i32) -> (res: bool)
        ensures
            res == covers(*self, px as int, py as int),
    {
        let x = px as i64;
        let y = py as i64;
        x >= self.x as i64 && x < self.x as i64 + self.width as i64 && y >= self.y as i64 && y < self.y as i64
            + self.height as i64
    }
}

/// Picks the monitor under the cursor: the first that covers `(px, py)`, or
/// the first monitor when none does; `None` when there is no monitor.
pub fn display_under_cursor(displays: &Vec<DisplayArea>, px: i32, py: i32) -> (chosen: Option<usize>)
    ensures
        match chosen {
            Some(i) => is_chosen_display(displays@, px as int, py as int, i as int),
            None => displays@.len() == 0,
        },
{
    let mut i: usize = 0;
    while i < displays.len()
        invariant
            i <= displays.len(),
            forall|j: int| 0 <= j < i ==> !covers(#[trigger] displays@[j], px as int, py as int),
        decreases displays.len() - i,
    {
        if displays[i].covers(px, py) {
            return Some(i);
        }
        i = i + 1;
    }
    if displays.len() > 0 {
        Some(0)
    } else {
        None
    }
}

/// The part of a `frame_width` by `frame_height` screenshot that shows the
/// monitor: its origin clamped into the image, its size cut at the image's
/// right and bottom edges.
pub open spec fn crop_region_spec(d: DisplayArea, frame_width: u32, frame_height: u32) -> (u32, u32, u32, u32) {
    let cx = if d.x <= 0 { 0 } else if d.x < frame_width - 1 { d.x as int } else { frame_width - 1 };
    let cy = if d.y <= 0 { 0 } else if d.y < frame_height - 1 { d.y as int } else { frame_height - 1 };
    let cw = if d.width < frame_width - cx { d.width as int } else { frame_width - cx };
    let ch = if d.height < frame_height - cy { d.height as int } else { frame_height - cy };
    (cx as u32, cy as u32, cw as u32, ch as u32)
}

/// The part of a `frame_width` by `frame_height` screenshot that shows the
/// monitor (see [`crop_region_spec`]); it always lies inside the image.
pub fn crop_region(d: &DisplayArea, frame_width: u32, frame_height: u32) -> (r: (u32, u32, u32, u32))
    requires
        frame_width > 0,
        frame_height > 0,
    ensures
        r == crop_region_spec(*d, frame_width, frame_height),
        r.0 < frame_width,
        r.1 < frame_height,
        r.0 + r.2 <= frame_width,
        r.1 + r.3 <= frame_height,
{
    let x0: u32 = if d.x < 0 { 0 } else { d.x as u32 };
    let y0: u32 = if d.y < 0 { 0 } else { d.y as u32 };
    let cx = if x0 < frame_width - 1 { x0 } else { frame_width - 1 };
    let cy = if y0 < frame_height - 1 { y0 } else { frame_height - 1 };
    let cw = if d.width < frame_width - cx { d.width } else { frame_width - cx };
    let ch = if d.height < frame_height - cy { d.height } else { frame_height - cy };
    (cx, cy, cw, ch)
}

/// The frame that a screenshot of the whole desktop, taken with the cursor at
/// `(px, py)`, is reduced to: the part that shows the monitor under the cursor
/// (see [`display_under_cursor`] and [`crop_region`]), or the whole screenshot
/// when there is no monitor.
pub fn frame_for_cursor(full: CapturedFrame, displays: &Vec<DisplayArea>, px: i32, py: i32) -> (out: CapturedFrame)
    requires
        full.wf(),
        displays@.len() > 0 ==> full.width > 0 && full.height > 0,
    ensures
        out.wf(),
        displays@.len() == 0 ==> out == full,
        displays@.len() > 0 ==> exists|i: int| is_chosen_display(displays@, px as int, py as int, i),
        forall|i: int|
            is_chosen_display(displays@, px as int, py as int, i) ==> {
                let (cx, cy, cw, ch) = crop_region_spec(displays@[i], full.width, full.height);
                &&& out.width == cw
                &&& out.height == ch
                &&& out.data@ == cropped(full.data@, full.width as int, cx as int, cy as int, cw as int, ch as int)
            },
{
    match display_under_cursor(displays, px, py) {
        Some(i) => {
            let (cx, cy, cw, ch) = crop_region(&displays[i], full.width, full.height);
            let data = crop_pixels(&full, cx, cy, cw, ch);
            proof {
                lemma_chosen_display_unique(displays@, px as int, py as int, i as int);
            }
            CapturedFrame { width: cw, height: ch, data }
        },
        None => full,
    }
}

/// At most one monitor is the chosen one.
proof fn lemma_chosen_display_unique(ds: Seq<DisplayArea>, px: int, py: int, i: int)
    requires
        is_chosen_display(ds, px, py, i),
    ensures
        forall|j: int| is_chosen_display(ds, px, py, j) ==> j == i,
{
    assert forall|j: int| is_chosen_display(ds, px, py, j) implies j == i by {
        if j < i {
            assert(!covers(ds[j], px, py));
            assert(j == 0);
            assert(!covers(ds[i], px, py));
        } else if i < j {
            assert(!covers(ds[i], px, py));
            assert(i == 0);
            assert(!covers(ds[j], px, py));
        }
    }
}

/// The monitor that a screenshot keeps covers the cursor whenever some monitor does.
pub proof fn law_chosen_display_covers_cursor(ds: Seq<DisplayArea>, px: int, py: int, i: int, j: int)
    requires
        is_chosen_display(ds, px, py, i),
        0 <= j < ds.len(),
        covers(ds[j], px, py),
    ensures
        covers(ds[i], px, py),
        i <= j,
{
}

/// A monitor covers exactly the points of its rectangle: columns `x` up to
/// `x + width` (exclusive) and rows `y` up to `y + height` (exclusive).
pub proof fn law_covers_is_the_monitor_rectangle(d: DisplayArea, px: int, py: int)
    ensures
        covers(d, px, py) <==> (d.x <= px && px < d.x + d.width && d.y <= py && py < d.y + d.height),
{
}

/// The monitor chosen for a cursor lies under it whenever some monitor's
/// rectangle contains the cursor: its rectangle contains the cursor, and no
/// earlier monitor's rectangle does. Only when no rectangle contains the
/// cursor is the first monitor chosen.
pub proof fn law_chosen_display_is_first_containing(ds: Seq<DisplayArea>, px: int, py: int, i: int)
    requires
        is_chosen_display(ds, px, py, i),
    ensures
        0 <= i < ds.len(),
        forall|j: int|
            0 <= j < i ==> !(ds[j].x <= px && px < ds[j].x + ds[j].width && ds[j].y <= py && py < ds[j].y
                + ds[j].height),
        (exists|j: int|
            0 <= j < ds.len() && ds[j].x <= px && px < ds[j].x + ds[j].width && ds[j].y <= py && py < ds[j].y
                + ds[j].height) ==> (ds[i].x <= px && px < ds[i].x + ds[i].width && ds[i].y <= py && py < ds[i].y
            + ds[i].height),
        !(ds[i].x <= px && px < ds[i].x + ds[i].width && ds[i].y <= py && py < ds[i].y + ds[i].height) ==> i == 0,
{
    assert forall|j: int| 0 <= j < i implies !(ds[j].x <= px && px < ds[j].x + ds[j].width && ds[j].y <= py && py
        < ds[j].y + ds[j].height) by {
        assert(!covers(ds[j], px, py));
    }
    if exists|j: int|
        0 <= j < ds.len() && ds[j].x <= px && px < ds[j].x + ds[j].width && ds[j].y <= py && py < ds[j].y
            + ds[j].height {
        let j = choose|j: int|
            0 <= j < ds.len() && ds[j].x <= px && px < ds[j].x + ds[j].width && ds[j].y <= py && py < ds[j].y
                + ds[j].height;
        assert(covers(ds[j], px, py));
    }
}

/// A monitor whose origin lies inside the screenshot keeps its origin, and its
/// size cut at the screenshot's right and bottom edges; a monitor left of or
/// above the screenshot starts at its left or top edge.
pub proof fn law_crop_region_is_monitor_inside_frame(d: DisplayArea, frame_width: u32, frame_height: u32)
    requires
        frame_width > 0,
        frame_height > 0,
    ensures
        ({
            let (cx, cy, cw, ch) = crop_region_spec(d, frame_width, frame_height);
            &&& 0 <= d.x < frame_width ==> cx == d.x && cw == (if d.x + d.width <= frame_width {
                d.width as int
            } else {
                frame_width - d.x
            })
            &&& 0 <= d.y < frame_height ==> cy == d.y && ch == (if d.y + d.height <= frame_height {
                d.height as int
            } else {
                frame_height - d.y
            })
            &&& d.x < 0 ==> cx == 0
            &&& d.y < 0 ==> cy == 0
            &&& d.x >= frame_width ==> cx == frame_width - 1
            &&& d.y >= frame_height ==> cy == frame_height - 1
            &&& cx + cw <= frame_width && cy + ch <= frame_height
            &&& cw <= d.width && ch <= d.height
        }),
{
}

/// Whether `url::Url::parse` accepts the text.
pub uninterp spec fn url_parses(text: Seq<char>) -> bool;

/// The message (`Display`) of the `url::ParseError` that `url::Url::parse`
/// gives for the text, when it refuses it.
pub uninterp spec fn url_parse_error_text(text: Seq<char>) -> Seq<char>;

/// The bytes of the local path that `url::Url::to_file_path` gives for the URL
/// that `url::Url::parse` makes of the text, on the platform the crate is
/// built for; `None` when the URL names no local file.
pub uninterp spec fn uri_local_path(text: Seq<char>) -> Option<Seq<u8>>;

/// Parses the text by `url::Url::parse` and, when that succeeds, converts the
/// URL to a local path by `url::Url::to_file_path`, handing out the path's
/// bytes (`OsString::into_encoded_bytes`); a refused text gives the parse
/// error's message (its `Display`). It succeeds exactly on the texts that
/// [`url_parses`] names, and then gives [`uri_local_path`]; otherwise the
/// message is [`url_parse_error_text`].
#[verifier::external_body]
fn local_path_of_uri(text: &str) -> (r: Result<Option<Vec<u8>>, String>)
    ensures
        r is Ok <==> url_parses(text@),
        r matches Ok(p) ==> (p is Some <==> uri_local_path(text@) is Some),
        r matches Ok(p) ==> (p matches Some(bytes) ==> bytes@ == uri_local_path(text@).unwrap()),
        r matches Err(msg) ==> msg@ == url_parse_error_text(text@),
{
    match url::Url::parse(text) {
        Ok(u) => match u.to_file_path() {
            Ok(path) => Ok(Some(path.into_os_string().into_encoded_bytes())),
            Err(_) => Ok(None),
        },
        Err(e) => Err(e.to_string()),
    }
}

/// The bytes of the local file that the desktop portal's screenshot URI names.
/// A URI that does not parse gives "Url parse error: " followed by the parse
/// error's message; a parsed URI that names no local file gives "Invalid URI: "
/// followed by the URI.
pub fn screenshot_path(uri: &str) -> (r: Result<Vec<u8>, String>)
    ensures
        r is Ok <==> (url_parses(uri@) && uri_local_path(uri@) is Some),
        r matches Ok(bytes) ==> bytes@ == uri_local_path(uri@).unwrap(),
        !url_parses(uri@) ==> (r matches Err(msg) && msg@ == "Url parse error: "@ + url_parse_error_text(uri@)),
        (url_parses(uri@) && uri_local_path(uri@) is None) ==> (r matches Err(msg) && msg@ == "Invalid URI: "@ + uri@),
{
    match local_path_of_uri(uri) {
        Err(detail) => {
            let mut msg = String::from_str("Url parse error: ");
            msg.append(detail.as_str());
            Err(msg)
        },
        Ok(Some(bytes)) => Ok(bytes),
        Ok(None) => {
            let mut msg = String::from_str("Invalid URI: ");
            msg.append(uri);
            Err(msg)
        },
    }
}

} // verus!
