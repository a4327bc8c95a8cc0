//! Where things stand on the screen.
use ratatui::layout::{Constraint, Direction, Layout, Rect};
use vstd::prelude::*;
use vstd::utf8::encode_utf8;

use crate::text::byte_len;
use crate::tui::AppState;

verus! {

/// Rows of the title.
pub const TITLE_ROWS: u16 = 1;

/// The least rows of the chat.
pub const CHAT_ROWS: u16 = 1;

/// Rows of the status.
pub const STATUS_ROWS: u16 = 1;

/// Rows of the input box, its frame among them.
pub const INPUT_ROWS: u16 = 3;

/// A rectangle of character cells.
#[derive(Debug, Clone, Copy, PartialEq, Eq, Structural)]
pub struct Area {
    pub x: u16,
    pub y: u16,
    pub width: u16,
    pub height: u16,
}

/// How the screen is laid out.
#[derive(Debug)]
pub struct Screen {
    pub title: Area,
    pub chat: Area,
    pub status: Area,
    pub input: Area,
    /// How many lines of chat are scrolled out at the top.
    pub scroll: u16,
    /// The text of the status row.
    pub status_text: String,
    /// The column and row of the cursor.
    pub cursor: (u16, u16),
}

/// A band of rows across an area.
pub open spec fn band(area: Area, y: int, height: int) -> Area {
    Area { x: area.x, y: y as u16, width: area.width, height: height as u16 }
}

/// An area cut into four bands of rows: the first, third and fourth as high as asked, and the
/// second taking what they leave.
pub open spec fn four_bands(area: Area, first: u16, third: u16, fourth: u16) -> Seq<Area> {
    let second = area.height - first - third - fourth;
    seq![
        band(area, area.y as int, first as int),
        band(area, area.y + first, second),
        band(area, area.y + first + second, third as int),
        band(area, area.y + first + second + third, fourth as int),
    ]
}

/// Whether four bands follow one another from the top of an area to its bottom, across its whole
/// width.
pub open spec fn is_stack(bands: Seq<Area>, area: Area) -> bool {
    &&& bands.len() == 4
    &&& forall|i: int|
        0 <= i < 4 ==> (#[trigger] bands[i]).x == area.x && bands[i].width == area.width
    &&& bands[0].y == area.y
    &&& bands[1].y == bands[0].y + bands[0].height
    &&& bands[2].y == bands[1].y + bands[1].height
    &&& bands[3].y == bands[2].y + bands[2].height
    &&& bands[3].y + bands[3].height == area.y + area.height
}

/// Whether bands in an area too low for them give way in order: the second is as high as asked,
/// or as the area, and the others are no higher than asked.
pub open spec fn gives_way(
    bands: Seq<Area>,
    area: Area,
    first: u16,
    second: u16,
    third: u16,
    fourth: u16,
) -> bool {
    &&& bands[0].height <= first
    &&& bands[1].height == if second < area.height {
        second
    } else {
        area.height
    }
    &&& bands[2].height <= third
    &&& bands[3].height <= fourth
}

/// `ratatui::layout::Layout::split`, for a vertical layout of a fixed length, a least length and
/// two fixed lengths. It gives one rectangle for each of them, as wide as the area; they follow
/// one another from its top to its bottom, because gaps and overlaps weigh more than any length.
/// Where the area is high enough for all four, the fixed lengths are met and the second rectangle
/// takes the rest. Where it is not, the least length, which weighs more than the fixed ones, is
/// met as far as the area reaches, and no fixed length is exceeded; which of the fixed lengths
/// is cut is left to the solver behind it, and nothing is said of that.
#[verifier::external_body]
fn split_rows(area: Area, first: u16, second: u16, third: u16, fourth: u16) -> (r: Vec<Area>)
    requires
        area.y + area.height <= u16::MAX,
        second <= i16::MAX,
    ensures
        is_stack(r@, area),
        area.height < first + second + third + fourth ==> gives_way(
            r@,
            area,
            first,
            second,
            third,
            fourth,
        ),
        area.height >= first + second + third + fourth ==> r@ == four_bands(
            area,
            first,
            third,
            fourth,
        ),
{
    Layout::default()
        .direction(Direction::Vertical)
        .constraints(
            [
                Constraint::Length(first),
                Constraint::Min(second),
                Constraint::Length(third),
                Constraint::Length(fourth),
            ],
        )
        .split(Rect { x: area.x, y: area.y, width: area.width, height: area.height })
        .iter()
        .map(|r| Area { x: r.x, y: r.y, width: r.width, height: r.height })
        .collect()
}

/// How many of `lines` lines do not fit on `rows` rows, as a 16-bit number.
pub open spec fn scrolled_out(lines: nat, rows: u16) -> int {
    if lines > rows {
        (lines - rows) % 65536
    } else {
        0
    }
}

/// The bytes of the input line, as a 16-bit number.
pub open spec fn input_width(state: AppState) -> int {
    byte_len(state.input@) as int % 65536
}

/// Whether the cursor's place in the input box is a 16-bit number.
pub open spec fn cursor_fits(state: AppState, input: Area) -> bool {
    &&& input.x + 1 + input_width(state) <= u16::MAX
    &&& input.y + 1 <= u16::MAX
}

/// Whether an area has room for the title, some chat, the status and the input box.
pub open spec fn is_high_enough(area: Area) -> bool {
    area.height >= TITLE_ROWS + CHAT_ROWS + STATUS_ROWS + INPUT_ROWS
}

/// Whether the cursor's place is a 16-bit number wherever in an area the input box comes to
/// stand.
pub open spec fn area_fits(state: AppState, area: Area) -> bool {
    &&& area.x + 1 + input_width(state) <= u16::MAX
    &&& area.y + area.height <= u16::MAX
    &&& is_high_enough(area) || area.y + area.height < u16::MAX
}

/// A screen that shows a state in four bands.
pub open spec fn shows(screen: Screen, state: AppState, bands: Seq<Area>) -> bool {
    &&& screen.title == bands[0]
    &&& screen.chat == bands[1]
    &&& screen.status == bands[2]
    &&& screen.input == bands[3]
    &&& screen.scroll == scrolled_out(state.lines@.len(), bands[1].height)
    &&& screen.status_text@ == " "@ + state.status@
    &&& screen.cursor.0 == bands[3].x + 1 + input_width(state)
    &&& screen.cursor.1 == bands[3].y + 1
}

/// Lays a state out in four bands: title, chat, status and input box.
pub fn lay_out(state: &AppState, bands: &Vec<Area>) -> (r: Screen)
    requires
        bands@.len() == 4,
        cursor_fits(*state, bands@[3]),
    ensures
        shows(r, *state, bands@),
{
    let lines: usize = state.lines.len();
    let rows: usize = bands[1].height as usize;
    let scroll: u16 = if lines > rows {
        ((lines - rows) % 65536) as u16
    } else {
        0
    };
    let width: u16 = (state.input.as_str().len() % 65536) as u16;
    let mut status_text = " ".to_string();
    status_text.append(state.status.as_str());
    Screen {
        title: bands[0],
        chat: bands[1],
        status: bands[2],
        input: bands[3],
        scroll,
        status_text,
        cursor: (bands[3].x + 1 + width, bands[3].y + 1),
    }
}

/// Whether a state can be drawn in an area.
pub fn can_draw(state: &AppState, area: &Area) -> (r: bool)
    ensures
        r == area_fits(*state, *area),
{
    let width: u32 = (state.input.as_str().len() % 65536) as u32;
    let bottom: u32 = area.y as u32 + area.height as u32;
    area.x as u32 + 1 + width <= 65535 && bottom <= 65535 && (area.height >= TITLE_ROWS + CHAT_ROWS
        + STATUS_ROWS + INPUT_ROWS || bottom < 65535)
}

/// The bands of a screen, from top to bottom.
pub open spec fn bands_of(screen: Screen) -> Seq<Area> {
    seq![screen.title, screen.chat, screen.status, screen.input]
}

/// Lays a state out in an area: the title, the chat, the status and the input box follow one
/// another from top to bottom. Where the area is high enough, the title and the status have a
/// row each, the input box has three, and the chat has the rest. Where it is not, the chat keeps
/// its row as long as there is one, and the others get no more than that.
pub fn draw(state: &AppState, area: Area) -> (r: Screen)
    requires
        area_fits(*state, area),
    ensures
        shows(r, *state, bands_of(r)),
        is_stack(bands_of(r), area),
        !is_high_enough(area) ==> gives_way(
            bands_of(r),
            area,
            TITLE_ROWS,
            CHAT_ROWS,
            STATUS_ROWS,
            INPUT_ROWS,
        ),
        is_high_enough(area) ==> bands_of(r) == four_bands(
            area,
            TITLE_ROWS,
            STATUS_ROWS,
            INPUT_ROWS,
        ),
{
    let bands = split_rows(area, TITLE_ROWS, CHAT_ROWS, STATUS_ROWS, INPUT_ROWS);
    let r = lay_out(state, &bands);
    assert(bands_of(r) == bands@);
    r
}

/// The chat is scrolled to its newest line: whenever there are more lines than rows, and fewer
/// than 65536 too many, those scrolled out and those in view are all there are; whenever the lines
/// fit, none is scrolled out.
pub proof fn law_newest_line(screen: Screen, state: AppState)
    requires
        shows(screen, state, bands_of(screen)),
    ensures
        state.lines@.len() <= screen.chat.height ==> screen.scroll == 0,
        screen.chat.height < state.lines@.len() < screen.chat.height + 65536 ==> screen.scroll
            + screen.chat.height == state.lines@.len(),
        state.lines@.len() > screen.chat.height ==> (state.lines@.len() - screen.chat.height
            - screen.scroll) % 65536 == 0,
{
}

/// The cursor stands in the row below the top of the input box, one column in and as many further
/// as the input has bytes, and the status row shows a blank and the status.
pub proof fn law_cursor_and_status(screen: Screen, state: AppState)
    requires
        shows(screen, state, bands_of(screen)),
    ensures
        screen.cursor.1 == screen.input.y + 1,
        encode_utf8(state.input@).len() < 65536 ==> screen.cursor.0 == screen.input.x + 1
            + encode_utf8(state.input@).len(),
        screen.status_text@.len() == 1 + state.status@.len(),
        screen.status_text@[0] == ' ',
        screen.status_text@.skip(1) == state.status@,
{
    reveal_strlit(" ");
    assert(screen.status_text@.skip(1) == state.status@);
}

/// In an area of at least six rows the title has the first row, the input box the last three, the
/// status the one above it, and the chat all between, each across the whole width.
pub proof fn law_bands(screen: Screen, area: Area)
    requires
        bands_of(screen) == four_bands(area, TITLE_ROWS, STATUS_ROWS, INPUT_ROWS),
        area.height >= 6,
        area.y + area.height <= u16::MAX,
    ensures
        is_high_enough(area),
        screen.title == (Area { x: area.x, y: area.y, width: area.width, height: 1 }),
        screen.chat.x == area.x && screen.chat.width == area.width,
        screen.chat.y == area.y + 1 && screen.chat.height == area.height - 5,
        screen.status.x == area.x && screen.status.width == area.width,
        screen.status.y == area.y + area.height - 4 && screen.status.height == 1,
        screen.input.x == area.x && screen.input.width == area.width,
        screen.input.y == area.y + area.height - 3 && screen.input.height == 3,
{
    let bands = bands_of(screen);
    assert(bands[0] == screen.title);
    assert(bands[1] == screen.chat);
    assert(bands[2] == screen.status);
    assert(bands[3] == screen.input);
}

/// In a lower area the bands still stand below one another and fill it, and the chat has the row
/// that there is, if there is any.
pub proof fn law_low_bands(screen: Screen, area: Area)
    requires
        is_stack(bands_of(screen), area),
        gives_way(bands_of(screen), area, TITLE_ROWS, CHAT_ROWS, STATUS_ROWS, INPUT_ROWS),
        area.height < 6,
    ensures
        !is_high_enough(area),
        screen.title.y == area.y,
        screen.chat.y == screen.title.y + screen.title.height,
        screen.status.y == screen.chat.y + screen.chat.height,
        screen.input.y == screen.status.y + screen.status.height,
        screen.input.y + screen.input.height == area.y + area.height,
        screen.chat.height == if area.height > 0 {
            1int
        } else {
            0int
        },
        screen.title.height <= 1 && screen.status.height <= 1 && screen.input.height <= 3,
        screen.title.x == area.x && screen.title.width == area.width,
        screen.chat.x == area.x && screen.chat.width == area.width,
        screen.status.x == area.x && screen.status.width == area.width,
        screen.input.x == area.x && screen.input.width == area.width,
{
    let bands = bands_of(screen);
    assert(bands[0] == screen.title);
    assert(bands[1] == screen.chat);
    assert(bands[2] == screen.status);
    assert(bands[3] == screen.input);
}

/// Every usual terminal can be drawn on: one at the origin of at most 30000 rows, while the input
/// has at most 60000 bytes.
pub proof fn law_usual_screens(state: AppState, area: Area)
    requires
        area.x == 0 && area.y == 0,
        area.height <= 30000,
        encode_utf8(state.input@).len() <= 60000,
    ensures
        area_fits(state, area),
{
}

} // verus!
