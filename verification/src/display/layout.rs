//! Screen layout of the emulated device: the size and spacing of the keys for
//! a screen, the extra controls of each model, and the position of each key.

use vstd::prelude::*;
use crate::usb::StreamDeckModel;

verus! {

/// Integer division rounding toward zero, as `/` on `i32` does.
pub open spec fn trunc_div(a: int, b: int) -> int {
    if a >= 0 {
        a / b
    } else {
        -((-a) / b)
    }
}

/// The smaller of two integers.
pub open spec fn min_int(a: int, b: int) -> int {
    if a <= b { a } else { b }
}

/// Screen height kept for the controls below the keys: 120 for the knobs and
/// 120 for the touchscreen of a Stream Deck +, 100 for the info bar of a Neo.
pub open spec fn reserved_height(model: StreamDeckModel) -> int {
    match model {
        StreamDeckModel::Plus => 240,
        StreamDeckModel::Neo => 100,
        _ => 0,
    }
}

/// Width left for the key grid: the screen less 50 pixels on each side and
/// 30 pixels between columns.
pub open spec fn grid_room_width(model: StreamDeckModel, screen_width: int) -> int {
    screen_width - 100 - (model.key_matrix_spec().0 - 1) * 30
}

/// Height left for the key grid: the screen less 140 pixels of margins and
/// status bar, the reserved height and 30 pixels between rows.
pub open spec fn grid_room_height(model: StreamDeckModel, screen_height: int) -> int {
    screen_height - 140 - reserved_height(model) - (model.key_matrix_spec().1 - 1) * 30
}

/// Key size: the largest square that fits the grid in both directions, at most 200.
pub open spec fn button_size_spec(model: StreamDeckModel, screen_width: int, screen_height: int) -> int {
    let (cols, rows) = model.key_matrix_spec();
    min_int(
        min_int(trunc_div(grid_room_width(model, screen_width), cols as int), trunc_div(grid_room_height(model, screen_height), rows as int)),
        200,
    )
}

/// Spacing between keys: a quarter of the key size, kept between 20 and 50.
pub open spec fn button_spacing_spec(size: int) -> int {
    let q = trunc_div(size, 4);
    min_int(if q >= 20 { q } else { 20 }, 50)
}

/// Whether the layout arithmetic stays within `i32` for a screen size.
pub open spec fn layout_fits(model: StreamDeckModel, screen_width: i32, screen_height: i32) -> bool {
    &&& grid_room_width(model, screen_width as int) >= i32::MIN
    &&& grid_room_height(model, screen_height as int) >= i32::MIN
}

/// Layout of the emulated device on a screen.
#[derive(Debug, Clone, Copy, PartialEq, Eq, Structural)]
pub struct DeviceLayout {
    /// Key columns.
    pub cols: usize,
    /// Key rows.
    pub rows: usize,
    /// Number of keys.
    pub button_count: usize,
    /// Key size on screen, in pixels.
    pub button_size: i32,
    /// Space between keys, in pixels.
    pub button_spacing: i32,
    /// Size of the key images that the device receives.
    pub image_size: i32,
    /// Whether the device has knobs (Stream Deck +).
    pub has_knobs: bool,
    /// Number of knobs.
    pub knob_count: usize,
    /// Whether the device has a touchscreen strip (Stream Deck +).
    pub has_touchscreen: bool,
    /// Touchscreen width in pixels.
    pub touchscreen_width: i32,
    /// Touchscreen height in pixels.
    pub touchscreen_height: i32,
    /// Whether the device has an info bar (Neo).
    pub has_info_bar: bool,
    /// Info bar width in pixels.
    pub info_bar_width: i32,
    /// Info bar height in pixels.
    pub info_bar_height: i32,
    /// Whether the device has LED buttons (Neo).
    pub has_led_buttons: bool,
    /// Number of LED buttons.
    pub led_button_count: usize,
}

/// Integer division rounding toward zero.
fn div_toward_zero(a: i32, b: i32) -> (r: i32)
    requires
        b > 0,
    ensures
        r == trunc_div(a as int, b as int),
{
    if a >= 0 {
        a / b
    } else {
        let n: i64 = -(a as i64);
        let q: i64 = n / (b as i64);
        assert(q <= n);
        (-q) as i32
    }
}

impl DeviceLayout {
    /// The layout of `model` on a screen of the given size.
    pub fn from_model(model: StreamDeckModel, screen_width: i32, screen_height: i32) -> (r: Self)
        requires
            layout_fits(model, screen_width, screen_height),
        ensures
            r.cols == model.key_matrix_spec().0,
            r.rows == model.key_matrix_spec().1,
            r.button_count == model.key_count_spec(),
            r.image_size == model.key_image_size_spec().0,
            r.has_knobs == (model == StreamDeckModel::Plus),
            r.knob_count == (if model == StreamDeckModel::Plus { 4usize } else { 0 }),
            r.has_touchscreen == (model == StreamDeckModel::Plus),
            r.touchscreen_width == (if model == StreamDeckModel::Plus { 800i32 } else { 0 }),
            r.touchscreen_height == (if model == StreamDeckModel::Plus { 100i32 } else { 0 }),
            r.has_info_bar == (model == StreamDeckModel::Neo),
            r.info_bar_width == (if model == StreamDeckModel::Neo { 248i32 } else { 0 }),
            r.info_bar_height == (if model == StreamDeckModel::Neo { 58i32 } else { 0 }),
            r.has_led_buttons == (model == StreamDeckModel::Neo),
            r.led_button_count == (if model == StreamDeckModel::Neo { 2usize } else { 0 }),
            r.button_size == button_size_spec(model, screen_width as int, screen_height as int),
            r.button_spacing == button_spacing_spec(r.button_size as int),
    {
        let (cols8, rows8) = model.key_matrix();
        let cols = cols8 as usize;
        let rows = rows8 as usize;
        let button_count = model.key_count() as usize;
        let (img_w, _img_h) = model.key_image_size();
        let image_size = img_w as i32;
        let is_plus = match model {
            StreamDeckModel::Plus => true,
            _ => false,
        };
        let is_neo = match model {
            StreamDeckModel::Neo => true,
            _ => false,
        };
        let knob_area_height: i32 = if is_plus { 120 } else { 0 };
        let touchscreen_area_height: i32 = if is_plus { 120 } else { 0 };
        let info_bar_area_height: i32 = if is_neo { 100 } else { 0 };
        let available_width = screen_width - 100;
        let available_height = screen_height - 140 - knob_area_height - touchscreen_area_height - info_bar_area_height;
        let max_button_width = div_toward_zero(available_width - (cols8 as i32 - 1) * 30, cols8 as i32);
        let max_button_height = div_toward_zero(available_height - (rows8 as i32 - 1) * 30, rows8 as i32);
        let smaller = if max_button_width <= max_button_height { max_button_width } else { max_button_height };
        let button_size = if smaller <= 200 { smaller } else { 200 };
        let quarter = div_toward_zero(button_size, 4);
        let at_least = if quarter >= 20 { quarter } else { 20 };
        let button_spacing = if at_least <= 50 { at_least } else { 50 };
        DeviceLayout {
            cols,
            rows,
            button_count,
            button_size,
            button_spacing,
            image_size,
            has_knobs: is_plus,
            knob_count: if is_plus { 4 } else { 0 },
            has_touchscreen: is_plus,
            touchscreen_width: if is_plus { 800 } else { 0 },
            touchscreen_height: if is_plus { 100 } else { 0 },
            has_info_bar: is_neo,
            info_bar_width: if is_neo { 248 } else { 0 },
            info_bar_height: if is_neo { 58 } else { 0 },
            has_led_buttons: is_neo,
            led_button_count: if is_neo { 2 } else { 0 },
        }
    }
}

/// Whether `DeviceLayout::from_model` can lay out `model` on the screen
/// without leaving `i32`.
pub fn layout_fits_check(model: StreamDeckModel, screen_width: i32, screen_height: i32) -> (r: bool)
    ensures
        r == layout_fits(model, screen_width, screen_height),
{
    let (cols, rows) = model.key_matrix();
    let reserved: i64 = match model {
        StreamDeckModel::Plus => 240,
        StreamDeckModel::Neo => 100,
        _ => 0,
    };
    let room_w: i64 = screen_width as i64 - 100 - (cols as i64 - 1) * 30;
    let room_h: i64 = screen_height as i64 - 140 - reserved - (rows as i64 - 1) * 30;
    room_w >= i32::MIN as i64 && room_h >= i32::MIN as i64
}

/// Keys are never larger than 200 pixels, and the space between them is
/// always between 20 and 50 pixels.
pub proof fn law_layout_bounds(model: StreamDeckModel, screen_width: int, screen_height: int)
    ensures
        button_size_spec(model, screen_width, screen_height) <= 200,
        20 <= button_spacing_spec(button_size_spec(model, screen_width, screen_height)) <= 50,
{
}

/// Whether an integer is an `i32`.
pub open spec fn fits_i32(v: int) -> bool {
    i32::MIN <= v <= i32::MAX
}

/// Width of the key grid: the keys and the spaces between them.
pub open spec fn grid_width_spec(l: DeviceLayout) -> int {
    l.cols * l.button_size + (l.cols - 1) * l.button_spacing
}

/// Height of the key grid.
pub open spec fn grid_height_spec(l: DeviceLayout) -> int {
    l.rows * l.button_size + (l.rows - 1) * l.button_spacing
}

/// Left edge of the key grid: centred on the screen.
pub open spec fn grid_left_spec(l: DeviceLayout, screen_width: int) -> int {
    trunc_div(screen_width - grid_width_spec(l), 2)
}

/// Top edge of the key grid: 80 pixels from the top when knobs or a
/// touchscreen go below it, otherwise centred on the screen.
pub open spec fn grid_top_spec(l: DeviceLayout, screen_height: int) -> int {
    if l.has_knobs || l.has_touchscreen {
        80
    } else {
        trunc_div(screen_height - grid_height_spec(l), 2)
    }
}

/// Whether the grid arithmetic stays within `i32` (and the key count within usize).
pub open spec fn grid_fits(l: DeviceLayout, screen_width: i32, screen_height: i32) -> bool {
    let step = l.button_size + l.button_spacing;
    &&& l.cols <= i32::MAX
    &&& l.rows <= i32::MAX
    &&& l.rows * l.cols <= usize::MAX
    &&& fits_i32(l.cols * l.button_size)
    &&& fits_i32((l.cols - 1) * l.button_spacing)
    &&& fits_i32(grid_width_spec(l))
    &&& fits_i32(l.rows * l.button_size)
    &&& fits_i32((l.rows - 1) * l.button_spacing)
    &&& fits_i32(grid_height_spec(l))
    &&& fits_i32(screen_width - grid_width_spec(l))
    &&& (!(l.has_knobs || l.has_touchscreen) ==> fits_i32(screen_height - grid_height_spec(l)))
    &&& fits_i32(step)
    &&& forall|c: int| 0 <= c < l.cols ==> fits_i32(#[trigger] (c * step)) && fits_i32(grid_left_spec(l, screen_width as int) + c * step)
    &&& forall|r: int| 0 <= r < l.rows ==> fits_i32(#[trigger] (r * step)) && fits_i32(grid_top_spec(l, screen_height as int) + r * step)
}

/// Screen position of a key.
#[derive(Debug, Clone, Copy, PartialEq, Eq, Structural)]
pub struct KeyPosition {
    /// Left edge.
    pub x: i32,
    /// Top edge.
    pub y: i32,
    /// Key index: row by row, left to right.
    pub index: usize,
}

/// Position of the key in row `r`, column `c` of the grid.
pub open spec fn key_position_spec(l: DeviceLayout, screen_width: int, screen_height: int, r: int, c: int) -> KeyPosition {
    let step = l.button_size + l.button_spacing;
    KeyPosition {
        x: (grid_left_spec(l, screen_width) + c * step) as i32,
        y: (grid_top_spec(l, screen_height) + r * step) as i32,
        index: (r * l.cols + c) as usize,
    }
}

/// The position of every key, row by row, left to right: the grid is centred
/// horizontally and the keys are `button_size + button_spacing` apart.
pub fn key_positions(l: &DeviceLayout, screen_width: i32, screen_height: i32) -> (r: Vec<KeyPosition>)
    requires
        grid_fits(*l, screen_width, screen_height),
    ensures
        r@.len() == l.rows * l.cols,
        forall|i: int| 0 <= i < r@.len() ==> #[trigger] r@[i] == key_position_spec(*l, screen_width as int, screen_height as int, i / (l.cols as int), i % (l.cols as int)),
{
    let cols = l.cols as i32;
    let rows = l.rows as i32;
    let grid_width = (cols * l.button_size) + ((cols - 1) * l.button_spacing);
    let grid_height = (rows * l.button_size) + ((rows - 1) * l.button_spacing);
    let start_x = div_toward_zero(screen_width - grid_width, 2);
    let start_y = if l.has_knobs || l.has_touchscreen { 80 } else { div_toward_zero(screen_height - grid_height, 2) };
    let step = l.button_size + l.button_spacing;
    let mut out: Vec<KeyPosition> = Vec::new();
    let mut row: usize = 0;
    while row < l.rows
        invariant
            grid_fits(*l, screen_width, screen_height),
            step == l.button_size + l.button_spacing,
            start_x == grid_left_spec(*l, screen_width as int),
            start_y == grid_top_spec(*l, screen_height as int),
            row <= l.rows,
            out@.len() == row * l.cols,
            forall|i: int| 0 <= i < out@.len() ==> #[trigger] out@[i] == key_position_spec(*l, screen_width as int, screen_height as int, i / (l.cols as int), i % (l.cols as int)),
        decreases l.rows - row,
    {
        assert(fits_i32(row * step));
        let y = start_y + (row as i32) * step;
        let mut col: usize = 0;
        while col < l.cols
            invariant
                grid_fits(*l, screen_width, screen_height),
                step == l.button_size + l.button_spacing,
                start_x == grid_left_spec(*l, screen_width as int),
                start_y == grid_top_spec(*l, screen_height as int),
                row < l.rows,
                col <= l.cols,
                y == grid_top_spec(*l, screen_height as int) + row * step,
                out@.len() == row * l.cols + col,
                forall|i: int| 0 <= i < out@.len() ==> #[trigger] out@[i] == key_position_spec(*l, screen_width as int, screen_height as int, i / (l.cols as int), i % (l.cols as int)),
            decreases l.cols - col,
        {
            assert(fits_i32(col * step));
            let x = start_x + (col as i32) * step;
            proof {
                lemma_row_major(row as int, col as int, l.cols as int, l.rows as int);
            }
            let index = row * l.cols + col;
            let ghost before = out@;
            out.push(KeyPosition { x, y, index });
            proof {
                let i = before.len() as int;
                assert(i == row * l.cols + col);
                assert(out@[i] == key_position_spec(*l, screen_width as int, screen_height as int, i / (l.cols as int), i % (l.cols as int)));
            }
            col = col + 1;
        }
        proof {
            assert(row * l.cols + l.cols == (row + 1) * l.cols) by (nonlinear_arith);
        }
        row = row + 1;
    }
    proof {
        assert(l.rows * l.cols == row * l.cols);
    }
    out
}

/// Neighbouring keys do not overlap: in each row the next key starts
/// `button_size + button_spacing` to the right, in each column the next row
/// as far down, and the spacing is positive.
pub proof fn law_keys_do_not_overlap(l: DeviceLayout, screen_width: int, screen_height: int, r: int, c: int)
    requires
        l.button_spacing > 0,
        fits_i32(grid_left_spec(l, screen_width) + c * (l.button_size + l.button_spacing)),
        fits_i32(grid_left_spec(l, screen_width) + (c + 1) * (l.button_size + l.button_spacing)),
        fits_i32(grid_top_spec(l, screen_height) + r * (l.button_size + l.button_spacing)),
        fits_i32(grid_top_spec(l, screen_height) + (r + 1) * (l.button_size + l.button_spacing)),
    ensures
        key_position_spec(l, screen_width, screen_height, r, c + 1).x == key_position_spec(l, screen_width, screen_height, r, c).x
            + l.button_size + l.button_spacing,
        key_position_spec(l, screen_width, screen_height, r + 1, c).y == key_position_spec(l, screen_width, screen_height, r, c).y
            + l.button_size + l.button_spacing,
        key_position_spec(l, screen_width, screen_height, r, c + 1).x > key_position_spec(l, screen_width, screen_height, r, c).x
            + l.button_size,
{
    let step = l.button_size + l.button_spacing;
    assert((c + 1) * step == c * step + step) by (nonlinear_arith);
    assert((r + 1) * step == r * step + step) by (nonlinear_arith);
}

/// The multiples `c * step` for `0 <= c < n` lie between those of the two
/// ends, and so do the positions `start + c * step`.
proof fn lemma_between_ends(start: int, step: int, n: int, c: int)
    requires
        0 <= c < n,
    ensures
        (0 <= c * step <= (n - 1) * step) || ((n - 1) * step <= c * step <= 0),
{
    if step >= 0 {
        assert(0 <= c * step <= (n - 1) * step) by (nonlinear_arith)
            requires
                0 <= c < n,
                step >= 0,
        ;
    } else {
        assert((n - 1) * step <= c * step <= 0) by (nonlinear_arith)
            requires
                0 <= c < n,
                step < 0,
        ;
    }
}

/// Whether `key_positions` can place the keys of a layout on the screen
/// without leaving `i32`.
pub fn grid_fits_check(l: &DeviceLayout, screen_width: i32, screen_height: i32) -> (r: bool)
    ensures
        r == grid_fits(*l, screen_width, screen_height),
{
    if l.cols > i32::MAX as usize || l.rows > i32::MAX as usize {
        return false;
    }
    let cols = l.cols as i128;
    let rows = l.rows as i128;
    let size = l.button_size as i128;
    let spacing = l.button_spacing as i128;
    let lo = i32::MIN as i128;
    let hi = i32::MAX as i128;
    assert(-0x8000_0000 * 0x8000_0000 <= cols * size <= 0x8000_0000 * 0x8000_0000) by (nonlinear_arith)
        requires
            0 <= cols <= 0x7fff_ffff,
            -0x8000_0000 <= size <= 0x7fff_ffff,
    ;
    assert(-0x8000_0000 * 0x8000_0000 <= rows * size <= 0x8000_0000 * 0x8000_0000) by (nonlinear_arith)
        requires
            0 <= rows <= 0x7fff_ffff,
            -0x8000_0000 <= size <= 0x7fff_ffff,
    ;
    assert(-0x8000_0000 * 0x8000_0000 <= (cols - 1) * spacing <= 0x8000_0000 * 0x8000_0000) by (nonlinear_arith)
        requires
            0 <= cols <= 0x7fff_ffff,
            -0x8000_0000 <= spacing <= 0x7fff_ffff,
    ;
    assert(-0x8000_0000 * 0x8000_0000 <= (rows - 1) * spacing <= 0x8000_0000 * 0x8000_0000) by (nonlinear_arith)
        requires
            0 <= rows <= 0x7fff_ffff,
            -0x8000_0000 <= spacing <= 0x7fff_ffff,
    ;
    assert(0 <= rows * cols <= 0x7fff_ffff * 0x7fff_ffff) by (nonlinear_arith)
        requires
            0 <= rows <= 0x7fff_ffff,
            0 <= cols <= 0x7fff_ffff,
    ;
    let grid_w = cols * size + (cols - 1) * spacing;
    let grid_h = rows * size + (rows - 1) * spacing;
    let step = size + spacing;
    if rows * cols > usize::MAX as i128 {
        return false;
    }
    if !(lo <= cols * size && cols * size <= hi && lo <= (cols - 1) * spacing && (cols - 1) * spacing <= hi
        && lo <= grid_w && grid_w <= hi) {
        return false;
    }
    if !(lo <= rows * size && rows * size <= hi && lo <= (rows - 1) * spacing && (rows - 1) * spacing <= hi
        && lo <= grid_h && grid_h <= hi && lo <= step && step <= hi) {
        return false;
    }
    let room_w = screen_width as i128 - grid_w;
    if !(lo <= room_w && room_w <= hi) {
        return false;
    }
    let below = l.has_knobs || l.has_touchscreen;
    let room_h = screen_height as i128 - grid_h;
    if !below && !(lo <= room_h && room_h <= hi) {
        return false;
    }
    let left = if room_w >= 0 { room_w / 2 } else { -((-room_w) / 2) };
    assert(left == grid_left_spec(*l, screen_width as int));
    let top = if below { 80 } else if room_h >= 0 { room_h / 2 } else { -((-room_h) / 2) };
    assert(top == grid_top_spec(*l, screen_height as int));
    if cols > 0 {
        assert(-0x8000_0000 * 0x1_0000_0000 <= (cols - 1) * step <= 0x8000_0000 * 0x1_0000_0000) by (nonlinear_arith)
            requires
                0 <= cols <= 0x7fff_ffff,
                -0x8000_0000 <= step <= 0x7fff_ffff,
        ;
        let last = (cols - 1) * step;
        if !(lo <= last && last <= hi && lo <= left + last && left + last <= hi && lo <= left && left <= hi) {
            return false;
        }
        assert forall|c: int| 0 <= c < l.cols implies fits_i32(#[trigger] (c * step)) && fits_i32(
            grid_left_spec(*l, screen_width as int) + c * step,
        ) by {
            lemma_between_ends(left as int, step as int, cols as int, c);
        }
    }
    if rows > 0 {
        assert(-0x8000_0000 * 0x1_0000_0000 <= (rows - 1) * step <= 0x8000_0000 * 0x1_0000_0000) by (nonlinear_arith)
            requires
                0 <= rows <= 0x7fff_ffff,
                -0x8000_0000 <= step <= 0x7fff_ffff,
        ;
        let last = (rows - 1) * step;
        if !(lo <= last && last <= hi && lo <= top + last && top + last <= hi && lo <= top && top <= hi) {
            return false;
        }
        assert forall|r: int| 0 <= r < l.rows implies fits_i32(#[trigger] (r * step)) && fits_i32(
            grid_top_spec(*l, screen_height as int) + r * step,
        ) by {
            lemma_between_ends(top as int, step as int, rows as int, r);
        }
    }
    true
}

/// Row-major indices: cell (r, c) is number r * cols + c, and back.
proof fn lemma_row_major(r: int, c: int, cols: int, rows: int)
    requires
        0 <= r < rows,
        0 <= c < cols,
    ensures
        0 <= r * cols + c < rows * cols,
        (r * cols + c) / cols == r,
        (r * cols + c) % cols == c,
{
    assert(0 <= r * cols + c < rows * cols) by (nonlinear_arith)
        requires
            0 <= r < rows,
            0 <= c < cols,
    ;
    vstd::arithmetic::div_mod::lemma_fundamental_div_mod_converse(r * cols + c, cols, r, c);
}

} // verus!
