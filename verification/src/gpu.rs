use vstd::prelude::*;
use crate::game_boy::{GameBoy, GameBoyView};
use crate::memory::{MemoryView, Register, SpriteData};
use crate::util::{bit, signed_value};

verus! {

#[verifier::external_type_specification]
#[verifier::external_body]
#[allow(deprecated)]
pub struct ExInstant(time::Instant);

pub const VERTICAL_RES: u8 = 144;

pub const HORIZONTAL_RES: u8 = 160;

/// The number of bytes of one frame: four for each pixel.
pub const FRAME_BYTES: usize = 92160;

/// The number of cycles of one frame.
pub const FRAME_CYCLES: u32 = 70224;

/// The number of cycles of one scanline.
pub const LINE_CYCLES: u32 = 456;

pub const MODE0_HBLANK: u8 = 0;

pub const MODE1_VBLANK: u8 = 1;

pub const MODE2_ACCESSING_OAM: u8 = 2;

pub const MODE3_ACCESSING_VRAM: u8 = 3;

/// How the tile number of a background or window tile is read.
#[derive(Copy, Clone, Debug, PartialEq, Eq, Structural)]
pub enum TileAddressingMode {
    Unsigned,
    Signed,
}

/// The two-bit palette index of one pixel of a tile row. `pattern` holds the
/// first byte of the row, the low bit plane, in its low byte and the second
/// in its high byte; `x` counts the bits from the right.
pub open spec fn spec_palette_index(pattern: u16, x: u8) -> u8 {
    (((pattern >> x) & 0b1) | ((pattern >> ((x + 7) as u8)) & 0b10)) as u8
}

/// The colour that a palette register gives to a palette index.
pub open spec fn spec_palette_color(palette: u8, index: u8) -> u8 {
    (palette >> ((index * 2) as u8)) & 0b11
}

/// The grey level of a colour: white for 0, black for 3.
pub open spec fn shade(color_id: u8) -> u8 {
    if color_id == 3 {
        0
    } else if color_id == 2 {
        96
    } else if color_id == 1 {
        192
    } else {
        255
    }
}

/// The address of the first byte of a sprite tile.
pub open spec fn sprite_tile_address(tile_index: u8) -> u16 {
    (0x8000 + tile_index * 16) as u16
}

/// The address of the first byte of a background or window tile.
pub open spec fn bg_tile_address(mode: TileAddressingMode, tile_index: u8) -> u16 {
    match mode {
        TileAddressingMode::Unsigned => sprite_tile_address(tile_index),
        TileAddressingMode::Signed => (0x9000 + signed_value(tile_index) * 16) as u16,
    }
}

/// The index of the tile that holds the pixel `(x, y)` of a 256 by 256 map.
pub open spec fn spec_tile_index(x: u16, y: u16) -> u16 {
    ((y / 8) * 32 + x / 8) as u16
}

impl MemoryView {
    pub open spec fn lcd_control(self) -> u8 {
        self.mem[0xFF40]
    }

    pub open spec fn display_enabled(self) -> bool {
        bit(self.lcd_control(), 7)
    }

    pub open spec fn bg_enabled(self) -> bool {
        bit(self.lcd_control(), 0)
    }

    /// Whether the background uses the tile map at 0x9C00.
    pub open spec fn bg_tile_map(self) -> bool {
        bit(self.lcd_control(), 3)
    }

    pub open spec fn window_enabled(self) -> bool {
        bit(self.lcd_control(), 5)
    }

    /// Whether the window uses the tile map at 0x9C00.
    pub open spec fn window_tile_map(self) -> bool {
        bit(self.lcd_control(), 6)
    }

    pub open spec fn tile_mode(self) -> TileAddressingMode {
        if bit(self.lcd_control(), 4) {
            TileAddressingMode::Unsigned
        } else {
            TileAddressingMode::Signed
        }
    }

    /// The height of every sprite: 16 with bit 2 of the control register
    /// set, else 8.
    pub open spec fn sprite_height(self) -> u8 {
        if bit(self.lcd_control(), 2) {
            16
        } else {
            8
        }
    }

    /// The row of eight pixels of the tile map at the pixel `(x, y)`.
    pub open spec fn tile_row(self, map_id: bool, x: u16, y: u16) -> u16 {
        let map: int = if map_id {
            0x9C00
        } else {
            0x9800
        };
        let tile = self.read((map + spec_tile_index(x, y)) as u16);
        self.read_word((bg_tile_address(self.tile_mode(), tile) + (y % 8) * 2) as u16)
    }

    /// The palette index of the background at a pixel of the screen, zero
    /// when the background is switched off.
    pub open spec fn bg_index(self, x: u8, line: u8) -> u8 {
        if self.bg_enabled() {
            let x_bg = ((x + self.mem[0xFF43]) % 256) as u16;
            let y_bg = ((line + self.mem[0xFF42]) % 256) as u16;
            spec_palette_index(self.tile_row(self.bg_tile_map(), x_bg, y_bg), (7 - x_bg % 8) as u8)
        } else {
            0
        }
    }

    /// Whether the window covers a pixel of the screen.
    pub open spec fn window_covers(self, x: u8, line: u8) -> bool {
        self.window_enabled() && line >= self.mem[0xFF4A] && x + 7 >= self.mem[0xFF4B]
    }

    /// The colour of the window at a pixel that it covers.
    pub open spec fn window_color(self, x: u8, line: u8) -> u8 {
        let window_x = (x + 7 - self.mem[0xFF4B]) as u16;
        let window_y = (line - self.mem[0xFF4A]) as u16;
        spec_palette_color(
            self.mem[0xFF47],
            spec_palette_index(
                self.tile_row(self.window_tile_map(), window_x, window_y),
                (7 - window_x % 8) as u8,
            ),
        )
    }
}

/// A sprite as the rasterizer holds it: its place on the screen, with the
/// offsets of the sprite table taken off, and the row of its tile that the
/// current scanline shows.
#[derive(Copy, Clone, Debug, PartialEq, Eq, Structural)]
pub struct Sprite {
    pub y_pos: i16,
    pub x_pos: i16,
    pub tile_pattern_index: u8,
    pub attributes: u8,
    pub index: u8,
    pub height: i16,
    pub pattern: u16,
}

impl Sprite {
    pub open spec fn spec_left(self) -> i16 {
        self.x_pos
    }

    pub open spec fn spec_top(self) -> i16 {
        self.y_pos
    }

    pub open spec fn spec_right(self) -> int {
        self.x_pos + 8
    }

    pub open spec fn spec_bottom(self) -> int {
        self.y_pos + self.height
    }

    /// Whether the sprite uses the second object palette.
    pub open spec fn spec_palette(self) -> bool {
        bit(self.attributes, 4)
    }

    pub open spec fn spec_above_bg(self) -> bool {
        !bit(self.attributes, 7)
    }

    pub open spec fn spec_mirrored_horizontally(self) -> bool {
        bit(self.attributes, 5)
    }

    pub open spec fn spec_mirrored_vertically(self) -> bool {
        bit(self.attributes, 6)
    }

    /// Whether the rows of the sprite cover a scanline.
    pub open spec fn covers(self, scan_line: u8) -> bool {
        self.y_pos <= scan_line && scan_line < self.y_pos + self.height
    }

    /// Whether the columns of the sprite cover a column of the screen.
    pub open spec fn covers_column(self, x: u8) -> bool {
        self.x_pos <= x && x < self.x_pos + 8
    }

    /// The sprite ordered before another: by its left edge, then by its
    /// place in the sprite table.
    pub open spec fn sorts_before(self, other: Sprite) -> bool {
        self.x_pos < other.x_pos || (self.x_pos == other.x_pos && self.index < other.index)
    }

    /// The sprite after its entry of the sprite table was read.
    pub open spec fn placed(self, data: SpriteData, height: u8) -> Sprite {
        Sprite {
            y_pos: (data.y_pos - 16) as i16,
            x_pos: (data.x_pos - 8) as i16,
            tile_pattern_index: data.tile_number,
            attributes: data.attributes,
            height: height as i16,
            ..self
        }
    }

    /// The address of the row of the tile that a scanline shows. A sprite
    /// that is mirrored vertically shows its rows bottom up.
    pub open spec fn row_address(self, scan_line: u8) -> u16 {
        let row = if self.spec_mirrored_vertically() {
            (self.height - 1) - (scan_line - self.y_pos)
        } else {
            scan_line - self.y_pos
        };
        (sprite_tile_address(self.tile_pattern_index) + row * 2) as u16
    }

    /// The palette index of the sprite at a column that it covers. A sprite
    /// that is mirrored horizontally shows its columns right to left.
    pub open spec fn index_at(self, x: u8) -> u8 {
        spec_palette_index(
            self.pattern,
            if self.spec_mirrored_horizontally() {
                (x - self.x_pos) as u8
            } else {
                (7 - (x - self.x_pos)) as u8
            },
        )
    }

    /// Whether the sprite gives the pixel of a column its colour: it covers
    /// the column, it lies above the background or the background has index 0
    /// there, and its own index there is not 0, which is transparent.
    pub open spec fn shows_at(self, x: u8, bg_index: u8) -> bool {
        self.covers_column(x) && (self.spec_above_bg() || bg_index == 0) && self.index_at(x) != 0
    }

    pub open spec fn wf(self) -> bool {
        &&& self.index < 40
        &&& -16 <= self.y_pos <= 239
        &&& -8 <= self.x_pos <= 247
        &&& (self.height == 8 || self.height == 16)
    }

    /// A sprite for an entry of the sprite table, not yet read.
    pub fn new(sprite_index: u8) -> (r: Sprite)
        ensures
            r == (Sprite {
                index: sprite_index,
                y_pos: 0,
                x_pos: 0,
                tile_pattern_index: 0,
                attributes: 0,
                height: 0,
                pattern: 0,
            }),
    {
        Sprite {
            index: sprite_index,
            y_pos: 0,
            x_pos: 0,
            tile_pattern_index: 0,
            attributes: 0,
            height: 0,
            pattern: 0,
        }
    }

    /// Reads the entry of the sprite from the sprite table.
    pub fn update(&mut self, gb: &GameBoy, height: u8)
        requires
            gb.wf(),
            old(self).index < 40,
        ensures
            *final(self) == old(self).placed(gb@.memory.sprite(old(self).index as int), height),
    {
        let data = gb.memory.read_sprite(self.index);
        self.y_pos = data.y_pos as i16 - 16;
        self.x_pos = data.x_pos as i16 - 8;
        self.tile_pattern_index = data.tile_number;
        self.attributes = data.attributes;
        self.height = height as i16;
    }

    /// Fetches the row of the tile that a scanline shows. The scanline is
    /// one that the sprite covers.
    pub fn retrieve_tile_pattern(&mut self, gb: &GameBoy, scan_line: u8)
        requires
            gb.wf(),
            old(self).covers(scan_line),
            sprite_tile_address(old(self).tile_pattern_index) + 2 * old(self).height <= u16::MAX,
        ensures
            *final(self) == (Sprite {
                pattern: gb@.memory.read_word(old(self).row_address(scan_line)),
                ..*old(self)
            }),
    {
        let offset: i16 = (scan_line as i16) - self.top();
        let sprite_y: i16 = if self.is_mirrored_vertically() {
            (self.height - 1) - offset
        } else {
            offset
        };
        let tile_pattern_addr = get_sprite_tile_addr(self.tile_pattern_index);
        self.pattern = gb.memory.get_word(tile_pattern_addr + (sprite_y as u16) * 2);
    }

    /// The place of the sprite in the sprite table.
    pub fn index(&self) -> (r: u8)
        ensures
            r == self.index,
    {
        self.index
    }

    pub fn left(&self) -> (r: i16)
        ensures
            r == self.spec_left(),
    {
        self.x_pos
    }

    pub fn top(&self) -> (r: i16)
        ensures
            r == self.spec_top(),
    {
        self.y_pos
    }

    pub fn right(&self) -> (r: i16)
        requires
            self.x_pos + 8 <= i16::MAX,
        ensures
            r == self.spec_right(),
    {
        self.x_pos + 8
    }

    pub fn bottom(&self) -> (r: i16)
        requires
            i16::MIN <= self.y_pos + self.height <= i16::MAX,
        ensures
            r == self.spec_bottom(),
    {
        self.y_pos + self.height
    }

    pub fn get_tile_pattern(&self) -> (r: u16)
        ensures
            r == self.pattern,
    {
        self.pattern
    }

    pub fn get_palette(&self) -> (r: bool)
        ensures
            r == self.spec_palette(),
    {
        (self.attributes / 16) % 2 == 1
    }

    pub fn above_bg(&self) -> (r: bool)
        ensures
            r == self.spec_above_bg(),
    {
        self.attributes / 128 == 0
    }

    pub fn is_mirrored_horizontally(&self) -> (r: bool)
        ensures
            r == self.spec_mirrored_horizontally(),
    {
        (self.attributes / 32) % 2 == 1
    }

    pub fn is_mirrored_vertically(&self) -> (r: bool)
        ensures
            r == self.spec_mirrored_vertically(),
    {
        (self.attributes / 64) % 2 == 1
    }
}

/// A palette index has two bits.
pub proof fn lemma_palette_index_bound(pattern: u16, x: u8)
    by (bit_vector)
    requires
        x <= 8,
    ensures
        ((pattern >> x) & 0b1) | ((pattern >> ((x + 7) as u8)) & 0b10) < 4,
{
}

/// Writes one pixel of a colour into the frame: three equal grey bytes and
/// an opaque alpha byte.
pub fn set_pixel(framebuffer: &mut Vec<u8>, x: u8, y: u8, color_id: u8)
    requires
        4 * (y * 160 + x) + 4 <= old(framebuffer)@.len(),
    ensures
        final(framebuffer)@ == with_pixel(old(framebuffer)@, x, y, color_id),
{
    let color = get_color(color_id);
    let pixel_index: usize = 4 * ((y as usize) * 160 + (x as usize));
    framebuffer[pixel_index] = color;
    framebuffer[pixel_index + 1] = color;
    framebuffer[pixel_index + 2] = color;
    framebuffer[pixel_index + 3] = 255u8;
}

/// The frame after one pixel was written.
pub open spec fn with_pixel(frame: Seq<u8>, x: u8, y: u8, color_id: u8) -> Seq<u8> {
    let i = 4 * (y * 160 + x);
    frame.update(i, shade(color_id)).update(i + 1, shade(color_id)).update(
        i + 2,
        shade(color_id),
    ).update(i + 3, 255u8)
}

pub fn get_color(color_id: u8) -> (r: u8)
    ensures
        r == shade(color_id),
{
    match color_id {
        3 => 0u8,
        2 => 96u8,
        1 => 192u8,
        _ => 255u8,
    }
}

pub fn get_palette_index(pattern: u16, x: u8) -> (r: u8)
    requires
        x <= 8,
    ensures
        r == spec_palette_index(pattern, x),
        r < 4,
{
    proof {
        lemma_palette_index_bound(pattern, x);
    }
    (((pattern >> x) & 0b1) | ((pattern >> (x + 7)) & 0b10)) as u8
}

pub fn get_tile_index(x: u16, y: u16) -> (r: u16)
    requires
        (y / 8) * 32 + x / 8 <= u16::MAX,
    ensures
        r == spec_tile_index(x, y),
        x < 256 && y < 256 ==> r < 1024,
{
    (y / 8 * 32) + (x / 8)
}

/// Fetches the row of eight pixels of a tile of a tile map.
pub fn get_tile_pattern(
    gb: &GameBoy,
    map_id: bool,
    mode: TileAddressingMode,
    tile_index: u16,
    y: u16,
) -> (r: u16)
    requires
        gb.wf(),
        (if map_id {
            0x9C00int
        } else {
            0x9800int
        }) + tile_index <= u16::MAX,
    ensures
        r == gb@.memory.read_word(
            (bg_tile_address(
                mode,
                gb@.memory.read(
                    ((if map_id {
                        0x9C00int
                    } else {
                        0x9800int
                    }) + tile_index) as u16,
                ),
            ) + (y % 8) * 2) as u16,
        ),
{
    let tile_map_addr: u16 = if map_id { 0x9C00 } else { 0x9800 };
    let tile_pattern_index = gb.memory.get_byte(tile_map_addr + tile_index);
    let base_tile_pattern_addr = get_bg_tile_addr(mode, tile_pattern_index);
    let pattern_y = y % 8;
    gb.memory.get_word(base_tile_pattern_addr + (pattern_y * 2))
}

pub fn display_enabled(gb: &GameBoy) -> (r: bool)
    requires
        gb.wf(),
    ensures
        r == gb@.memory.display_enabled(),
{
    gb.memory.get_register(Register::LcdControl) / 128 == 1
}

pub fn bg_enabled(gb: &GameBoy) -> (r: bool)
    requires
        gb.wf(),
    ensures
        r == gb@.memory.bg_enabled(),
{
    gb.memory.get_register(Register::LcdControl) % 2 == 1
}

pub fn bg_tile_map(gb: &GameBoy) -> (r: bool)
    requires
        gb.wf(),
    ensures
        r == gb@.memory.bg_tile_map(),
{
    (gb.memory.get_register(Register::LcdControl) / 8) % 2 == 1
}

pub fn window_enabled(gb: &GameBoy) -> (r: bool)
    requires
        gb.wf(),
    ensures
        r == gb@.memory.window_enabled(),
{
    (gb.memory.get_register(Register::LcdControl) / 32) % 2 == 1
}

pub fn window_x_offset(gb: &GameBoy) -> (r: u8)
    requires
        gb.wf(),
    ensures
        r == gb@.memory.mem[0xFF4B],
{
    gb.memory.get_register(Register::WindowX)
}

pub fn window_y_offset(gb: &GameBoy) -> (r: u8)
    requires
        gb.wf(),
    ensures
        r == gb@.memory.mem[0xFF4A],
{
    gb.memory.get_register(Register::WindowY)
}

pub fn window_tile_map(gb: &GameBoy) -> (r: bool)
    requires
        gb.wf(),
    ensures
        r == gb@.memory.window_tile_map(),
{
    (gb.memory.get_register(Register::LcdControl) / 64) % 2 == 1
}

pub fn bg_palette(gb: &GameBoy) -> (r: u8)
    requires
        gb.wf(),
    ensures
        r == gb@.memory.mem[0xFF47],
{
    gb.memory.get_register(Register::BackgroundPaletteData)
}

/// Bit 4 of the control register: 1 selects unsigned tile numbers.
pub fn tile_data(gb: &GameBoy) -> (r: u8)
    requires
        gb.wf(),
    ensures
        r == (gb@.memory.lcd_control() / 16) % 2,
        (r == 1) == (gb@.memory.tile_mode() == TileAddressingMode::Unsigned),
{
    (gb.memory.get_register(Register::LcdControl) / 16) % 2
}

pub fn sprite_size(gb: &GameBoy) -> (r: u8)
    requires
        gb.wf(),
    ensures
        r == gb@.memory.sprite_height(),
{
    if (gb.memory.get_register(Register::LcdControl) / 4) % 2 == 1 {
        16
    } else {
        8
    }
}

pub fn get_sprite_tile_addr(tile_index: u8) -> (r: u16)
    ensures
        r == sprite_tile_address(tile_index),
{
    0x8000 + ((tile_index as u16) * 16)
}

pub fn get_bg_tile_addr(mode: TileAddressingMode, tile_index: u8) -> (r: u16)
    ensures
        r == bg_tile_address(mode, tile_index),
        0x8000 <= r <= 0x97F0,
{
    match mode {
        TileAddressingMode::Unsigned => get_sprite_tile_addr(tile_index),
        TileAddressingMode::Signed => {
            if tile_index < 128 {
                0x9000 + (tile_index as u16) * 16
            } else {
                0x8000 + (tile_index as u16) * 16
            }
        },
    }
}

pub fn get_palette_color(palette: u8, index: u8) -> (r: u8)
    requires
        index < 4,
    ensures
        r == spec_palette_color(palette, index),
{
    (palette >> (index * 2)) & 0b11
}

/// The place in `set`, from `from` on, of the first sprite that gives the
/// pixel of a column its colour; the length of `set` if none does.
pub open spec fn first_showing(set: Seq<Sprite>, x: u8, bg_index: u8, from: int) -> int
    decreases set.len() - from,
{
    if from < 0 || from >= set.len() {
        set.len() as int
    } else if set[from].shows_at(x, bg_index) {
        from
    } else {
        first_showing(set, x, bg_index, from + 1)
    }
}

/// The colour of a sprite at a column, through the object palette that the
/// sprite names.
pub open spec fn sprite_color(m: MemoryView, sprite: Sprite, x: u8) -> u8 {
    spec_palette_color(
        if sprite.spec_palette() {
            m.mem[0xFF49]
        } else {
            m.mem[0xFF48]
        },
        sprite.index_at(x),
    )
}

/// The colour of a pixel of the screen: that of the first sprite of the line
/// that shows there; else that of the window, where it covers the pixel;
/// else that of the background.
pub open spec fn pixel_color(m: MemoryView, set: Seq<Sprite>, x: u8, line: u8) -> u8 {
    let k = first_showing(set, x, m.bg_index(x, line), 0);
    if k < set.len() {
        sprite_color(m, set[k], x)
    } else if m.window_covers(x, line) {
        m.window_color(x, line)
    } else {
        spec_palette_color(m.mem[0xFF47], m.bg_index(x, line))
    }
}

/// The frame after the first `n` pixels of a scanline were drawn.
pub open spec fn with_line(frame: Seq<u8>, m: MemoryView, set: Seq<Sprite>, line: u8, n: nat) -> Seq<
    u8,
>
    decreases n,
{
    if n == 0 {
        frame
    } else {
        with_pixel(
            with_line(frame, m, set, line, (n - 1) as nat),
            (n - 1) as u8,
            line,
            pixel_color(m, set, (n - 1) as u8, line),
        )
    }
}

/// Entry `index` of the sprite table as the rasterizer holds it for a
/// scanline.
pub open spec fn line_sprite(m: MemoryView, index: int, line: u8) -> Sprite {
    let placed = (Sprite {
        index: index as u8,
        y_pos: 0,
        x_pos: 0,
        tile_pattern_index: 0,
        attributes: 0,
        height: 0,
        pattern: 0,
    }).placed(m.sprite(index), m.sprite_height());
    Sprite { pattern: m.read_word(placed.row_address(line)), ..placed }
}

/// The place at which a sprite with left edge `x` goes into a working set,
/// searching from `from` on: before the first sprite whose left edge lies
/// further right.
pub open spec fn insert_position(set: Seq<Sprite>, x: i16, from: int) -> int
    decreases set.len() - from,
{
    if from < 0 || from >= set.len() {
        set.len() as int
    } else if set[from].x_pos > x {
        from
    } else {
        insert_position(set, x, from + 1)
    }
}

/// A working set after one more sprite was offered to it. The set keeps at
/// most ten sprites: the sprite is left out if ten sprites go before it, and
/// else pushes the last one out of a full set.
pub open spec fn with_sprite(set: Seq<Sprite>, sprite: Sprite) -> Seq<Sprite> {
    let p = insert_position(set, sprite.x_pos, 0);
    if p < 10 {
        (if set.len() == 10 {
            set.drop_last()
        } else {
            set
        }).insert(p, sprite)
    } else {
        set
    }
}

/// The working set of a scanline among the first `n` entries of the sprite
/// table.
pub open spec fn line_selection(m: MemoryView, line: u8, n: nat) -> Seq<Sprite>
    decreases n,
{
    if n == 0 {
        Seq::empty()
    } else {
        let rest = line_selection(m, line, (n - 1) as nat);
        if line_sprite(m, n - 1, line).covers(line) {
            with_sprite(rest, line_sprite(m, n - 1, line))
        } else {
            rest
        }
    }
}

/// Whether the sprites of a set stand in order: by their left edge, then by
/// their place in the sprite table.
pub open spec fn ordered(set: Seq<Sprite>) -> bool {
    forall|k: int, l: int|
        0 <= k < l < set.len() ==> (#[trigger] set[k]).sorts_before(#[trigger] set[l])
}

/// Whether a working set has dealt with a sprite: it holds the sprite, or it
/// is full and the sprite comes after its last one.
pub open spec fn settled(set: Seq<Sprite>, sprite: Sprite) -> bool {
    set.contains(sprite) || (set.len() == 10 && set[9].sorts_before(sprite))
}

/// Whether `set` is the working set of a scanline among the first `n`
/// entries of the sprite table: the entries whose rows cover the line,
/// ordered by their left edge and then by their place in the table, and of
/// these the first ten.
pub open spec fn is_line_selection(m: MemoryView, line: u8, set: Seq<Sprite>, n: int) -> bool {
    &&& set.len() <= 10
    &&& forall|k: int|
        0 <= k < set.len() ==> (#[trigger] set[k]).index < n && set[k] == line_sprite(
            m,
            set[k].index as int,
            line,
        ) && set[k].covers(line)
    &&& ordered(set)
    &&& forall|j: int|
        0 <= j < n && (#[trigger] line_sprite(m, j, line)).covers(line) ==> settled(
            set,
            line_sprite(m, j, line),
        )
}

/// The palette index of the background at a pixel of the screen.
pub fn background_index(gb: &GameBoy, x: u8, scan_line: u8) -> (r: u8)
    requires
        gb.wf(),
    ensures
        r == gb@.memory.bg_index(x, scan_line),
        r < 4,
{
    if bg_enabled(gb) {
        let scroll_y = gb.memory.get_register(Register::ScrollY) as u16;
        let scroll_x = gb.memory.get_register(Register::ScrollX) as u16;
        let x_bg: u16 = ((x as u16) + scroll_x) % 256;
        let y_bg: u16 = (scroll_y + (scan_line as u16)) % 256;
        let mode = if tile_data(gb) == 1 {
            TileAddressingMode::Unsigned
        } else {
            TileAddressingMode::Signed
        };
        let pattern = get_tile_pattern(gb, bg_tile_map(gb), mode, get_tile_index(x_bg, y_bg), y_bg);
        get_palette_index(pattern, (7 - (x_bg % 8)) as u8)
    } else {
        0
    }
}

/// The colour of the window at a pixel of the screen, or `None` where the
/// window does not cover it.
pub fn window_pixel(gb: &GameBoy, x: u8, scan_line: u8) -> (r: Option<u8>)
    requires
        gb.wf(),
        x < 160,
        scan_line < 144,
    ensures
        r == if gb@.memory.window_covers(x, scan_line) {
            Some(gb@.memory.window_color(x, scan_line))
        } else {
            None
        },
{
    let window_y: i16 = (scan_line as i16) - (window_y_offset(gb) as i16);
    let window_x: i16 = (x as i16) - (window_x_offset(gb) as i16) + 7;
    if window_enabled(gb) && window_y >= 0 && window_x >= 0 {
        let window_x = window_x as u16;
        let window_y = window_y as u16;
        let mode = if tile_data(gb) == 1 {
            TileAddressingMode::Unsigned
        } else {
            TileAddressingMode::Signed
        };
        let pattern = get_tile_pattern(
            gb,
            window_tile_map(gb),
            mode,
            get_tile_index(window_x, window_y),
            window_y,
        );
        let index = get_palette_index(pattern, (7 - (window_x % 8)) as u8);
        Some(get_palette_color(bg_palette(gb), index))
    } else {
        None
    }
}

/// The colour that the sprites of the line give a pixel, or `None` where
/// none of them shows.
pub fn sprite_pixel(gb: &GameBoy, sprites: &Vec<Sprite>, x: u8, bg_palette_index: u8) -> (r:
    Option<u8>)
    requires
        gb.wf(),
        x < 160,
        forall|k: int| 0 <= k < sprites@.len() ==> (#[trigger] sprites@[k]).wf(),
    ensures
        r == if first_showing(sprites@, x, bg_palette_index, 0) < sprites@.len() {
            Some(
                sprite_color(
                    gb@.memory,
                    sprites@[first_showing(sprites@, x, bg_palette_index, 0)],
                    x,
                ),
            )
        } else {
            None
        },
{
    let sprite_palette1 = gb.memory.get_register(Register::ObjectPalette1Data);
    let sprite_palette0 = gb.memory.get_register(Register::ObjectPalette0Data);
    let mut i: usize = 0;
    while i < sprites.len()
        invariant
            i <= sprites@.len(),
            x < 160,
            forall|k: int| 0 <= k < sprites@.len() ==> (#[trigger] sprites@[k]).wf(),
            first_showing(sprites@, x, bg_palette_index, 0) == first_showing(
                sprites@,
                x,
                bg_palette_index,
                i as int,
            ),
            sprite_palette1 == gb@.memory.mem[0xFF49],
            sprite_palette0 == gb@.memory.mem[0xFF48],
        decreases sprites@.len() - i,
    {
        let sprite = sprites[i];
        assert(sprite.wf());
        if sprite.left() <= (x as i16) && sprite.right() > (x as i16) && (sprite.above_bg()
            || bg_palette_index == 0) {
            let offset: i16 = (x as i16) - sprite.left();
            let sprite_x: u8 = if sprite.is_mirrored_horizontally() {
                offset as u8
            } else {
                (7 - offset) as u8
            };
            let sprite_palette_index = get_palette_index(sprite.get_tile_pattern(), sprite_x);
            if sprite_palette_index != 0 {
                let sprite_palette = if sprite.get_palette() {
                    sprite_palette1
                } else {
                    sprite_palette0
                };
                return Some(get_palette_color(sprite_palette, sprite_palette_index));
            }
        }
        i += 1;
    }
    None
}

/// The colour of a pixel of the screen.
pub fn pixel(gb: &GameBoy, sprites: &Vec<Sprite>, x: u8, scan_line: u8) -> (r: u8)
    requires
        gb.wf(),
        x < 160,
        scan_line < 144,
        forall|k: int| 0 <= k < sprites@.len() ==> (#[trigger] sprites@[k]).wf(),
    ensures
        r == pixel_color(gb@.memory, sprites@, x, scan_line),
{
    let bg_palette_index = background_index(gb, x, scan_line);
    match sprite_pixel(gb, sprites, x, bg_palette_index) {
        Some(color) => color,
        None => match window_pixel(gb, x, scan_line) {
            Some(color) => color,
            None => get_palette_color(bg_palette(gb), bg_palette_index),
        },
    }
}

/// The place that `insert_position` finds: no sprite before it lies further
/// right than `x`, and the sprite at it, if there is one, does.
pub proof fn lemma_insert_position(set: Seq<Sprite>, x: i16, from: int)
    requires
        0 <= from <= set.len(),
    ensures
        from <= insert_position(set, x, from) <= set.len(),
        forall|q: int| from <= q < insert_position(set, x, from) ==> (#[trigger] set[q]).x_pos <= x,
        insert_position(set, x, from) < set.len() ==> set[insert_position(set, x, from)].x_pos > x,
    decreases set.len() - from,
{
    if from < set.len() && set[from].x_pos <= x {
        lemma_insert_position(set, x, from + 1);
    }
}

/// A working set in order stays in order, and within ten sprites, when a
/// sprite from further down the sprite table is offered to it; it gains no
/// sprite but that one, and has dealt with it.
pub proof fn lemma_with_sprite_ordered(before: Seq<Sprite>, sprite: Sprite)
    requires
        before.len() <= 10,
        ordered(before),
        forall|k: int| 0 <= k < before.len() ==> (#[trigger] before[k]).index < sprite.index,
    ensures
        with_sprite(before, sprite).len() <= 10,
        ordered(with_sprite(before, sprite)),
        forall|k: int|
            0 <= k < with_sprite(before, sprite).len() ==> (#[trigger] with_sprite(
                before,
                sprite,
            )[k]) == sprite || before.contains(with_sprite(before, sprite)[k]),
        settled(with_sprite(before, sprite), sprite),
{
    let p = insert_position(before, sprite.x_pos, 0);
    lemma_insert_position(before, sprite.x_pos, 0);
    let after = with_sprite(before, sprite);
    if p < 10 {
        assert forall|k: int| 0 <= k < after.len() implies (#[trigger] after[k]) == sprite
            || before.contains(after[k]) by {
            if k < p {
                assert(after[k] == before[k]);
            } else if k > p {
                assert(after[k] == before[k - 1]);
            }
        }
        assert forall|k: int, l: int| 0 <= k < l < after.len() implies (
        #[trigger] after[k]).sorts_before(#[trigger] after[l]) by {
            if l == p {
                assert(after[k] == before[k]);
            } else if k == p {
                assert(after[l] == before[l - 1]);
                assert(l - 1 == p || before[p].sorts_before(before[l - 1]));
            } else if k < p && l > p {
                assert(before[k].sorts_before(before[l - 1]));
            } else if k > p {
                assert(before[k - 1].sorts_before(before[l - 1]));
            } else {
                assert(before[k].sorts_before(before[l]));
            }
        }
        assert(after[p] == sprite);
    } else {
        assert(before[9].x_pos <= sprite.x_pos);
    }
}

/// A working set that has dealt with a sprite has still dealt with it after
/// another sprite was offered.
pub proof fn lemma_with_sprite_settled(before: Seq<Sprite>, sprite: Sprite, other: Sprite)
    requires
        before.len() <= 10,
        ordered(before),
        settled(before, other),
    ensures
        settled(with_sprite(before, sprite), other),
{
    let p = insert_position(before, sprite.x_pos, 0);
    lemma_insert_position(before, sprite.x_pos, 0);
    let after = with_sprite(before, sprite);
    if p < 10 {
        assert(after[p] == sprite);
        if before.contains(other) {
            let k = choose|k: int| 0 <= k < before.len() && before[k] == other;
            if k < p {
                assert(after[k] == other);
            } else if k + 1 < after.len() {
                assert(after[k + 1] == other);
            } else {
                assert(before.len() == 10 && k == 9);
                if p < 9 {
                    assert(after[9] == before[8]);
                    assert(before[8].sorts_before(before[9]));
                }
            }
        } else {
            if p < 9 {
                assert(after[9] == before[8]);
                assert(before[8].sorts_before(before[9]));
            }
        }
    }
}

/// The working set holds the sprites whose rows cover the line, ordered by
/// their left edge and then by their place in the sprite table, and of these
/// the first ten: no sprite that is left out goes before one that is kept.
pub proof fn lemma_line_selection(m: MemoryView, line: u8, n: nat)
    requires
        n <= 40,
    ensures
        is_line_selection(m, line, line_selection(m, line, n), n as int),
    decreases n,
{
    if n > 0 {
        let i = (n - 1) as nat;
        let before = line_selection(m, line, i);
        let sprite = line_sprite(m, i as int, line);
        lemma_line_selection(m, line, i);
        if sprite.covers(line) {
            let after = with_sprite(before, sprite);
            assert(sprite.index == i);
            lemma_with_sprite_ordered(before, sprite);
            assert forall|k: int| 0 <= k < after.len() implies (#[trigger] after[k]).index < n
                && after[k] == line_sprite(m, after[k].index as int, line) && after[k].covers(
                line,
            ) by {
                if after[k] != sprite {
                    let q = choose|q: int| 0 <= q < before.len() && before[q] == after[k];
                    assert(before[q].index < i);
                }
            }
            assert forall|j: int|
                0 <= j < n && (#[trigger] line_sprite(m, j, line)).covers(line) implies settled(
                after,
                line_sprite(m, j, line),
            ) by {
                if j < i {
                    lemma_with_sprite_settled(before, sprite, line_sprite(m, j, line));
                }
            }
        }
    }
}

/// Collects the working set of a scanline: the sprites whose rows cover the
/// line, ordered by their left edge and then by their place in the sprite
/// table, and of these the first ten.
pub fn get_sprites_in_scan_line(gb: &GameBoy, scan_line: u8) -> (set: Vec<Sprite>)
    requires
        gb.wf(),
    ensures
        set@ == line_selection(gb@.memory, scan_line, 40),
        set@.len() <= 10,
        forall|k: int| 0 <= k < set@.len() ==> (#[trigger] set@[k]).wf(),
{
    let height = sprite_size(gb);
    let mut set: Vec<Sprite> = Vec::new();
    let mut i: u8 = 0;
    while i < 40
        invariant
            i <= 40,
            gb.wf(),
            height == gb@.memory.sprite_height(),
            set@ == line_selection(gb@.memory, scan_line, i as nat),
            set@.len() <= 10,
            forall|k: int| 0 <= k < set@.len() ==> (#[trigger] set@[k]).wf(),
        decreases 40 - i,
    {
        let mut sprite = Sprite::new(i);
        sprite.update(gb, height);
        if sprite.top() <= (scan_line as i16) && sprite.bottom() > (scan_line as i16) {
            sprite.retrieve_tile_pattern(gb, scan_line);
            assert(sprite == line_sprite(gb@.memory, i as int, scan_line));
            let ghost before = set@;
            let mut p: usize = 0;
            while p < set.len() && set[p].x_pos <= sprite.x_pos
                invariant
                    p <= set@.len(),
                    set@ == before,
                    insert_position(before, sprite.x_pos, 0) == insert_position(
                        before,
                        sprite.x_pos,
                        p as int,
                    ),
                decreases set@.len() - p,
            {
                p += 1;
            }
            if p < 10 {
                if set.len() == 10 {
                    set.pop();
                    assert(set@ == before.drop_last());
                }
                set.insert(p, sprite);
                assert forall|k: int| 0 <= k < set@.len() implies (#[trigger] set@[k]).wf() by {
                    if k < p {
                        assert(set@[k] == before[k]);
                    } else if k > p {
                        assert(set@[k] == before[k - 1]);
                    }
                }
            }
            assert(set@ == with_sprite(before, sprite));
        } else {
            assert(!line_sprite(gb@.memory, i as int, scan_line).covers(scan_line));
        }
        i += 1;
    }
    set
}

/// The LCD mode at a place in the frame: on each of the 144 visible lines
/// 80 cycles of mode 2, 172 of mode 3 and 204 of mode 0; mode 1 from line 144
/// on.
pub open spec fn ppu_mode(frame_step: u32) -> u8 {
    if frame_step >= 65664 {
        1
    } else if frame_step % 456 < 80 {
        2
    } else if frame_step % 456 < 252 {
        3
    } else {
        0
    }
}

/// The value of the LY register at a place in the frame. It moves on to the
/// next line when the horizontal blank of a line begins, and from 153 back
/// to 0.
pub open spec fn ppu_line(frame_step: u32) -> u8 {
    if (frame_step + 204) / 456 > 153 {
        0
    } else {
        ((frame_step + 204) / 456) as u8
    }
}

/// The place in the frame after `ticks` more cycles.
pub open spec fn frame_step_after(frame_step: u32, ticks: u8) -> u32 {
    ((frame_step + ticks) % 70224) as u32
}

/// The interrupt flag byte after the LCD moved to a new place in the frame,
/// from the status register, the flag byte, LY and LYC as they were before.
/// The step from mode 3 to 0, from 0 to 1 and from 1 to 2, and LY moving to
/// the line that LYC names, each raise the LCD STAT interrupt, bit 1, if bit 3,
/// 4, 5 or 6 of the status register enables that source; the step from mode 0
/// to 1 raises the VBlank interrupt, bit 0.
pub open spec fn lcd_interrupt_flags(
    status: u8,
    flags: u8,
    line: u8,
    compare: u8,
    frame_step: u32,
) -> u8 {
    let prev_mode = status % 4;
    let mode = ppu_mode(frame_step);
    let f1 = if prev_mode == 3 && mode == 0 && bit(status, 3) {
        flags | 0b10
    } else {
        flags
    };
    let f2 = if line != ppu_line(frame_step) && compare == ppu_line(frame_step) && bit(status, 6) {
        f1 | 0b10
    } else {
        f1
    };
    let f3 = if prev_mode == 0 && mode == 1 {
        if bit(status, 4) {
            (f2 | 0b1) | 0b10
        } else {
            f2 | 0b1
        }
    } else {
        f2
    };
    if prev_mode == 1 && mode == 2 && bit(status, 5) {
        f3 | 0b10
    } else {
        f3
    }
}

/// The status register after the LCD moved to a new place in the frame: the
/// upper five bits stay, bit 2 tells whether LY met LYC when it last moved,
/// the low two bits hold the mode.
pub open spec fn lcd_status(status: u8, line: u8, compare: u8, frame_step: u32) -> u8 {
    let coincidence: int = if line != ppu_line(frame_step) {
        if compare == ppu_line(frame_step) {
            4
        } else {
            0
        }
    } else {
        ((status / 4) % 2) * 4
    };
    ((status / 8) * 8 + coincidence + ppu_mode(frame_step)) as u8
}

/// The address space after the LCD moved to a new place in the frame.
pub open spec fn lcd_registers(m: MemoryView, frame_step: u32) -> MemoryView {
    let moved = if m.mem[0xFF44] != ppu_line(frame_step) {
        m.with_cell(0xFF44, ppu_line(frame_step))
    } else {
        m
    };
    moved.with_cell(
        0xFF0F,
        lcd_interrupt_flags(m.mem[0xFF41], m.mem[0xFF0F], m.mem[0xFF44], m.mem[0xFF45], frame_step),
    ).with_cell(0xFF41, lcd_status(m.mem[0xFF41], m.mem[0xFF44], m.mem[0xFF45], frame_step))
}

/// Whether a scanline is rendered as the LCD moves to a new place in the
/// frame: on the step from mode 3 to mode 0, for a line of the screen.
pub open spec fn renders_line(m: MemoryView, frame_step: u32) -> bool {
    m.mem[0xFF41] % 4 == 3 && ppu_mode(frame_step) == 0 && m.mem[0xFF44] < 144
}

/// The mathematical model of the picture processor. The time that rendering
/// took is no part of it.
pub struct GpuView {
    pub frame_step: u32,
    pub scan_lines_rendered: u64,
    pub line_sprites: Seq<Sprite>,
}

/// The picture processor with the address space and the frame it works on,
/// and whether its last step completed a frame.
pub struct LcdRun {
    pub gpu: GpuView,
    pub memory: MemoryView,
    pub frame: Seq<u8>,
    pub ready: bool,
}

/// The picture processor, the address space and the frame after `ticks`
/// more cycles. With the display off, LY is forced to zero and nothing else
/// happens. With it on, the place in the frame moves on, wrapping round at
/// the end of the frame, which completes a frame; a scanline is rendered on
/// the step from mode 3 to mode 0, from the address space as it was before
/// the step; and LY, the status register and the interrupt flags follow the
/// new place.
pub open spec fn lcd_step(gpu: GpuView, m: MemoryView, frame: Seq<u8>, ticks: u8) -> LcdRun {
    if !m.display_enabled() {
        LcdRun { gpu, memory: m.with_cell(0xFF44, 0), frame, ready: false }
    } else {
        let frame_step = frame_step_after(gpu.frame_step, ticks);
        let line = m.mem[0xFF44];
        if renders_line(m, frame_step) {
            LcdRun {
                gpu: GpuView {
                    frame_step,
                    scan_lines_rendered: gpu.scan_lines_rendered.wrapping_add(1),
                    line_sprites: line_selection(m, line, 40),
                },
                memory: lcd_registers(m, frame_step),
                frame: with_line(frame, m, line_selection(m, line, 40), line, 160),
                ready: gpu.frame_step + ticks >= 70224,
            }
        } else {
            LcdRun {
                gpu: GpuView { frame_step, ..gpu },
                memory: lcd_registers(m, frame_step),
                frame,
                ready: gpu.frame_step + ticks >= 70224,
            }
        }
    }
}

/// Whether the step of `lcd_step` renders a scanline.
pub open spec fn lcd_step_renders(gpu: GpuView, m: MemoryView, ticks: u8) -> bool {
    m.display_enabled() && renders_line(m, frame_step_after(gpu.frame_step, ticks))
}

/// The LY register never leaves the range 0 to 153, and shows each of these
/// lines somewhere in the frame.
pub proof fn lemma_line_range(frame_step: u32, line: u8)
    requires
        frame_step < 70224,
        line <= 153,
    ensures
        ppu_line(frame_step) <= 153,
        line >= 1 ==> ppu_line((line * 456 - 204) as u32) == line,
        line == 0 ==> ppu_line(0) == line,
{
}

/// The cycles that a run of steps adds up to.
pub open spec fn total_cycles(ticks: Seq<u8>) -> nat
    decreases ticks.len(),
{
    if ticks.len() == 0 {
        0
    } else {
        total_cycles(ticks.drop_last()) + ticks.last() as nat
    }
}

/// The place in the frame after a run of steps, with the display on.
pub open spec fn frame_step_run(frame_step: u32, ticks: Seq<u8>) -> u32
    decreases ticks.len(),
{
    if ticks.len() == 0 {
        frame_step
    } else {
        frame_step_after(frame_step_run(frame_step, ticks.drop_last()), ticks.last())
    }
}

/// The number of frames that a run of steps completes, with the display on:
/// a step completes a frame when it takes the place in the frame past the end.
pub open spec fn frames_run(frame_step: u32, ticks: Seq<u8>) -> nat
    decreases ticks.len(),
{
    if ticks.len() == 0 {
        0
    } else {
        frames_run(frame_step, ticks.drop_last()) + (if frame_step_run(
            frame_step,
            ticks.drop_last(),
        ) + ticks.last() >= 70224 {
            1nat
        } else {
            0nat
        })
    }
}

/// With the display on, every completed frame stands for exactly 70,224
/// cycles: the cycles of a run of steps are those of the frames it completed
/// and the way it moved inside the frame.
pub proof fn lemma_frame_length(frame_step: u32, ticks: Seq<u8>)
    requires
        frame_step < 70224,
    ensures
        frame_step_run(frame_step, ticks) < 70224,
        frame_step + total_cycles(ticks) == 70224 * frames_run(frame_step, ticks) + frame_step_run(
            frame_step,
            ticks,
        ),
    decreases ticks.len(),
{
    if ticks.len() > 0 {
        lemma_frame_length(frame_step, ticks.drop_last());
    }
}

/// The LCD mode at a place in the frame.
pub fn mode_at(frame_step: u32) -> (mode: u8)
    ensures
        mode == ppu_mode(frame_step),
        mode < 4,
{
    let scan_line_clk = frame_step % LINE_CYCLES;
    if frame_step >= 65664 {
        MODE1_VBLANK
    } else if scan_line_clk < 80 {
        MODE2_ACCESSING_OAM
    } else if scan_line_clk < 252 {
        MODE3_ACCESSING_VRAM
    } else {
        MODE0_HBLANK
    }
}

/// The value of the LY register at a place in the frame.
pub fn line_at(frame_step: u32) -> (line: u8)
    requires
        frame_step < 70224,
    ensures
        line == ppu_line(frame_step),
        line <= 153,
{
    let line = (frame_step + 204) / LINE_CYCLES;
    if line > 153 {
        0
    } else {
        line as u8
    }
}

/// The interrupt flag byte after the LCD moved to a new place in the frame.
pub fn interrupt_flags_after(status: u8, flags: u8, line: u8, compare: u8, frame_step: u32) -> (r:
    u8)
    requires
        frame_step < 70224,
    ensures
        r == lcd_interrupt_flags(status, flags, line, compare, frame_step),
{
    let prev_mode = status % 4;
    let mode = mode_at(frame_step);
    let next = line_at(frame_step);
    let mut interrupt_flags = flags;
    if prev_mode == MODE3_ACCESSING_VRAM && mode == MODE0_HBLANK && (status / 8) % 2 == 1 {
        interrupt_flags |= 0b10;
    }
    if line != next && compare == next && (status / 64) % 2 == 1 {
        interrupt_flags |= 0b10;
    }
    if prev_mode == MODE0_HBLANK && mode == MODE1_VBLANK {
        interrupt_flags |= 0b1;
        if (status / 16) % 2 == 1 {
            interrupt_flags |= 0b10;
        }
    }
    if prev_mode == MODE1_VBLANK && mode == MODE2_ACCESSING_OAM && (status / 32) % 2 == 1 {
        interrupt_flags |= 0b10;
    }
    interrupt_flags
}

/// The status register after the LCD moved to a new place in the frame.
pub fn status_after(status: u8, line: u8, compare: u8, frame_step: u32) -> (r: u8)
    requires
        frame_step < 70224,
    ensures
        r == lcd_status(status, line, compare, frame_step),
        r % 4 == ppu_mode(frame_step),
{
    let next = line_at(frame_step);
    let coincidence_flag: u8 = if line != next {
        if compare == next {
            4
        } else {
            0
        }
    } else {
        ((status / 4) % 2) * 4
    };
    (status / 8) * 8 + coincidence_flag + mode_at(frame_step)
}

/// Brings LY, the interrupt flags and the status register up to a new place
/// in the frame.
pub fn write_lcd_registers(gb: &mut GameBoy, frame_step: u32)
    requires
        old(gb).wf(),
        frame_step < 70224,
    ensures
        final(gb).wf(),
        final(gb)@ == old(gb)@.with_memory(lcd_registers(old(gb)@.memory, frame_step)),
        final(gb)@.memory.mem[0xFF44] == ppu_line(frame_step),
        final(gb)@.memory.lcd_mode() == ppu_mode(frame_step),
{
    let status = gb.memory.get_register(Register::LcdcStatus);
    let scan_line = gb.memory.get_register(Register::LcdcYCoord);
    let ly_compare = gb.memory.get_register(Register::LyCompare);
    let flags = gb.memory.get_register(Register::InterruptFlag);
    let next_scan_line = line_at(frame_step);
    let interrupt_flags = interrupt_flags_after(status, flags, scan_line, ly_compare, frame_step);
    let new_status = status_after(status, scan_line, ly_compare, frame_step);
    if scan_line != next_scan_line {
        gb.memory.set_register(Register::LcdcYCoord, next_scan_line);
    }
    gb.memory.set_register(Register::InterruptFlag, interrupt_flags);
    gb.memory.set_register(Register::LcdcStatus, new_status);
}

/// Reads the clock through `time::Instant::now`. Nothing is promised of the
/// instant, which depends on the clock of the machine.
#[verifier::external_body]
#[allow(deprecated)]
pub(crate) fn render_clock_now() -> time::Instant {
    time::Instant::now()
}

/// The nanoseconds since `start`, through `time::Instant::elapsed` and
/// `whole_nanoseconds`. Nothing is promised of the number, which depends on
/// the clock of the machine.
#[verifier::external_body]
#[allow(deprecated)]
fn render_clock_elapsed(start: time::Instant) -> i128 {
    start.elapsed().whole_nanoseconds()
}

/// The picture processor: its place in the frame, the working set of the
/// scanline that was rendered last, and the statistics of rendering.
pub struct Gpu {
    pub frame_step: u32,
    pub total_render_ns: i128,
    pub scan_lines_rendered: u64,
    pub line_sprites: Vec<Sprite>,
}

impl View for Gpu {
    type V = GpuView;

    open spec fn view(&self) -> GpuView {
        GpuView {
            frame_step: self.frame_step,
            scan_lines_rendered: self.scan_lines_rendered,
            line_sprites: self.line_sprites@,
        }
    }
}

impl Gpu {
    pub open spec fn wf(&self) -> bool {
        &&& self.frame_step < 70224
        &&& self.line_sprites@.len() <= 10
    }

    /// A picture processor at the start of a frame.
    pub fn new() -> (r: Gpu)
        ensures
            r.wf(),
            r.total_render_ns == 0,
            r@ == (GpuView {
                frame_step: 0,
                scan_lines_rendered: 0,
                line_sprites: Seq::<Sprite>::empty(),
            }),
    {
        Gpu { frame_step: 0, scan_lines_rendered: 0, total_render_ns: 0, line_sprites: Vec::new() }
    }

    /// Moves the LCD on by the cycles of one instruction: updates LY, the
    /// status register and the interrupt flags, and renders a scanline on
    /// the step from mode 3 to mode 0. With the display off it forces LY to
    /// zero and does nothing else. Returns whether a frame was completed. The
    /// time spent is added to the statistics only where a scanline is rendered.
    pub fn update(&mut self, gb: &mut GameBoy, framebuffer: &mut Vec<u8>, ticks: u8) -> (ready:
        bool)
        requires
            old(self).wf(),
            old(gb).wf(),
            old(framebuffer)@.len() >= FRAME_BYTES,
        ensures
            final(self).wf(),
            final(gb).wf(),
            final(framebuffer)@.len() == old(framebuffer)@.len(),
            final(self)@ == lcd_step(old(self)@, old(gb)@.memory, old(framebuffer)@, ticks).gpu,
            final(gb)@ == old(gb)@.with_memory(
                lcd_step(old(self)@, old(gb)@.memory, old(framebuffer)@, ticks).memory,
            ),
            final(framebuffer)@ == lcd_step(
                old(self)@,
                old(gb)@.memory,
                old(framebuffer)@,
                ticks,
            ).frame,
            ready == lcd_step(old(self)@, old(gb)@.memory, old(framebuffer)@, ticks).ready,
            !lcd_step_renders(old(self)@, old(gb)@.memory, ticks) ==> final(self).total_render_ns
                == old(self).total_render_ns,
            old(gb)@.memory.display_enabled() ==> {
                &&& final(gb)@.memory.mem[0xFF44] == ppu_line(final(self).frame_step)
                &&& final(gb)@.memory.lcd_mode() == ppu_mode(final(self).frame_step)
                &&& final(self).frame_step + 70224 * (if ready {
                    1int
                } else {
                    0int
                }) == old(self).frame_step + ticks
            },
    {
        let status = gb.memory.get_register(Register::LcdcStatus);
        let prev_mode = status % 4;

        if !display_enabled(gb) {
            gb.memory.set_register(Register::LcdcYCoord, 0);
            return false;
        }
        let mut ready_for_render = false;
        self.frame_step += ticks as u32;
        if self.frame_step >= FRAME_CYCLES {
            self.frame_step -= FRAME_CYCLES;
            ready_for_render = true;
        }
        let scan_line = gb.memory.get_register(Register::LcdcYCoord);
        let mode = mode_at(self.frame_step);
        if prev_mode == MODE3_ACCESSING_VRAM && mode == MODE0_HBLANK && scan_line < VERTICAL_RES {
            self.draw_scan_line(gb, framebuffer, scan_line);
        }
        write_lcd_registers(gb, self.frame_step);
        ready_for_render
    }

    /// Renders one scanline into the frame and keeps its working set of
    /// sprites. The time that rendering took is added to the statistics.
    pub fn draw_scan_line(&mut self, gb: &GameBoy, framebuffer: &mut Vec<u8>, scan_line: u8)
        requires
            old(self).wf(),
            gb.wf(),
            old(framebuffer)@.len() >= FRAME_BYTES,
            scan_line < 144,
        ensures
            final(self).wf(),
            final(self).frame_step == old(self).frame_step,
            final(self).scan_lines_rendered == old(self).scan_lines_rendered.wrapping_add(1),
            final(self).line_sprites@ == line_selection(gb@.memory, scan_line, 40),
            final(framebuffer)@.len() == old(framebuffer)@.len(),
            final(framebuffer)@ == with_line(
                old(framebuffer)@,
                gb@.memory,
                line_selection(gb@.memory, scan_line, 40),
                scan_line,
                160,
            ),
    {
        let start = render_clock_now();
        let sprites = get_sprites_in_scan_line(gb, scan_line);
        let mut x: u8 = 0;
        while x < HORIZONTAL_RES
            invariant
                x <= 160,
                scan_line < 144,
                gb.wf(),
                forall|k: int| 0 <= k < sprites@.len() ==> (#[trigger] sprites@[k]).wf(),
                framebuffer@.len() == old(framebuffer)@.len(),
                framebuffer@.len() >= FRAME_BYTES,
                framebuffer@ == with_line(
                    old(framebuffer)@,
                    gb@.memory,
                    sprites@,
                    scan_line,
                    x as nat,
                ),
            decreases 160 - x,
        {
            let color_id = pixel(gb, &sprites, x, scan_line);
            set_pixel(framebuffer, x, scan_line, color_id);
            x += 1;
        }
        self.line_sprites = sprites;
        self.total_render_ns = self.total_render_ns.wrapping_add(render_clock_elapsed(start));
        self.scan_lines_rendered = self.scan_lines_rendered.wrapping_add(1);
    }
}

} // verus!
