use vstd::prelude::*;
use crate::bits::{lemma_and_bounds_u8, lemma_shr_u8};
use crate::ppu::control::ControllRegister;
use crate::ppu::frame::{plot, Frame, HEIGHT, WIDTH};
use crate::cartridge::Mirroring;
use crate::ppu::mask::MaskRegister;
use crate::ppu::scroll::ScrollRegister;
use crate::ppu::{Ppu, PpuState};

verus! {

/// A window of pixel positions: `x1 <= x < x2` and `y1 <= y < y2`.
#[derive(Clone, Copy, PartialEq, Eq, Structural, Debug)]
pub struct Rect {
    pub x1: usize,
    pub y1: usize,
    pub x2: usize,
    pub y2: usize,
}

impl Rect {
    pub open spec fn inside(self, x: int, y: int) -> bool {
        x >= self.x1 && x < self.x2 && y >= self.y1 && y < self.y2
    }

    pub fn new(x1: usize, y1: usize, x2: usize, y2: usize) -> (r: Self)
        ensures
            r == (Rect { x1, y1, x2, y2 }),
    {
        Self { x1, y1, x2, y2 }
    }

    pub fn is_inside(&self, x: usize, y: usize) -> (r: bool)
        ensures
            r == self.inside(x as int, y as int),
    {
        x >= self.x1 && x < self.x2 && y >= self.y1 && y < self.y2
    }
}

/// The picture with every position below `limit` set to `color`.
pub open spec fn cleared(frame: Seq<u8>, limit: int, color: u8) -> Seq<u8> {
    Seq::new(
        frame.len(),
        |p: int|
            if p < limit {
                color
            } else {
                frame[p]
            },
    )
}

/// The two-bit colour of pixel (`x`, `y`) of the tile whose sixteen pattern
/// bytes start at `tile_base`: the low bit comes from the first plane, the
/// high bit from the second, and column 0 is the most significant bit.
pub open spec fn tile_color(chr: Seq<u8>, tile_base: int, x: int, y: int) -> u8 {
    (((chr[tile_base + y + 8] >> ((7 - x) as u8)) & 1) << 1) | ((chr[tile_base + y] >> ((7
        - x) as u8)) & 1)
}

/// What the renderer reads of the picture processor: its memories and the
/// registers that steer the drawing.
pub struct Scene {
    pub chr_rom: Seq<u8>,
    pub palette_table: Seq<u8>,
    pub vram: Seq<u8>,
    pub oam_data: Seq<u8>,
    pub mirroring: Mirroring,
    pub ctrl_reg: ControllRegister,
    pub mask_reg: MaskRegister,
    pub scroll_reg: ScrollRegister,
}

impl PpuState {
    /// What the renderer reads.
    pub open spec fn scene(self) -> Scene {
        Scene {
            chr_rom: self.chr_rom,
            palette_table: self.palette_table,
            vram: self.vram,
            oam_data: self.oam_data,
            mirroring: self.mirroring,
            ctrl_reg: self.ctrl_reg,
            mask_reg: self.mask_reg,
            scroll_reg: self.scroll_reg,
        }
    }

    /// The picture of one frame, drawn over the last one.
    pub open spec fn rendered(self) -> Seq<u8> {
        self.scene().rendered(self.frame)
    }
}

impl Scene {
    /// The four colours of the background tile in column `tile_x` and row
    /// `tile_y` of the nametable at `base`: the backdrop, then the three
    /// entries of the palette that the attribute byte over the tile's 4 x 4
    /// block picks for the tile's quadrant.
    pub open spec fn bg_palette(self, base: int, tile_x: int, tile_y: int) -> Seq<u8> {
        let attr_byte = self.vram[base + 0x03C0 + tile_x / 4 + (tile_y / 4) * 8];
        let quadrant = (tile_y % 4 / 2) * 2 + tile_x % 4 / 2;
        let palette_idx = if quadrant == 0 {
            attr_byte & 0b11
        } else if quadrant == 1 {
            (attr_byte >> 2) & 0b11
        } else if quadrant == 2 {
            (attr_byte >> 4) & 0b11
        } else {
            attr_byte >> 6
        };
        let start = palette_idx * 4 + 1;
        seq![
            self.palette_table[0],
            self.palette_table[start],
            self.palette_table[start + 1],
            self.palette_table[start + 2],
        ]
    }

    /// The four colours of sprite palette `palette_idx`; the first stands
    /// for a transparent pixel.
    pub open spec fn sprite_palette(self, palette_idx: int) -> Seq<u8> {
        let start = 0x11 + palette_idx * 4;
        seq![
            0u8,
            self.palette_table[start],
            self.palette_table[start + 1],
            self.palette_table[start + 2],
        ]
    }

    /// Where the pattern of background tile `i` of the nametable at `base`
    /// starts in character memory.
    pub open spec fn bg_tile_base(self, base: int, i: int) -> int {
        (if self.ctrl_reg.has(ControllRegister::BACKGROUND_PATTERN_ADDR) {
            0x1000int
        } else {
            0
        }) + self.vram[base + i] * 16
    }

    /// The picture after pixel `k` of background tile `i` was dealt with.
    /// Pixels are taken row by row, from the right column to the left. A
    /// pixel is drawn, moved by the offsets, if it is not transparent, lies
    /// inside `range`, and is not moved off the top or the left.
    pub open spec fn bg_pixel_painted(
        self,
        frame: Seq<u8>,
        base: int,
        range: Rect,
        offset_x: int,
        offset_y: int,
        i: int,
        k: int,
    ) -> Seq<u8> {
        let tile_x = i % 32;
        let tile_y = i / 32;
        let y = k / 8;
        let x = 7 - k % 8;
        let color_idx = tile_color(self.chr_rom, self.bg_tile_base(base, i), x, y);
        let pixel_x = tile_x * 8 + x;
        let pixel_y = tile_y * 8 + y;
        if color_idx != 0 && range.inside(pixel_x, pixel_y) && pixel_x + offset_x >= 0 && pixel_y
            + offset_y >= 0 {
            plot(
                frame,
                pixel_x + offset_x,
                pixel_y + offset_y,
                self.bg_palette(base, tile_x, tile_y)[color_idx as int],
            )
        } else {
            frame
        }
    }

    /// The picture after the first `k` pixels of background tile `i`.
    pub open spec fn bg_tile_painted(
        self,
        frame: Seq<u8>,
        base: int,
        range: Rect,
        offset_x: int,
        offset_y: int,
        i: int,
        k: nat,
    ) -> Seq<u8>
        decreases k,
    {
        if k == 0 {
            frame
        } else {
            self.bg_pixel_painted(
                self.bg_tile_painted(frame, base, range, offset_x, offset_y, i, (k - 1) as nat),
                base,
                range,
                offset_x,
                offset_y,
                i,
                k - 1,
            )
        }
    }

    /// The picture after the first `n` tiles of the nametable at `base`
    /// were drawn over it.
    pub open spec fn bg_painted(
        self,
        frame: Seq<u8>,
        base: int,
        range: Rect,
        offset_x: int,
        offset_y: int,
        n: nat,
    ) -> Seq<u8>
        decreases n,
    {
        if n == 0 {
            frame
        } else {
            self.bg_tile_painted(
                self.bg_painted(frame, base, range, offset_x, offset_y, (n - 1) as nat),
                base,
                range,
                offset_x,
                offset_y,
                n - 1,
                64,
            )
        }
    }

    /// Sprite `n` belongs to the layer in front of the background
    /// (`priority`) or to the one behind it.
    pub open spec fn sprite_in_layer(self, n: int, priority: bool) -> bool {
        (self.oam_data[n * 4 + 2] & 0b0010_0000 == 0) == priority
    }

    /// Where the pattern of sprite `n` starts in character memory.
    pub open spec fn sprite_tile_base(self, n: int) -> int {
        self.oam_data[n * 4 + 1] * 16 + (if self.ctrl_reg.has(
            ControllRegister::SPRITE_PATTERN_ADDR,
        ) {
            0x1000int
        } else {
            0
        })
    }

    /// The picture after pixel `k` of sprite `n` was dealt with. Pixels are
    /// taken row by row, from the right column to the left; the attribute
    /// byte may flip the sprite either way. A transparent pixel draws
    /// nothing.
    pub open spec fn sprite_pixel_painted(self, frame: Seq<u8>, n: int, k: int) -> Seq<u8> {
        let attr = self.oam_data[n * 4 + 2];
        let y = k / 8;
        let x = 7 - k % 8;
        let color_idx = tile_color(self.chr_rom, self.sprite_tile_base(n), x, y);
        if color_idx != 0 {
            plot(
                frame,
                self.oam_data[n * 4 + 3] + (if attr & 0b0100_0000 != 0 {
                    7 - x
                } else {
                    x
                }),
                self.oam_data[n * 4] + (if attr & 0b1000_0000 != 0 {
                    7 - y
                } else {
                    y
                }),
                self.sprite_palette((attr & 0b0000_0011) as int)[color_idx as int],
            )
        } else {
            frame
        }
    }

    /// The picture after the first `k` pixels of sprite `n`.
    pub open spec fn sprite_painted(self, frame: Seq<u8>, n: int, k: nat) -> Seq<u8>
        decreases k,
    {
        if k == 0 {
            frame
        } else {
            self.sprite_pixel_painted(self.sprite_painted(frame, n, (k - 1) as nat), n, k - 1)
        }
    }

    /// The picture after `count` sprites were gone through, from sprite 63
    /// downwards, so that a lower-numbered sprite covers a higher one. Only
    /// the sprites of the given layer are drawn.
    pub open spec fn sprites_painted(self, frame: Seq<u8>, priority: bool, count: nat) -> Seq<u8>
        decreases count,
    {
        if count == 0 {
            frame
        } else {
            let before = self.sprites_painted(frame, priority, (count - 1) as nat);
            let n = 64 - count;
            if self.sprite_in_layer(n, priority) {
                self.sprite_painted(before, n, 64)
            } else {
                before
            }
        }
    }

    /// The patterns of all the tiles of the nametable at `base` lie inside
    /// character memory.
    pub open spec fn bg_backed(self, base: int) -> bool {
        forall|i: int|
            0 <= i < 0x3C0 ==> #[trigger] self.bg_tile_base(base, i) + 16 <= self.chr_rom.len()
    }

    /// The patterns of all the sprites of the given layer lie inside
    /// character memory.
    pub open spec fn sprites_backed(self, priority: bool) -> bool {
        forall|n: int|
            0 <= n < 64 && self.sprite_in_layer(n, priority) ==> #[trigger] self.sprite_tile_base(
                n,
            ) + 16 <= self.chr_rom.len()
    }

    /// The patterns of every tile that the background layer draws lie
    /// inside character memory.
    pub open spec fn background_backed(self) -> bool {
        &&& self.bg_backed(self.nametable_bases().0)
        &&& self.scroll_reg.x > 0 || self.scroll_reg.y > 0 ==> self.bg_backed(
            self.nametable_bases().1,
        )
        &&& self.mask_reg.has(MaskRegister::SPRITE) ==> self.bg_backed(0)
    }

    /// The patterns of every tile that a frame draws lie inside character
    /// memory. With both layers switched off nothing is drawn and nothing is
    /// asked.
    pub open spec fn render_backed(self) -> bool {
        &&& self.mask_reg.has(MaskRegister::SPRITE) ==> self.sprites_backed(false)
            && self.sprites_backed(true)
        &&& self.mask_reg.has(MaskRegister::BACKGROUND) ==> self.background_backed()
    }

    /// The nametable shown first, and the one next to it.
    pub open spec fn nametable_bases(self) -> (int, int) {
        if self.ctrl_reg.nametable_index(self.mirroring) == 0 {
            (0, 0x400)
        } else {
            (0x400, 0)
        }
    }

    /// The picture of the background layer over `frame`: the first
    /// nametable moved up and left by the scroll; the neighbour in the strip
    /// that this lays bare, on the right when scrolled sideways, else at the
    /// bottom when scrolled down; and, while sprites are shown, the rows
    /// down to eight below sprite 0 wiped and drawn again from nametable 0
    /// unscrolled.
    pub open spec fn background_painted(self, frame: Seq<u8>) -> Seq<u8> {
        let scroll_x = self.scroll_reg.x as int;
        let scroll_y = self.scroll_reg.y as int;
        let (first, second) = self.nametable_bases();
        let shifted = self.bg_painted(
            frame,
            first,
            Rect { x1: scroll_x as usize, y1: scroll_y as usize, x2: 256, y2: 240 },
            -scroll_x,
            -scroll_y,
            0x3C0,
        );
        let filled = if scroll_x > 0 {
            self.bg_painted(
                shifted,
                second,
                Rect { x1: 0, y1: 0, x2: scroll_x as usize, y2: 240 },
                256 - scroll_x,
                0,
                0x3C0,
            )
        } else if scroll_y > 0 {
            self.bg_painted(
                shifted,
                second,
                Rect { x1: 0, y1: 0, x2: 256, y2: scroll_y as usize },
                0,
                240 - scroll_y,
                0x3C0,
            )
        } else {
            shifted
        };
        if self.mask_reg.has(MaskRegister::SPRITE) {
            let rows = self.oam_data[0] + 8;
            self.bg_painted(
                cleared(filled, rows * 256, self.palette_table[0]),
                0,
                Rect { x1: 0, y1: 0, x2: 256, y2: rows as usize },
                0,
                0,
                0x3C0,
            )
        } else {
            filled
        }
    }

    /// The picture of one frame: the backdrop colour everywhere, then the
    /// sprites behind the background, the background, and the sprites in
    /// front of it, each layer only while the mask register shows it.
    pub open spec fn rendered(self, frame: Seq<u8>) -> Seq<u8> {
        let sprites = self.mask_reg.has(MaskRegister::SPRITE);
        let backdrop = cleared(frame, 240 * 256int, self.palette_table[0]);
        let behind = if sprites {
            self.sprites_painted(backdrop, false, 64)
        } else {
            backdrop
        };
        let middle = if self.mask_reg.has(MaskRegister::BACKGROUND) {
            self.background_painted(behind)
        } else {
            behind
        };
        if sprites {
            self.sprites_painted(middle, true, 64)
        } else {
            middle
        }
    }
}

impl Ppu {
    /// Sets the first `rows` rows of the picture to `color`.
    pub fn clear_rows(&mut self, rows: usize, color: u8)
        requires
            rows <= 0x10000,
        ensures
            final(self)@ == (PpuState {
                frame: cleared(old(self)@.frame, rows * 256, color),
                ..old(self)@
            }),
    {
        assert(cleared(self@.frame, 0, color) =~= self@.frame);
        let mut y: usize = 0;
        while y < rows
            invariant
                y <= rows <= 0x10000,
                self@ == (PpuState { frame: cleared(old(self)@.frame, y * 256, color), ..old(self)@ }),
            decreases rows - y,
        {
            let mut x: usize = 0;
            while x < WIDTH
                invariant
                    x <= 256,
                    y < rows <= 0x10000,
                    self@ == (PpuState {
                        frame: cleared(old(self)@.frame, y * 256 + x, color),
                        ..old(self)@
                    }),
                decreases 256 - x,
            {
                self.frame.set_pixel(x, y, color);
                assert(self@.frame =~= cleared(old(self)@.frame, y * 256 + x + 1, color));
                x += 1;
            }
            y += 1;
        }
    }

    /// Reads the two-bit colour of one pixel of a tile out of character
    /// memory.
    pub fn tile_pixel(&self, tile_base: usize, x: usize, y: usize) -> (c: u8)
        requires
            tile_base + 16 <= self.chr_rom.len(),
            x < 8,
            y < 8,
        ensures
            c == tile_color(self.chr_rom@, tile_base as int, x as int, y as int),
            c < 4,
    {
        let lower = self.chr_rom[tile_base + y] >> ((7 - x) as u8);
        let upper = self.chr_rom[tile_base + y + 8] >> ((7 - x) as u8);
        let c = ((upper & 1) << 1) | (lower & 1);
        assert(c < 4) by (bit_vector)
            requires
                c == ((upper & 1) << 1) | (lower & 1),
        ;
        c
    }

    pub fn render(&mut self) -> (r: &Frame)
        requires
            old(self)@.scene().render_backed(),
        ensures
            final(self)@ == (PpuState { frame: old(self)@.rendered(), ..old(self)@ }),
            *r == final(self).frame,
    {
        let ghost s = self@;
        let backdrop = self.palette_table[0];

        self.clear_rows(HEIGHT, backdrop);
        assert(self@.scene() == s.scene());

        if self.mask_reg.contains(MaskRegister::SPRITE) {
            self.render_sprite(false);
            assert(self@.scene() == s.scene());
        }
        if self.mask_reg.contains(MaskRegister::BACKGROUND) {
            self.render_background();
            assert(self@.scene() == s.scene());
        }
        if self.mask_reg.contains(MaskRegister::SPRITE) {
            self.render_sprite(true);
        }
        &self.frame
    }

    /// Draws the background layer over the picture.
    pub fn render_background(&mut self)
        requires
            old(self)@.scene().background_backed(),
        ensures
            final(self)@ == (PpuState {
                frame: old(self)@.scene().background_painted(old(self)@.frame),
                ..old(self)@
            }),
    {
        let ghost s = self@;
        let offset_x = self.scroll_reg.x as usize;
        let offset_y = self.scroll_reg.y as usize;
        let (first_bg, second_bg): (u16, u16) = if self.ctrl_reg.nametable(self.mirroring) == 0 {
            (0, 0x400)
        } else {
            (0x400, 0)
        };
        let backdrop = self.palette_table[0];
        self.render_bg(
            first_bg,
            &Rect::new(offset_x, offset_y, WIDTH, HEIGHT),
            -(offset_x as isize),
            -(offset_y as isize),
        );
        assert(self@.scene() == s.scene());

        if offset_x > 0 {
            self.render_bg(
                second_bg,
                &Rect::new(0, 0, offset_x, HEIGHT),
                WIDTH as isize - offset_x as isize,
                0,
            );
        } else if offset_y > 0 {
            self.render_bg(
                second_bg,
                &Rect::new(0, 0, WIDTH, offset_y),
                0,
                HEIGHT as isize - offset_y as isize,
            );
        }
        assert(self@.scene() == s.scene());
        if self.mask_reg.contains(MaskRegister::SPRITE) {
            let rows = self.oam_data[0] as usize + 8;
            self.clear_rows(rows, backdrop);
            assert(self@.scene() == s.scene());
            self.render_bg(0, &Rect::new(0, 0, WIDTH, rows), 0, 0);
        }
    }

    pub fn render_bg(&mut self, nametable_base: u16, range: &Rect, offset_x: isize, offset_y: isize)
        requires
            nametable_base <= 0x400,
            old(self)@.scene().bg_backed(nametable_base as int),
            offset_x <= 256,
            offset_y <= 240,
        ensures
            final(self)@ == (PpuState {
                frame: old(self)@.scene().bg_painted(
                    old(self)@.frame,
                    nametable_base as int,
                    *range,
                    offset_x as int,
                    offset_y as int,
                    0x3C0,
                ),
                ..old(self)@
            }),
    {
        let background_bank = self.ctrl_reg.background_pattern_addr();
        let ghost s = self@;
        let ghost base = nametable_base as int;
        let ghost ox = offset_x as int;
        let ghost oy = offset_y as int;

        let mut i: u16 = 0;
        while i < 0x03C0
            invariant
                i <= 0x3C0,
                nametable_base <= 0x400,
                s.scene().bg_backed(base),
                offset_x <= 256,
                offset_y <= 240,
                s == old(self)@,
                base == nametable_base,
                ox == offset_x,
                oy == offset_y,
                background_bank == if s.ctrl_reg.has(ControllRegister::BACKGROUND_PATTERN_ADDR) {
                    0x1000u16
                } else {
                    0u16
                },
                self@ == (PpuState {
                    frame: s.scene().bg_painted(s.frame, base, *range, ox, oy, i as nat),
                    ..s
                }),
            decreases 0x3C0 - i,
        {
            let tile = self.vram[(nametable_base + i) as usize] as u16;
            let tile_x = (i % 32) as usize;
            let tile_y = (i / 32) as usize;
            let tile_base = (background_bank + tile * 16) as usize;
            let palette = self.bg_palette(nametable_base, tile_x, tile_y);
            let ghost before = self@.frame;

            let mut y: usize = 0;
            while y < 8
                invariant
                    y <= 8,
                    i < 0x3C0,
                    nametable_base <= 0x400,
                    self.chr_rom@ == s.chr_rom,
                    offset_x <= 256,
                    offset_y <= 240,
                    base == nametable_base,
                    ox == offset_x,
                    oy == offset_y,
                    tile_x == i % 32,
                    tile_y == i / 32,
                    tile_base == s.scene().bg_tile_base(base, i as int),
                    tile_base + 16 <= self.chr_rom.len(),
                    palette@ == s.scene().bg_palette(base, tile_x as int, tile_y as int),
                    self@ == (PpuState {
                        frame: s.scene().bg_tile_painted(
                            before,
                            base,
                            *range,
                            ox,
                            oy,
                            i as int,
                            (y * 8) as nat,
                        ),
                        ..s
                    }),
                decreases 8 - y,
            {
                let mut j: usize = 0;
                while j < 8
                    invariant
                        j <= 8,
                        y < 8,
                        i < 0x3C0,
                        nametable_base <= 0x400,
                        self.chr_rom@ == s.chr_rom,
                        offset_x <= 256,
                        offset_y <= 240,
                        base == nametable_base,
                        ox == offset_x,
                        oy == offset_y,
                        tile_x == i % 32,
                        tile_y == i / 32,
                        tile_base == s.scene().bg_tile_base(base, i as int),
                        tile_base + 16 <= self.chr_rom.len(),
                        palette@ == s.scene().bg_palette(base, tile_x as int, tile_y as int),
                        self@ == (PpuState {
                            frame: s.scene().bg_tile_painted(
                                before,
                                base,
                                *range,
                                ox,
                                oy,
                                i as int,
                                (y * 8 + j) as nat,
                            ),
                            ..s
                        }),
                    decreases 8 - j,
                {
                    let x = 7 - j;
                    let color_idx = self.tile_pixel(tile_base, x, y);
                    let color = palette[color_idx as usize];
                    let pixel_x = tile_x * 8 + x;
                    let pixel_y = tile_y * 8 + y;

                    if color_idx != 0 && range.is_inside(pixel_x, pixel_y) {
                        let target_x = pixel_x as isize + offset_x;
                        let target_y = pixel_y as isize + offset_y;
                        if target_x >= 0 && target_y >= 0 {
                            self.frame.set_pixel(target_x as usize, target_y as usize, color);
                        }
                    }
                    proof {
                        let k = (y * 8 + j) as int;
                        assert(k / 8 == y && 7 - k % 8 == x);
                        assert(self@.frame == s.scene().bg_pixel_painted(
                            s.scene().bg_tile_painted(before, base, *range, ox, oy, i as int, k as nat),
                            base,
                            *range,
                            ox,
                            oy,
                            i as int,
                            k,
                        ));
                    }
                    j += 1;
                }
                y += 1;
            }
            i += 1;
        }
    }

    pub fn render_sprite(&mut self, priority: bool)
        requires
            old(self)@.scene().sprites_backed(priority),
        ensures
            final(self)@ == (PpuState {
                frame: old(self)@.scene().sprites_painted(old(self)@.frame, priority, 64),
                ..old(self)@
            }),
    {
        let sprite_bank = self.ctrl_reg.sprite_pattern_addr();
        let ghost s = self@;

        let mut count: usize = 0;
        while count < 64
            invariant
                count <= 64,
                s.scene().sprites_backed(priority),
                s == old(self)@,
                sprite_bank == if s.ctrl_reg.has(ControllRegister::SPRITE_PATTERN_ADDR) {
                    0x1000u16
                } else {
                    0u16
                },
                self@ == (PpuState {
                    frame: s.scene().sprites_painted(s.frame, priority, count as nat),
                    ..s
                }),
            decreases 64 - count,
        {
            let sprite_idx = (63 - count) * 4;
            let sprite_y = self.oam_data[sprite_idx];
            let tile_idx = self.oam_data[sprite_idx + 1] as u16;
            let sprite_attr = self.oam_data[sprite_idx + 2];
            let sprite_x = self.oam_data[sprite_idx + 3];
            let ghost n = 63 - count as int;
            let ghost before = self@.frame;
            if (sprite_attr & 0b0010_0000 == 0) == priority {
                let horizontal_flip = sprite_attr & 0b0100_0000 != 0;
                let vertical_flip = sprite_attr & 0b1000_0000 != 0;

                let tile_base = (tile_idx * 16 + sprite_bank) as usize;

                let palette_idx = sprite_attr & 0b0000_0011;
                proof {
                    lemma_and_bounds_u8(sprite_attr, 0b0000_0011);
                }
                let palette = self.sprite_palette(palette_idx);
                let mut y: usize = 0;
                while y < 8
                    invariant
                        y <= 8,
                        count < 64,
                        n == 63 - count,
                        self.chr_rom@ == s.chr_rom,
                        sprite_y == s.oam_data[n * 4],
                        sprite_attr == s.oam_data[n * 4 + 2],
                        sprite_x == s.oam_data[n * 4 + 3],
                        horizontal_flip == (sprite_attr & 0b0100_0000 != 0),
                        vertical_flip == (sprite_attr & 0b1000_0000 != 0),
                        palette_idx == sprite_attr & 0b0000_0011,
                        tile_base == s.scene().sprite_tile_base(n),
                        tile_base + 16 <= self.chr_rom.len(),
                        palette@ == s.scene().sprite_palette(palette_idx as int),
                        self@ == (PpuState {
                            frame: s.scene().sprite_painted(before, n, (y * 8) as nat),
                            ..s
                        }),
                    decreases 8 - y,
                {
                    let mut j: usize = 0;
                    while j < 8
                        invariant
                            j <= 8,
                            y < 8,
                            count < 64,
                            n == 63 - count,
                            self.chr_rom@ == s.chr_rom,
                            sprite_y == s.oam_data[n * 4],
                            sprite_attr == s.oam_data[n * 4 + 2],
                            sprite_x == s.oam_data[n * 4 + 3],
                            horizontal_flip == (sprite_attr & 0b0100_0000 != 0),
                            vertical_flip == (sprite_attr & 0b1000_0000 != 0),
                            palette_idx == sprite_attr & 0b0000_0011,
                            tile_base == s.scene().sprite_tile_base(n),
                            tile_base + 16 <= self.chr_rom.len(),
                            palette@ == s.scene().sprite_palette(palette_idx as int),
                            self@ == (PpuState {
                                frame: s.scene().sprite_painted(before, n, (y * 8 + j) as nat),
                                ..s
                            }),
                        decreases 8 - j,
                    {
                        let x = 7 - j;
                        let color_idx = self.tile_pixel(tile_base, x, y);
                        if color_idx != 0 {
                            let color = palette[color_idx as usize];
                            self.frame.set_pixel(
                                sprite_x as usize + if horizontal_flip {
                                    7 - x
                                } else {
                                    x
                                },
                                sprite_y as usize + if vertical_flip {
                                    7 - y
                                } else {
                                    y
                                },
                                color,
                            )
                        }
                        proof {
                            let k = (y * 8 + j) as int;
                            assert(k / 8 == y && 7 - k % 8 == x);
                            assert(self@.frame == s.scene().sprite_pixel_painted(
                                s.scene().sprite_painted(before, n, k as nat),
                                n,
                                k,
                            ));
                        }
                        j += 1;
                    }
                    y += 1;
                }
            }
            assert(self@.frame == s.scene().sprites_painted(s.frame, priority, (count + 1) as nat));
            count += 1;
        }
    }

    pub fn bg_palette(&self, nametable_base: u16, tile_x: usize, tile_y: usize) -> (r: [u8; 4])
        requires
            nametable_base <= 0x400,
            tile_x < 32,
            tile_y < 30,
        ensures
            r@ == self@.scene().bg_palette(nametable_base as int, tile_x as int, tile_y as int),
    {
        let attr_base = (nametable_base + 0x03C0) as usize;
        let attr_idx = (tile_x / 4) + (tile_y / 4) * 8;
        let attr_byte = self.vram[attr_base + attr_idx];
        let quadrant = (tile_y % 4 / 2) * 2 + tile_x % 4 / 2;
        let palette_idx = if quadrant == 0 {
            attr_byte & 0b11
        } else if quadrant == 1 {
            (attr_byte >> 2) & 0b11
        } else if quadrant == 2 {
            (attr_byte >> 4) & 0b11
        } else {
            attr_byte >> 6
        };
        proof {
            lemma_and_bounds_u8(attr_byte, 0b11);
            lemma_and_bounds_u8(attr_byte >> 2, 0b11);
            lemma_and_bounds_u8(attr_byte >> 4, 0b11);
            lemma_shr_u8(attr_byte);
        }
        let palette_start = (palette_idx as usize) * 4 + 1;
        let r = [
            self.palette_table[0],
            self.palette_table[palette_start],
            self.palette_table[palette_start + 1],
            self.palette_table[palette_start + 2],
        ];
        assert(r@ =~= self@.scene().bg_palette(nametable_base as int, tile_x as int, tile_y as int));
        r
    }

    pub fn sprite_palette(&self, palette_idx: u8) -> (r: [u8; 4])
        requires
            palette_idx < 4,
        ensures
            r@ == self@.scene().sprite_palette(palette_idx as int),
    {
        let palette_start = 0x11 + (palette_idx * 4) as usize;
        let r = [
            0,
            self.palette_table[palette_start],
            self.palette_table[palette_start + 1],
            self.palette_table[palette_start + 2],
        ];
        assert(r@ =~= self@.scene().sprite_palette(palette_idx as int));
        r
    }
}

/// Two full pattern tables back every tile that a frame can draw.
pub proof fn lemma_full_pattern_tables_back_every_tile(scene: Scene)
    requires
        scene.chr_rom.len() >= 0x2000,
    ensures
        scene.render_backed(),
        scene.background_backed(),
        forall|base: int| scene.bg_backed(base),
        forall|priority: bool| scene.sprites_backed(priority),
{
}

} // verus!
