use vstd::prelude::*;
use vstd::arithmetic::div_mod::lemma_fundamental_div_mod_converse;

use crate::ppu::{mem_read, Ppu, PpuView, FRAME_BYTES, SCREEN_HEIGHT, SCREEN_WIDTH};
use crate::ppu_regs::{
    lemma_and_le, GRAYSCALE, SHOW_BG, SHOW_BG_LEFTMOST, SHOW_SPRITES, SHOW_SPRITES_LEFTMOST,
};

verus! {

/// Sprites that one scanline can show.
pub const SPRITES_PER_LINE: usize = 8;

pub const SPRITE_COUNT: usize = 64;

/// The standard 64-colour NES palette, three bytes (R, G, B) per colour.
pub open spec fn nes_palette() -> Seq<u8> {
    seq![
        124, 124, 124, 0, 0, 252, 0, 0, 188, 68, 40, 188,
        148, 0, 132, 168, 0, 32, 168, 16, 0, 136, 20, 0,
        80, 48, 0, 0, 120, 0, 0, 104, 0, 0, 88, 0,
        0, 64, 88, 0, 0, 0, 0, 0, 0, 0, 0, 0,
        188, 188, 188, 0, 120, 248, 0, 88, 248, 104, 68, 252,
        216, 0, 204, 228, 0, 88, 248, 56, 0, 228, 92, 16,
        172, 124, 0, 0, 184, 0, 0, 168, 0, 0, 168, 68,
        0, 136, 136, 0, 0, 0, 0, 0, 0, 0, 0, 0,
        248, 248, 248, 60, 188, 252, 104, 136, 252, 152, 120, 248,
        248, 120, 248, 248, 88, 152, 248, 120, 88, 252, 160, 68,
        248, 184, 0, 184, 248, 24, 88, 216, 84, 88, 248, 152,
        0, 232, 216, 120, 120, 120, 0, 0, 0, 0, 0, 0,
        252, 252, 252, 164, 228, 252, 184, 184, 248, 216, 184, 248,
        248, 184, 248, 248, 164, 192, 240, 208, 176, 252, 224, 168,
        248, 216, 120, 216, 248, 120, 184, 248, 184, 184, 248, 216,
        0, 252, 252, 248, 216, 248, 0, 0, 0, 0, 0, 0,
    ]
}

pub fn nes_palette_table() -> (r: Vec<u8>)
    ensures
        r@ == nes_palette(),
        r@.len() == 192,
{
    let r = vec![
        124u8, 124, 124, 0, 0, 252, 0, 0, 188, 68, 40, 188,
        148, 0, 132, 168, 0, 32, 168, 16, 0, 136, 20, 0,
        80, 48, 0, 0, 120, 0, 0, 104, 0, 0, 88, 0,
        0, 64, 88, 0, 0, 0, 0, 0, 0, 0, 0, 0,
        188, 188, 188, 0, 120, 248, 0, 88, 248, 104, 68, 252,
        216, 0, 204, 228, 0, 88, 248, 56, 0, 228, 92, 16,
        172, 124, 0, 0, 184, 0, 0, 168, 0, 0, 168, 68,
        0, 136, 136, 0, 0, 0, 0, 0, 0, 0, 0, 0,
        248, 248, 248, 60, 188, 252, 104, 136, 252, 152, 120, 248,
        248, 120, 248, 248, 88, 152, 248, 120, 88, 252, 160, 68,
        248, 184, 0, 184, 248, 24, 88, 216, 84, 88, 248, 152,
        0, 232, 216, 120, 120, 120, 0, 0, 0, 0, 0, 0,
        252, 252, 252, 164, 228, 252, 184, 184, 248, 216, 184, 248,
        248, 184, 248, 248, 164, 192, 240, 208, 176, 252, 224, 168,
        248, 216, 120, 216, 248, 120, 184, 248, 184, 184, 248, 216,
        0, 252, 252, 248, 216, 248, 0, 0, 0, 0, 0, 0,
    ];
    assert(r@ =~= nes_palette());
    r
}


/// The 2-bit colour of column `col` (0 is leftmost) of a tile row whose two
/// bit planes are `lo` and `hi`.
pub open spec fn pattern_value(lo: u8, hi: u8, col: int) -> u8 {
    let s = (7 - col) as u8;
    ((lo >> s) & 1) | (((hi >> s) & 1) << 1u8)
}

/// The background at screen pixel `(x, y)`: its 2-bit colour and its 2-bit palette.
pub open spec fn bg_pixel(p: PpuView, x: int, y: int) -> (u8, u8) {
    let nt = p.ctrl.spec_base_nametable_addr() as int;
    let cx = x / 8;
    let cy = y / 8;
    let tile = mem_read(p, (nt + cy * 32 + cx) as u16);
    let attr = mem_read(p, (nt + 0x3C0 + (cy / 4) * 8 + cx / 4) as u16);
    let shift = ((cy / 2) % 2) * 4 + ((cx / 2) % 2) * 2;
    let addr = p.ctrl.spec_bg_pattern_table_addr() as int + tile as int * 16 + y % 8;
    (
        pattern_value(mem_read(p, addr as u16), mem_read(p, (addr + 8) as u16), x % 8),
        (attr >> (shift as u8)) & 3,
    )
}

pub open spec fn sprite_height(p: PpuView) -> int {
    if p.ctrl.flags & 0x20 != 0 {
        16
    } else {
        8
    }
}

/// Sprite `i` covers scanline `y`; a sprite is drawn one line below its Y byte.
pub open spec fn on_line(p: PpuView, i: int, y: int) -> bool {
    let top = p.oam[4 * i] as int + 1;
    top <= y < top + sprite_height(p)
}

/// The sprites among the first `n` of OAM that cover scanline `y`, in OAM order.
pub open spec fn sprites_on_line(p: PpuView, y: int, n: nat) -> Seq<int>
    decreases n,
{
    if n == 0 {
        Seq::empty()
    } else {
        let s = sprites_on_line(p, y, (n - 1) as nat);
        if on_line(p, n - 1, y) {
            s.push(n - 1)
        } else {
            s
        }
    }
}

pub open spec fn first_eight(s: Seq<int>) -> Seq<int> {
    if s.len() <= SPRITES_PER_LINE {
        s
    } else {
        s.take(SPRITES_PER_LINE as int)
    }
}

/// The sprites that scanline `y` shows: the first eight in OAM order that cover it.
pub open spec fn selected_sprites(p: PpuView, y: int) -> Seq<int> {
    first_eight(sprites_on_line(p, y, SPRITE_COUNT as nat))
}

/// More than eight sprites cover scanline `y`.
pub open spec fn line_overflows(p: PpuView, y: int) -> bool {
    sprites_on_line(p, y, SPRITE_COUNT as nat).len() > SPRITES_PER_LINE
}

/// Whether any of the first `n` scanlines overflows.
pub open spec fn overflow_upto(p: PpuView, n: nat) -> bool
    decreases n,
{
    if n == 0 {
        false
    } else {
        overflow_upto(p, (n - 1) as nat) || line_overflows(p, n - 1)
    }
}

pub open spec fn sprite_overflow(p: PpuView) -> bool {
    overflow_upto(p, SCREEN_HEIGHT as nat)
}

/// The 2-bit colour of sprite `i` at `(x, y)`, 0 where it does not cover `x`.
/// Attribute bit 6 flips it horizontally, bit 7 vertically.
pub open spec fn sprite_value(p: PpuView, i: int, x: int, y: int) -> u8 {
    let sx = p.oam[4 * i + 3] as int;
    if x < sx || x >= sx + 8 {
        0
    } else {
        let attr = p.oam[4 * i + 2];
        let tile = p.oam[4 * i + 1] as int;
        let h = sprite_height(p);
        let r0 = y - (p.oam[4 * i] as int + 1);
        let row = if attr & 0x80 != 0 {
            h - 1 - r0
        } else {
            r0
        };
        let c0 = x - sx;
        let col = if attr & 0x40 != 0 {
            7 - c0
        } else {
            c0
        };
        let addr = if h == 8 {
            p.ctrl.spec_sprite_pattern_table_addr() as int + tile * 16 + row
        } else {
            (tile % 2) * 0x1000 + (tile - tile % 2) * 16 + if row >= 8 {
                row + 8
            } else {
                row
            }
        };
        pattern_value(mem_read(p, addr as u16), mem_read(p, (addr + 8) as u16), col)
    }
}

/// The first of `sel[0..n]` that is opaque at `(x, y)`.
pub open spec fn first_opaque(p: PpuView, sel: Seq<int>, x: int, y: int, n: nat) -> Option<int>
    decreases n,
{
    if n == 0 {
        None
    } else {
        match first_opaque(p, sel, x, y, (n - 1) as nat) {
            Some(i) => Some(i),
            None => if sprite_value(p, sel[n - 1], x, y) != 0 {
                Some(sel[n - 1])
            } else {
                None
            },
        }
    }
}

/// The sprite whose pixel shows at `(x, y)`, before background priority.
pub open spec fn sprite_at(p: PpuView, x: int, y: int) -> Option<int> {
    let sel = selected_sprites(p, y);
    first_opaque(p, sel, x, y, sel.len())
}

/// The background shows at column `x`: it is enabled, and in the leftmost 8
/// columns only when PPUMASK bit 1 allows it.
pub open spec fn bg_shown(p: PpuView, x: int) -> bool {
    p.mask.bits & SHOW_BG != 0 && (x >= 8 || p.mask.bits & SHOW_BG_LEFTMOST != 0)
}

/// Sprites show at column `x`: they are enabled, and in the leftmost 8 columns
/// only when PPUMASK bit 2 allows it.
pub open spec fn sprites_shown(p: PpuView, x: int) -> bool {
    p.mask.bits & SHOW_SPRITES != 0 && (x >= 8 || p.mask.bits & SHOW_SPRITES_LEFTMOST != 0)
}

pub open spec fn bg_opaque(p: PpuView, x: int, y: int) -> bool {
    bg_shown(p, x) && bg_pixel(p, x, y).0 != 0
}

pub open spec fn shown_sprite(p: PpuView, x: int, y: int) -> Option<int> {
    if sprites_shown(p, x) {
        sprite_at(p, x, y)
    } else {
        None
    }
}

/// The palette RAM entry that pixel `(x, y)` shows. A sprite shows over a
/// transparent background, and over an opaque one unless attribute bit 5 puts
/// it behind.
pub open spec fn palette_entry(p: PpuView, x: int, y: int) -> int {
    let spr = shown_sprite(p, x, y);
    let b = bg_pixel(p, x, y);
    if spr is Some && (!bg_opaque(p, x, y) || p.oam[4 * spr->0 + 2] & 0x20 == 0) {
        let i = spr->0;
        0x10 + (p.oam[4 * i + 2] & 3) as int * 4 + sprite_value(p, i, x, y) as int
    } else if bg_opaque(p, x, y) {
        b.1 as int * 4 + b.0 as int
    } else {
        0
    }
}

/// The NES colour (0-63) of pixel `(x, y)`. Grayscale (PPUMASK bit 0) keeps
/// only the brightness bits of the colour.
pub open spec fn pixel_color(p: PpuView, x: int, y: int) -> u8 {
    let c = p.palette[palette_entry(p, x, y)] & 0x3F;
    if p.mask.bits & GRAYSCALE != 0 {
        c & 0x30
    } else {
        c
    }
}

/// Opaque sprite 0 meets opaque background at `(x, y)`.
pub open spec fn sprite0_hit_at(p: PpuView, x: int, y: int) -> bool {
    bg_opaque(p, x, y) && shown_sprite(p, x, y) == Some(0int) && x != 255
}

/// Whether sprite 0 hits among the first `n` pixels in row-major order.
pub open spec fn hit_upto(p: PpuView, n: nat) -> bool
    decreases n,
{
    if n == 0 {
        false
    } else {
        hit_upto(p, (n - 1) as nat) || sprite0_hit_at(
            p,
            (n - 1) as int % SCREEN_WIDTH as int,
            (n - 1) as int / SCREEN_WIDTH as int,
        )
    }
}

pub open spec fn sprite0_hit(p: PpuView) -> bool {
    hit_upto(p, (SCREEN_WIDTH * SCREEN_HEIGHT) as nat)
}

/// Byte `k` of the frame: RGB, row-major from the top left.
pub open spec fn frame_byte(p: PpuView, k: int) -> u8 {
    let px = k / 3;
    nes_palette()[pixel_color(p, px % SCREEN_WIDTH as int, px / SCREEN_WIDTH as int) as int * 3 + k % 3]
}

pub open spec fn frame_of(p: PpuView) -> Seq<u8> {
    Seq::new(FRAME_BYTES as nat, |k: int| frame_byte(p, k))
}

proof fn lemma_pixel_index(x: int, y: int, c: int)
    requires
        0 <= x < 256,
        0 <= y,
        0 <= c < 3,
    ensures
        ((y * 256 + x) * 3 + c) / 3 == y * 256 + x,
        ((y * 256 + x) * 3 + c) % 3 == c,
        (y * 256 + x) % 256 == x,
        (y * 256 + x) / 256 == y,
{
    lemma_fundamental_div_mod_converse((y * 256 + x) * 3 + c, 3, y * 256 + x, c);
    lemma_fundamental_div_mod_converse(y * 256 + x, 256, y, x);
}

proof fn lemma_first_eight_step(p: PpuView, y: int, n: nat)
    ensures
        first_eight(sprites_on_line(p, y, n + 1)) == if on_line(p, n as int, y)
            && first_eight(sprites_on_line(p, y, n)).len() < SPRITES_PER_LINE {
            first_eight(sprites_on_line(p, y, n)).push(n as int)
        } else {
            first_eight(sprites_on_line(p, y, n))
        },
        first_eight(sprites_on_line(p, y, n)).len() <= SPRITES_PER_LINE,
{
    let s = sprites_on_line(p, y, n);
    assert(sprites_on_line(p, y, n + 1) == if on_line(p, n as int, y) {
        s.push(n as int)
    } else {
        s
    });
    if on_line(p, n as int, y) && s.len() >= SPRITES_PER_LINE {
        assert(s.push(n as int).take(8) =~= first_eight(s));
    }
}

impl Ppu {
    /// Indices of the sprites that scanline `y` shows.
    /// Also tells whether more than eight sprites cover the line.
    fn select_sprites(&self, y: u16) -> (r: (Vec<usize>, bool))
        requires
            self@.wf(),
        ensures
            r.0@.len() == selected_sprites(self@, y as int).len(),
            forall|k: int| 0 <= k < r.0@.len() ==> r.0@[k] as int == selected_sprites(self@, y as int)[k],
            forall|k: int| 0 <= k < r.0@.len() ==> r.0@[k] < SPRITE_COUNT && on_line(self@, r.0@[k] as int, y as int),
            r.1 == line_overflows(self@, y as int),
    {
        let ghost p = self@;
        let tall = self.ctrlreg.sprite_size();
        let h: u16 = if tall {
            16
        } else {
            8
        };
        let mut sel: Vec<usize> = Vec::new();
        let mut count: usize = 0;
        let mut i: usize = 0;
        while i < SPRITE_COUNT
            invariant
                p == self@,
                p.wf(),
                i <= SPRITE_COUNT,
                count == sprites_on_line(p, y as int, i as nat).len(),
                count <= i,
                h == sprite_height(p),
                sel@.len() == first_eight(sprites_on_line(p, y as int, i as nat)).len(),
                forall|k: int| 0 <= k < sel@.len() ==> sel@[k] as int == first_eight(
                    sprites_on_line(p, y as int, i as nat),
                )[k],
                forall|k: int| 0 <= k < sel@.len() ==> sel@[k] < SPRITE_COUNT && on_line(p, sel@[k] as int, y as int),
            decreases SPRITE_COUNT - i,
        {
            proof {
                lemma_first_eight_step(p, y as int, i as nat);
            }
            let top = self.sprite_ram[4 * i] as u16 + 1;
            if top <= y && y < top + h {
                if sel.len() < SPRITES_PER_LINE {
                    sel.push(i);
                }
                count = count + 1;
            }
            i = i + 1;
        }
        (sel, count > SPRITES_PER_LINE)
    }

    /// Whether more than eight sprites cover any visible scanline.
    pub fn sprite_overflow(&self) -> (r: bool)
        requires
            self@.wf(),
        ensures
            r == sprite_overflow(self@),
    {
        let mut found = false;
        let mut y: u16 = 0;
        while y < SCREEN_HEIGHT as u16
            invariant
                self@.wf(),
                y <= SCREEN_HEIGHT,
                found == overflow_upto(self@, y as nat),
            decreases SCREEN_HEIGHT - y,
        {
            let (_, over) = self.select_sprites(y);
            found = found || over;
            y = y + 1;
        }
        found
    }

    fn pattern_value_at(&self, addr: u16, col: u16) -> (r: u8)
        requires
            self@.wf(),
            col < 8,
            addr <= 0x3000,
        ensures
            r == pattern_value(mem_read(self@, addr), mem_read(self@, (addr + 8) as u16), col as int),
            r <= 3,
    {
        let lo = self.peek(addr);
        let hi = self.peek(addr + 8);
        let s = (7 - col) as u8;
        let r = ((lo >> s) & 1) | (((hi >> s) & 1) << 1u8);
        assert(r <= 3) by (bit_vector)
            requires
                r == ((lo >> s) & 1) | (((hi >> s) & 1) << 1u8),
        ;
        r
    }

    fn bg_pixel_at(&self, x: u16, y: u16) -> (r: (u8, u8))
        requires
            self@.wf(),
            x < 256,
            y < 240,
        ensures
            r == bg_pixel(self@, x as int, y as int),
            r.0 <= 3,
            r.1 <= 3,
    {
        let nt = self.ctrlreg.base_nametable_addr();
        proof {
            lemma_and_le(self.ctrlreg.flags, 3);
        }
        let cx = x / 8;
        let cy = y / 8;
        let tile = self.peek(nt + cy * 32 + cx);
        let attr = self.peek(nt + 0x3C0 + (cy / 4) * 8 + cx / 4);
        let shift = ((cy / 2) % 2) * 4 + ((cx / 2) % 2) * 2;
        let addr = self.ctrlreg.bg_pattern_table_addr() + tile as u16 * 16 + y % 8;
        let v = self.pattern_value_at(addr, x % 8);
        let pal = (attr >> (shift as u8)) & 3;
        proof {
            lemma_and_le(attr >> (shift as u8), 3);
        }
        (v, pal)
    }

    fn sprite_value_at(&self, i: usize, x: u16, y: u16) -> (r: u8)
        requires
            self@.wf(),
            i < SPRITE_COUNT,
            x < 256,
            on_line(self@, i as int, y as int),
        ensures
            r == sprite_value(self@, i as int, x as int, y as int),
            r <= 3,
    {
        let sx = self.sprite_ram[4 * i + 3] as u16;
        if x < sx || x >= sx + 8 {
            0
        } else {
            let attr = self.sprite_ram[4 * i + 2];
            let tile = self.sprite_ram[4 * i + 1] as u16;
            let tall = self.ctrlreg.sprite_size();
            let h: u16 = if tall {
                16
            } else {
                8
            };
            let r0 = y - (self.sprite_ram[4 * i] as u16 + 1);
            let row = if attr & 0x80 != 0 {
                h - 1 - r0
            } else {
                r0
            };
            let c0 = x - sx;
            let col = if attr & 0x40 != 0 {
                7 - c0
            } else {
                c0
            };
            let addr = if !tall {
                self.ctrlreg.sprite_pattern_table_addr() + tile * 16 + row
            } else {
                (tile % 2) * 0x1000 + (tile - tile % 2) * 16 + if row >= 8 {
                    row + 8
                } else {
                    row
                }
            };
            self.pattern_value_at(addr, col)
        }
    }

    /// The sprite whose pixel shows at `(x, y)`, among those selected for the line.
    fn sprite_at_pixel(&self, sel: &Vec<usize>, x: u16, y: u16) -> (r: Option<usize>)
        requires
            self@.wf(),
            x < 256,
            sel@.len() == selected_sprites(self@, y as int).len(),
            forall|k: int| 0 <= k < sel@.len() ==> sel@[k] as int == selected_sprites(self@, y as int)[k],
            forall|k: int| 0 <= k < sel@.len() ==> sel@[k] < SPRITE_COUNT && on_line(self@, sel@[k] as int, y as int),
        ensures
            r matches Some(i) ==> sprite_at(self@, x as int, y as int) == Some(i as int) && i < SPRITE_COUNT
                && on_line(self@, i as int, y as int),
            r is None ==> sprite_at(self@, x as int, y as int) is None,
    {
        let ghost p = self@;
        let ghost s = selected_sprites(p, y as int);
        let mut j: usize = 0;
        while j < sel.len()
            invariant
                p == self@,
                p.wf(),
                x < 256,
                j <= sel@.len(),
                s == selected_sprites(p, y as int),
                sel@.len() == s.len(),
                forall|k: int| 0 <= k < sel@.len() ==> sel@[k] as int == s[k],
                forall|k: int| 0 <= k < sel@.len() ==> sel@[k] < SPRITE_COUNT && on_line(p, sel@[k] as int, y as int),
                first_opaque(p, s, x as int, y as int, j as nat) is None,
            decreases sel@.len() - j,
        {
            let i = sel[j];
            let v = self.sprite_value_at(i, x, y);
            assert(first_opaque(p, s, x as int, y as int, (j + 1) as nat) == if v != 0 {
                Some(i as int)
            } else {
                None::<int>
            });
            if v != 0 {
                proof {
                    lemma_first_opaque_stays(p, s, x as int, y as int, (j + 1) as nat, s.len());
                    assert(first_opaque(p, s, x as int, y as int, s.len()) == Some(i as int));
                }
                return Some(i);
            }
            j = j + 1;
        }
        None
    }

    /// The colour of pixel `(x, y)` and whether sprite 0 hits there.
    fn pixel(&self, sel: &Vec<usize>, x: u16, y: u16) -> (r: (u8, bool))
        requires
            self@.wf(),
            x < 256,
            y < 240,
            sel@.len() == selected_sprites(self@, y as int).len(),
            forall|k: int| 0 <= k < sel@.len() ==> sel@[k] as int == selected_sprites(self@, y as int)[k],
            forall|k: int| 0 <= k < sel@.len() ==> sel@[k] < SPRITE_COUNT && on_line(self@, sel@[k] as int, y as int),
        ensures
            r.0 == pixel_color(self@, x as int, y as int),
            r.0 < 64,
            r.1 == sprite0_hit_at(self@, x as int, y as int),
    {
        let (bv, bp) = self.bg_pixel_at(x, y);
        let bits = self.mask.bits;
        let opaque = bits & SHOW_BG != 0 && (x >= 8 || bits & SHOW_BG_LEFTMOST != 0) && bv != 0;
        let spr = if bits & SHOW_SPRITES != 0 && (x >= 8 || bits & SHOW_SPRITES_LEFTMOST != 0) {
            self.sprite_at_pixel(sel, x, y)
        } else {
            None
        };
        let entry: usize = match spr {
            Some(i) => {
                let attr = self.sprite_ram[4 * i + 2];
                if !opaque || attr & 0x20 == 0 {
                    proof {
                        lemma_and_le(attr, 3);
                    }
                    0x10 + (attr & 3) as usize * 4 + self.sprite_value_at(i, x, y) as usize
                } else {
                    bp as usize * 4 + bv as usize
                }
            },
            None => if opaque {
                bp as usize * 4 + bv as usize
            } else {
                0
            },
        };
        let full = self.palette[entry] & 0x3F;
        proof {
            lemma_and_le(self.palette@[entry as int], 0x3F);
            lemma_and_le(full, 0x30);
        }
        let c = if bits & GRAYSCALE != 0 {
            full & 0x30
        } else {
            full
        };
        let hit = opaque && x != 255 && match spr {
            Some(i) => i == 0,
            None => false,
        };
        (c, hit)
    }

    /// Renders one whole frame from the current state, and tells whether sprite 0
    /// hits in it.
    pub fn render(&self) -> (r: (Vec<u8>, bool))
        requires
            self@.wf(),
        ensures
            r.0@ == frame_of(self@),
            r.1 == sprite0_hit(self@),
    {
        let ghost p = self@;
        let rgb = nes_palette_table();
        let mut frame: Vec<u8> = Vec::new();
        let mut hit = false;
        let mut y: u16 = 0;
        while y < SCREEN_HEIGHT as u16
            invariant
                p == self@,
                p.wf(),
                rgb@ == nes_palette(),
                y <= SCREEN_HEIGHT,
                frame@.len() == y as int * 256 * 3,
                forall|k: int| 0 <= k < frame@.len() ==> #[trigger] frame@[k] == frame_byte(p, k),
                hit == hit_upto(p, (y as int * 256) as nat),
            decreases SCREEN_HEIGHT - y,
        {
            let (sel, _) = self.select_sprites(y);
            let mut x: u16 = 0;
            while x < SCREEN_WIDTH as u16
                invariant
                    p == self@,
                    p.wf(),
                    rgb@ == nes_palette(),
                    y < SCREEN_HEIGHT,
                    x <= SCREEN_WIDTH,
                    frame@.len() == (y as int * 256 + x as int) * 3,
                    forall|k: int| 0 <= k < frame@.len() ==> #[trigger] frame@[k] == frame_byte(p, k),
                    hit == hit_upto(p, (y as int * 256 + x as int) as nat),
                    sel@.len() == selected_sprites(p, y as int).len(),
                    forall|k: int| 0 <= k < sel@.len() ==> sel@[k] as int == selected_sprites(p, y as int)[k],
                    forall|k: int| 0 <= k < sel@.len() ==> sel@[k] < SPRITE_COUNT && on_line(p, sel@[k] as int, y as int),
                decreases SCREEN_WIDTH - x,
            {
                let (c, h) = self.pixel(&sel, x, y);
                let base = c as usize * 3;
                proof {
                    lemma_pixel_index(x as int, y as int, 0);
                    lemma_pixel_index(x as int, y as int, 1);
                    lemma_pixel_index(x as int, y as int, 2);
                }
                frame.push(rgb[base]);
                frame.push(rgb[base + 1]);
                frame.push(rgb[base + 2]);
                hit = hit || h;
                x = x + 1;
            }
            y = y + 1;
        }
        assert(frame@ =~= frame_of(p));
        (frame, hit)
    }
}

proof fn lemma_first_opaque_stays(p: PpuView, sel: Seq<int>, x: int, y: int, n: nat, m: nat)
    requires
        n <= m,
        first_opaque(p, sel, x, y, n) is Some,
    ensures
        first_opaque(p, sel, x, y, m) == first_opaque(p, sel, x, y, n),
    decreases m - n,
{
    if n < m {
        lemma_first_opaque_stays(p, sel, x, y, n, (m - 1) as nat);
    }
}

} // verus!
