//! The pixel pipeline: scanline timing, the display status register and its
//! interrupts, and the rendering of one background or window line.

use vstd::prelude::*;
use crate::GBEmulator;
use crate::machine::{Bus, Machine, BGP, FRAME_SIZE, LCDC, LY, LYC, SCX, SCY, STAT, WX, WY};

verus! {

/// The scanline at which the vertical blank starts.
pub const VBLANK_SCANLINE: u8 = 144;

/// The last scanline of a frame.
pub const VBLANK_SCANLINE_MAX: u8 = 153;

/// Clock cycles to a scanline.
pub const GPU_CYCLES_PER_FRAME: u32 = 456;

/// The scanline budget at and above which the line is in its first 80
/// cycles, the scan of object attribute memory.
pub const MODE2_START: u32 = 376;

/// The scanline budget above which the line is in the 172 cycles of pixel
/// transfer; at and below it the line is in its horizontal blank.
pub const MODE3_START: u32 = 204;

/// Pixels to a scanline.
pub const LINE_PIXELS: u8 = 160;

/// Bytes to a scanline of the frame buffer.
pub const LINE_BYTES: usize = 640;

/// One channel of one of the four shades: white, light grey, dark grey and
/// black, each opaque.
pub open spec fn shade_channel(shade: u8, channel: int) -> u8 {
    if channel == 3 {
        255
    } else {
        match shade {
            0 => 255,
            1 => 192,
            2 => 96,
            _ => 0,
        }
    }
}

/// The shade that a palette gives to a 2-bit colour index: the two bits of
/// the palette at twice the index.
pub open spec fn palette_shade(value: u8, palette: u8) -> u8 {
    (palette >> (value * 2) as u8) & 0x3
}

/// The 2-bit colour index of a pixel: bit `bit` of the tile row's first byte
/// is its low bit, the same bit of the second byte its high bit.
pub open spec fn color_index(low: u8, high: u8, bit: u8) -> u8 {
    ((low >> bit) & 1) | (((high >> bit) & 1) << 1u8)
}

/// The interrupt-enable bit of the display status register that belongs to a
/// mode: bit 3 for the horizontal blank, bit 4 for the vertical blank, bit 5
/// for the scan of object attribute memory, none for pixel transfer.
pub open spec fn mode_interrupt(stat: u8, mode: u8) -> bool {
    match mode {
        0 => stat & 0x08 != 0,
        1 => stat & 0x10 != 0,
        2 => stat & 0x20 != 0,
        _ => false,
    }
}

impl Bus {
    /// The window covers the current scanline: it is enabled and starts at or
    /// above the line.
    pub open spec fn window_visible(self) -> bool {
        self.read(LCDC) & 0x20 != 0 && self.read(WY) <= self.read(LY)
    }

    /// The address of the tile map that the current scanline is drawn from.
    pub open spec fn tile_map(self) -> u16 {
        let select: u8 = if self.window_visible() { 0x40 } else { 0x08 };
        if self.read(LCDC) & select != 0 {
            0x9C00
        } else {
            0x9800
        }
    }

    /// The row of the tile map's picture that the current scanline shows.
    pub open spec fn line_y(self) -> u8 {
        if self.window_visible() {
            (self.read(LY) - self.read(WY)) as u8
        } else {
            self.read(LY).wrapping_add(self.read(SCY))
        }
    }

    /// The column of the tile map's picture that pixel `pixel` of the
    /// current scanline shows.
    pub open spec fn pixel_x(self, pixel: u8) -> u8 {
        if self.window_visible() && pixel >= self.read(WX) {
            (pixel - self.read(WX)) as u8
        } else {
            pixel.wrapping_add(self.read(SCX))
        }
    }

    /// The address of the sixteen bytes of tile `number`: counted up from
    /// 0x8000 where the control register selects unsigned numbers, else
    /// counted as a signed number from 0x9000.
    pub open spec fn tile_data(self, number: u8) -> u16 {
        if self.read(LCDC) & 0x10 != 0 {
            (0x8000 + number * 16) as u16
        } else if number < 128 {
            (0x9000 + number * 16) as u16
        } else {
            (0x8800 + (number - 128) * 16) as u16
        }
    }

    /// The shade of pixel `pixel` of the current scanline: the tile map gives
    /// the tile, the tile's row gives the colour index, the background
    /// palette gives the shade.
    pub open spec fn pixel_shade(self, pixel: u8) -> u8 {
        let y = self.line_y();
        let x = self.pixel_x(pixel);
        let number = self.read((self.tile_map() + (y / 8) * 32 + x / 8) as u16);
        let row = (self.tile_data(number) + (y % 8) * 2) as u16;
        palette_shade(
            color_index(self.read(row), self.read((row + 1) as u16), (7 - x % 8) as u8),
            self.read(BGP),
        )
    }
}

impl Machine {
    /// The machine after the current scanline was rendered into the frame
    /// buffer. Nothing is drawn while the background is switched off, nor for
    /// a line below the visible 144.
    pub open spec fn draw_scanline(self) -> Machine {
        let ly = self.read(LY);
        if self.read(LCDC) & 0x01 == 0 || ly >= VBLANK_SCANLINE {
            self
        } else {
            Machine {
                frame: Seq::new(
                    FRAME_SIZE as nat,
                    |i: int|
                        if ly * LINE_BYTES <= i < (ly + 1) * LINE_BYTES {
                            shade_channel(
                                self.bus.pixel_shade(((i - ly * LINE_BYTES) / 4) as u8),
                                (i - ly * LINE_BYTES) % 4,
                            )
                        } else {
                            self.frame[i]
                        },
                ),
                ..self
            }
        }
    }

    /// The mode that the display is in: vertical blank below the line at
    /// which it starts, else by the cycles left in the scanline.
    pub open spec fn lcd_mode(self) -> u8 {
        if self.read(LY) > VBLANK_SCANLINE {
            1
        } else if self.budget >= MODE2_START {
            2
        } else if self.budget > MODE3_START {
            3
        } else {
            0
        }
    }

    /// The machine after the mode bits of the display status register were
    /// brought up to date. Where the mode changes and the status register
    /// enables the interrupt of the new mode, the display status interrupt is
    /// requested.
    pub open spec fn enter_mode(self) -> Machine {
        let stat = self.read(STAT);
        let mode = self.lcd_mode();
        let raised = if stat & 0x3 != mode && mode_interrupt(stat, mode) {
            self.raise(1)
        } else {
            self
        };
        raised.write(STAT, (stat & 0xFC) | mode)
    }

    /// The machine after `cycles` clock cycles were taken from the scanline
    /// budget. Where the budget does not cover them, it is reset and the
    /// scanline counter moves on: to the first line of the vertical blank,
    /// whose interrupt is then requested; back to 0 behind the last line; or
    /// to the next line, after the line that ended was rendered.
    pub open spec fn advance_line(self, cycles: u32) -> Machine {
        if cycles > self.budget {
            let ly = self.read(LY);
            let reset = Machine { budget: GPU_CYCLES_PER_FRAME, ..self };
            if ly + 1 == VBLANK_SCANLINE {
                reset.raise(0).write(LY, VBLANK_SCANLINE)
            } else if ly + 1 > VBLANK_SCANLINE_MAX {
                reset.write(LY, 0)
            } else {
                reset.draw_scanline().write(LY, (ly + 1) as u8)
            }
        } else {
            Machine { budget: (self.budget - cycles) as u32, ..self }
        }
    }

    /// The machine after the coincidence bit of the display status register
    /// was brought up to date: set where the scanline counter equals the
    /// compare register, and then the display status interrupt is requested
    /// if the status register enables it; clear elsewhere.
    pub open spec fn compare_line(self) -> Machine {
        let stat = self.read(STAT);
        if self.read(LY) == self.read(LYC) {
            let raised = if stat & 0x40 != 0 {
                self.raise(1)
            } else {
                self
            };
            raised.write(STAT, stat | 0x04)
        } else {
            self.write(STAT, stat & 0xFB)
        }
    }

    /// The machine after the pixel pipeline advanced by `cycles` clock
    /// cycles. With the display off, the scanline counter is forced to 0, the
    /// status register to 1 and the budget to a full line. Else the mode is
    /// brought up to date, the cycles are taken from the budget, and the line
    /// is compared.
    pub open spec fn run_display(self, cycles: u32) -> Machine {
        if self.read(LCDC) & 0x80 == 0 {
            Machine { budget: GPU_CYCLES_PER_FRAME, ..self }.write(LY, 0).write(STAT, 0x1)
        } else {
            self.enter_mode().advance_line(cycles).compare_line()
        }
    }
}

impl GBEmulator {
    /// Maps a 2-bit colour index through a palette to the four channels of
    /// its shade.
    pub fn get_color_from_palette(&self, value: u8, palette: u8) -> (color: [u8; 4])
        requires
            value < 4,
        ensures
            forall|k: int|
                0 <= k < 4 ==> #[trigger] color@[k] == shade_channel(
                    palette_shade(value, palette),
                    k,
                ),
    {
        let shade = (palette >> (value * 2)) & 0x3;
        match shade {
            0 => [255, 255, 255, 255],
            1 => [192, 192, 192, 255],
            2 => [96, 96, 96, 255],
            _ => [0, 0, 0, 255],
        }
    }

    /// Renders the current scanline of the background or the window into the
    /// frame buffer.
    #[verifier::rlimit(40)]
    pub fn draw_scanline(&mut self)
        ensures
            final(self)@ == old(self)@.draw_scanline(),
            final(self)@.bus == old(self)@.bus,
    {
        let lcdc = self.mmu_read8(LCDC);
        let ly = self.mmu_read8(LY);
        if lcdc & 0x01 == 0 || ly >= VBLANK_SCANLINE {
            return;
        }
        let wy = self.mmu_read8(WY);
        let wx = self.mmu_read8(WX);
        let scy = self.mmu_read8(SCY);
        let scx = self.mmu_read8(SCX);
        let bgp = self.mmu_read8(BGP);
        let draw_window = lcdc & 0x20 != 0 && wy <= ly;
        let select: u8 = if draw_window { 0x40 } else { 0x08 };
        let bg_offset: u16 = if lcdc & select != 0 { 0x9C00 } else { 0x9800 };
        let ypos: u8 = if draw_window { ly - wy } else { ly.wrapping_add(scy) };
        let tile_row: u16 = (ypos as u16 / 8) * 32;
        let line: u16 = (ypos as u16 % 8) * 2;
        let start: usize = ly as usize * LINE_BYTES;
        let mut pixel: u8 = 0;
        while pixel < LINE_PIXELS
            invariant
                pixel <= LINE_PIXELS,
                ly < VBLANK_SCANLINE,
                start == ly * LINE_BYTES,
                lcdc == old(self)@.read(LCDC),
                ly == old(self)@.read(LY),
                wx == old(self)@.read(WX),
                scx == old(self)@.read(SCX),
                bgp == old(self)@.read(BGP),
                draw_window == old(self)@.bus.window_visible(),
                bg_offset == old(self)@.bus.tile_map(),
                ypos == old(self)@.bus.line_y(),
                tile_row == (ypos / 8) * 32,
                line == (ypos % 8) * 2,
                *self == (GBEmulator { framebuffer: self.framebuffer, ..*old(self) }),
                forall|i: int|
                    0 <= i < FRAME_SIZE ==> #[trigger] self.framebuffer@[i] == (if start <= i
                        < start + pixel * 4 {
                        shade_channel(
                            old(self)@.bus.pixel_shade(((i - start) / 4) as u8),
                            (i - start) % 4,
                        )
                    } else {
                        old(self).framebuffer@[i]
                    }),
            decreases LINE_PIXELS - pixel,
        {
            let xpos: u8 = if draw_window && pixel >= wx {
                pixel - wx
            } else {
                pixel.wrapping_add(scx)
            };
            let tile_addr: u16 = bg_offset + tile_row + xpos as u16 / 8;
            let tile_num = self.mmu_read8(tile_addr);
            let tile_location: u16 = if lcdc & 0x10 != 0 {
                0x8000 + tile_num as u16 * 16
            } else if tile_num < 128 {
                0x9000 + tile_num as u16 * 16
            } else {
                0x8800 + (tile_num as u16 - 128) * 16
            };
            let byte0 = self.mmu_read8(tile_location + line);
            let byte1 = self.mmu_read8(tile_location + line + 1);
            let bit: u8 = 7 - xpos % 8;
            let value: u8 = ((byte0 >> bit) & 1) | (((byte1 >> bit) & 1) << 1u8);
            assert(((byte0 >> bit) & 1) | (((byte1 >> bit) & 1) << 1u8) < 4) by (bit_vector);
            let pixel_color = self.get_color_from_palette(value, bgp);
            let pixel_offset: usize = start + pixel as usize * 4;
            self.framebuffer[pixel_offset] = pixel_color[0];
            self.framebuffer[pixel_offset + 1] = pixel_color[1];
            self.framebuffer[pixel_offset + 2] = pixel_color[2];
            self.framebuffer[pixel_offset + 3] = pixel_color[3];
            pixel += 1;
        }
        assert(self@.frame =~= old(self)@.draw_scanline().frame);
    }

    /// Brings the mode bits of the display status register up to date and
    /// requests the display status interrupt where a mode is entered whose
    /// interrupt the register enables.
    pub fn set_lcd_stat(&mut self)
        ensures
            final(self)@ == old(self)@.enter_mode(),
    {
        let lcd_status = self.mmu_read8(STAT);
        let ly = self.mmu_read8(LY);
        let mode: u8 = if ly > VBLANK_SCANLINE {
            1
        } else if self.gpu_frame_cycles >= MODE2_START {
            2
        } else if self.gpu_frame_cycles > MODE3_START {
            3
        } else {
            0
        };
        let enabled = match mode {
            0 => lcd_status & 0x08 != 0,
            1 => lcd_status & 0x10 != 0,
            2 => lcd_status & 0x20 != 0,
            _ => false,
        };
        if lcd_status & 0x3 != mode && enabled {
            self.raise_irq(1);
        }
        self.mmu_write8(STAT, (lcd_status & 0xFC) | mode);
    }

    /// Brings the coincidence bit of the display status register up to date
    /// and requests the display status interrupt on a match that the register
    /// enables.
    pub fn compare_line(&mut self)
        ensures
            final(self)@ == old(self)@.compare_line(),
    {
        let lcd_status = self.mmu_read8(STAT);
        if self.mmu_read8(LY) == self.mmu_read8(LYC) {
            if lcd_status & 0x40 != 0 {
                self.raise_irq(1);
            }
            self.mmu_write8(STAT, lcd_status | 0x04);
        } else {
            self.mmu_write8(STAT, lcd_status & 0xFB);
        }
    }

    /// Takes `cycles` clock cycles from the scanline budget and, where the
    /// budget does not cover them, moves to the next scanline.
    pub fn advance_line(&mut self, cycles: u32)
        ensures
            final(self)@ == old(self)@.advance_line(cycles),
    {
        if cycles > self.gpu_frame_cycles {
            let ly = self.mmu_read8(LY);
            self.gpu_frame_cycles = GPU_CYCLES_PER_FRAME;
            if ly == VBLANK_SCANLINE - 1 {
                self.raise_irq(0);
                self.mmu_write8(LY, VBLANK_SCANLINE);
            } else if ly >= VBLANK_SCANLINE_MAX {
                self.mmu_write8(LY, 0);
            } else {
                self.draw_scanline();
                self.mmu_write8(LY, ly + 1);
            }
        } else {
            self.gpu_frame_cycles = self.gpu_frame_cycles - cycles;
        }
    }

    /// Advances the pixel pipeline by the clock cycles that the last
    /// instruction took. While the control register switches the display off,
    /// every call forces the scanline counter to 0.
    pub fn gpu_run(&mut self, cycles: u32)
        ensures
            final(self)@ == old(self)@.run_display(cycles),
            old(self)@.read(LCDC) & 0x80 == 0 ==> final(self)@.read(LY) == 0 && final(self)@.read(
                STAT,
            ) == 1 && final(self)@.budget == GPU_CYCLES_PER_FRAME,
            final(self)@.regs == old(self)@.regs,
    {
        let lcdc = self.mmu_read8(LCDC);
        if lcdc & 0x80 == 0 {
            self.gpu_frame_cycles = GPU_CYCLES_PER_FRAME;
            self.mmu_write8(LY, 0x0);
            self.mmu_write8(STAT, 0x1);
            return;
        }
        self.set_lcd_stat();
        self.advance_line(cycles);
        self.compare_line();
    }
}

} // verus!
