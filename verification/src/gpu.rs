//! The video timing unit: a four-state machine driven purely by the
//! cumulative CPU cycle counter, which advances the scanline register,
//! decodes background tile rows, and tells the display sink when to draw.

use vstd::prelude::*;
use crate::cpu::add8;
use crate::display::Display;
use crate::mmu::{MemModel, Mmu, mem_read, mem_write};

verus! {

/// Cycles spent in the horizontal blank.
pub const HBLANK_TIME_IN_CYCLES: usize = 51;

/// Cycles spent scanning the object attribute memory.
pub const OAM_TIME_IN_CYCLES: usize = 20;

/// Cycles spent with both object attribute memory and display RAM busy.
pub const OAM_AND_DISPLAY_RAM_TIME_IN_CYCLES: usize = 43;

/// Cycles spent in the vertical blank.
pub const VBLANK_TIME_IN_CYCLES: usize = 1140;

/// The fixed interval between vertical blank entries.
pub const VBLANK_CYCLE_INTERVAL: usize = 17588 - 1140;

/// The scanline register.
pub const LY_REGISTER: u16 = 0xFF44;

/// The LCD control register.
pub const LCDC_REGISTER: u16 = 0xFF40;

/// The vertical scroll register.
pub const SCROLL_Y_REGISTER: u16 = 0xFF42;

/// The horizontal scroll register.
pub const SCROLL_X_REGISTER: u16 = 0xFF43;

/// The status register whose low two bits mirror the current mode.
pub const STAT_REGISTER: u16 = 0xFF41;

/// The four raster phases. They cycle: the horizontal blank leads to the
/// object scan (or, once per frame, the vertical blank), the object scan to
/// the busy-RAM phase, and that back to the horizontal blank.
#[derive(Clone, Copy, Debug, PartialEq, Eq, Structural)]
pub enum GpuState {
    HBlank,
    VBlank,
    OAM,
    OAMAndDisplayRam,
}

/// The two mode bits the status register reports for each phase.
pub open spec fn state_bits(s: GpuState) -> u8 {
    match s {
        GpuState::HBlank => 0,
        GpuState::VBlank => 1,
        GpuState::OAM => 2,
        GpuState::OAMAndDisplayRam => 3,
    }
}

/// The timing unit: the current phase and the cycle counts at which the
/// phase and the last frame began.
pub struct Gpu {
    pub mode_start_cycles: usize,
    pub vblank_start_cycles: usize,
    pub state: GpuState,
}

/// The colour of logical pixel `x` on scanline `ly`, decoded from the
/// background tile map and the 2-bit-per-pixel tile data that the LCD
/// control byte selects: most significant bit first, the first data byte
/// giving the high colour bit.
pub open spec fn scanline_pixel(m: MemModel, lcdc: u8, ly: u8, x: int) -> u8 {
    let tile_raw = mem_read(m, (0x9800 + (ly as int / 8) * 32 + x / 8) as u16);
    let tile = if lcdc & 0x10 == 0 {
        add8(tile_raw, 128)
    } else {
        tile_raw
    };
    let base: int = if lcdc & 0x10 == 0 {
        0x8800
    } else {
        0x8000
    };
    let start = base + tile as int * 16 + 2 * (ly as int % 8);
    let first = mem_read(m, start as u16);
    let second = mem_read(m, (start + 1) as u16);
    let p = (7 - (x % 8)) as u8;
    (((first >> p) & 1) * 2 + ((second >> p) & 1)) as u8
}

/// The machine after one timing step at cumulative cycle count `cycles`:
/// a phase whose fixed duration has elapsed is left, with its start marker
/// advanced by exactly that duration so phase is kept; leaving the
/// horizontal blank bumps the scanline register, wrapping 153 to 0, and
/// enters the vertical blank once per frame interval; the status register's
/// low two bits then mirror the resulting phase.
pub open spec fn sp_gpu_step(g: Gpu, m: MemModel, cycles: usize) -> (Gpu, MemModel) {
    let elapsed = cycles - g.mode_start_cycles;
    let since_vblank: int = if cycles > g.vblank_start_cycles {
        cycles - g.vblank_start_cycles
    } else {
        0
    };
    let stepped: (Gpu, MemModel) = match g.state {
        GpuState::HBlank => {
            if elapsed > 51 {
                let ms = g.mode_start_cycles + 51;
                let ly = mem_read(m, 0xFF44);
                let ly2: u8 = if ly >= 153 {
                    0
                } else {
                    add8(ly, 1)
                };
                let m_ly = mem_write(m, 0xFF44, ly2);
                if since_vblank > 16448 {
                    (
                        Gpu {
                            mode_start_cycles: ms as usize,
                            vblank_start_cycles: (g.vblank_start_cycles + 16448) as usize,
                            state: GpuState::VBlank,
                        },
                        m_ly,
                    )
                } else {
                    (Gpu { mode_start_cycles: ms as usize, state: GpuState::OAM, ..g }, m_ly)
                }
            } else {
                (g, m)
            }
        },
        GpuState::VBlank => {
            if elapsed > 1140 {
                (
                    Gpu {
                        mode_start_cycles: (g.mode_start_cycles + 1140) as usize,
                        state: GpuState::OAM,
                        ..g
                    },
                    m,
                )
            } else {
                (g, m)
            }
        },
        GpuState::OAM => {
            if elapsed > 20 {
                (
                    Gpu {
                        mode_start_cycles: (g.mode_start_cycles + 20) as usize,
                        state: GpuState::OAMAndDisplayRam,
                        ..g
                    },
                    m,
                )
            } else {
                (g, m)
            }
        },
        GpuState::OAMAndDisplayRam => {
            if elapsed > 43 {
                (
                    Gpu {
                        mode_start_cycles: (g.mode_start_cycles + 43) as usize,
                        state: GpuState::HBlank,
                        ..g
                    },
                    m,
                )
            } else {
                (g, m)
            }
        },
    };
    let stat = mem_read(stepped.1, 0xFF41);
    (stepped.0, mem_write(stepped.1, 0xFF41, (stat & 0xFC) | state_bits(stepped.0.state)))
}

/// Decode one logical 256-pixel scanline from the tile data the LCD control
/// byte selects. Windowing and the alternate background tile map are not
/// implemented, so their control bits must be clear.
pub fn decode_scanline(mmu: &Mmu, lcdc: u8, ly: u8) -> (row: Vec<u8>)
    requires
        lcdc & 0x08 == 0,
        lcdc & 0x20 == 0,
    ensures
        row@.len() == 256,
        forall|x: int| 0 <= x < 256 ==> row@[x] == scanline_pixel(mmu@, lcdc, ly, x),
{
    let mut row: Vec<u8> = Vec::new();
    let mut x: usize = 0;
    while x < 256
        invariant
            x <= 256,
            row@.len() == x,
            lcdc & 0x08 == 0,
            lcdc & 0x20 == 0,
            forall|i: int| 0 <= i < x ==> row@[i] == scanline_pixel(mmu@, lcdc, ly, i),
        decreases 256 - x,
    {
        let tile_raw = mmu.read_u8(0x9800 + (ly as u16 / 8) * 32 + (x as u16) / 8);
        let tile: u8 = if lcdc & 0x10 == 0 {
            tile_raw.wrapping_add(128)
        } else {
            tile_raw
        };
        let base: u16 = if lcdc & 0x10 == 0 {
            0x8800
        } else {
            0x8000
        };
        let start = base + (tile as u16) * 16 + 2 * (ly as u16 % 8);
        let first = mmu.read_u8(start);
        let second = mmu.read_u8(start + 1);
        let p = (7 - (x % 8)) as u8;
        proof {
            assert(((first >> p) & 1) <= 1 && ((second >> p) & 1) <= 1) by (bit_vector);
        }
        let pixel = ((first >> p) & 1) * 2 + ((second >> p) & 1);
        row.push(pixel);
        x = x + 1;
    }
    row
}

impl Gpu {
    /// A timing unit at power-on: in the horizontal blank, both markers at
    /// zero.
    pub fn new() -> (r: Gpu)
        ensures
            r == (Gpu { mode_start_cycles: 0, vblank_start_cycles: 0, state: GpuState::HBlank }),
    {
        Gpu { mode_start_cycles: 0, vblank_start_cycles: 0, state: GpuState::HBlank }
    }

    /// Advance the timing machine to cumulative cycle count `cycles`,
    /// telling the display about a finished scanline or frame. The cycle
    /// count must not run backwards past either saved marker, and the
    /// scanline decode only handles the primary background tile map with
    /// the window disabled.
    pub fn step<D: Display>(&mut self, display: &mut D, mmu: &mut Mmu, cycles: usize)
        requires
            old(self).mode_start_cycles <= cycles,
            ({
                let lcdc = mem_read(old(mmu)@, 0xFF40);
                old(self).state == GpuState::OAMAndDisplayRam && cycles - old(
                    self,
                ).mode_start_cycles > 43 ==> lcdc & 0x08 == 0 && lcdc & 0x20 == 0
            }),
        ensures
            *final(self) == sp_gpu_step(*old(self), old(mmu)@, cycles).0,
            final(mmu)@ == sp_gpu_step(*old(self), old(mmu)@, cycles).1,
    {
        let cycles_since_mode_start = cycles - self.mode_start_cycles;
        let cycles_since_last_vblank = if cycles > self.vblank_start_cycles {
            cycles - self.vblank_start_cycles
        } else {
            0
        };
        match self.state {
            GpuState::HBlank => {
                if cycles_since_mode_start > HBLANK_TIME_IN_CYCLES {
                    self.mode_start_cycles = self.mode_start_cycles + HBLANK_TIME_IN_CYCLES;
                    let ly = mmu.read_u8(LY_REGISTER);
                    let new_ly: u8 = if ly >= 153 {
                        0
                    } else {
                        ly + 1
                    };
                    mmu.write_u8(LY_REGISTER, new_ly);
                    if cycles_since_last_vblank > VBLANK_CYCLE_INTERVAL {
                        self.vblank_start_cycles = self.vblank_start_cycles
                            + VBLANK_CYCLE_INTERVAL;
                        self.state = GpuState::VBlank;
                        let scroll_x = mmu.read_u8(SCROLL_X_REGISTER);
                        let scroll_y = mmu.read_u8(SCROLL_Y_REGISTER);
                        display.render_framebuffer(scroll_x, scroll_y);
                    } else {
                        self.state = GpuState::OAM;
                    }
                }
            },
            GpuState::VBlank => {
                if cycles_since_mode_start > VBLANK_TIME_IN_CYCLES {
                    self.mode_start_cycles = self.mode_start_cycles + VBLANK_TIME_IN_CYCLES;
                    self.state = GpuState::OAM;
                }
            },
            GpuState::OAM => {
                if cycles_since_mode_start > OAM_TIME_IN_CYCLES {
                    self.mode_start_cycles = self.mode_start_cycles + OAM_TIME_IN_CYCLES;
                    self.state = GpuState::OAMAndDisplayRam;
                }
            },
            GpuState::OAMAndDisplayRam => {
                if cycles_since_mode_start > OAM_AND_DISPLAY_RAM_TIME_IN_CYCLES {
                    self.mode_start_cycles = self.mode_start_cycles
                        + OAM_AND_DISPLAY_RAM_TIME_IN_CYCLES;
                    self.state = GpuState::HBlank;
                    let lcdc = mmu.read_u8(LCDC_REGISTER);
                    let ly = mmu.read_u8(LY_REGISTER);
                    let row = decode_scanline(mmu, lcdc, ly);
                    display.write_scanline(ly, row.as_slice());
                }
            },
        }
        let stat = mmu.read_u8(STAT_REGISTER);
        let bits: u8 = match self.state {
            GpuState::HBlank => 0,
            GpuState::VBlank => 1,
            GpuState::OAM => 2,
            GpuState::OAMAndDisplayRam => 3,
        };
        mmu.write_u8(STAT_REGISTER, (stat & 0xFC) | bits);
    }
}

/// The LCD control byte, read field by field.
pub struct LCDC(pub u8);

/// The meanings of the LCD control fields: whether the controller operates,
/// which address ranges hold tile data and tile maps, and the sprite shape.
pub enum LCDCField {
    Operation,
    StopCompletely,
    _8000_8FFF,
    _8800_97FF,
    _8x16,
    _8x8,
    _9800_9BFF,
    _9C00_9FFF,
}

impl LCDC {
    /// Bit 7: whether the LCD operates at all.
    pub fn lcd_control_operation(&self) -> (r: LCDCField)
        ensures
            r is Operation <==> self.0 & 0x80 != 0,
    {
        if self.0 & 0x80 == 0 {
            LCDCField::StopCompletely
        } else {
            LCDCField::Operation
        }
    }

    /// Bit 6: which tile map the window uses.
    pub fn window_tilemap_display(&self) -> (r: LCDCField)
        ensures
            r is _9C00_9FFF <==> self.0 & 0x40 != 0,
    {
        if self.0 & 0x40 == 0 {
            LCDCField::_9800_9BFF
        } else {
            LCDCField::_9C00_9FFF
        }
    }

    /// Bit 5: whether the window is shown.
    pub fn window_display(&self) -> (r: bool)
        ensures
            r == (self.0 & 0x20 != 0),
    {
        self.0 & 0x20 != 0
    }

    /// Bit 4: where the background and window tile data live.
    pub fn bg_and_window_tile_data_select(&self) -> (r: LCDCField)
        ensures
            r is _8000_8FFF <==> self.0 & 0x10 != 0,
    {
        if self.0 & 0x10 == 0 {
            LCDCField::_8800_97FF
        } else {
            LCDCField::_8000_8FFF
        }
    }

    /// Bit 3: which tile map the background uses.
    pub fn bg_tile_map_display_select(&self) -> (r: LCDCField)
        ensures
            r is _9C00_9FFF <==> self.0 & 0x08 != 0,
    {
        if self.0 & 0x08 == 0 {
            LCDCField::_9800_9BFF
        } else {
            LCDCField::_9C00_9FFF
        }
    }

    /// Bit 2: the sprite shape.
    pub fn sprite_size(&self) -> (r: LCDCField)
        ensures
            r is _8x16 <==> self.0 & 0x04 != 0,
    {
        if self.0 & 0x04 == 0 {
            LCDCField::_8x8
        } else {
            LCDCField::_8x16
        }
    }

    /// Bit 1: whether sprites are shown.
    pub fn sprite_display(&self) -> (r: bool)
        ensures
            r == (self.0 & 0x02 != 0),
    {
        self.0 & 0x02 != 0
    }

    /// Bit 0: whether the background and window are shown.
    pub fn bg_and_window_display(&self) -> (r: bool)
        ensures
            r == (self.0 & 0x01 != 0),
    {
        self.0 & 0x01 != 0
    }
}


/// The scanline register moves exactly when the horizontal blank is left:
/// it then counts up by one, wrapping from 153 back to 0, and no other
/// phase transition touches it.
pub proof fn lemma_scanline_increment(g: Gpu, m: MemModel, cycles: usize)
    requires
        g.mode_start_cycles <= cycles,
        m.bytes.len() == 0x10000,
    ensures
        ({
            let ly = mem_read(m, 0xFF44);
            let r = sp_gpu_step(g, m, cycles);
            if g.state == GpuState::HBlank && cycles - g.mode_start_cycles > 51 {
                mem_read(r.1, 0xFF44) == (if ly >= 153 {
                    0
                } else {
                    add8(ly, 1)
                })
            } else {
                mem_read(r.1, 0xFF44) == ly
            }
        }),
{
    let r = sp_gpu_step(g, m, cycles);
    match g.state {
        GpuState::HBlank => {
            if cycles - g.mode_start_cycles > 51 {
                let ly = mem_read(m, 0xFF44);
                let ly2: u8 = if ly >= 153 {
                    0
                } else {
                    add8(ly, 1)
                };
                let m_ly = mem_write(m, 0xFF44, ly2);
                assert(mem_read(m_ly, 0xFF44) == ly2);
                assert(mem_read(r.1, 0xFF44) == mem_read(m_ly, 0xFF44));
            } else {
                assert(mem_read(r.1, 0xFF44) == mem_read(m, 0xFF44));
            }
        },
        _ => {
            assert(mem_read(r.1, 0xFF44) == mem_read(m, 0xFF44));
        },
    }
}

} // verus!
