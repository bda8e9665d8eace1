//! The 1.54" three-color panel (B): its geometry, the state of its driver,
//! and the requests that each of the driver's operations amounts to.
//!
//! The opcodes of the controller are data that the caller supplies in a
//! table; the payloads and the order of the requests are fixed here.
use vstd::prelude::*;
use crate::bits::{expand_bits, expanded};
use crate::color::Color;
use crate::wait::{busy, is_busy, BusyWait};
use crate::script::{
    cmd, cmd_data, commands_first, data, fill, payload1, payload2, payload3, payload4, wait,
    Asked, Request, Script,
};
use crate::window::{high_field, low_field};

verus! {

/// Width of epd1in54 in pixels
pub const WIDTH: u32 = 200;

/// Height of epd1in54 in pixels
pub const HEIGHT: u32 = 200;

/// Default Background Color (white)
pub const DEFAULT_BACKGROUND_COLOR: Color = Color::White;

/// The busy line of this panel is low while it works.
pub const IS_BUSY_LOW: bool = true;

/// The number of bytes in the chromatic plane, one bit per pixel.
pub const CHROMATIC_BYTES: u32 = 5000;

/// The number of bytes in the achromatic plane, two bits per pixel.
pub const ACHROMATIC_BYTES: u32 = 10000;

/// The opcodes of the panel's controller, as the caller's table gives
/// them.
#[derive(Clone, Copy, Debug)]
pub struct Commands {
    pub panel_setting: u8,
    pub power_setting: u8,
    pub power_off: u8,
    pub power_on: u8,
    pub booster_soft_start: u8,
    pub data_start_transmission1: u8,
    pub display_refresh: u8,
    pub data_start_transmission2: u8,
    pub lut_for_vcom: u8,
    pub lut_white_to_white: u8,
    pub lut_black_to_white: u8,
    pub lut_g0: u8,
    pub lut_g1: u8,
    pub lut_red_vcom: u8,
    pub lut_red0: u8,
    pub lut_red1: u8,
    pub pll_control: u8,
    pub vcom_and_data_interval_setting: u8,
    pub resolution_setting: u8,
    pub vcm_dc_setting: u8,
}

/// The waveform tables of the panel, as the caller gives them.
#[derive(Clone, Copy, Debug)]
pub struct Luts<'a> {
    pub vcom0: &'a [u8],
    pub white_to_white: &'a [u8],
    pub black_to_white: &'a [u8],
    pub g1: &'a [u8],
    pub g2: &'a [u8],
    pub red_vcom: &'a [u8],
    pub red0: &'a [u8],
    pub red1: &'a [u8],
}

/// Sending the resolution: the opcode, then three frames of one byte.
pub open spec fn resolution_script(c: Commands) -> Seq<Asked> {
    seq![cmd(c.resolution_setting), data(seq![200u8]), data(seq![0u8]), data(seq![200u8])]
}

/// Writing the eight waveform tables, each to its register.
pub open spec fn lut_script(c: Commands, luts: Luts) -> Seq<Asked> {
    seq![
        cmd_data(c.lut_for_vcom, luts.vcom0@),
        cmd_data(c.lut_white_to_white, luts.white_to_white@),
        cmd_data(c.lut_black_to_white, luts.black_to_white@),
        cmd_data(c.lut_g0, luts.g1@),
        cmd_data(c.lut_g1, luts.g2@),
        cmd_data(c.lut_red_vcom, luts.red_vcom@),
        cmd_data(c.lut_red0, luts.red0@),
        cmd_data(c.lut_red1, luts.red1@),
    ]
}

/// Bringing the panel up after power-on or sleep.
pub open spec fn init_script(c: Commands, luts: Luts) -> Seq<Asked> {
    (((seq![
        Asked::Reset { low_ms: 10, after_ms: 10 },
        cmd_data(c.power_setting, seq![0x07u8, 0x00u8, 0x08u8, 0x00u8]),
        cmd_data(c.booster_soft_start, seq![0x07u8, 0x07u8, 0x07u8]),
        cmd(c.power_on),
        Asked::Delay { ms: 5 },
        wait(IS_BUSY_LOW),
        cmd_data(c.panel_setting, seq![0xCFu8]),
        cmd_data(c.vcom_and_data_interval_setting, seq![0x37u8]),
        cmd_data(c.pll_control, seq![0x39u8]),
    ] + resolution_script(c)).push(cmd_data(c.vcm_dc_setting, seq![0x0Eu8]))) + lut_script(
        c,
        luts,
    )).push(wait(IS_BUSY_LOW))
}

/// The two bytes that a byte of eight pixels expands to, the high half
/// first.
pub open spec fn pair_of(bits: u8) -> Seq<u8> {
    seq![(expanded(bits) >> 8) as u8, (expanded(bits) & 0xFF) as u8]
}

/// A plane sent expanded: one payload of two bytes for each of its bytes,
/// in order.
pub open spec fn expanded_pairs(plane: Seq<u8>) -> Seq<Asked> {
    Seq::new(plane.len(), |k: int| data(pair_of(plane[k])))
}

/// Writing the black plane, two bits for each pixel.
pub open spec fn achromatic_script(c: Commands, black: Seq<u8>) -> Seq<Asked> {
    (seq![wait(IS_BUSY_LOW)] + resolution_script(c)).push(cmd(c.data_start_transmission1))
        + expanded_pairs(black)
}

/// Writing the chromatic plane.
pub open spec fn chromatic_script(c: Commands, chromatic: Seq<u8>) -> Seq<Asked> {
    seq![cmd(c.data_start_transmission2), data(chromatic)]
}

/// Powering down.
pub open spec fn sleep_script(c: Commands) -> Seq<Asked> {
    seq![
        wait(IS_BUSY_LOW),
        cmd_data(c.vcom_and_data_interval_setting, seq![0x17u8]),
        cmd_data(c.vcm_dc_setting, seq![0x00u8]),
        cmd_data(c.power_setting, seq![0x02u8, 0x00u8, 0x00u8, 0x00u8]),
        wait(IS_BUSY_LOW),
        cmd(c.power_off),
    ]
}

/// Writing a frame: the black plane from the buffer, the chromatic plane
/// filled with the background.
pub open spec fn update_script(c: Commands, color: Color, buffer: Seq<u8>) -> Seq<Asked> {
    achromatic_script(c, buffer).push(cmd(c.data_start_transmission2)).push(
        fill(color.byte_value(), CHROMATIC_BYTES),
    )
}

/// Refreshing the display from what was written.
pub open spec fn display_script(c: Commands) -> Seq<Asked> {
    seq![wait(IS_BUSY_LOW), cmd(c.display_refresh)]
}

/// Clearing both planes to the default background.
pub open spec fn clear_script(c: Commands) -> Seq<Asked> {
    (seq![wait(IS_BUSY_LOW)] + resolution_script(c)).push(cmd(c.data_start_transmission1)).push(
        fill(DEFAULT_BACKGROUND_COLOR.byte_value(), ACHROMATIC_BYTES),
    ).push(cmd(c.data_start_transmission2)).push(
        fill(DEFAULT_BACKGROUND_COLOR.byte_value(), CHROMATIC_BYTES),
    )
}

/// The state of a 1.54" (B) panel's driver.
#[derive(Clone, Copy, Debug)]
pub struct Epd1in54b {
    color: Color,
}

impl Epd1in54b {
    /// The background color.
    pub closed spec fn color(self) -> Color {
        self.color
    }

    /// A driver with the default background.
    pub fn new() -> (epd: Epd1in54b)
        ensures
            epd.color() == DEFAULT_BACKGROUND_COLOR,
    {
        Epd1in54b { color: DEFAULT_BACKGROUND_COLOR }
    }

    pub fn set_background_color(&mut self, color: Color)
        ensures
            final(self).color() == color,
    {
        self.color = color;
    }

    pub fn background_color(&self) -> (c: &Color)
        ensures
            *c == self.color(),
    {
        &self.color
    }

    /// Whether the panel is busy, from the level of its busy line.
    pub fn is_busy(&self, level_high: bool) -> (b: bool)
        ensures
            b == busy(IS_BUSY_LOW, level_high),
    {
        is_busy(IS_BUSY_LOW, level_high)
    }

    /// Starts a wait for this panel that takes at most `max_polls`
    /// samples of its busy line.
    pub fn wait_until_idle(&self, max_polls: u32) -> (w: BusyWait)
        ensures
            w == BusyWait::fresh(IS_BUSY_LOW, max_polls),
    {
        BusyWait::new(IS_BUSY_LOW, max_polls)
    }

    pub fn width(&self) -> (w: u32)
        ensures
            w == WIDTH,
    {
        WIDTH
    }

    pub fn height(&self) -> (h: u32)
        ensures
            h == HEIGHT,
    {
        HEIGHT
    }

    /// Brings the panel up.
    pub fn init(&self, c: &Commands, luts: &Luts) -> (s: Script)
        ensures
            s@ == init_script(*c, *luts),
    {
        let mut s = Script::new();
        s.reset(10, 10);
        s.cmd_with_bytes(c.power_setting, payload4(0x07, 0x00, 0x08, 0x00));
        s.cmd_with_bytes(c.booster_soft_start, payload3(0x07, 0x07, 0x07));
        s.command(c.power_on);
        s.delay(5);
        s.wait_until_idle(IS_BUSY_LOW);
        s.cmd_with_bytes(c.panel_setting, payload1(0xCF));
        s.cmd_with_bytes(c.vcom_and_data_interval_setting, payload1(0x37));
        s.cmd_with_bytes(c.pll_control, payload1(0x39));
        s.append(self.send_resolution(c));
        s.cmd_with_bytes(c.vcm_dc_setting, payload1(0x0E));
        s.append(self.set_lut(c, luts));
        s.wait_until_idle(IS_BUSY_LOW);
        s
    }

    /// Brings the panel back up after sleep.
    pub fn wake_up(&self, c: &Commands, luts: &Luts) -> (s: Script)
        ensures
            s@ == init_script(*c, *luts),
    {
        self.init(c, luts)
    }

    /// Sends the resolution.
    pub fn send_resolution(&self, c: &Commands) -> (s: Script)
        ensures
            s@ == resolution_script(*c),
    {
        let r = self.resolution();
        let mut s = Script::new();
        s.command(c.resolution_setting);
        s.send_byte(r[0]);
        s.send_byte(r[1]);
        s.send_byte(r[2]);
        s
    }

    /// Writes the waveform tables.
    pub fn set_lut(&self, c: &Commands, luts: &Luts) -> (s: Script)
        ensures
            s@ == lut_script(*c, *luts),
    {
        let mut s = Script::new();
        s.cmd_with_data(c.lut_for_vcom, luts.vcom0);
        s.cmd_with_data(c.lut_white_to_white, luts.white_to_white);
        s.cmd_with_data(c.lut_black_to_white, luts.black_to_white);
        s.cmd_with_data(c.lut_g0, luts.g1);
        s.cmd_with_data(c.lut_g1, luts.g2);
        s.cmd_with_data(c.lut_red_vcom, luts.red_vcom);
        s.cmd_with_data(c.lut_red0, luts.red0);
        s.cmd_with_data(c.lut_red1, luts.red1);
        s
    }

    /// Writes both planes.
    pub fn update_color_frame(&self, c: &Commands, black: &[u8], chromatic: &[u8]) -> (s: Script)
        ensures
            s@ == achromatic_script(*c, black@) + chromatic_script(*c, chromatic@),
    {
        let mut s = self.update_achromatic_frame(c, black);
        s.append(self.update_chromatic_frame(c, chromatic));
        s
    }

    /// Writes the black plane, each of its bytes expanded to two.
    pub fn update_achromatic_frame(&self, c: &Commands, black: &[u8]) -> (s: Script)
        ensures
            s@ == achromatic_script(*c, black@),
    {
        let mut s = Script::new();
        s.wait_until_idle(IS_BUSY_LOW);
        s.append(self.send_resolution(c));
        s.command(c.data_start_transmission1);
        let ghost head = s@;
        let mut k: usize = 0;
        while k < black.len()
            invariant
                k <= black@.len(),
                s@ == head + expanded_pairs(black@.take(k as int)),
            decreases black@.len() - k,
        {
            let pair = expand_bits(black[k]);
            s.push(Request::Data { bytes: payload2(pair[0], pair[1]) });
            assert(s@ =~= head + expanded_pairs(black@.take(k + 1)));
            k += 1;
        }
        assert(black@.take(k as int) =~= black@);
        s
    }

    /// Writes the chromatic plane.
    pub fn update_chromatic_frame(&self, c: &Commands, chromatic: &[u8]) -> (s: Script)
        ensures
            s@ == chromatic_script(*c, chromatic@),
    {
        let mut s = Script::new();
        s.command(c.data_start_transmission2);
        s.send_data(chromatic);
        s
    }

    /// Powers the panel down.
    pub fn sleep(&self, c: &Commands) -> (s: Script)
        ensures
            s@ == sleep_script(*c),
    {
        let mut s = Script::new();
        s.wait_until_idle(IS_BUSY_LOW);
        s.cmd_with_bytes(c.vcom_and_data_interval_setting, payload1(0x17));
        s.cmd_with_bytes(c.vcm_dc_setting, payload1(0x00));
        s.cmd_with_bytes(c.power_setting, payload4(0x02, 0x00, 0x00, 0x00));
        s.wait_until_idle(IS_BUSY_LOW);
        s.command(c.power_off);
        s
    }

    /// Writes a frame.
    pub fn update_frame(&self, c: &Commands, buffer: &[u8]) -> (s: Script)
        ensures
            s@ == update_script(*c, self.color(), buffer@),
    {
        let mut s = self.update_achromatic_frame(c, buffer);
        s.command(c.data_start_transmission2);
        s.repeat(self.color.get_byte_value(), CHROMATIC_BYTES);
        s
    }

    /// Refreshes the display.
    pub fn display_frame(&self, c: &Commands) -> (s: Script)
        ensures
            s@ == display_script(*c),
    {
        let mut s = Script::new();
        s.wait_until_idle(IS_BUSY_LOW);
        s.command(c.display_refresh);
        s
    }

    /// Writes a frame and refreshes the display.
    pub fn update_and_display_frame(&self, c: &Commands, buffer: &[u8]) -> (s: Script)
        ensures
            s@ == update_script(*c, self.color(), buffer@) + display_script(*c),
    {
        let mut s = self.update_frame(c, buffer);
        s.append(self.display_frame(c));
        s
    }

    /// Clears both planes.
    pub fn clear_frame(&self, c: &Commands) -> (s: Script)
        ensures
            s@ == clear_script(*c),
    {
        let color: u8 = DEFAULT_BACKGROUND_COLOR.get_byte_value();
        let mut s = Script::new();
        s.wait_until_idle(IS_BUSY_LOW);
        s.append(self.send_resolution(c));
        s.command(c.data_start_transmission1);
        s.repeat(color, ACHROMATIC_BYTES);
        s.command(c.data_start_transmission2);
        s.repeat(color, CHROMATIC_BYTES);
        s
    }

    /// The three data bytes of the resolution setting, each sent as a
    /// frame of its own: the width, then the height's high and low byte.
    pub fn resolution(&self) -> (r: [u8; 3])
        ensures
            r[0] == WIDTH % 256,
            r[1] == HEIGHT / 256,
            r[2] == HEIGHT % 256,
    {
        let w: u32 = self.width();
        let h: u32 = self.height();
        [low_field(w), high_field(h), low_field(h)]
    }
}

/// In every operation of this panel a payload follows its command at
/// once.
pub proof fn lemma_commands_come_first(
    c: Commands,
    luts: Luts,
    color: Color,
    buffer: Seq<u8>,
    chromatic: Seq<u8>,
)
    ensures
        commands_first(init_script(c, luts)),
        commands_first(resolution_script(c)),
        commands_first(lut_script(c, luts)),
        commands_first(achromatic_script(c, buffer)),
        commands_first(chromatic_script(c, chromatic)),
        commands_first(achromatic_script(c, buffer) + chromatic_script(c, chromatic)),
        commands_first(sleep_script(c)),
        commands_first(update_script(c, color, buffer)),
        commands_first(update_script(c, color, buffer) + display_script(c)),
        commands_first(display_script(c)),
        commands_first(clear_script(c)),
{
}

} // verus!
