//! The 5.83" three-color panel (B, V2): its geometry, the state of its driver,
//! and the requests that each of the driver's operations amounts to.
//!
//! The opcodes of the controller are data that the caller supplies in a
//! table; the payloads and the order of the requests are fixed here.
use vstd::prelude::*;
use crate::color::Color;
use crate::wait::{busy, is_busy, BusyWait};
use crate::script::{
    cmd, cmd_data, commands_first, data, fill, payload1, payload2, payload4, wait, Asked, Script,
};
use crate::window::{high_field, low_field, Rectangle};

verus! {

/// Width of the display
pub const WIDTH: u32 = 648;

/// Height of the display
pub const HEIGHT: u32 = 480;

/// Default Background Color
pub const DEFAULT_BACKGROUND_COLOR: Color = Color::White;

/// The busy line of this panel is low while it works.
pub const IS_BUSY_LOW: bool = true;

/// The number of bytes in one plane of the full frame.
pub const NUM_DISPLAY_BITS: u32 = 38880;

/// The opcodes of the panel's controller, as the caller's table gives
/// them.
#[derive(Clone, Copy, Debug)]
pub struct Commands {
    pub panel_setting: u8,
    pub power_setting: u8,
    pub power_off: u8,
    pub power_on: u8,
    pub booster_soft_start: u8,
    pub deep_sleep: u8,
    pub data_start_transmission1: u8,
    pub display_refresh: u8,
    pub data_start_transmission2: u8,
    pub dual_spi: u8,
    pub vcom_and_data_interval_setting: u8,
    pub tcon_setting: u8,
    pub tcon_resolution: u8,
    pub partial_window: u8,
    pub partial_in: u8,
    pub partial_out: u8,
}

/// The state of a 5.83" (B, V2) panel's driver.
#[derive(Clone, Copy, Debug)]
pub struct Epd5in83 {
    color: Color,
}

/// The first horizontal field of the partial window: the top bits of the
/// byte column.
pub open spec fn column_upper(x: int) -> int {
    ((x / 8) % 256) / 64
}

/// The second horizontal field of the start of the partial window: the
/// byte column, moved up by three bits.
pub open spec fn column_lower(x: int) -> int {
    ((x / 8) * 8) % 256
}

/// The nine data bytes of the partial window for a rectangle on the
/// panel: horizontal start and end, vertical start and end, each in two
/// bytes, and the scan mode. The second byte of the horizontal end is
/// always zero.
pub open spec fn partial_window_of(rect: Rectangle) -> Seq<u8> {
    seq![
        column_upper(rect.x as int) as u8,
        column_lower(rect.x as int) as u8,
        column_upper(rect.x + rect.width) as u8,
        0u8,
        (rect.y / 256) as u8,
        (rect.y % 256) as u8,
        ((rect.y + rect.height) / 256) as u8,
        ((rect.y + rect.height) % 256) as u8,
        1u8,
    ]
}

/// Sending the resolution: the opcode, then four frames of one byte.
pub open spec fn resolution_script(c: Commands) -> Seq<Asked> {
    seq![
        cmd(c.tcon_resolution),
        data(seq![0x02u8]),
        data(seq![0x88u8]),
        data(seq![0x01u8]),
        data(seq![0xE0u8]),
    ]
}

/// Bringing the panel up after power-on or sleep.
pub open spec fn init_script(c: Commands) -> Seq<Asked> {
    (seq![
        Asked::Reset { low_ms: 10, after_ms: 10 },
        cmd_data(c.booster_soft_start, seq![0x17u8, 0x17u8, 0x1eu8, 0x17u8]),
        cmd_data(c.power_setting, seq![0x07u8, 0x07u8, 0x3Fu8, 0x3Fu8]),
        cmd(c.power_on),
        Asked::Delay { ms: 5 },
        wait(IS_BUSY_LOW),
        cmd_data(c.panel_setting, seq![0x0Fu8]),
    ] + resolution_script(c)).push(cmd_data(c.dual_spi, seq![0x00u8])).push(
        cmd_data(c.vcom_and_data_interval_setting, seq![0x11u8, 0x07u8]),
    ).push(cmd_data(c.tcon_setting, seq![0x22u8])).push(wait(IS_BUSY_LOW))
}

/// Writing the black plane.
pub open spec fn achromatic_script(c: Commands, black: Seq<u8>) -> Seq<Asked> {
    seq![wait(IS_BUSY_LOW), cmd_data(c.data_start_transmission1, black)]
}

/// Writing the chromatic plane.
pub open spec fn chromatic_script(c: Commands, chromatic: Seq<u8>) -> Seq<Asked> {
    seq![wait(IS_BUSY_LOW), cmd_data(c.data_start_transmission2, chromatic)]
}

/// Powering down and entering deep sleep.
pub open spec fn sleep_script(c: Commands) -> Seq<Asked> {
    seq![
        wait(IS_BUSY_LOW),
        cmd(c.power_off),
        wait(IS_BUSY_LOW),
        cmd_data(c.deep_sleep, seq![0xA5u8]),
    ]
}

/// Writing a frame: the black plane from the buffer, the chromatic plane
/// filled with the background.
pub open spec fn update_script(c: Commands, color: Color, buffer: Seq<u8>) -> Seq<Asked> {
    (seq![wait(IS_BUSY_LOW)] + achromatic_script(c, buffer)).push(
        cmd(c.data_start_transmission2),
    ).push(fill(color.byte_value(), NUM_DISPLAY_BITS))
}

/// Refreshing the display from what was written.
pub open spec fn display_script(c: Commands) -> Seq<Asked> {
    seq![cmd(c.display_refresh), wait(IS_BUSY_LOW)]
}

/// Clearing both planes.
pub open spec fn clear_script(c: Commands) -> Seq<Asked> {
    seq![
        wait(IS_BUSY_LOW),
        cmd(c.data_start_transmission1),
        fill(0xFF, NUM_DISPLAY_BITS),
        cmd(c.data_start_transmission2),
        fill(0x00, NUM_DISPLAY_BITS),
    ]
}

/// Writing and refreshing a part of the display: the window, the black
/// plane under it from the buffer, the chromatic plane under it cleared,
/// the refresh, and the way out of partial mode.
pub open spec fn partial_script(c: Commands, buffer: Seq<u8>, rect: Rectangle) -> Seq<Asked> {
    seq![
        wait(IS_BUSY_LOW),
        cmd(c.partial_in),
        cmd(c.partial_window),
        data(partial_window_of(rect)),
        cmd(c.data_start_transmission1),
        data(buffer),
        cmd(c.data_start_transmission2),
        fill(Color::Black.byte_value(), ((rect.width * rect.height) / 8) as u32),
        cmd(c.display_refresh),
        wait(IS_BUSY_LOW),
        cmd(c.partial_out),
    ]
}

impl Epd5in83 {
    /// The background color.
    pub closed spec fn color(self) -> Color {
        self.color
    }

    /// A driver with the default background.
    pub fn new() -> (epd: Epd5in83)
        ensures
            epd.color() == DEFAULT_BACKGROUND_COLOR,
    {
        Epd5in83 { color: DEFAULT_BACKGROUND_COLOR }
    }

    pub fn set_background_color(&mut self, color: Color)
        ensures
            final(self).color() == color,
    {
        self.color = color;
    }

    pub fn background_color(&self) -> (c: &Color)
        ensures
            *c == self.color(),
    {
        &self.color
    }

    /// Whether the panel is busy, from the level of its busy line.
    pub fn is_busy(&self, level_high: bool) -> (b: bool)
        ensures
            b == busy(IS_BUSY_LOW, level_high),
    {
        is_busy(IS_BUSY_LOW, level_high)
    }

    /// Starts a wait for this panel that takes at most `max_polls`
    /// samples of its busy line.
    pub fn wait_until_idle(&self, max_polls: u32) -> (w: BusyWait)
        ensures
            w == BusyWait::fresh(IS_BUSY_LOW, max_polls),
    {
        BusyWait::new(IS_BUSY_LOW, max_polls)
    }

    pub fn width(&self) -> (w: u32)
        ensures
            w == WIDTH,
    {
        WIDTH
    }

    pub fn height(&self) -> (h: u32)
        ensures
            h == HEIGHT,
    {
        HEIGHT
    }

    /// Brings the panel up.
    pub fn init(&self, c: &Commands) -> (s: Script)
        ensures
            s@ == init_script(*c),
    {
        let mut s = Script::new();
        s.reset(10, 10);
        s.cmd_with_bytes(c.booster_soft_start, payload4(0x17, 0x17, 0x1e, 0x17));
        s.cmd_with_bytes(c.power_setting, payload4(0x07, 0x07, 0x3F, 0x3F));
        s.command(c.power_on);
        s.delay(5);
        s.wait_until_idle(IS_BUSY_LOW);
        s.cmd_with_bytes(c.panel_setting, payload1(0x0F));
        s.append(self.send_resolution(c));
        s.cmd_with_bytes(c.dual_spi, payload1(0x00));
        s.cmd_with_bytes(c.vcom_and_data_interval_setting, payload2(0x11, 0x07));
        s.cmd_with_bytes(c.tcon_setting, payload1(0x22));
        s.wait_until_idle(IS_BUSY_LOW);
        s
    }

    /// Brings the panel back up after sleep.
    pub fn wake_up(&self, c: &Commands) -> (s: Script)
        ensures
            s@ == init_script(*c),
    {
        self.init(c)
    }

    /// Sends the resolution.
    pub fn send_resolution(&self, c: &Commands) -> (s: Script)
        ensures
            s@ == resolution_script(*c),
    {
        let r = self.resolution();
        let mut s = Script::new();
        s.command(c.tcon_resolution);
        s.send_byte(r[0]);
        s.send_byte(r[1]);
        s.send_byte(r[2]);
        s.send_byte(r[3]);
        s
    }

    /// Writes both planes.
    pub fn update_color_frame(&self, c: &Commands, black: &[u8], chromatic: &[u8]) -> (s: Script)
        ensures
            s@ == achromatic_script(*c, black@) + chromatic_script(*c, chromatic@),
    {
        let mut s = self.update_achromatic_frame(c, black);
        s.append(self.update_chromatic_frame(c, chromatic));
        s
    }

    /// Writes the black plane.
    pub fn update_achromatic_frame(&self, c: &Commands, black: &[u8]) -> (s: Script)
        ensures
            s@ == achromatic_script(*c, black@),
    {
        let mut s = Script::new();
        s.wait_until_idle(IS_BUSY_LOW);
        s.cmd_with_data(c.data_start_transmission1, black);
        s
    }

    /// Writes the chromatic plane.
    pub fn update_chromatic_frame(&self, c: &Commands, chromatic: &[u8]) -> (s: Script)
        ensures
            s@ == chromatic_script(*c, chromatic@),
    {
        let mut s = Script::new();
        s.wait_until_idle(IS_BUSY_LOW);
        s.cmd_with_data(c.data_start_transmission2, chromatic);
        s
    }

    /// Powers the panel down.
    pub fn sleep(&self, c: &Commands) -> (s: Script)
        ensures
            s@ == sleep_script(*c),
    {
        let mut s = Script::new();
        s.wait_until_idle(IS_BUSY_LOW);
        s.command(c.power_off);
        s.wait_until_idle(IS_BUSY_LOW);
        s.cmd_with_bytes(c.deep_sleep, payload1(0xA5));
        s
    }

    /// Writes a frame.
    pub fn update_frame(&self, c: &Commands, buffer: &[u8]) -> (s: Script)
        ensures
            s@ == update_script(*c, self.color(), buffer@),
    {
        let mut s = Script::new();
        s.wait_until_idle(IS_BUSY_LOW);
        s.append(self.update_achromatic_frame(c, buffer));
        s.command(c.data_start_transmission2);
        s.repeat(self.color.get_byte_value(), NUM_DISPLAY_BITS);
        s
    }

    /// Writes and refreshes the part of the display under `rect`.
    pub fn update_partial_frame(&self, c: &Commands, buffer: &[u8], rect: Rectangle) -> (s: Script)
        requires
            rect.within(WIDTH, HEIGHT),
        ensures
            s@ == partial_script(*c, buffer@, rect),
    {
        let window = self.partial_window(rect);
        let mut s = Script::new();
        s.wait_until_idle(IS_BUSY_LOW);
        s.command(c.partial_in);
        s.command(c.partial_window);
        s.send_data(window.as_slice());
        s.command(c.data_start_transmission1);
        s.send_data(buffer);
        s.command(c.data_start_transmission2);
        s.repeat(Color::Black.get_byte_value(), self.partial_fill(rect));
        s.command(c.display_refresh);
        s.wait_until_idle(IS_BUSY_LOW);
        s.command(c.partial_out);
        s
    }

    /// Refreshes the display.
    pub fn display_frame(&self, c: &Commands) -> (s: Script)
        ensures
            s@ == display_script(*c),
    {
        let mut s = Script::new();
        s.command(c.display_refresh);
        s.wait_until_idle(IS_BUSY_LOW);
        s
    }

    /// Writes a frame and refreshes the display.
    pub fn update_and_display_frame(&self, c: &Commands, buffer: &[u8]) -> (s: Script)
        ensures
            s@ == update_script(*c, self.color(), buffer@) + display_script(*c),
    {
        let mut s = self.update_frame(c, buffer);
        s.append(self.display_frame(c));
        s
    }

    /// Clears both planes.
    pub fn clear_frame(&self, c: &Commands) -> (s: Script)
        ensures
            s@ == clear_script(*c),
    {
        let mut s = Script::new();
        s.wait_until_idle(IS_BUSY_LOW);
        s.command(c.data_start_transmission1);
        s.repeat(0xFF, NUM_DISPLAY_BITS);
        s.command(c.data_start_transmission2);
        s.repeat(0x00, NUM_DISPLAY_BITS);
        s
    }

    /// The four data bytes of the resolution, each sent as a frame of its
    /// own: the width's high and low byte, then the height's.
    pub fn resolution(&self) -> (r: [u8; 4])
        ensures
            r[0] == WIDTH / 256,
            r[1] == WIDTH % 256,
            r[2] == HEIGHT / 256,
            r[3] == HEIGHT % 256,
    {
        let w: u32 = self.width();
        let h: u32 = self.height();
        [high_field(w), low_field(w), high_field(h), low_field(h)]
    }

    /// The data bytes of the partial window for `rect`.
    pub fn partial_window(&self, rect: Rectangle) -> (r: [u8; 9])
        requires
            rect.within(WIDTH, HEIGHT),
        ensures
            r@ == partial_window_of(rect),
    {
        let x: u32 = rect.x;
        let y: u32 = rect.y;
        let x_end: u32 = rect.x + rect.width;
        let y_end: u32 = rect.y + rect.height;
        let hrst_upper: u8 = (((x / 8) & 0xFF) as u8) >> 6;
        let hrst_lower: u8 = (((x / 8) << 3) & 0xFF) as u8;
        let hred_upper: u8 = (((x_end / 8) & 0xFF) as u8) >> 6;
        let hred_lower: u8 = ((((x_end / 8) << 3) & 0xFF) as u8) & 0b111;
        let vrst_upper: u8 = ((y >> 8) & 0xFF) as u8;
        let vrst_lower: u8 = (y & 0xFF) as u8;
        let vred_upper: u8 = ((y_end >> 8) & 0xFF) as u8;
        let vred_lower: u8 = (y_end & 0xFF) as u8;
        let pt_scan: u8 = 0x01;
        proof {
            assert(hrst_upper == ((x / 8) % 256) / 64 && hrst_lower == ((x / 8) * 8) % 256)
                by (bit_vector)
                requires
                    x <= 648,
                    hrst_upper == (((x / 8) & 0xFF) as u8) >> 6,
                    hrst_lower == (((x / 8) << 3) & 0xFF) as u8,
            ;
            assert(hred_upper == ((x_end / 8) % 256) / 64 && hred_lower == 0) by (bit_vector)
                requires
                    x_end <= 648,
                    hred_upper == (((x_end / 8) & 0xFF) as u8) >> 6,
                    hred_lower == ((((x_end / 8) << 3) & 0xFF) as u8) & 0b111,
            ;
            assert(vrst_upper == y / 256 && vrst_lower == y % 256) by (bit_vector)
                requires
                    y <= 480,
                    vrst_upper == ((y >> 8) & 0xFF) as u8,
                    vrst_lower == (y & 0xFF) as u8,
            ;
            assert(vred_upper == y_end / 256 && vred_lower == y_end % 256) by (bit_vector)
                requires
                    y_end <= 480,
                    vred_upper == ((y_end >> 8) & 0xFF) as u8,
                    vred_lower == (y_end & 0xFF) as u8,
            ;
        }
        let r: [u8; 9] = [
            hrst_upper,
            hrst_lower,
            hred_upper,
            hred_lower,
            vrst_upper,
            vrst_lower,
            vred_upper,
            vred_lower,
            pt_scan,
        ];
        assert(r@ =~= partial_window_of(rect));
        r
    }

    /// The number of bytes that fill the chromatic plane under a partial
    /// window of the given size.
    pub fn partial_fill(&self, rect: Rectangle) -> (n: u32)
        requires
            rect.within(WIDTH, HEIGHT),
        ensures
            n == (rect.width * rect.height) / 8,
    {
        assert(rect.width * rect.height <= 648 * 480) by (nonlinear_arith)
            requires
                rect.width <= 648,
                rect.height <= 480,
        ;
        rect.width * rect.height / 8
    }
}

/// In every operation of this panel a payload follows its command at
/// once.
pub proof fn lemma_commands_come_first(
    c: Commands,
    color: Color,
    buffer: Seq<u8>,
    chromatic: Seq<u8>,
    rect: Rectangle,
)
    ensures
        commands_first(init_script(c)),
        commands_first(resolution_script(c)),
        commands_first(achromatic_script(c, buffer) + chromatic_script(c, chromatic)),
        commands_first(sleep_script(c)),
        commands_first(update_script(c, color, buffer)),
        commands_first(update_script(c, color, buffer) + display_script(c)),
        commands_first(display_script(c)),
        commands_first(clear_script(c)),
        commands_first(partial_script(c, buffer, rect)),
{
}

} // verus!
