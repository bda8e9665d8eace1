//! The 1.54" monochrome panel (V2): its geometry, the state of its driver,
//! and the requests that each of the driver's operations amounts to.
//!
//! The opcodes of the controller are data that the caller supplies in a
//! table; the payloads and the order of the requests are fixed here.
use vstd::prelude::*;
use vstd::slice::slice_subrange;
use crate::color::Color;
use crate::wait::{busy, is_busy, BusyWait};
use crate::error::Error;
use crate::script::{
    cmd, cmd_data, commands_first, fill, payload1, payload2, payload3, payload4, wait, Asked,
    Script,
};
use crate::traits::RefreshLut;
use crate::window::{
    compute_counter, compute_edge_window, compute_window, counter_of, edge_window,
    edges_ordered, window_fields, window_of, Rectangle, Window,
};

verus! {

/// Width of the display
pub const WIDTH: u32 = 200;

/// Height of the display
pub const HEIGHT: u32 = 200;

/// Default Background Color
pub const DEFAULT_BACKGROUND_COLOR: Color = Color::White;

/// The busy line of this panel is high while it works.
pub const IS_BUSY_LOW: bool = false;

/// The length of a waveform table of this panel.
pub const LUT_LEN: usize = 159;

/// The number of bytes in one plane of the full frame.
pub const FRAME_BYTES: u32 = 5000;

/// The opcodes of the panel's controller, as the caller's table gives
/// them.
#[derive(Clone, Copy, Debug)]
pub struct Commands {
    pub driver_output_control: u8,
    pub gate_driving_voltage: u8,
    pub source_driving_voltage: u8,
    pub deep_sleep_mode: u8,
    pub data_entry_mode_setting: u8,
    pub sw_reset: u8,
    pub temperature_sensor_selection: u8,
    pub temperature_sensor_control: u8,
    pub master_activation: u8,
    pub display_update_control2: u8,
    pub write_ram: u8,
    pub write_ram2: u8,
    pub write_vcom_register: u8,
    pub write_lut_register: u8,
    pub write_otp_selection: u8,
    pub border_waveform_control: u8,
    pub write_lut_register_end: u8,
    pub set_ram_x_address_start_end_position: u8,
    pub set_ram_y_address_start_end_position: u8,
    pub set_ram_x_address_counter: u8,
    pub set_ram_y_address_counter: u8,
    pub nop: u8,
}

/// The last column of the panel.
pub const LAST_COLUMN: u32 = 199;

/// The last row of the panel.
pub const LAST_ROW: u32 = 199;

/// The payload of the display update control for a waveform table.
pub open spec fn update_control(refresh: RefreshLut) -> u8 {
    match refresh {
        RefreshLut::Full => 0xC7,
        RefreshLut::Quick => 0xCF,
    }
}

/// Writing the window registers.
pub open spec fn window_script(c: Commands, w: Window) -> Seq<Asked> {
    seq![
        wait(IS_BUSY_LOW),
        cmd_data(c.set_ram_x_address_start_end_position, seq![w.x_start_byte, w.x_end_byte]),
        cmd_data(
            c.set_ram_y_address_start_end_position,
            seq![w.y_start_low, w.y_start_high, w.y_end_low, w.y_end_high],
        ),
    ]
}

/// Setting the RAM window between a near corner and a far corner given
/// as the last column and the end row.
pub open spec fn ram_area_script(
    c: Commands,
    start_x: u32,
    start_y: u32,
    end_x: u32,
    end_y: u32,
) -> Seq<Asked> {
    window_script(c, edge_window(start_x, start_y, end_x, end_y))
}

/// Setting the RAM cursor to a pixel.
pub open spec fn ram_counter_script(c: Commands, x: u32, y: u32) -> Seq<Asked> {
    let at = counter_of(x, y);
    seq![
        wait(IS_BUSY_LOW),
        cmd_data(c.set_ram_x_address_counter, seq![at.x_byte]),
        cmd_data(c.set_ram_y_address_counter, seq![at.y_low, at.y_high]),
    ]
}

/// Choosing the whole RAM and starting at its beginning.
pub open spec fn full_frame_script(c: Commands) -> Seq<Asked> {
    ram_area_script(c, 0, 0, LAST_COLUMN, LAST_ROW) + ram_counter_script(c, 0, 0)
}

/// Bringing the panel up after power-on or sleep.
pub open spec fn init_script(c: Commands) -> Seq<Asked> {
    (((seq![
        Asked::Reset { low_ms: 10, after_ms: 10 },
        wait(IS_BUSY_LOW),
        cmd(c.sw_reset),
        wait(IS_BUSY_LOW),
        cmd_data(c.driver_output_control, seq![199u8, 0x0u8, 0x00u8]),
        cmd_data(c.data_entry_mode_setting, seq![0x3u8]),
    ] + ram_area_script(c, 0, 0, LAST_COLUMN, LAST_ROW)).push(cmd_data(c.border_waveform_control, seq![0x1u8])).push(
        cmd_data(c.temperature_sensor_selection, seq![0x80u8]),
    ).push(cmd_data(c.temperature_sensor_control, seq![0xB1u8, 0x20u8]))) + ram_counter_script(
        c,
        0,
        0,
    )).push(wait(IS_BUSY_LOW))
}

/// Entering deep sleep.
pub open spec fn sleep_script(c: Commands) -> Seq<Asked> {
    seq![wait(IS_BUSY_LOW), cmd_data(c.deep_sleep_mode, seq![0x00u8])]
}

/// Writing a full frame.
pub open spec fn update_script(c: Commands, buffer: Seq<u8>) -> Seq<Asked> {
    (seq![wait(IS_BUSY_LOW)] + full_frame_script(c)).push(cmd_data(c.write_ram, buffer))
}

/// Writing the part of the frame under a rectangle.
pub open spec fn partial_script(c: Commands, buffer: Seq<u8>, rect: Rectangle) -> Seq<Asked> {
    ((seq![wait(IS_BUSY_LOW)] + window_script(c, window_of(rect))) + ram_counter_script(
        c,
        rect.x,
        rect.y,
    )).push(cmd_data(c.write_ram, buffer))
}

/// Refreshing the display with a waveform table. The activation is
/// followed by a no-op, so that nothing interrupts it.
pub open spec fn display_script(c: Commands, refresh: RefreshLut) -> Seq<Asked> {
    seq![
        wait(IS_BUSY_LOW),
        cmd_data(c.display_update_control2, seq![update_control(refresh)]),
        cmd(c.master_activation),
        cmd(c.nop),
    ]
}

/// Clearing both RAMs to a color.
pub open spec fn clear_script(c: Commands, color: Color) -> Seq<Asked> {
    (seq![wait(IS_BUSY_LOW)] + full_frame_script(c)).push(cmd(c.write_ram)).push(
        fill(color.byte_value(), FRAME_BYTES),
    ).push(cmd(c.write_ram2)).push(fill(color.byte_value(), FRAME_BYTES))
}

/// Writing a waveform table of [`LUT_LEN`] bytes to its registers.
pub open spec fn lut_table_script(c: Commands, table: Seq<u8>) -> Seq<Asked> {
    seq![
        wait(IS_BUSY_LOW),
        cmd_data(c.write_lut_register, table.subrange(0, 153)),
        cmd_data(c.write_lut_register_end, seq![table[153]]),
        wait(IS_BUSY_LOW),
        cmd_data(c.gate_driving_voltage, seq![table[154]]),
        cmd_data(c.source_driving_voltage, table.subrange(155, 158)),
        cmd_data(c.write_vcom_register, seq![table[158]]),
    ]
}

/// What the quick refresh needs after its table is written.
pub open spec fn quick_setup_script(c: Commands) -> Seq<Asked> {
    seq![
        cmd_data(
            c.write_otp_selection,
            seq![0x0u8, 0x0u8, 0x0u8, 0x0u8, 0x0u8, 0x40u8, 0x0u8, 0x0u8, 0x0u8, 0x0u8],
        ),
        cmd_data(c.border_waveform_control, seq![0x80u8]),
        cmd_data(c.display_update_control2, seq![0xc0u8]),
        cmd(c.master_activation),
        cmd(c.nop),
    ]
}

/// Writing the table of a refresh mode, and the extra setup where the
/// mode is the quick one.
pub open spec fn lut_script(
    c: Commands,
    refresh: RefreshLut,
    full: Seq<u8>,
    partial: Seq<u8>,
) -> Seq<Asked> {
    match refresh {
        RefreshLut::Full => lut_table_script(c, full),
        RefreshLut::Quick => lut_table_script(c, partial) + quick_setup_script(c),
    }
}

/// The state of a 1.54" panel's driver.
#[derive(Clone, Copy, Debug)]
pub struct Epd1in54 {
    background_color: Color,
    refresh: RefreshLut,
}

/// A waveform table, cut into the payloads of the registers it is written
/// to.
pub struct LutRegisters<'a> {
    /// The waveform itself.
    pub waveform: &'a [u8],
    /// The byte that ends the waveform.
    pub waveform_end: u8,
    /// Driving voltage of the gates.
    pub gate_voltage: u8,
    /// The three source driving voltages.
    pub source_voltage: [u8; 3],
    /// The VCOM register.
    pub vcom: u8,
}

impl Epd1in54 {
    /// The color that a cleared frame has.
    pub closed spec fn color(self) -> Color {
        self.background_color
    }

    /// The waveform table in use.
    pub closed spec fn refresh(self) -> RefreshLut {
        self.refresh
    }

    /// A driver with the default background and the full refresh.
    pub fn new() -> (epd: Epd1in54)
        ensures
            epd.color() == DEFAULT_BACKGROUND_COLOR,
            epd.refresh() == RefreshLut::Full,
    {
        Epd1in54 { background_color: DEFAULT_BACKGROUND_COLOR, refresh: RefreshLut::Full }
    }

    /// Whether the panel is busy, from the level of its busy line.
    pub fn is_busy(&self, level_high: bool) -> (b: bool)
        ensures
            b == busy(IS_BUSY_LOW, level_high),
    {
        is_busy(IS_BUSY_LOW, level_high)
    }

    /// Starts a wait for this panel that takes at most `max_polls`
    /// samples of its busy line.
    pub fn wait_until_idle(&self, max_polls: u32) -> (w: BusyWait)
        ensures
            w == BusyWait::fresh(IS_BUSY_LOW, max_polls),
    {
        BusyWait::new(IS_BUSY_LOW, max_polls)
    }

    pub fn width(&self) -> (w: u32)
        ensures
            w == WIDTH,
    {
        WIDTH
    }

    pub fn height(&self) -> (h: u32)
        ensures
            h == HEIGHT,
    {
        HEIGHT
    }

    pub fn set_background_color(&mut self, background_color: Color)
        ensures
            final(self).color() == background_color,
            final(self).refresh() == old(self).refresh(),
    {
        self.background_color = background_color;
    }

    pub fn background_color(&self) -> (c: &Color)
        ensures
            *c == self.color(),
    {
        &self.background_color
    }

    /// The waveform table in use.
    pub fn refresh_lut(&self) -> (r: RefreshLut)
        ensures
            r == self.refresh(),
    {
        self.refresh
    }

    /// Takes over a new waveform table, if one is given, and returns the
    /// one that is then in use. The quick one needs the extra setup for
    /// partial updates after it is written.
    pub fn select_lut(&mut self, refresh_rate: Option<RefreshLut>) -> (r: RefreshLut)
        ensures
            final(self).color() == old(self).color(),
            final(self).refresh() == r,
            refresh_rate matches Some(chosen) ==> r == chosen,
            refresh_rate.is_none() ==> r == old(self).refresh(),
    {
        match refresh_rate {
            Some(chosen) => {
                self.refresh = chosen;
            },
            None => {},
        }
        self.refresh
    }

    /// The payload of the display update control that starts a refresh
    /// with the table in use.
    pub fn display_update_control(&self) -> (b: u8)
        ensures
            b == update_control(self.refresh()),
    {
        match self.refresh {
            RefreshLut::Full => 0xC7,
            RefreshLut::Quick => 0xCF,
        }
    }

    /// Brings the panel up.
    pub fn init(&self, c: &Commands) -> (s: Script)
        ensures
            s@ == init_script(*c),
    {
        let mut s = Script::new();
        s.reset(10, 10);
        s.wait_until_idle(IS_BUSY_LOW);
        s.command(c.sw_reset);
        s.wait_until_idle(IS_BUSY_LOW);
        s.cmd_with_bytes(c.driver_output_control, payload3(199, 0x0, 0x00));
        s.cmd_with_bytes(c.data_entry_mode_setting, payload1(0x3));
        s.append(ram_area(c, window_fields(0, 0, WIDTH - 1, HEIGHT - 1)));
        s.cmd_with_bytes(c.border_waveform_control, payload1(0x1));
        s.cmd_with_bytes(c.temperature_sensor_selection, payload1(0x80));
        s.cmd_with_bytes(c.temperature_sensor_control, payload2(0xB1, 0x20));
        s.append(self.set_ram_counter(c, 0, 0));
        s.wait_until_idle(IS_BUSY_LOW);
        s
    }

    /// Brings the panel back up after sleep.
    pub fn wake_up(&self, c: &Commands) -> (s: Script)
        ensures
            s@ == init_script(*c),
    {
        self.init(c)
    }

    /// Puts the panel to sleep.
    pub fn sleep(&self, c: &Commands) -> (s: Script)
        ensures
            s@ == sleep_script(*c),
    {
        let mut s = Script::new();
        s.wait_until_idle(IS_BUSY_LOW);
        s.cmd_with_bytes(c.deep_sleep_mode, payload1(0x00));
        s
    }

    /// Writes a full frame.
    pub fn update_frame(&self, c: &Commands, buffer: &[u8]) -> (s: Script)
        ensures
            s@ == update_script(*c, buffer@),
    {
        let mut s = Script::new();
        s.wait_until_idle(IS_BUSY_LOW);
        s.append(self.use_full_frame(c));
        s.cmd_with_data(c.write_ram, buffer);
        s
    }

    /// Writes the part of the frame under `rect`. The columns are widened
    /// to whole bytes, so the buffer holds whole bytes for each row.
    pub fn update_partial_frame(&self, c: &Commands, buffer: &[u8], rect: Rectangle) -> (r: Result<
        Script,
        Error,
    >)
        ensures
            rect.ordered() ==> r.is_ok() && r.unwrap()@ == partial_script(*c, buffer@, rect),
            !rect.ordered() ==> r == Err::<Script, Error>(Error::InvalidWindow),
    {
        match compute_window(rect) {
            Ok(w) => {
                let mut s = Script::new();
                s.wait_until_idle(IS_BUSY_LOW);
                s.append(ram_area(c, w));
                s.append(self.set_ram_counter(c, rect.x, rect.y));
                s.cmd_with_data(c.write_ram, buffer);
                Ok(s)
            },
            Err(e) => Err(e),
        }
    }

    /// Refreshes the display with the table in use.
    pub fn display_frame(&self, c: &Commands) -> (s: Script)
        ensures
            s@ == display_script(*c, self.refresh()),
    {
        let mut s = Script::new();
        s.wait_until_idle(IS_BUSY_LOW);
        s.cmd_with_bytes(c.display_update_control2, payload1(self.display_update_control()));
        s.command(c.master_activation);
        s.command(c.nop);
        s
    }

    /// Writes a full frame and refreshes the display.
    pub fn update_and_display_frame(&self, c: &Commands, buffer: &[u8]) -> (s: Script)
        ensures
            s@ == update_script(*c, buffer@) + display_script(*c, self.refresh()),
    {
        let mut s = self.update_frame(c, buffer);
        s.append(self.display_frame(c));
        s
    }

    /// Clears both RAMs to the background color.
    pub fn clear_frame(&self, c: &Commands) -> (s: Script)
        ensures
            s@ == clear_script(*c, self.color()),
    {
        let color: u8 = self.background_color.get_byte_value();
        let mut s = Script::new();
        s.wait_until_idle(IS_BUSY_LOW);
        s.append(self.use_full_frame(c));
        s.command(c.write_ram);
        s.repeat(color, FRAME_BYTES);
        s.command(c.write_ram2);
        s.repeat(color, FRAME_BYTES);
        s
    }

    /// Takes over a new refresh mode, if one is given, and writes the
    /// table of the mode that is then in use.
    pub fn set_lut(
        &mut self,
        c: &Commands,
        refresh_rate: Option<RefreshLut>,
        lut_full_update: &[u8],
        lut_partial_update: &[u8],
    ) -> (s: Script)
        requires
            lut_full_update@.len() == LUT_LEN,
            lut_partial_update@.len() == LUT_LEN,
        ensures
            final(self).color() == old(self).color(),
            refresh_rate matches Some(chosen) ==> final(self).refresh() == chosen,
            refresh_rate.is_none() ==> final(self).refresh() == old(self).refresh(),
            s@ == lut_script(*c, final(self).refresh(), lut_full_update@, lut_partial_update@),
    {
        match self.select_lut(refresh_rate) {
            RefreshLut::Full => self.set_lut_helper(c, lut_full_update),
            RefreshLut::Quick => {
                let mut s = self.set_lut_helper(c, lut_partial_update);
                let mut otp: Vec<u8> = payload4(0x0, 0x0, 0x0, 0x0);
                otp.push(0x0);
                otp.push(0x40);
                otp.push(0x0);
                otp.push(0x0);
                otp.push(0x0);
                otp.push(0x0);
                assert(otp@ =~= seq![
                    0x0u8,
                    0x0u8,
                    0x0u8,
                    0x0u8,
                    0x0u8,
                    0x40u8,
                    0x0u8,
                    0x0u8,
                    0x0u8,
                    0x0u8,
                ]);
                let mut setup = Script::new();
                setup.cmd_with_bytes(c.write_otp_selection, otp);
                setup.cmd_with_bytes(c.border_waveform_control, payload1(0x80));
                setup.cmd_with_bytes(c.display_update_control2, payload1(0xc0));
                setup.command(c.master_activation);
                setup.command(c.nop);
                s.append(setup);
                s
            },
        }
    }

    /// Chooses the whole RAM and starts at its beginning.
    pub fn use_full_frame(&self, c: &Commands) -> (s: Script)
        ensures
            s@ == full_frame_script(*c),
    {
        let mut s = ram_area(c, window_fields(0, 0, WIDTH - 1, HEIGHT - 1));
        s.append(self.set_ram_counter(c, 0, 0));
        s
    }

    /// Sets the RAM window between the near corner `(start_x, start_y)`
    /// and the far corner given as the last column `end_x` and the end
    /// row `end_y`.
    pub fn set_ram_area(
        &self,
        c: &Commands,
        start_x: u32,
        start_y: u32,
        end_x: u32,
        end_y: u32,
    ) -> (r: Result<Script, Error>)
        ensures
            edges_ordered(start_x, start_y, end_x, end_y) ==> r.is_ok() && r.unwrap()@
                == ram_area_script(*c, start_x, start_y, end_x, end_y),
            !edges_ordered(start_x, start_y, end_x, end_y) ==> r == Err::<Script, Error>(
                Error::InvalidWindow,
            ),
    {
        match compute_edge_window(start_x, start_y, end_x, end_y) {
            Ok(w) => Ok(ram_area(c, w)),
            Err(e) => Err(e),
        }
    }

    /// Sets the RAM cursor to the pixel `(x, y)`.
    pub fn set_ram_counter(&self, c: &Commands, x: u32, y: u32) -> (s: Script)
        ensures
            s@ == ram_counter_script(*c, x, y),
    {
        let at = compute_counter(x, y);
        let mut s = Script::new();
        s.wait_until_idle(IS_BUSY_LOW);
        s.cmd_with_bytes(c.set_ram_x_address_counter, payload1(at.x_byte));
        s.cmd_with_bytes(c.set_ram_y_address_counter, payload2(at.y_low, at.y_high));
        s
    }

    /// Writes a waveform table to its registers.
    pub fn set_lut_helper(&self, c: &Commands, buffer: &[u8]) -> (s: Script)
        requires
            buffer@.len() == LUT_LEN,
        ensures
            s@ == lut_table_script(*c, buffer@),
    {
        let parts = split_lut(buffer);
        let mut s = Script::new();
        s.wait_until_idle(IS_BUSY_LOW);
        s.cmd_with_data(c.write_lut_register, parts.waveform);
        s.cmd_with_bytes(c.write_lut_register_end, payload1(parts.waveform_end));
        s.wait_until_idle(IS_BUSY_LOW);
        s.cmd_with_bytes(c.gate_driving_voltage, payload1(parts.gate_voltage));
        s.cmd_with_data(c.source_driving_voltage, parts.source_voltage.as_slice());
        s.cmd_with_bytes(c.write_vcom_register, payload1(parts.vcom));
        s
    }
}

fn ram_area(c: &Commands, w: Window) -> (s: Script)
    ensures
        s@ == window_script(*c, w),
{
    let mut s = Script::new();
    s.wait_until_idle(IS_BUSY_LOW);
    s.cmd_with_bytes(
        c.set_ram_x_address_start_end_position,
        payload2(w.x_start_byte, w.x_end_byte),
    );
    s.cmd_with_bytes(
        c.set_ram_y_address_start_end_position,
        payload4(w.y_start_low, w.y_start_high, w.y_end_low, w.y_end_high),
    );
    s
}

/// Cuts a waveform table into its register payloads: 153 bytes of
/// waveform, its end byte, one gate voltage, three source voltages and the
/// VCOM value, in that order.
pub fn split_lut<'a>(buffer: &'a [u8]) -> (parts: LutRegisters<'a>)
    requires
        buffer@.len() == LUT_LEN,
    ensures
        parts.waveform@ == buffer@.subrange(0, 153),
        parts.waveform_end == buffer@[153],
        parts.gate_voltage == buffer@[154],
        parts.source_voltage@ == buffer@.subrange(155, 158),
        parts.vcom == buffer@[158],
{
    let source_voltage: [u8; 3] = [buffer[155], buffer[156], buffer[157]];
    assert(source_voltage@ =~= buffer@.subrange(155, 158));
    LutRegisters {
        waveform: slice_subrange(buffer, 0, 153),
        waveform_end: buffer[153],
        gate_voltage: buffer[154],
        source_voltage,
        vcom: buffer[158],
    }
}

/// In every operation of this panel a payload follows its command at
/// once.
pub proof fn lemma_commands_come_first(
    c: Commands,
    color: Color,
    refresh: RefreshLut,
    buffer: Seq<u8>,
    rect: Rectangle,
    end_x: u32,
    end_y: u32,
    full: Seq<u8>,
    partial: Seq<u8>,
)
    ensures
        commands_first(init_script(c)),
        commands_first(full_frame_script(c)),
        commands_first(window_script(c, window_of(rect))),
        commands_first(ram_area_script(c, rect.x, rect.y, end_x, end_y)),
        commands_first(ram_counter_script(c, rect.x, rect.y)),
        commands_first(sleep_script(c)),
        commands_first(update_script(c, buffer)),
        commands_first(update_script(c, buffer) + display_script(c, refresh)),
        commands_first(partial_script(c, buffer, rect)),
        commands_first(display_script(c, refresh)),
        commands_first(clear_script(c, color)),
        commands_first(lut_script(c, refresh, full, partial)),
{
}

} // verus!
