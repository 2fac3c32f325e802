use vstd::prelude::*;
use crate::game_boy::{GameBoy, GameBoyView};
use crate::memory::{MemoryView, Register};
use crate::util::bit;

verus! {

pub const CLOCKS_PER_FRAME: u32 = 70_224;

/// The number of cycles between two steps of the frame sequencer (512 Hz).
pub const FRAME_SEQUENCER_TICK: u64 = 8_192;

pub const WAVE_MEMORY_START: u16 = 0xFF30;

/// The subclocks that a step of the frame sequencer drives.
#[derive(Copy, Clone, Debug, PartialEq, Eq, Structural)]
pub struct FrameSequencerClocks {
    pub length: bool,
    pub envelope: bool,
    pub sweep: bool,
}

/// The 512 Hz sequencer that paces length, envelope and sweep.
#[derive(Copy, Clone, Debug, PartialEq, Eq, Structural)]
pub struct FrameSequencer {
    pub total_cycle_count: u64,
    pub frame_sequencer_clock: u32,
}

impl FrameSequencer {
    /// The sequencer after `cycles_elapsed` cycles. It takes one step when
    /// its step count is behind the cycles seen.
    pub open spec fn spec_update(self, cycles_elapsed: u8) -> FrameSequencer {
        let total = self.total_cycle_count.wrapping_add(cycles_elapsed as u64);
        FrameSequencer {
            total_cycle_count: total,
            frame_sequencer_clock: if total / 8192 > self.frame_sequencer_clock {
                self.frame_sequencer_clock.wrapping_add(1)
            } else {
                self.frame_sequencer_clock
            },
        }
    }

    /// The subclocks that fire as the sequencer sees `cycles_elapsed`
    /// cycles: on a step, length on every second step, envelope on one step
    /// in eight, sweep on one step in four; off a step, length alone, and
    /// only on the very first call.
    pub open spec fn spec_clocks(self, cycles_elapsed: u8) -> FrameSequencerClocks {
        let after = self.spec_update(cycles_elapsed);
        if after.frame_sequencer_clock != self.frame_sequencer_clock {
            FrameSequencerClocks {
                length: after.frame_sequencer_clock % 2 == 0,
                envelope: (after.frame_sequencer_clock + 1) % 8 == 0,
                sweep: (after.frame_sequencer_clock + 2) % 4 == 0,
            }
        } else {
            FrameSequencerClocks {
                length: self.total_cycle_count == 0,
                envelope: false,
                sweep: false,
            }
        }
    }

    pub fn new() -> (r: FrameSequencer)
        ensures
            r == (FrameSequencer { total_cycle_count: 0, frame_sequencer_clock: 0 }),
    {
        FrameSequencer { total_cycle_count: 0, frame_sequencer_clock: 0 }
    }

    pub fn update(&mut self, cycles_elapsed: u8) -> (clocks: FrameSequencerClocks)
        ensures
            *final(self) == old(self).spec_update(cycles_elapsed),
            clocks == old(self).spec_clocks(cycles_elapsed),
    {
        let is_first_tick = self.total_cycle_count == 0;
        self.total_cycle_count = self.total_cycle_count.wrapping_add(cycles_elapsed as u64);
        if self.total_cycle_count / FRAME_SEQUENCER_TICK > self.frame_sequencer_clock as u64 {
            self.frame_sequencer_clock = self.frame_sequencer_clock.wrapping_add(1);
            let step = self.frame_sequencer_clock as u64;
            return FrameSequencerClocks {
                length: step % 2 == 0,
                envelope: (step + 1) % 8 == 0,
                sweep: (step + 2) % 4 == 0,
            };
        }
        FrameSequencerClocks { length: is_first_tick, envelope: false, sweep: false }
    }
}

/// The fields of the sweep register of channel 1.
#[derive(Copy, Clone, Debug, PartialEq, Eq, Structural)]
pub struct SweepValues {
    pub period: u8,
    pub shift: u8,
    pub direction: bool,
}

impl SweepValues {
    /// Bits 6 to 4 hold the period, bit 3 the direction, bits 2 to 0 the
    /// shift.
    pub open spec fn spec_from_register(sweep_values: u8) -> SweepValues {
        SweepValues {
            period: (sweep_values / 16) % 8,
            shift: sweep_values % 8,
            direction: bit(sweep_values, 3),
        }
    }

    pub fn from_register(sweep_values: u8) -> (r: SweepValues)
        ensures
            r == SweepValues::spec_from_register(sweep_values),
            r.period < 8,
            r.shift < 8,
    {
        SweepValues {
            period: (sweep_values / 16) % 8,
            shift: sweep_values % 8,
            direction: (sweep_values / 8) % 2 == 1,
        }
    }
}

/// The fields of the volume envelope register of a square channel.
#[derive(Copy, Clone, Debug, PartialEq, Eq, Structural)]
pub struct EnvelopeValues {
    pub initial_volume: u8,
    pub add_mode: bool,
    pub initial_period: u8,
}

impl EnvelopeValues {
    /// Bits 7 to 4 hold the initial volume, bit 3 the direction, bits 2 to 0
    /// the period.
    pub open spec fn spec_from_register(envelope: u8) -> EnvelopeValues {
        EnvelopeValues {
            initial_volume: envelope / 16,
            add_mode: bit(envelope, 3),
            initial_period: envelope % 8,
        }
    }

    pub fn from_register(envelope: u8) -> (r: EnvelopeValues)
        ensures
            r == EnvelopeValues::spec_from_register(envelope),
            r.initial_volume < 16,
            r.initial_period < 8,
    {
        EnvelopeValues {
            initial_volume: envelope / 16,
            add_mode: (envelope / 8) % 2 == 1,
            initial_period: envelope % 8,
        }
    }
}

/// The on/off pattern of the eight steps of a duty cycle, step 0 in bit 0.
pub open spec fn spec_duty_pattern(duty: u8) -> u8 {
    if duty == 0 {
        0b0000_0001
    } else if duty == 1 {
        0b0000_0011
    } else if duty == 2 {
        0b0000_1111
    } else {
        0b1111_1100
    }
}

pub fn duty_pattern(duty: u8) -> (r: u8)
    ensures
        r == spec_duty_pattern(duty),
{
    if duty == 0 {
        0b0000_0001
    } else if duty == 1 {
        0b0000_0011
    } else if duty == 2 {
        0b0000_1111
    } else {
        0b1111_1100
    }
}

/// The wave form of a square channel.
#[derive(Copy, Clone, Debug, PartialEq, Eq, Structural)]
pub struct SquareWave {
    pub length_duty_register: Register,
    pub duty_position: u32,
}

impl SquareWave {
    pub fn new(length_duty_register: Register) -> (r: SquareWave)
        ensures
            r == (SquareWave { length_duty_register, duty_position: 0 }),
    {
        SquareWave { duty_position: 0, length_duty_register }
    }
}

/// The wave form of the wave channel: its place among the 32 samples of the
/// wave table, and the sample it read last.
#[derive(Copy, Clone, Debug, PartialEq, Eq, Structural)]
pub struct CustomWave {
    pub length_register: Register,
    pub volume_shift_register: Register,
    pub position_counter: u8,
    pub sample_buffer: u8,
}

impl CustomWave {
    pub fn new(length_register: Register, volume_shift_register: Register) -> (r: CustomWave)
        ensures
            r == (CustomWave {
                length_register,
                volume_shift_register,
                position_counter: 0,
                sample_buffer: 0,
            }),
    {
        CustomWave { length_register, volume_shift_register, position_counter: 0, sample_buffer: 0 }
    }
}

/// The two kinds of wave form.
#[derive(Copy, Clone, Debug, PartialEq, Eq, Structural)]
pub enum ChannelType {
    Square(SquareWave),
    Custom(CustomWave),
}

/// The amount by which the wave channel divides its samples, for the volume
/// code in bits 6 and 5 of its volume register: full, half, a quarter, or
/// mute.
pub open spec fn wave_divisor(volume_register: u8) -> u8 {
    let code = (volume_register / 32) % 4;
    if code == 1 {
        1
    } else if code == 2 {
        2
    } else if code == 3 {
        4
    } else {
        16
    }
}

impl ChannelType {
    pub open spec fn wf(self) -> bool {
        match self {
            ChannelType::Square(square) => square.duty_position < 8,
            ChannelType::Custom(wave) => wave.position_counter < 32 && wave.sample_buffer < 16,
        }
    }

    /// The wave form one step further: the next step of the duty cycle, or
    /// the next 4-bit sample of the wave table, high nibble first.
    pub open spec fn spec_cycle(self, m: MemoryView) -> ChannelType {
        match self {
            ChannelType::Square(square) => ChannelType::Square(
                SquareWave { duty_position: ((square.duty_position + 1) % 8) as u32, ..square },
            ),
            ChannelType::Custom(wave) => {
                let position = ((wave.position_counter + 1) % 32) as u8;
                let data = m.read((0xFF30 + position / 2) as u16);
                ChannelType::Custom(
                    CustomWave {
                        position_counter: position,
                        sample_buffer: if position % 2 == 0 {
                            data / 16
                        } else {
                            data % 16
                        },
                        ..wave
                    },
                )
            },
        }
    }

    /// The start value of the frequency timer for an 11-bit frequency.
    pub open spec fn spec_reload(self, timer: u32) -> u32 {
        match self {
            ChannelType::Square(_) => ((2048 - timer) * 4) as u32,
            ChannelType::Custom(_) => ((2048 - timer) * 2) as u32,
        }
    }

    /// The sample that the wave form puts out now, from -128 to 127.
    pub open spec fn spec_sample(self, m: MemoryView, channel_volume: u8, envelope_volume: u8) -> int {
        match self {
            ChannelType::Square(square) => {
                let pattern = spec_duty_pattern(m.register(square.length_duty_register) / 64);
                if (pattern >> square.duty_position) & 0b1 == 1 {
                    channel_volume * envelope_volume
                } else {
                    -(channel_volume * envelope_volume)
                }
            },
            ChannelType::Custom(wave) => {
                let divisor = wave_divisor(m.register(wave.volume_shift_register));
                if wave.sample_buffer >= 7 {
                    ((wave.sample_buffer - 7) / divisor as int) * channel_volume * 2
                } else {
                    -(((7 - wave.sample_buffer) / divisor as int) * channel_volume * 2)
                }
            },
        }
    }

    /// The length that the length register of the channel holds.
    pub open spec fn spec_length_counter(self, m: MemoryView) -> u32 {
        match self {
            ChannelType::Square(square) => (m.register(square.length_duty_register) % 64) as u32,
            ChannelType::Custom(wave) => m.register(wave.length_register) as u32,
        }
    }

    /// The start value of the length timer for a length.
    pub open spec fn spec_new_length_timer(self, length: u32) -> u32 {
        match self {
            ChannelType::Square(_) => (64 - length) as u32,
            ChannelType::Custom(_) => (256 - length) as u32,
        }
    }

    /// The wave form after the channel was triggered: the wave channel
    /// starts its table over.
    pub open spec fn spec_trigger_event(self) -> ChannelType {
        match self {
            ChannelType::Square(square) => self,
            ChannelType::Custom(wave) => ChannelType::Custom(
                CustomWave { position_counter: 0, ..wave },
            ),
        }
    }

    pub fn cycle(&mut self, gb: &GameBoy)
        requires
            gb.wf(),
            old(self).wf(),
        ensures
            final(self).wf(),
            *final(self) == old(self).spec_cycle(gb@.memory),
    {
        match self {
            ChannelType::Square(square) => {
                square.duty_position += 1;
                if square.duty_position > 7 {
                    square.duty_position = 0;
                }
            },
            ChannelType::Custom(wave) => {
                wave.position_counter += 1;
                if wave.position_counter > 31 {
                    wave.position_counter = 0;
                }
                let offset = wave.position_counter as u16 / 2;
                let data = gb.memory.get_byte(WAVE_MEMORY_START + offset);
                wave.sample_buffer = if wave.position_counter % 2 == 0 {
                    data / 16
                } else {
                    data % 16
                };
            },
        }
    }

    pub fn reload_frequency_counter(&self, timer: u32) -> (r: u32)
        requires
            timer <= 2048,
        ensures
            r == self.spec_reload(timer),
            timer < 2048 ==> r >= 2,
    {
        match self {
            ChannelType::Square(_) => (2048 - timer) * 4,
            ChannelType::Custom(_) => (2048 - timer) * 2,
        }
    }

    /// The sample of the wave form. The channel volume is at most 7 and the
    /// envelope volume at most 15.
    pub fn sample(&self, gb: &GameBoy, channel_volume: u8, envelope_volume: u8) -> (r: i8)
        requires
            gb.wf(),
            self.wf(),
            channel_volume < 8,
            envelope_volume < 16,
        ensures
            r == self.spec_sample(gb@.memory, channel_volume, envelope_volume),
            -112 <= r <= 112,
    {
        match self {
            ChannelType::Square(square) => {
                let duty_length = gb.memory.get_register(square.length_duty_register);
                let duty = duty_length / 64;
                let pattern = duty_pattern(duty);
                let amplitude = (pattern >> square.duty_position) & 0b0000_0001;
                assert(channel_volume * envelope_volume <= 105) by (nonlinear_arith)
                    requires
                        channel_volume < 8,
                        envelope_volume < 16,
                ;
                let volume = (channel_volume * envelope_volume) as i8;
                if amplitude == 1 {
                    volume
                } else {
                    -volume
                }
            },
            ChannelType::Custom(wave) => {
                let value = gb.memory.get_register(wave.volume_shift_register);
                let volume_code = (value / 32) % 4;
                let divisor: u8 = if volume_code == 1 {
                    1
                } else if volume_code == 2 {
                    2
                } else if volume_code == 3 {
                    4
                } else {
                    16
                };
                let positive = wave.sample_buffer >= 7;
                let sample_magnitude: u8 = if positive {
                    wave.sample_buffer - 7
                } else {
                    7 - wave.sample_buffer
                };
                let scaled: u8 = sample_magnitude / divisor;
                assert(scaled * channel_volume <= 56) by (nonlinear_arith)
                    requires
                        scaled <= 8,
                        channel_volume < 8,
                ;
                let volume = (scaled * channel_volume * 2) as i8;
                if positive {
                    volume
                } else {
                    -volume
                }
            },
        }
    }

    pub fn length_counter(&self, gb: &GameBoy) -> (r: u32)
        requires
            gb.wf(),
        ensures
            r == self.spec_length_counter(gb@.memory),
            r < 256,
            self is Square ==> r < 64,
    {
        match self {
            ChannelType::Square(square) => {
                (gb.memory.get_register(square.length_duty_register) % 64) as u32
            },
            ChannelType::Custom(wave) => gb.memory.get_register(wave.length_register) as u32,
        }
    }

    pub fn new_length_timer(&self, length: u32) -> (r: u32)
        requires
            length <= 256,
            self is Square ==> length <= 64,
        ensures
            r == self.spec_new_length_timer(length),
            r <= 256,
    {
        match self {
            ChannelType::Square(_) => 64 - length,
            ChannelType::Custom(_) => 256 - length,
        }
    }

    pub fn trigger_event(&mut self)
        requires
            old(self).wf(),
        ensures
            final(self).wf(),
            *final(self) == old(self).spec_trigger_event(),
    {
        match self {
            ChannelType::Square(_) => {},
            ChannelType::Custom(wave) => {
                wave.position_counter = 0;
            },
        }
    }
}

/// The channel whose trigger latch a sound channel listens to.
#[derive(Copy, Clone, Debug, PartialEq, Eq, Structural)]
pub enum TriggerSource {
    Channel1,
    Channel2,
    Channel3,
}

pub fn channel_1_triggered(gb: &GameBoy) -> (r: bool)
    ensures
        r == gb@.memory.channel_1_triggered,
{
    gb.memory.channel_1_triggered()
}

pub fn channel_2_triggered(gb: &GameBoy) -> (r: bool)
    ensures
        r == gb@.memory.channel_2_triggered,
{
    gb.memory.channel_2_triggered()
}

pub fn channel_3_triggered(gb: &GameBoy) -> (r: bool)
    ensures
        r == gb@.memory.channel_3_triggered,
{
    gb.memory.channel_3_triggered()
}

/// A shift to the right does not make a number larger.
pub proof fn lemma_shift_right_bound(x: u32, s: u8)
    by (bit_vector)
    requires
        s < 8,
    ensures
        x >> s <= x,
{
}

/// One sound channel.
#[derive(Copy, Clone, Debug, PartialEq, Eq, Structural)]
pub struct SoundChannel {
    pub frequency_timer: u32,
    pub period_timer: u8,
    pub length_timer: u32,
    pub prev_length_counter: u32,
    pub envelope_volume: u8,
    pub disabled: bool,
    pub sweep_enabled: bool,
    pub shadow_freqency: u32,
    pub sweep_timer: u8,
    pub channel_type: ChannelType,
    pub sweep_register: Option<Register>,
    pub volume_envelope_register: Option<Register>,
    pub frequency_lo_register: Register,
    pub frequency_hi_register: Register,
    pub check_trigger_event: TriggerSource,
    pub left_accumulator: i32,
    pub right_accumulator: i32,
    pub samples_accumulated: u32,
    pub channel_enable_mask: u8,
    pub left_output_mask: u8,
    pub right_output_mask: u8,
}

impl SoundChannel {
    pub open spec fn wf(self) -> bool {
        &&& self.channel_type.wf()
        &&& self.envelope_volume < 16
        &&& self.shadow_freqency < 2048
        &&& self.length_timer <= 256
        &&& -128 <= self.left_accumulator <= 127
        &&& -128 <= self.right_accumulator <= 127
    }

    /// The 11-bit frequency in the two frequency registers.
    pub open spec fn frequency(self, m: MemoryView) -> u32 {
        ((m.register(self.frequency_hi_register) % 8) * 256 + m.register(
            self.frequency_lo_register,
        )) as u32
    }

    /// The address space after a frequency was written back: the low three
    /// bits of the high register and the low register change.
    pub open spec fn frequency_written(self, m: MemoryView, new_frequency: u32) -> MemoryView {
        m.with_cell(
            self.frequency_hi_register.spec_address(),
            ((new_frequency / 256) % 8 + (m.register(self.frequency_hi_register) / 8) * 8) as u8,
        ).with_cell(self.frequency_lo_register.spec_address(), (new_frequency % 256) as u8)
    }

    /// Whether the trigger latch of the channel is set.
    pub open spec fn trigger_seen(self, m: MemoryView) -> bool {
        match self.check_trigger_event {
            TriggerSource::Channel1 => m.channel_1_triggered,
            TriggerSource::Channel2 => m.channel_2_triggered,
            TriggerSource::Channel3 => m.channel_3_triggered,
        }
    }

    /// The envelope fields, for a channel that has an envelope.
    pub open spec fn envelope(self, m: MemoryView) -> Option<EnvelopeValues> {
        match self.volume_envelope_register {
            Some(register) => Some(EnvelopeValues::spec_from_register(m.register(register))),
            None => None,
        }
    }

    /// The channel after `n` cycles of its frequency timer: at zero the
    /// timer is loaded from the frequency and the wave form moves one step;
    /// then the timer counts down.
    pub open spec fn timer_advanced(self, m: MemoryView, n: nat) -> SoundChannel
        decreases n,
    {
        if n == 0 {
            self
        } else {
            let before = self.timer_advanced(m, (n - 1) as nat);
            if before.frequency_timer == 0 {
                SoundChannel {
                    frequency_timer: (before.channel_type.spec_reload(before.frequency(m))
                        - 1) as u32,
                    channel_type: before.channel_type.spec_cycle(m),
                    ..before
                }
            } else {
                SoundChannel { frequency_timer: (before.frequency_timer - 1) as u32, ..before }
            }
        }
    }

    /// The channel after its length register was looked at: a new length in
    /// the register loads the length timer.
    pub open spec fn length_reloaded(self, m: MemoryView) -> SoundChannel {
        let length = self.channel_type.spec_length_counter(m);
        if length != self.prev_length_counter {
            SoundChannel {
                prev_length_counter: length,
                length_timer: self.channel_type.spec_new_length_timer(length),
                ..self
            }
        } else {
            self
        }
    }

    /// The new frequency of a sweep step: the shadow frequency plus or minus
    /// itself shifted right.
    pub open spec fn sweep_frequency(self, sweep_values: SweepValues) -> u32 {
        if sweep_values.direction {
            (self.shadow_freqency - (self.shadow_freqency >> sweep_values.shift)) as u32
        } else {
            (self.shadow_freqency + (self.shadow_freqency >> sweep_values.shift)) as u32
        }
    }

    /// The channel after the overflow check of a sweep step: a new
    /// frequency of 2048 or more disables the channel.
    pub open spec fn sweep_checked(self, sweep_values: SweepValues) -> SoundChannel {
        if self.sweep_frequency(sweep_values) > 2047 {
            SoundChannel { disabled: true, ..self }
        } else {
            self
        }
    }

    /// The start value of the sweep timer: the period, or 8 for period 0.
    pub open spec fn sweep_timer_start(sweep_values: SweepValues) -> u8 {
        if sweep_values.period != 0 {
            sweep_values.period
        } else {
            8
        }
    }

    /// The channel after a trigger event: the envelope and the sweep are
    /// loaded again, a length timer at zero is loaded, and the channel is
    /// enabled.
    pub open spec fn triggered(self, m: MemoryView) -> SoundChannel {
        let c1 = SoundChannel {
            channel_type: self.channel_type.spec_trigger_event(),
            envelope_volume: match self.envelope(m) {
                Some(envelope) => envelope.initial_volume,
                None => self.envelope_volume,
            },
            period_timer: match self.envelope(m) {
                Some(envelope) => envelope.initial_period,
                None => self.period_timer,
            },
            disabled: false,
            length_timer: if self.length_timer == 0 {
                self.channel_type.spec_new_length_timer(0)
            } else {
                self.length_timer
            },
            ..self
        };
        match self.sweep_register {
            Some(register) => {
                let sweep_values = SweepValues::spec_from_register(m.register(register));
                let c2 = SoundChannel {
                    shadow_freqency: self.frequency(m),
                    sweep_timer: SoundChannel::sweep_timer_start(sweep_values),
                    sweep_enabled: sweep_values.period > 0 || sweep_values.shift > 0,
                    ..c1
                };
                if sweep_values.shift != 0 {
                    c2.sweep_checked(sweep_values)
                } else {
                    c2
                }
            },
            None => c1,
        }
    }

    /// The channel after a length tick: with bit 6 of the high frequency
    /// register set, a length timer above zero counts down, and at zero
    /// disables the channel.
    pub open spec fn length_ticked(self, m: MemoryView, clocks: FrameSequencerClocks) -> SoundChannel {
        if clocks.length && bit(m.register(self.frequency_hi_register), 6) && self.length_timer
            > 0 {
            SoundChannel {
                length_timer: (self.length_timer - 1) as u32,
                disabled: self.disabled || self.length_timer == 1,
                ..self
            }
        } else {
            self
        }
    }

    /// The channel after an envelope tick: every `period` ticks the volume
    /// moves one step in the direction of the envelope and stops at 0 and 15.
    pub open spec fn envelope_ticked(self, m: MemoryView, clocks: FrameSequencerClocks) -> SoundChannel {
        if clocks.envelope && self.envelope(m) is Some && self.envelope(m).unwrap().initial_period
            > 0 {
            let envelope = self.envelope(m).unwrap();
            if self.period_timer <= 1 {
                SoundChannel {
                    period_timer: envelope.initial_period,
                    envelope_volume: if envelope.add_mode {
                        if self.envelope_volume < 0xF {
                            (self.envelope_volume + 1) as u8
                        } else {
                            self.envelope_volume
                        }
                    } else {
                        if self.envelope_volume > 0 {
                            (self.envelope_volume - 1) as u8
                        } else {
                            self.envelope_volume
                        }
                    },
                    ..self
                }
            } else {
                SoundChannel { period_timer: (self.period_timer - 1) as u8, ..self }
            }
        } else {
            self
        }
    }

    /// Whether a sweep tick finds the sweep timer at its end.
    pub open spec fn sweep_due(self, clocks: FrameSequencerClocks) -> bool {
        clocks.sweep && self.sweep_register is Some && self.sweep_timer == 1
    }

    /// Whether a sweep step that is due writes a new frequency back.
    pub open spec fn sweep_writes(self, m: MemoryView, clocks: FrameSequencerClocks) -> bool {
        let sweep_values = SweepValues::spec_from_register(m.register(self.sweep_register.unwrap()));
        self.sweep_due(clocks) && self.sweep_enabled && sweep_values.period != 0
            && self.sweep_frequency(sweep_values) < 2048 && sweep_values.shift > 0
    }

    /// The channel after a sweep tick. When the sweep timer ends it is
    /// loaded again, and with the sweep enabled and a period other than zero
    /// the new frequency is computed and checked; a new frequency below 2048
    /// with a shift other than zero becomes the shadow frequency, and the
    /// check is made once more.
    pub open spec fn sweep_ticked(self, m: MemoryView, clocks: FrameSequencerClocks) -> SoundChannel {
        if clocks.sweep && self.sweep_register is Some && self.sweep_timer > 0 {
            if self.sweep_timer == 1 {
                let sweep_values = SweepValues::spec_from_register(
                    m.register(self.sweep_register.unwrap()),
                );
                let c1 = SoundChannel {
                    sweep_timer: SoundChannel::sweep_timer_start(sweep_values),
                    ..self
                };
                if self.sweep_enabled && sweep_values.period != 0 {
                    let c2 = c1.sweep_checked(sweep_values);
                    if self.sweep_writes(m, clocks) {
                        (SoundChannel {
                            shadow_freqency: self.sweep_frequency(sweep_values),
                            ..c2
                        }).sweep_checked(sweep_values)
                    } else {
                        c2
                    }
                } else {
                    c1
                }
            } else {
                SoundChannel { sweep_timer: (self.sweep_timer - 1) as u8, ..self }
            }
        } else {
            self
        }
    }

    /// The address space after a sweep tick: the new frequency, where the
    /// sweep step writes one back.
    pub open spec fn sweep_memory(self, m: MemoryView, clocks: FrameSequencerClocks) -> MemoryView {
        if self.sweep_writes(m, clocks) {
            self.frequency_written(
                m,
                self.sweep_frequency(
                    SweepValues::spec_from_register(m.register(self.sweep_register.unwrap())),
                ),
            )
        } else {
            m
        }
    }

    /// The address space after the channel showed in the sound enable
    /// register whether it is on.
    pub open spec fn enable_published(self, m: MemoryView) -> MemoryView {
        m.with_cell(
            0xFF26,
            if self.disabled {
                m.mem[0xFF26] & !self.channel_enable_mask
            } else {
                m.mem[0xFF26] | self.channel_enable_mask
            },
        )
    }

    /// The channel after it recorded its sample for this cycle: nothing
    /// while it or the whole sound system is off, else the sample of its wave
    /// form for each output terminal that the terminal register gives it.
    pub open spec fn accumulated(self, m: MemoryView) -> SoundChannel {
        if self.disabled || m.mem[0xFF26] < 128 {
            SoundChannel {
                left_accumulator: 0,
                right_accumulator: 0,
                samples_accumulated: 1,
                ..self
            }
        } else {
            let sample = self.channel_type.spec_sample(
                m,
                (m.mem[0xFF24] / 16) % 8,
                self.envelope_volume,
            );
            SoundChannel {
                left_accumulator: if m.mem[0xFF25] & self.left_output_mask > 0 {
                    sample as i32
                } else {
                    self.left_accumulator
                },
                right_accumulator: if m.mem[0xFF25] & self.right_output_mask > 0 {
                    sample as i32
                } else {
                    self.right_accumulator
                },
                samples_accumulated: 1,
                ..self
            }
        }
    }

    /// The channel before it records its sample, after `cycles_elapsed`
    /// cycles.
    pub open spec fn stepped(
        self,
        m: MemoryView,
        clocks: FrameSequencerClocks,
        cycles_elapsed: u8,
    ) -> SoundChannel {
        let reloaded = self.timer_advanced(m, cycles_elapsed as nat).length_reloaded(m);
        let started = if reloaded.trigger_seen(m) {
            reloaded.triggered(m)
        } else {
            reloaded
        };
        started.length_ticked(m, clocks).envelope_ticked(m, clocks)
    }

    /// The address space after the channel saw `cycles_elapsed` cycles.
    pub open spec fn updated_memory(
        self,
        m: MemoryView,
        clocks: FrameSequencerClocks,
        cycles_elapsed: u8,
    ) -> MemoryView {
        let stepped = self.stepped(m, clocks, cycles_elapsed);
        stepped.sweep_ticked(m, clocks).enable_published(stepped.sweep_memory(m, clocks))
    }

    /// The channel after it saw `cycles_elapsed` cycles.
    pub open spec fn updated(
        self,
        m: MemoryView,
        clocks: FrameSequencerClocks,
        cycles_elapsed: u8,
    ) -> SoundChannel {
        self.stepped(m, clocks, cycles_elapsed).sweep_ticked(m, clocks).accumulated(
            self.updated_memory(m, clocks, cycles_elapsed),
        )
    }

    /// The averages of the samples since the last call, left and right.
    pub open spec fn spec_sample(self) -> (int, int) {
        (
            div_toward_zero(self.left_accumulator as int, self.samples_accumulated as int),
            div_toward_zero(self.right_accumulator as int, self.samples_accumulated as int),
        )
    }

    pub fn new(
        channel_type: ChannelType,
        sweep_register: Option<Register>,
        volume_envelope_register: Option<Register>,
        frequency_lo_register: Register,
        frequency_hi_register: Register,
        check_trigger_event: TriggerSource,
        channel_enable_mask: u8,
        left_output_mask: u8,
        right_output_mask: u8,
    ) -> (r: SoundChannel)
        requires
            channel_type.wf(),
        ensures
            r.wf(),
            r == (SoundChannel {
                frequency_timer: 0,
                period_timer: 0,
                length_timer: 0,
                prev_length_counter: 0,
                envelope_volume: 0,
                disabled: false,
                sweep_enabled: false,
                shadow_freqency: 0,
                sweep_timer: 0,
                channel_type,
                sweep_register,
                volume_envelope_register,
                frequency_lo_register,
                frequency_hi_register,
                check_trigger_event,
                left_accumulator: 0,
                right_accumulator: 0,
                samples_accumulated: 0,
                channel_enable_mask,
                left_output_mask,
                right_output_mask,
            }),
    {
        SoundChannel {
            frequency_timer: 0,
            period_timer: 0,
            length_timer: 0,
            prev_length_counter: 0,
            envelope_volume: 0,
            disabled: false,
            sweep_enabled: false,
            shadow_freqency: 0,
            sweep_timer: 0,
            channel_type,
            sweep_register,
            volume_envelope_register,
            frequency_lo_register,
            frequency_hi_register,
            check_trigger_event,
            left_accumulator: 0,
            right_accumulator: 0,
            samples_accumulated: 0,
            channel_enable_mask,
            left_output_mask,
            right_output_mask,
        }
    }

    /// Whether the trigger latch of the channel is set.
    pub fn trigger_event_seen(&self, gb: &GameBoy) -> (r: bool)
        ensures
            r == self.trigger_seen(gb@.memory),
    {
        match self.check_trigger_event {
            TriggerSource::Channel1 => channel_1_triggered(gb),
            TriggerSource::Channel2 => channel_2_triggered(gb),
            TriggerSource::Channel3 => channel_3_triggered(gb),
        }
    }

    /// Runs the frequency timer for `cycles_elapsed` cycles.
    pub fn advance_timer(&mut self, gb: &GameBoy, cycles_elapsed: u8)
        requires
            gb.wf(),
            old(self).wf(),
        ensures
            final(self).wf(),
            *final(self) == old(self).timer_advanced(gb@.memory, cycles_elapsed as nat),
    {
        let mut i: u8 = 0;
        while i < cycles_elapsed
            invariant
                i <= cycles_elapsed,
                gb.wf(),
                self.wf(),
                *self == old(self).timer_advanced(gb@.memory, i as nat),
            decreases cycles_elapsed - i,
        {
            if self.frequency_timer == 0 {
                let timer = self.get_frequency(gb);
                self.frequency_timer = self.channel_type.reload_frequency_counter(timer);
                self.channel_type.cycle(gb);
            }
            self.frequency_timer -= 1;
            i += 1;
        }
    }

    /// Loads the length timer when the length register holds a new length.
    pub fn reload_length(&mut self, gb: &GameBoy)
        requires
            gb.wf(),
            old(self).wf(),
        ensures
            final(self).wf(),
            *final(self) == old(self).length_reloaded(gb@.memory),
    {
        let new_length_counter = self.channel_type.length_counter(gb);
        if new_length_counter != self.prev_length_counter {
            self.prev_length_counter = new_length_counter;
            self.length_timer = self.channel_type.new_length_timer(new_length_counter);
        }
    }

    /// The envelope fields, for a channel that has an envelope.
    pub fn envelope_values(&self, gb: &GameBoy) -> (r: Option<EnvelopeValues>)
        requires
            gb.wf(),
        ensures
            r == self.envelope(gb@.memory),
            r is Some ==> r.unwrap().initial_volume < 16,
    {
        match self.volume_envelope_register {
            Some(register) => Some(EnvelopeValues::from_register(gb.memory.get_register(register))),
            None => None,
        }
    }

    /// Handles a trigger event.
    pub fn trigger(&mut self, gb: &GameBoy)
        requires
            gb.wf(),
            old(self).wf(),
        ensures
            final(self).wf(),
            *final(self) == old(self).triggered(gb@.memory),
    {
        self.channel_type.trigger_event();
        match self.envelope_values(gb) {
            Some(envelope_values) => {
                self.envelope_volume = envelope_values.initial_volume;
                self.period_timer = envelope_values.initial_period;
            },
            None => {},
        }
        self.disabled = false;
        if self.length_timer == 0 {
            self.length_timer = self.channel_type.new_length_timer(0);
        }
        match self.sweep_register {
            Some(sweep_register) => {
                self.shadow_freqency = self.get_frequency(gb);
                let sweep_values = self.reload_sweep_timer(gb, sweep_register);
                self.sweep_enabled = sweep_values.period > 0 || sweep_values.shift > 0;
                if sweep_values.shift != 0 {
                    self.calculate_sweep_frequency(sweep_values);
                }
            },
            None => {},
        }
    }

    /// Handles a length tick.
    pub fn tick_length(&mut self, gb: &GameBoy, clocks: FrameSequencerClocks)
        requires
            gb.wf(),
            old(self).wf(),
        ensures
            final(self).wf(),
            *final(self) == old(self).length_ticked(gb@.memory, clocks),
    {
        if clocks.length && (gb.memory.get_register(self.frequency_hi_register) / 64) % 2 == 1
            && self.length_timer > 0 {
            self.length_timer -= 1;
            if self.length_timer == 0 {
                self.disabled = true;
            }
        }
    }

    /// Handles an envelope tick.
    pub fn tick_envelope(&mut self, gb: &GameBoy, clocks: FrameSequencerClocks)
        requires
            gb.wf(),
            old(self).wf(),
        ensures
            final(self).wf(),
            *final(self) == old(self).envelope_ticked(gb@.memory, clocks),
    {
        if clocks.envelope {
            match self.envelope_values(gb) {
                Some(envelope_values) => {
                    if envelope_values.initial_period > 0 {
                        if self.period_timer > 0 {
                            self.period_timer -= 1;
                        }
                        if self.period_timer == 0 {
                            self.period_timer = envelope_values.initial_period;
                            if envelope_values.add_mode {
                                if self.envelope_volume < 0xF {
                                    self.envelope_volume += 1;
                                }
                            } else {
                                if self.envelope_volume > 0 {
                                    self.envelope_volume -= 1;
                                }
                            }
                        }
                    }
                },
                None => {},
            }
        }
    }

    /// Handles a sweep tick.
    pub fn tick_sweep(&mut self, gb: &mut GameBoy, clocks: FrameSequencerClocks)
        requires
            old(gb).wf(),
            old(self).wf(),
        ensures
            final(gb).wf(),
            final(self).wf(),
            *final(self) == old(self).sweep_ticked(old(gb)@.memory, clocks),
            final(gb)@ == old(gb)@.with_memory(old(self).sweep_memory(old(gb)@.memory, clocks)),
    {
        if clocks.sweep {
            match self.sweep_register {
                Some(sweep_register) => {
                    if self.sweep_timer > 0 {
                        self.sweep_timer -= 1;
                        if self.sweep_timer == 0 {
                            let sweep_values = self.reload_sweep_timer(gb, sweep_register);
                            if self.sweep_enabled && sweep_values.period != 0 {
                                let new_frequency = self.calculate_sweep_frequency(sweep_values);
                                if new_frequency < 2048 && sweep_values.shift > 0 {
                                    self.shadow_freqency = new_frequency;
                                    self.set_frequency(gb, new_frequency);
                                    self.calculate_sweep_frequency(sweep_values);
                                }
                            }
                        }
                    }
                },
                None => {},
            }
        }
    }

    /// Shows in the sound enable register whether the channel is on.
    pub fn publish_enable(&self, gb: &mut GameBoy)
        requires
            old(gb).wf(),
        ensures
            final(gb).wf(),
            final(gb)@ == old(gb)@.with_memory(self.enable_published(old(gb)@.memory)),
    {
        let mut value = gb.memory.get_register(Register::SoundEnable);
        value = if self.disabled {
            value & !self.channel_enable_mask
        } else {
            value | self.channel_enable_mask
        };
        gb.memory.set_register(Register::SoundEnable, value);
    }

    /// Records the sample of this cycle.
    pub fn accumulate(&mut self, gb: &GameBoy)
        requires
            gb.wf(),
            old(self).wf(),
        ensures
            final(self).wf(),
            *final(self) == old(self).accumulated(gb@.memory),
            final(self).samples_accumulated == 1,
    {
        let master_disable = gb.memory.get_register(Register::SoundEnable) < 128;
        self.samples_accumulated = 1;
        if self.disabled || master_disable {
            self.left_accumulator = 0;
            self.right_accumulator = 0;
        } else {
            let channel_control = gb.memory.get_register(Register::ChannelControl);
            let channel_volume = (channel_control / 16) % 8;
            let sample = self.channel_type.sample(gb, channel_volume, self.envelope_volume);
            let terminals = gb.memory.get_register(Register::SoundOutputTerminal);
            if terminals & self.left_output_mask > 0 {
                self.left_accumulator = sample as i32;
            }
            if terminals & self.right_output_mask > 0 {
                self.right_accumulator = sample as i32;
            }
        }
    }

    /// Advances the channel by `cycles_elapsed` cycles: frequency timer,
    /// length register, trigger, the three ticks of the frame sequencer, the
    /// sound enable register, and the sample of this cycle.
    pub fn update(&mut self, gb: &mut GameBoy, clocks: FrameSequencerClocks, cycles_elapsed: u8)
        requires
            old(gb).wf(),
            old(self).wf(),
        ensures
            final(gb).wf(),
            final(self).wf(),
            final(self).samples_accumulated == 1,
            *final(self) == old(self).updated(old(gb)@.memory, clocks, cycles_elapsed),
            final(gb)@ == old(gb)@.with_memory(
                old(self).updated_memory(old(gb)@.memory, clocks, cycles_elapsed),
            ),
    {
        self.advance_timer(gb, cycles_elapsed);
        self.reload_length(gb);
        if self.trigger_event_seen(gb) {
            self.trigger(gb);
        }
        self.tick_length(gb, clocks);
        self.tick_envelope(gb, clocks);
        self.tick_sweep(gb, clocks);
        self.publish_enable(gb);
        self.accumulate(gb);
    }

    /// Computes the new frequency of a sweep step and disables the channel
    /// if it is 2048 or more.
    pub fn calculate_sweep_frequency(&mut self, sweep_values: SweepValues) -> (new_frequency: u32)
        requires
            old(self).wf(),
            sweep_values.shift < 8,
        ensures
            final(self).wf(),
            new_frequency == old(self).sweep_frequency(sweep_values),
            new_frequency < 4096,
            *final(self) == old(self).sweep_checked(sweep_values),
    {
        proof {
            lemma_shift_right_bound(self.shadow_freqency, sweep_values.shift);
        }
        let mut new_frequency = self.shadow_freqency >> sweep_values.shift;
        if sweep_values.direction {
            new_frequency = self.shadow_freqency - new_frequency;
        } else {
            new_frequency = self.shadow_freqency + new_frequency;
        }
        if new_frequency > 2047 {
            self.disabled = true;
        }
        new_frequency
    }

    /// Takes the averages of the samples since the last call, left and
    /// right, and starts the next average.
    pub fn sample(&mut self) -> (r: (i8, i8))
        requires
            old(self).wf(),
            0 < old(self).samples_accumulated <= i32::MAX,
        ensures
            final(self).wf(),
            r.0 == old(self).spec_sample().0,
            r.1 == old(self).spec_sample().1,
            *final(self) == (SoundChannel {
                left_accumulator: 0,
                right_accumulator: 0,
                samples_accumulated: 0,
                ..*old(self)
            }),
    {
        let count = self.samples_accumulated as i32;
        let left_sample = self.left_accumulator / count;
        let right_sample = self.right_accumulator / count;
        assert(-128 <= left_sample <= 127 && -128 <= right_sample <= 127) by (nonlinear_arith)
            requires
                count >= 1,
                -128 <= self.left_accumulator <= 127,
                -128 <= self.right_accumulator <= 127,
                left_sample == div_toward_zero(self.left_accumulator as int, count as int),
                right_sample == div_toward_zero(self.right_accumulator as int, count as int),
        ;
        self.left_accumulator = 0;
        self.right_accumulator = 0;
        self.samples_accumulated = 0;
        (left_sample as i8, right_sample as i8)
    }

    pub fn get_frequency(&self, gb: &GameBoy) -> (timer: u32)
        requires
            gb.wf(),
        ensures
            timer == self.frequency(gb@.memory),
            timer < 2048,
    {
        let timer_hi = gb.memory.get_register(self.frequency_hi_register);
        let timer_lo = gb.memory.get_register(self.frequency_lo_register);
        ((timer_hi % 8) as u32) * 256 + (timer_lo as u32)
    }

    pub fn set_frequency(&self, gb: &mut GameBoy, new_frequency: u32)
        requires
            old(gb).wf(),
        ensures
            final(gb).wf(),
            final(gb)@ == old(gb)@.with_memory(
                self.frequency_written(old(gb)@.memory, new_frequency),
            ),
    {
        let existing_hi = gb.memory.get_register(self.frequency_hi_register);
        gb.memory.set_register(
            self.frequency_hi_register,
            ((new_frequency / 256) % 8) as u8 + (existing_hi / 8) * 8,
        );
        gb.memory.set_register(self.frequency_lo_register, (new_frequency % 256) as u8);
    }

    /// Loads the sweep timer from the sweep register.
    pub fn reload_sweep_timer(&mut self, gb: &GameBoy, sweep_register: Register) -> (sweep_values:
        SweepValues)
        requires
            gb.wf(),
        ensures
            sweep_values == SweepValues::spec_from_register(gb@.memory.register(sweep_register)),
            sweep_values.shift < 8,
            *final(self) == (SoundChannel {
                sweep_timer: SoundChannel::sweep_timer_start(sweep_values),
                ..*old(self)
            }),
    {
        let sweep_values = SweepValues::from_register(gb.memory.get_register(sweep_register));
        self.sweep_timer = if sweep_values.period != 0 {
            sweep_values.period
        } else {
            8
        };
        sweep_values
    }
}

/// The quotient of a division that rounds toward zero.
pub open spec fn div_toward_zero(a: int, b: int) -> int {
    if a >= 0 {
        a / b
    } else {
        -((-a) / b)
    }
}

/// One output byte: the mean of the three channel samples, scaled by a
/// master volume from 0 to 7 in eighths, and moved to the middle of the range
/// of a byte.
pub open spec fn mixed_sample(sample1: int, sample2: int, sample3: int, volume: u8) -> u8 {
    (div_toward_zero(div_toward_zero(sample1 + sample2 + sample3, 3) * volume, 8) + 127) as u8
}

/// The sound system with the address space it works on and the bytes it has
/// put out.
pub struct SoundRun {
    pub sound: SoundController,
    pub memory: MemoryView,
    pub output: Seq<u8>,
}

/// The sound system: the frame sequencer, the two square channels and the
/// wave channel, and the count of cycles that times the output samples.
#[derive(Copy, Clone, Debug, PartialEq, Eq, Structural)]
pub struct SoundController {
    pub total_cycle_count: u32,
    pub last_sample_output: i64,
    pub frame_sequencer: FrameSequencer,
    pub channel_one: SoundChannel,
    pub channel_two: SoundChannel,
    pub channel_three: SoundChannel,
    pub frequency: u32,
}

impl SoundController {
    pub open spec fn wf(self) -> bool {
        &&& self.channel_one.wf()
        &&& self.channel_two.wf()
        &&& self.channel_three.wf()
        &&& 60 <= self.frequency <= 4_213_499
    }

    /// The number of cycles between two output samples.
    pub open spec fn sampling_rate(self) -> u32 {
        70224u32 / (self.frequency / 60)
    }

    /// Whether the cycle count has reached the next output sample.
    pub open spec fn sample_due(self) -> bool {
        self.total_cycle_count / self.sampling_rate() > self.last_sample_output
    }

    /// The sound system right after start.
    pub open spec fn spec_new(frequency: u32) -> SoundController {
        SoundController {
            total_cycle_count: 0,
            last_sample_output: -1i64,
            frame_sequencer: FrameSequencer { total_cycle_count: 0, frame_sequencer_clock: 0 },
            channel_one: SoundController::spec_channel(
                ChannelType::Square(
                    SquareWave {
                        length_duty_register: Register::Channel1LengthDuty,
                        duty_position: 0,
                    },
                ),
                Some(Register::Channel1Sweep),
                Some(Register::Channel1VolumeEnvelope),
                Register::Channel1FrequencyLo,
                Register::Channel1FrequencyHi,
                TriggerSource::Channel1,
                0b0000_0001,
                0b0001_0000,
                0b0000_0001,
            ),
            channel_two: SoundController::spec_channel(
                ChannelType::Square(
                    SquareWave {
                        length_duty_register: Register::Channel2LengthDuty,
                        duty_position: 0,
                    },
                ),
                None,
                Some(Register::Channel2VolumeEnvelope),
                Register::Channel2FrequencyLo,
                Register::Channel2FrequencyHi,
                TriggerSource::Channel2,
                0b0000_0010,
                0b0010_0000,
                0b0000_0010,
            ),
            channel_three: SoundController::spec_channel(
                ChannelType::Custom(
                    CustomWave {
                        length_register: Register::Channel3Length,
                        volume_shift_register: Register::Channel3VolumeCode,
                        position_counter: 0,
                        sample_buffer: 0,
                    },
                ),
                None,
                None,
                Register::Channel3FrequencyLo,
                Register::Channel3FrequencyHi,
                TriggerSource::Channel3,
                0b0000_0100,
                0b0100_0000,
                0b0000_0100,
            ),
            frequency,
        }
    }

    /// A channel right after start.
    pub open spec fn spec_channel(
        channel_type: ChannelType,
        sweep_register: Option<Register>,
        volume_envelope_register: Option<Register>,
        frequency_lo_register: Register,
        frequency_hi_register: Register,
        check_trigger_event: TriggerSource,
        channel_enable_mask: u8,
        left_output_mask: u8,
        right_output_mask: u8,
    ) -> SoundChannel {
        SoundChannel {
            frequency_timer: 0,
            period_timer: 0,
            length_timer: 0,
            prev_length_counter: 0,
            envelope_volume: 0,
            disabled: false,
            sweep_enabled: false,
            shadow_freqency: 0,
            sweep_timer: 0,
            channel_type,
            sweep_register,
            volume_envelope_register,
            frequency_lo_register,
            frequency_hi_register,
            check_trigger_event,
            left_accumulator: 0,
            right_accumulator: 0,
            samples_accumulated: 0,
            channel_enable_mask,
            left_output_mask,
            right_output_mask,
        }
    }

    /// The sound system after the three channels saw one cycle, before it
    /// looks at its output.
    pub open spec fn channels_stepped(self, m: MemoryView) -> SoundController {
        let clocks = self.frame_sequencer.spec_clocks(1);
        let m1 = self.channel_one.updated_memory(m, clocks, 1);
        let m2 = self.channel_two.updated_memory(m1, clocks, 1);
        SoundController {
            frame_sequencer: self.frame_sequencer.spec_update(1),
            channel_one: self.channel_one.updated(m, clocks, 1),
            channel_two: self.channel_two.updated(m1, clocks, 1),
            channel_three: self.channel_three.updated(m2, clocks, 1),
            total_cycle_count: self.total_cycle_count.wrapping_add(1),
            ..self
        }
    }

    /// The address space after the three channels saw one cycle.
    pub open spec fn channels_memory(self, m: MemoryView) -> MemoryView {
        let clocks = self.frame_sequencer.spec_clocks(1);
        let m1 = self.channel_one.updated_memory(m, clocks, 1);
        let m2 = self.channel_two.updated_memory(m1, clocks, 1);
        self.channel_three.updated_memory(m2, clocks, 1)
    }

    /// The sound system after an output sample was taken.
    pub open spec fn sampled(self) -> SoundController {
        SoundController {
            channel_one: SoundChannel {
                left_accumulator: 0,
                right_accumulator: 0,
                samples_accumulated: 0,
                ..self.channel_one
            },
            channel_two: SoundChannel {
                left_accumulator: 0,
                right_accumulator: 0,
                samples_accumulated: 0,
                ..self.channel_two
            },
            channel_three: SoundChannel {
                left_accumulator: 0,
                right_accumulator: 0,
                samples_accumulated: 0,
                ..self.channel_three
            },
            last_sample_output: (self.total_cycle_count / self.sampling_rate()) as i64,
            ..self
        }
    }

    /// The two bytes of an output sample, left then right. The master
    /// volumes are bits 6 to 4 and bits 2 to 0 of the channel control register.
    pub open spec fn sample_bytes(self, m: MemoryView) -> Seq<u8> {
        seq![
            mixed_sample(
                self.channel_one.spec_sample().0,
                self.channel_two.spec_sample().0,
                self.channel_three.spec_sample().0,
                (m.mem[0xFF24] / 16) % 8,
            ),
            mixed_sample(
                self.channel_one.spec_sample().1,
                self.channel_two.spec_sample().1,
                self.channel_three.spec_sample().1,
                m.mem[0xFF24] % 8,
            ),
        ]
    }

    /// The sound system, its address space and its output after one cycle.
    pub open spec fn cycle(run: SoundRun) -> SoundRun {
        let stepped = run.sound.channels_stepped(run.memory);
        let memory = run.sound.channels_memory(run.memory);
        if stepped.sample_due() {
            SoundRun {
                sound: stepped.sampled(),
                memory,
                output: run.output + stepped.sample_bytes(memory),
            }
        } else {
            SoundRun { sound: stepped, memory, output: run.output }
        }
    }

    /// The sound system, its address space and its output after `n` cycles.
    pub open spec fn cycles(run: SoundRun, n: nat) -> SoundRun
        decreases n,
    {
        if n == 0 {
            run
        } else {
            SoundController::cycle(SoundController::cycles(run, (n - 1) as nat))
        }
    }

    /// A sound system that puts out `frequency` samples a second. Between
    /// one and 70,224 samples fall into a frame: the frequency is at least 60
    /// and at most 4,213,499.
    pub fn new(frequency: u32) -> (r: SoundController)
        requires
            60 <= frequency <= 4_213_499,
        ensures
            r.wf(),
            r == SoundController::spec_new(frequency),
    {
        SoundController {
            total_cycle_count: 0,
            last_sample_output: -1,
            frame_sequencer: FrameSequencer::new(),
            channel_one: SoundChannel::new(
                ChannelType::Square(SquareWave::new(Register::Channel1LengthDuty)),
                Some(Register::Channel1Sweep),
                Some(Register::Channel1VolumeEnvelope),
                Register::Channel1FrequencyLo,
                Register::Channel1FrequencyHi,
                TriggerSource::Channel1,
                0b0000_0001,
                0b0001_0000,
                0b0000_0001,
            ),
            channel_two: SoundChannel::new(
                ChannelType::Square(SquareWave::new(Register::Channel2LengthDuty)),
                None,
                Some(Register::Channel2VolumeEnvelope),
                Register::Channel2FrequencyLo,
                Register::Channel2FrequencyHi,
                TriggerSource::Channel2,
                0b0000_0010,
                0b0010_0000,
                0b0000_0010,
            ),
            channel_three: SoundChannel::new(
                ChannelType::Custom(
                    CustomWave::new(Register::Channel3Length, Register::Channel3VolumeCode),
                ),
                None,
                None,
                Register::Channel3FrequencyLo,
                Register::Channel3FrequencyHi,
                TriggerSource::Channel3,
                0b0000_0100,
                0b0100_0000,
                0b0000_0100,
            ),
            frequency,
        }
    }

    /// Advances the sound system by the cycles of one instruction and
    /// appends the output samples that fell due to `sound_buffer`.
    pub fn update(&mut self, gb: &mut GameBoy, sound_buffer: &mut Vec<u8>, cycles_elapsed: u8)
        requires
            old(self).wf(),
            old(gb).wf(),
        ensures
            final(self).wf(),
            final(gb).wf(),
            *final(self) == SoundController::cycles(
                SoundRun {
                    sound: *old(self),
                    memory: old(gb)@.memory,
                    output: old(sound_buffer)@,
                },
                cycles_elapsed as nat,
            ).sound,
            final(gb)@ == old(gb)@.with_memory(
                SoundController::cycles(
                    SoundRun {
                        sound: *old(self),
                        memory: old(gb)@.memory,
                        output: old(sound_buffer)@,
                    },
                    cycles_elapsed as nat,
                ).memory,
            ),
            final(sound_buffer)@ == SoundController::cycles(
                SoundRun {
                    sound: *old(self),
                    memory: old(gb)@.memory,
                    output: old(sound_buffer)@,
                },
                cycles_elapsed as nat,
            ).output,
    {
        let ghost start = SoundRun {
            sound: *self,
            memory: gb@.memory,
            output: sound_buffer@,
        };
        let mut i: u8 = 0;
        while i < cycles_elapsed
            invariant
                i <= cycles_elapsed,
                self.wf(),
                gb.wf(),
                gb@ == old(gb)@.with_memory(gb@.memory),
                (SoundRun { sound: *self, memory: gb@.memory, output: sound_buffer@ })
                    == SoundController::cycles(start, i as nat),
            decreases cycles_elapsed - i,
        {
            let clocks = self.frame_sequencer.update(1);
            self.channel_one.update(gb, clocks, 1);
            self.channel_two.update(gb, clocks, 1);
            self.channel_three.update(gb, clocks, 1);
            self.total_cycle_count = self.total_cycle_count.wrapping_add(1);
            self.output_sample(gb, sound_buffer);
            i += 1;
        }
    }

    /// Puts out one sample, left then right, when the cycle count has
    /// reached the next one.
    pub fn output_sample(&mut self, gb: &GameBoy, sound_buffer: &mut Vec<u8>)
        requires
            old(self).wf(),
            gb.wf(),
            0 < old(self).channel_one.samples_accumulated <= i32::MAX,
            0 < old(self).channel_two.samples_accumulated <= i32::MAX,
            0 < old(self).channel_three.samples_accumulated <= i32::MAX,
        ensures
            final(self).wf(),
            *final(self) == if old(self).sample_due() {
                old(self).sampled()
            } else {
                *old(self)
            },
            final(sound_buffer)@ == if old(self).sample_due() {
                old(sound_buffer)@ + old(self).sample_bytes(gb@.memory)
            } else {
                old(sound_buffer)@
            },
    {
        let per_frame = self.frequency / 60;
        assert(70224u32 / per_frame >= 1) by (nonlinear_arith)
            requires
                1 <= per_frame <= 70224,
        ;
        let sampling_rate = CLOCKS_PER_FRAME / per_frame;
        let current_sample = self.total_cycle_count / sampling_rate;
        let do_output_new_sample = current_sample as i64 > self.last_sample_output;
        if do_output_new_sample {
            let channel_control = gb.memory.get_register(Register::ChannelControl);
            let left_volume = (channel_control / 16) % 8;
            let right_volume = channel_control % 8;
            let sample1 = self.channel_one.sample();
            let sample2 = self.channel_two.sample();
            let sample3 = self.channel_three.sample();
            let left_sample = mix(sample1.0, sample2.0, sample3.0, left_volume);
            let right_sample = mix(sample1.1, sample2.1, sample3.1, right_volume);
            sound_buffer.push(left_sample);
            sound_buffer.push(right_sample);
            self.last_sample_output = current_sample as i64;
            assert(sound_buffer@ =~= old(sound_buffer)@ + old(self).sample_bytes(gb@.memory));
        }
    }
}

/// Mixes the samples of the three channels into one output byte.
pub fn mix(sample1: i8, sample2: i8, sample3: i8, volume: u8) -> (r: u8)
    requires
        volume < 8,
    ensures
        r == mixed_sample(sample1 as int, sample2 as int, sample3 as int, volume),
{
    let mean: i16 = (sample1 as i16 + sample2 as i16 + sample3 as i16) / 3i16;
    assert(mean == div_toward_zero(sample1 + sample2 + sample3, 3));
    assert(-128 <= mean <= 127);
    assert(-896 <= mean * volume <= 889) by (nonlinear_arith)
        requires
            -128 <= mean <= 127,
            0 <= volume < 8,
    ;
    let scaled: i32 = mean as i32 * volume as i32 / 8;
    assert(scaled == div_toward_zero(mean * volume, 8));
    (scaled + 127) as u8
}

} // verus!
