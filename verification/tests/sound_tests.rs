use gameboy::game_boy::GameBoy;
use gameboy::memory::Register;
use gameboy::sound::{
    duty_pattern, mix, ChannelType, CustomWave, EnvelopeValues, FrameSequencer, SoundChannel,
    SoundController, SquareWave, SweepValues, TriggerSource,
};

fn machine() -> GameBoy {
    let mut gb = GameBoy::new();
    gb.power_on();
    gb
}

fn square_channel() -> SoundChannel {
    SoundChannel::new(
        ChannelType::Square(SquareWave::new(Register::Channel1LengthDuty)),
        Some(Register::Channel1Sweep),
        Some(Register::Channel1VolumeEnvelope),
        Register::Channel1FrequencyLo,
        Register::Channel1FrequencyHi,
        TriggerSource::Channel1,
        0b0000_0001,
        0b0001_0000,
        0b0000_0001,
    )
}

#[test]
fn register_fields() {
    let sweep = SweepValues::from_register(0b0101_1011);
    assert_eq!((sweep.period, sweep.shift, sweep.direction), (5, 3, true));
    let sweep = SweepValues::from_register(0b1000_0111);
    assert_eq!((sweep.period, sweep.shift, sweep.direction), (0, 7, false));
    let envelope = EnvelopeValues::from_register(0xF3);
    assert_eq!((envelope.initial_volume, envelope.add_mode, envelope.initial_period), (15, false, 3));
    let envelope = EnvelopeValues::from_register(0x0F);
    assert_eq!((envelope.initial_volume, envelope.add_mode, envelope.initial_period), (0, true, 7));
    assert_eq!(duty_pattern(0), 0b0000_0001);
    assert_eq!(duty_pattern(1), 0b0000_0011);
    assert_eq!(duty_pattern(2), 0b0000_1111);
    assert_eq!(duty_pattern(3), 0b1111_1100);
}

#[test]
fn mixing() {
    assert_eq!(mix(10, 20, 30, 7), 144);
    assert_eq!(mix(-10, -20, -30, 7), 110);
    assert_eq!(mix(0, 0, 0, 0), 127);
    assert_eq!(mix(100, 100, 100, 0), 127);
    assert_eq!(mix(127, 127, 127, 7), 238);
    assert_eq!(mix(-128, -128, -128, 7), 15);
    assert_eq!(mix(1, 1, 0, 7), 127);
    assert_eq!(mix(-1, -1, 0, 7), 127);
    assert_eq!(mix(105, -105, 9, 4), 128);
}

#[test]
fn frame_sequencer_subclocks() {
    let mut sequencer = FrameSequencer::new();
    let first = sequencer.update(1);
    assert_eq!((first.length, first.envelope, first.sweep), (true, false, false));
    let mut lengths = 0;
    let mut envelopes = 0;
    let mut sweeps = 0;
    for _ in 1..(8 * 8192) {
        let clocks = sequencer.update(1);
        lengths += clocks.length as u32;
        envelopes += clocks.envelope as u32;
        sweeps += clocks.sweep as u32;
    }
    assert_eq!(sequencer.total_cycle_count, 8 * 8192);
    assert_eq!(sequencer.frame_sequencer_clock, 8);
    assert_eq!((lengths, envelopes, sweeps), (4, 1, 2));
}

#[test]
fn wave_forms() {
    let mut gb = machine();
    let mut square = ChannelType::Square(SquareWave::new(Register::Channel1LengthDuty));
    gb.memory.set_register(Register::Channel1LengthDuty, 0b1000_0101);
    assert_eq!(square.reload_frequency_counter(2047), 4);
    assert_eq!(square.reload_frequency_counter(0), 8192);
    assert_eq!(square.length_counter(&gb), 5);
    assert_eq!(square.new_length_timer(5), 59);
    assert_eq!(square.sample(&gb, 7, 15), 105);
    assert_eq!(square.sample(&gb, 3, 5), 15);
    for _ in 0..4 {
        square.cycle(&gb);
    }
    assert_eq!(square.sample(&gb, 3, 5), -15);
    for _ in 0..4 {
        square.cycle(&gb);
    }
    assert_eq!(square, ChannelType::Square(SquareWave::new(Register::Channel1LengthDuty)));
    let mut wave = ChannelType::Custom(
        CustomWave::new(Register::Channel3Length, Register::Channel3VolumeCode),
    );
    gb.memory.set_byte(0xFF30, 0xF1);
    gb.memory.set_register(Register::Channel3Length, 200);
    gb.memory.set_register(Register::Channel3VolumeCode, 0b0010_0000);
    assert_eq!(wave.reload_frequency_counter(2047), 2);
    assert_eq!(wave.length_counter(&gb), 200);
    assert_eq!(wave.new_length_timer(200), 56);
    assert_eq!(wave.sample(&gb, 7, 0), -98);
    wave.cycle(&gb);
    assert_eq!(wave.sample(&gb, 7, 0), -84);
    for _ in 0..31 {
        wave.cycle(&gb);
    }
    assert_eq!(wave.sample(&gb, 7, 0), 112);
    gb.memory.set_register(Register::Channel3VolumeCode, 0b0100_0000);
    assert_eq!(wave.sample(&gb, 7, 0), 56);
    gb.memory.set_register(Register::Channel3VolumeCode, 0b0110_0000);
    assert_eq!(wave.sample(&gb, 1, 0), 4);
    gb.memory.set_register(Register::Channel3VolumeCode, 0);
    assert_eq!(wave.sample(&gb, 7, 0), 0);
    wave.trigger_event();
    match wave {
        ChannelType::Custom(custom) => assert_eq!(custom.position_counter, 0),
        ChannelType::Square(_) => panic!("the wave channel changed its kind"),
    }
}

#[test]
fn frequency_registers() {
    let mut gb = machine();
    let channel = square_channel();
    gb.memory.set_register(Register::Channel1FrequencyHi, 0b1100_0101);
    gb.memory.set_register(Register::Channel1FrequencyLo, 0x34);
    assert_eq!(channel.get_frequency(&gb), 0x534);
    channel.set_frequency(&mut gb, 0x2A7);
    assert_eq!(gb.memory.get_register(Register::Channel1FrequencyHi), 0b1100_0010);
    assert_eq!(gb.memory.get_register(Register::Channel1FrequencyLo), 0xA7);
    assert_eq!(channel.get_frequency(&gb), 0x2A7);
}

#[test]
fn trigger_loads_envelope_length_and_sweep() {
    let mut gb = machine();
    let mut channel = square_channel();
    gb.memory.set_register(Register::Channel1VolumeEnvelope, 0xA3);
    gb.memory.set_register(Register::Channel1Sweep, 0b0010_0001);
    gb.memory.set_register(Register::Channel1FrequencyHi, 0x04);
    gb.memory.set_register(Register::Channel1FrequencyLo, 0x00);
    channel.disabled = true;
    channel.trigger(&gb);
    assert_eq!(channel.envelope_volume, 10);
    assert_eq!(channel.period_timer, 3);
    assert_eq!(channel.length_timer, 64);
    assert_eq!(channel.shadow_freqency, 0x400);
    assert_eq!(channel.sweep_timer, 2);
    assert!(channel.sweep_enabled);
    assert!(!channel.disabled);
    gb.memory.set_register(Register::Channel1FrequencyHi, 0x07);
    gb.memory.set_register(Register::Channel1FrequencyLo, 0xFF);
    channel.trigger(&gb);
    assert!(channel.disabled);
    assert_eq!(channel.length_timer, 64);
}

#[test]
fn sweep_moves_the_frequency() {
    let mut channel = square_channel();
    channel.shadow_freqency = 0x400;
    let up = SweepValues { period: 1, shift: 2, direction: false };
    assert_eq!(channel.calculate_sweep_frequency(up), 0x500);
    assert!(!channel.disabled);
    let down = SweepValues { period: 1, shift: 2, direction: true };
    assert_eq!(channel.calculate_sweep_frequency(down), 0x300);
    channel.shadow_freqency = 0x7FF;
    let over = SweepValues { period: 1, shift: 1, direction: false };
    assert_eq!(channel.calculate_sweep_frequency(over), 0x7FF + 0x3FF);
    assert!(channel.disabled);
}

#[test]
fn length_and_envelope_ticks() {
    let mut gb = machine();
    let mut sequencer = FrameSequencer::new();
    let length_tick = sequencer.update(1);
    let mut channel = square_channel();
    gb.memory.set_register(Register::Channel1FrequencyHi, 0x40);
    channel.length_timer = 2;
    channel.tick_length(&gb, length_tick);
    assert_eq!((channel.length_timer, channel.disabled), (1, false));
    channel.tick_length(&gb, length_tick);
    assert_eq!((channel.length_timer, channel.disabled), (0, true));
    channel.tick_length(&gb, length_tick);
    assert_eq!(channel.length_timer, 0);
    gb.memory.set_register(Register::Channel1FrequencyHi, 0x00);
    channel.length_timer = 2;
    channel.tick_length(&gb, length_tick);
    assert_eq!(channel.length_timer, 2);
    let mut envelope_tick = length_tick;
    envelope_tick.envelope = true;
    gb.memory.set_register(Register::Channel1VolumeEnvelope, 0x0A);
    channel.envelope_volume = 14;
    channel.period_timer = 2;
    channel.tick_envelope(&gb, envelope_tick);
    assert_eq!((channel.envelope_volume, channel.period_timer), (14, 1));
    channel.tick_envelope(&gb, envelope_tick);
    assert_eq!((channel.envelope_volume, channel.period_timer), (15, 2));
    channel.tick_envelope(&gb, envelope_tick);
    channel.tick_envelope(&gb, envelope_tick);
    assert_eq!(channel.envelope_volume, 15);
    gb.memory.set_register(Register::Channel1VolumeEnvelope, 0x01);
    channel.envelope_volume = 1;
    channel.period_timer = 1;
    channel.tick_envelope(&gb, envelope_tick);
    channel.tick_envelope(&gb, envelope_tick);
    assert_eq!(channel.envelope_volume, 0);
}

#[test]
fn samples_fall_due_at_the_sampling_rate() {
    let mut gb = machine();
    let mut sound = SoundController::new(48000);
    let mut audio = Vec::new();
    for _ in 0..(70224 / 4) {
        sound.update(&mut gb, &mut audio, 4);
    }
    assert_eq!(sound.total_cycle_count, 70224);
    assert_eq!(audio.len(), 2 * 808);
    assert_eq!(sound.last_sample_output, 807);
    let mut sound = SoundController::new(60);
    let mut audio = Vec::new();
    for _ in 0..(70224 / 4) {
        sound.update(&mut gb, &mut audio, 4);
    }
    assert_eq!(audio.len(), 4);
    let mut sound = SoundController::new(4_213_499);
    let mut audio = Vec::new();
    for _ in 0..25 {
        sound.update(&mut gb, &mut audio, 4);
    }
    assert_eq!(audio.len(), 2 * 100);
}

#[test]
fn master_switch_silences_the_output() {
    let mut gb = machine();
    gb.memory.set_register(Register::SoundEnable, 0x00);
    let mut sound = SoundController::new(48000);
    let mut audio = Vec::new();
    for _ in 0..1000 {
        sound.update(&mut gb, &mut audio, 4);
    }
    assert!(!audio.is_empty());
    assert!(audio.iter().all(|b| *b == 127));
    assert_eq!(gb.memory.get_register(Register::SoundEnable) & 0x80, 0);
}

#[test]
fn square_channel_is_heard_after_a_trigger() {
    let mut gb = machine();
    gb.memory.set_register(Register::SoundEnable, 0x80);
    gb.memory.set_register(Register::ChannelControl, 0x77);
    gb.memory.set_register(Register::SoundOutputTerminal, 0x11);
    gb.memory.set_register(Register::Channel1VolumeEnvelope, 0xF0);
    gb.memory.set_register(Register::Channel1LengthDuty, 0x80);
    gb.memory.set_byte(0xFF13, 0x00);
    gb.memory.set_byte(0xFF14, 0x87);
    let mut sound = SoundController::new(48000);
    let mut audio = Vec::new();
    sound.update(&mut gb, &mut audio, 4);
    gb.memory.reset_triggers();
    assert_eq!(sound.channel_one.envelope_volume, 15);
    for _ in 0..2000 {
        sound.update(&mut gb, &mut audio, 4);
    }
    assert!(audio.iter().any(|b| *b == 127 + 30));
    assert!(audio.iter().any(|b| *b == 127 - 30));
    assert_eq!(gb.memory.get_register(Register::SoundEnable) & 0x01, 0x01);
}
