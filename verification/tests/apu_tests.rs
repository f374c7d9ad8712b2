use nes_core::apu::APU;

#[test]
fn length_load_uses_the_table() {
    let mut apu = APU::new();
    apu.write_register(0x4015, 0x01); // enable pulse 1
    // Load index 3 (value 0b00011_000) selects table entry 2.
    apu.write_register(0x4003, 0x18);
    assert_eq!(apu.pulse1.length_counter, 2);
    // Load index 1 selects 254.
    apu.write_register(0x4003, 0x08);
    assert_eq!(apu.pulse1.length_counter, 254);
}

#[test]
fn length_counter_silences_the_channel() {
    let mut apu = APU::new();
    apu.write_register(0x4015, 0x01);
    apu.write_register(0x4000, 0x1F); // constant volume 15
    apu.write_register(0x4002, 0x01); // timer low
    apu.write_register(0x4003, 0x18); // length 2, restarts the duty step
    apu.pulse1.timer_value = 1;
    let level = apu.pulse1.tick();
    assert_eq!(level, 15); // duty pattern 0 is high at step 1
    // Two half-frame events exhaust the counter; the channel goes silent.
    apu.pulse1.half_frame();
    apu.pulse1.half_frame();
    assert_eq!(apu.pulse1.length_counter, 0);
    assert_eq!(apu.pulse1.tick(), 0);
}

#[test]
fn frame_sequencer_fires_half_frame_at_14913() {
    let mut apu = APU::new();
    apu.write_register(0x4015, 0x01);
    apu.write_register(0x4000, 0x1F); // halt clear, constant volume
    apu.write_register(0x4003, 0x08); // length 254
    for _ in 0..14912 {
        apu.tick();
    }
    assert_eq!(apu.pulse1.length_counter, 254);
    apu.tick(); // cycle 14913: quarter and half frame
    assert_eq!(apu.pulse1.length_counter, 253);
}

#[test]
fn frame_interrupt_raised_at_sequence_end_unless_inhibited() {
    let mut apu = APU::new();
    for _ in 0..29829 {
        apu.tick();
    }
    assert!(apu.frame_irq);
    // Reading the status register clears it and reports bit 6.
    let status = apu.read_register(0x4015);
    assert_ne!(status & 0x40, 0);
    assert!(!apu.frame_irq);

    let mut inhibited = APU::new();
    inhibited.write_register(0x4017, 0x40);
    for _ in 0..29829 {
        inhibited.tick();
    }
    assert!(!inhibited.frame_irq);
}

#[test]
fn envelope_decays_from_15() {
    let mut apu = APU::new();
    apu.write_register(0x4015, 0x01);
    apu.write_register(0x4000, 0x00); // envelope mode, period 0
    apu.write_register(0x4003, 0x08); // restarts the envelope
    apu.pulse1.quarter_frame(); // start: decay = 15
    assert_eq!(apu.pulse1.envelope_decay, 15);
    apu.pulse1.quarter_frame(); // divider 0: decay counts down
    assert_eq!(apu.pulse1.envelope_decay, 14);
}

#[test]
fn triangle_wave_steps_down_from_15() {
    let mut apu = APU::new();
    apu.write_register(0x4015, 0x04); // enable triangle
    apu.write_register(0x4008, 0x7F); // linear reload 127
    apu.write_register(0x400A, 0x04); // timer
    apu.write_register(0x400B, 0x08); // length, sets the reload flag
    apu.triangle.quarter_frame(); // linear counter loads
    assert_eq!(apu.triangle.linear_counter, 127);
    apu.triangle.timer_value = 1;
    let level = apu.triangle.tick(); // steps to waveform position 1
    assert_eq!(level, 14);
}

#[test]
fn noise_shift_register_feeds_back_into_bit_14() {
    let mut apu = APU::new();
    apu.write_register(0x4015, 0x08); // enable noise
    apu.write_register(0x400C, 0x10); // constant volume 0
    apu.write_register(0x400E, 0x00); // mode 0, shortest period
    apu.write_register(0x400F, 0x08); // length
    apu.noise.timer_value = 1;
    assert_eq!(apu.noise.shift_register, 1);
    apu.noise.tick();
    // Feedback of bit 0 (1) and bit 1 (0) shifts a 1 into bit 14.
    assert_eq!(apu.noise.shift_register, 0x4000);
}

#[test]
fn dmc_moves_output_level_by_two_per_bit() {
    let mut apu = APU::new();
    apu.write_register(0x4015, 0x10); // enable the delta channel
    apu.write_register(0x4011, 0x40); // raw level 0x40
    apu.dmc.load_sample(0xFF);
    assert!(!apu.dmc.buffer_empty());
    apu.dmc.timer_value = 1;
    let level = apu.dmc.tick();
    assert_eq!(level, 0x42); // a 1 bit raises the level by 2
    assert!(apu.dmc.buffer_empty());
}

#[test]
fn dmc_raw_write_is_masked_to_seven_bits() {
    let mut apu = APU::new();
    apu.write_register(0x4011, 0xFF);
    assert_eq!(apu.dmc.output_level, 0x7F);
}

#[test]
fn status_reports_active_channels() {
    let mut apu = APU::new();
    apu.write_register(0x4015, 0x0F);
    apu.write_register(0x4003, 0x08); // pulse 1 length
    apu.write_register(0x400B, 0x08); // triangle length
    let status = apu.read_register(0x4015);
    assert_eq!(status & 0x0F, 0x05);
}

#[test]
fn sweep_rewrites_the_timer_period() {
    let mut apu = APU::new();
    apu.write_register(0x4015, 0x01);
    apu.write_register(0x4002, 0x40); // timer 0x040
    apu.write_register(0x4001, 0x81); // sweep on, period 0, shift 1
    apu.write_register(0x4003, 0x08);
    apu.pulse1.quarter_frame(); // reload the sweep counter
    apu.pulse1.quarter_frame(); // counter expires: timer += timer >> 1
    assert_eq!(apu.pulse1.timer, 0x60);
}
