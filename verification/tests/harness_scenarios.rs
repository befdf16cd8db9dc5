use gameboy::cartridge::{CartridgeError, CartridgeType};
use gameboy::cpu::trace::{hex_digit_str, interrupt_name_of};
use gameboy::cpu::{Cpu, CpuError};
use gameboy::emulator::{
    DebugInput, DebugMode, Emulator, RunConfig, StepReason, TickReport,
};
use gameboy::input::{get_default_config, Button, Input, Key, KeyEvent};
use gameboy::memory::Memory;

fn image(program: &[u8]) -> Vec<u8> {
    let mut data = vec![0u8; 32768];
    for (i, b) in program.iter().enumerate() {
        data[0x100 + i] = *b;
    }
    data
}

fn emulator(config: RunConfig, program: &[u8]) -> Emulator {
    let mut emulator = Emulator::new(config);
    emulator.load_rom(image(program), String::from("game.gb")).unwrap();
    emulator
}

fn quiet() -> TickReport {
    TickReport {
        reload: false,
        ran: false,
        cycles: 0,
        stepping: StepReason::NoReason,
        print_cpu: false,
        flush_doctor: false,
        frame_ready: false,
    }
}

#[test]
fn trace_line_format() {
    let mut mem = Memory::new();
    let mut cpu = Cpu::new();
    mem.write_byte(0xC000, 0x3E);
    mem.write_byte(0xC001, 0xAB);
    mem.write_byte(0xC002, 0x00);
    mem.write_byte(0xC003, 0xFF);
    cpu.PC = 0xC000;
    assert_eq!(
        cpu.registers_doctor_str(&mem),
        "A:01 F:B0 B:00 C:13 D:00 E:D8 H:01 L:4D SP:FFFE PC:C000 PCMEM:3E,AB,00,FF"
    );
    assert_eq!(
        cpu.registers_str(&mem),
        "PC:C000 SP:FFFE A:01 F:1011 B:00 C:13 D:00 E:D8 H:01 L:4D nn:00AB"
    );
    cpu.fetch_decode(&mut mem).unwrap();
    assert_eq!(
        cpu.last_regs,
        "A:01 F:B0 B:00 C:13 D:00 E:D8 H:01 L:4D SP:FFFE PC:C000 PCMEM:3E,AB,00,FF"
    );
    assert_eq!(cpu.get_a(), 0xAB);
    assert_eq!(Cpu::clean_hex_8(0x0A), "0A");
    assert_eq!(Cpu::clean_hex_8(0xF0), "F0");
    assert_eq!(Cpu::clean_hex_16(0x00BC), "00BC");
    assert_eq!(Cpu::clean_hex_16(0xFFFE), "FFFE");
    assert_eq!(Cpu::clean_b_8(0xA5), "1010");
    assert_eq!(hex_digit_str(9), "9");
    assert_eq!(hex_digit_str(15), "F");
    assert_eq!(interrupt_name_of(0), "LCD vertical blanking impulse");
    assert_eq!(interrupt_name_of(2), "Timer overflow");
}

#[test]
fn trace_buffer_fills() {
    let mut mem = Memory::new();
    let mut cpu = Cpu::new();
    cpu.PC = 0xC000;
    // Nothing ran yet: no line.
    assert!(!cpu.write_doctor());
    assert!(cpu.doctor_buffer.is_empty());
    for i in 0..999 {
        cpu.PC = 0xC000;
        cpu.fetch_decode(&mut mem).unwrap();
        assert!(!cpu.write_doctor(), "line {i}");
    }
    cpu.PC = 0xC000;
    cpu.fetch_decode(&mut mem).unwrap();
    assert!(cpu.write_doctor());
    let lines = cpu.take_doctor_lines();
    assert_eq!(lines.len(), 1000);
    assert!(lines[0].starts_with("A:01 F:B0"));
    assert!(cpu.doctor_buffer.is_empty());
    // A halted processor leaves no line.
    cpu.HALT = true;
    assert!(!cpu.write_doctor());
    assert!(cpu.doctor_buffer.is_empty());
}

#[test]
fn keys_and_buttons() {
    let mut input = Input::new();
    for b in [Button::A, Button::Up, Button::Reset, Button::ToggleObjects] {
        assert!(!input.is_down(&b));
        assert!(!input.is_new_down(&b));
    }
    input.consume_keys(KeyEvent::KeyDown(Key::X));
    assert!(input.is_down(&Button::A));
    assert!(input.is_new_down(&Button::A));
    input.consume_keys(KeyEvent::KeyDown(Key::X));
    assert!(input.is_down(&Button::A));
    assert!(!input.is_new_down(&Button::A));
    input.consume_keys(KeyEvent::KeyUp(Key::X));
    assert!(!input.is_down(&Button::A));
    input.consume_keys(KeyEvent::KeyDown(Key::Unmapped));
    input.consume_keys(KeyEvent::Ignored);
    assert_eq!(input.controller_byte(), 0);
    input.set_button(Key::Z, true);
    input.set_button(Key::Down, true);
    assert_eq!(input.controller_byte(), 0b0010_0010);
    input.set_prev_keys();
    assert!(!input.is_new_down(&Button::B));
    assert!(input.is_down(&Button::B));

    let pairs = [
        (Key::Left, Button::Left, 6u8),
        (Key::Up, Button::Up, 4),
        (Key::Right, Button::Right, 7),
        (Key::Down, Button::Down, 5),
        (Key::Z, Button::B, 1),
        (Key::X, Button::A, 0),
        (Key::RShift, Button::Select, 2),
        (Key::Return, Button::Start, 3),
    ];
    for (key, button, bit) in pairs {
        assert_eq!(get_default_config(key), Some(button));
        let mut input = Input::new();
        input.set_button(key, true);
        assert_eq!(input.controller_byte(), 1 << bit);
    }
    assert_eq!(get_default_config(Key::R), Some(Button::Reset));
    assert_eq!(get_default_config(Key::D), Some(Button::DumpBgTiles));
    assert_eq!(get_default_config(Key::F8), Some(Button::Step));
    assert_eq!(get_default_config(Key::F9), Some(Button::Continue));
    assert_eq!(get_default_config(Key::F6), Some(Button::ToggleStepping));
    assert_eq!(get_default_config(Key::F1), Some(Button::ToggleBackground));
    assert_eq!(get_default_config(Key::F2), Some(Button::ToggleWindow));
    assert_eq!(get_default_config(Key::F3), Some(Button::ToggleObjects));
    assert_eq!(get_default_config(Key::Unmapped), None);
    assert_eq!(Button::ToggleObjects.position(), 15);
}

#[test]
fn initial_debug_mode() {
    let mut config = RunConfig::default();
    assert_eq!(Emulator::get_initial_debug_mode(&config), DebugMode::Off);
    config.use_stepping = true;
    assert_eq!(Emulator::get_initial_debug_mode(&config), DebugMode::Stepping);
    config.breakpoint_at_pc = 0x0150;
    assert_eq!(Emulator::get_initial_debug_mode(&config), DebugMode::Breakpoint(0x0150));
}

#[test]
fn loading_a_cartridge() {
    let mut emulator = Emulator::new(RunConfig::default());
    assert_eq!(
        emulator.load_rom(vec![0u8; 100], String::from("short.gb")),
        Err(CartridgeError::BadHeader)
    );
    assert_eq!(emulator.loaded_rom, "");
    let mut data = image(&[]);
    data[0x147] = 0x13;
    assert_eq!(
        emulator.load_rom(data, String::from("mbc3.gb")),
        Err(CartridgeError::UnsupportedMbc)
    );
    assert_eq!(emulator.loaded_rom, "");
    let header = emulator.load_rom(image(&[0x3C]), String::from("game.gb")).unwrap();
    assert_eq!(header.cartidge_type, CartridgeType::RomOnly);
    assert_eq!(header.rom_size, 32768);
    assert_eq!(header.ram_size, 0);
    assert_eq!(emulator.loaded_rom, "game.gb");
    assert_eq!(emulator.memory.read_byte(0x0100), 0x3C);
}

#[test]
fn a_tick_steps_the_processor_and_the_bus() {
    // INC A; JR -3
    let mut emulator = emulator(RunConfig::default(), &[0x3C, 0x18, 0xFD]);
    let keys = Input::new();
    let report = emulator.tick(&keys).unwrap();
    assert_eq!(report, TickReport { ran: true, cycles: 4, ..quiet() });
    assert_eq!(emulator.get_last_clock_t(), 4);
    assert_eq!(emulator.cpu.get_a(), 0x02);
    assert_eq!(emulator.memory.gpu.regs.clock, 4);
    let report = emulator.tick(&keys).unwrap();
    assert_eq!(report.cycles, 12);
    assert_eq!(emulator.cpu.PC, 0x0100);
    assert_eq!(emulator.memory.gpu.regs.clock, 16);
    // One frame of ticks raises VBlank once.
    emulator.memory.write_byte(0xFF0F, 0);
    let mut cycles = 16u32;
    let mut frames = 0;
    while cycles < 70224 {
        let report = emulator.tick(&keys).unwrap();
        cycles += report.cycles;
        assert_eq!(report.frame_ready, emulator.memory.frame_ready());
        if report.frame_ready {
            assert!(emulator.take_frame());
            frames += 1;
        } else {
            assert!(!emulator.take_frame());
        }
    }
    assert_eq!(frames, 1);
    assert_eq!(emulator.memory.read_byte(0xFF0F) & 1, 1);
}

#[test]
fn an_illegal_opcode_ends_the_run() {
    let mut emulator = emulator(RunConfig::default(), &[0x00, 0xDD]);
    let keys = Input::new();
    emulator.tick(&keys).unwrap();
    assert_eq!(
        emulator.tick(&keys),
        Err(CpuError::IllegalOpcode { pc: 0x0101, opcode: 0xDD })
    );
    assert_eq!(emulator.step(), Err(CpuError::IllegalOpcode { pc: 0x0101, opcode: 0xDD }));
}

#[test]
fn buttons_reach_the_joypad() {
    let mut emulator = emulator(RunConfig::default(), &[0x00, 0x00]);
    let mut keys = Input::new();
    keys.consume_keys(KeyEvent::KeyDown(Key::Return));
    emulator.memory.write_byte(0xFF00, 0x10);
    emulator.tick(&keys).unwrap();
    assert_eq!(emulator.memory.read_byte(0xFF00), 0x17);
}

#[test]
fn debugger_keys() {
    let mut emulator = emulator(RunConfig::default(), &[0x00; 16]);
    let mut keys = Input::new();
    keys.consume_keys(KeyEvent::KeyDown(Key::R));
    assert_eq!(emulator.tick(&keys), Ok(TickReport { reload: true, ..quiet() }));
    assert_eq!(emulator.cpu.PC, 0x0100);

    let mut keys = Input::new();
    keys.consume_keys(KeyEvent::KeyDown(Key::D));
    assert_eq!(emulator.tick(&keys), Ok(quiet()));
    assert!(emulator.debug.draw_tiles);
    assert!(emulator.draw_debug().is_some());
    assert!(!emulator.debug.draw_tiles);

    // Stepping: nothing runs until a step is asked for.
    let mut keys = Input::new();
    keys.consume_keys(KeyEvent::KeyDown(Key::F6));
    assert_eq!(emulator.tick(&keys), Ok(quiet()));
    assert_eq!(emulator.debug.debug_mode, DebugMode::Stepping);
    let idle = Input::new();
    assert_eq!(emulator.tick(&idle), Ok(quiet()));
    assert_eq!(emulator.cpu.PC, 0x0100);
    let mut keys = Input::new();
    keys.consume_keys(KeyEvent::KeyDown(Key::F8));
    assert_eq!(emulator.check_debug_input(&keys), DebugInput::Handled);
    assert!(emulator.debug.step_one);
    assert_eq!(emulator.tick(&idle).unwrap().ran, true);
    assert_eq!(emulator.cpu.PC, 0x0101);
    assert!(!emulator.debug.step_one);
    assert_eq!(emulator.tick(&idle), Ok(quiet()));
    // Continue leaves stepping.
    let mut keys = Input::new();
    keys.consume_keys(KeyEvent::KeyDown(Key::F9));
    assert_eq!(emulator.tick(&keys).unwrap().ran, true);
    assert_eq!(emulator.debug.debug_mode, DebugMode::Breakpoint(0));
    // The layers.
    let mut keys = Input::new();
    keys.consume_keys(KeyEvent::KeyDown(Key::F1));
    keys.consume_keys(KeyEvent::KeyDown(Key::F3));
    emulator.tick(&keys).unwrap();
    assert!(!emulator.memory.gpu.regs.show_background);
    assert!(emulator.memory.gpu.regs.show_window);
    assert!(!emulator.memory.gpu.regs.show_objects);
}

#[test]
fn breakpoints_begin_stepping() {
    let mut config = RunConfig::default();
    config.breakpoint_at_instruction_count = 2;
    config.use_doctor = true;
    let mut emulator = emulator(config, &[0x00; 16]);
    let keys = Input::new();
    assert!(emulator.tick(&keys).unwrap().ran);
    assert!(emulator.tick(&keys).unwrap().ran);
    assert_eq!(emulator.cpu.doctor_buffer.len(), 2);
    let report = emulator.tick(&keys).unwrap();
    assert_eq!(
        report,
        TickReport { stepping: StepReason::InstructionCount, flush_doctor: true, ..quiet() }
    );
    assert_eq!(emulator.debug.debug_mode, DebugMode::Stepping);
    assert!(emulator.config.print_cpu);
    assert_eq!(emulator.cpu.PC, 0x0102);
    assert_eq!(emulator.tick_debug(), StepReason::NoReason);

    // A breakpoint on PC stops a free-running debugger.
    let mut emulator = emulator_at_breakpoint();
    let report = emulator.tick(&keys).unwrap();
    assert!(report.ran && !report.print_cpu);
    let report = emulator.tick(&keys).unwrap();
    assert_eq!(report.stepping, StepReason::ProgramCounter);
    assert!(!report.ran);
    assert_eq!(emulator.cpu.PC, 0x0101);
}

fn emulator_at_breakpoint() -> Emulator {
    let mut emulator = emulator(RunConfig::default(), &[0x00; 16]);
    emulator.config.breakpoint_at_pc = 0x0101;
    emulator
}

#[test]
fn reset_returns_to_the_state_after_boot() {
    let mut emulator = emulator(RunConfig::default(), &[0x3C, 0x3C, 0x3C]);
    let keys = Input::new();
    emulator.tick(&keys).unwrap();
    emulator.tick(&keys).unwrap();
    emulator.memory.write_byte(0xC000, 0x12);
    emulator.reset();
    assert_eq!(emulator.cpu.PC, 0x0100);
    assert_eq!(emulator.cpu.AF, 0x01B0);
    assert_eq!(emulator.cpu.get_clock_t(), 1);
    assert_eq!(emulator.memory.read_byte(0xC000), 0x12);
    assert_eq!(emulator.memory.read_byte(0x0100), 0x3C);
    assert_eq!(emulator.loaded_rom, "game.gb");
}

#[test]
fn the_emulator_hands_out_what_to_draw() {
    let mut emulator = emulator(RunConfig::default(), &[0x18, 0xFE]);
    let keys = Input::new();
    assert!(emulator.draw().is_none());
    assert!(emulator.draw_debug().is_none());
    let mut cycles = 0u32;
    while cycles < 70224 {
        cycles += emulator.tick(&keys).unwrap().cycles;
    }
    let squares = emulator.draw().unwrap();
    assert_eq!(squares.len(), 160 * 144);
    assert!(emulator.draw().is_none());
    assert!(emulator.memory.draw_texture().is_none());
    while !emulator.memory.frame_ready() {
        emulator.tick(&keys).unwrap();
    }
    assert_eq!(emulator.draw_texture().unwrap().len(), 160 * 144 * 3);
    let mut dump = Input::new();
    dump.consume_keys(KeyEvent::KeyDown(Key::D));
    emulator.tick(&dump).unwrap();
    assert_eq!(emulator.draw_debug().unwrap().len(), (1024 + 384) * 64);
    assert!(emulator.draw_debug().is_none());
}

#[test]
fn error_messages() {
    assert_eq!(
        CpuError::IllegalOpcode { pc: 0x0101, opcode: 0xDD }.message(),
        "illegal opcode DD at PC 0101"
    );
    assert_eq!(CartridgeError::BadHeader.message(), "the cartridge image has no valid header");
    assert_eq!(
        CartridgeError::UnsupportedMbc.message(),
        "the cartridge's bank controller is not supported"
    );
}

#[test]
fn printing_the_last_step() {
    let mut mem = Memory::new();
    let mut cpu = Cpu::new();
    let out = cpu.print();
    assert!(out.instruction.is_none() && out.interrupt.is_none());
    mem.write_byte(0xC000, 0x07);
    cpu.PC = 0xC000;
    cpu.fetch_decode(&mut mem).unwrap();
    let out = cpu.print();
    assert_eq!(
        out.instruction.unwrap(),
        "RLCA      |op:07 A:01 F:B0 B:00 C:13 D:00 E:D8 H:01 L:4D SP:FFFE PC:C000 \
         PCMEM:07,00,00,00"
    );
    assert!(out.interrupt.is_none());
    // An interrupt.
    cpu.IME = true;
    mem.write_byte(0xFFFF, 0x04);
    mem.write_byte(0xFF0F, 0x04);
    cpu.fetch_decode(&mut mem).unwrap();
    assert_eq!(cpu.print().interrupt.unwrap(), "Interrupt triggered: Timer overflow");
    // An opcode that names no instruction.
    mem.write_byte(0xC000, 0xDD);
    cpu.PC = 0xC000;
    assert!(cpu.fetch_decode(&mut mem).is_err());
    let out = cpu.print();
    assert_eq!(out.instruction.unwrap(), "invalid opcode! 0x00dd");
    assert!(out.interrupt.is_none());
    // A halted processor prints nothing.
    cpu.HALT = true;
    let out = cpu.print();
    assert!(out.instruction.is_none() && out.interrupt.is_none());
}
