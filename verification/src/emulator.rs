//! The console as a whole: the processor and the bus stepped together,
//! with the debugger's stepping and breakpoints around them.
//!
//! The emulator does no input or output of its own. Each tick reports
//! what the host is to do: load the cartridge again, print the
//! processor, write out the trace.

use vstd::prelude::*;
use crate::cartridge::{header_of, header_ok, Cartridge, CartridgeError};
use crate::cpu::{Cpu, CpuError};
use crate::input::{Button, Input, InputView};
use crate::memory::gpu::{GpuRegs, GpuView};
use crate::memory::rom::{load_outcome, RomView};
use crate::memory::{Memory, MemoryView};
use crate::video::{channel, frame_paint, rgba_of, ColorScheme, Paint};

verus! {

#[derive(Clone, Copy, PartialEq, Eq, Debug, Structural)]
pub enum DebugMode {
    /// The processor runs freely.
    Off,
    /// The processor takes a step only when asked to.
    Stepping,
    /// The processor runs; the address is the breakpoint it was sent
    /// off with.
    Breakpoint(u16),
}

/// Why the debugger began stepping.
#[derive(Clone, Copy, PartialEq, Eq, Debug, Structural)]
pub enum StepReason {
    NoReason,
    /// The count of steps reached the configured one.
    InstructionCount,
    /// PC reached the configured breakpoint.
    ProgramCounter,
}

/// What the debugger's keys ask for.
#[derive(Clone, Copy, PartialEq, Eq, Debug, Structural)]
pub enum DebugInput {
    /// Load the cartridge again; nothing else happens in this tick.
    Reload,
    /// A key was dealt with; nothing else happens in this tick.
    Handled,
    /// Go on with the tick.
    Proceed,
}

/// What one tick did and what it leaves for the host to do.
#[derive(Clone, Copy, PartialEq, Eq, Debug, Structural)]
pub struct TickReport {
    /// The host is to reset the emulator and load the cartridge again.
    pub reload: bool,
    /// The processor took a step.
    pub ran: bool,
    /// The cycles of that step.
    pub cycles: u32,
    /// Why stepping began in this tick, if it did.
    pub stepping: StepReason,
    /// The host is to print the processor.
    pub print_cpu: bool,
    /// The host is to write out the buffered trace lines.
    pub flush_doctor: bool,
    /// A finished frame waits to be taken.
    pub frame_ready: bool,
}

pub struct RunConfig {
    pub path_to_rom: String,
    pub use_doctor: bool,
    pub breakpoint_at_pc: u16,
    pub breakpoint_at_instruction_count: u128,
    pub print_cpu: bool,
    pub use_stepping: bool,
}

impl Default for RunConfig {
    fn default() -> (config: RunConfig)
        ensures
            config.path_to_rom@.len() == 0,
            !config.use_doctor,
            config.breakpoint_at_pc == 0,
            config.breakpoint_at_instruction_count == 0,
            !config.print_cpu,
            !config.use_stepping,
    {
        RunConfig {
            path_to_rom: String::new(),
            use_doctor: false,
            breakpoint_at_pc: 0,
            breakpoint_at_instruction_count: 0,
            print_cpu: false,
            use_stepping: false,
        }
    }
}

/// The debugger's own state.
#[derive(Clone, Copy, PartialEq, Eq, Debug, Structural)]
pub struct DebugState {
    pub debug_mode: DebugMode,
    /// One step was asked for while stepping.
    pub step_one: bool,
    /// A dump of the tiles was asked for.
    pub draw_tiles: bool,
}

/// The mode the debugger starts in: stopped at nothing yet but armed
/// where a breakpoint is configured, stepping where that is configured,
/// else off.
pub open spec fn initial_debug_mode(config: RunConfig) -> DebugMode {
    if config.breakpoint_at_pc != 0 {
        DebugMode::Breakpoint(config.breakpoint_at_pc)
    } else if config.use_stepping {
        DebugMode::Stepping
    } else {
        DebugMode::Off
    }
}

impl DebugState {
    /// What the keys ask for: Reset before the tile dump before a
    /// single step; otherwise the tick goes on.
    pub open spec fn request(keys: InputView) -> DebugInput {
        if keys.is_new_down(Button::Reset) {
            DebugInput::Reload
        } else if keys.is_new_down(Button::DumpBgTiles) || keys.is_new_down(Button::Step) {
            DebugInput::Handled
        } else {
            DebugInput::Proceed
        }
    }

    /// The mode after the Continue key and then the stepping toggle are
    /// looked at: Continue leaves stepping for the breakpoint mode, and
    /// the toggle, held down, moves between stepping and off.
    pub open spec fn mode_after_keys(self, keys: InputView, breakpoint: u16) -> DebugMode {
        let continued = if keys.is_new_down(Button::Continue) && self.debug_mode
            == DebugMode::Stepping {
            DebugMode::Breakpoint(breakpoint)
        } else {
            self.debug_mode
        };
        if keys.is_down(Button::ToggleStepping) {
            if continued == DebugMode::Stepping {
                DebugMode::Off
            } else {
                DebugMode::Stepping
            }
        } else {
            continued
        }
    }

    /// The debugger after it has looked at the keys.
    pub open spec fn after_input(self, keys: InputView, breakpoint: u16) -> DebugState {
        if keys.is_new_down(Button::Reset) {
            self
        } else if keys.is_new_down(Button::DumpBgTiles) {
            DebugState { draw_tiles: true, ..self }
        } else if keys.is_new_down(Button::Step) {
            DebugState { step_one: true, ..self }
        } else {
            DebugState {
                debug_mode: self.mode_after_keys(keys, breakpoint),
                step_one: self.step_one && !(keys.is_new_down(Button::Continue) && self.debug_mode
                    == DebugMode::Stepping),
                ..self
            }
        }
    }
}

impl DebugState {
    /// Looks at the debugger's keys.
    pub fn handle_keys(&mut self, keys: &Input, breakpoint: u16) -> (request: DebugInput)
        requires
            keys.wf(),
        ensures
            request == DebugState::request(keys@),
            *final(self) == old(self).after_input(keys@, breakpoint),
    {
        if keys.is_new_down(&Button::Reset) {
            return DebugInput::Reload;
        }
        if keys.is_new_down(&Button::DumpBgTiles) {
            self.draw_tiles = true;
            return DebugInput::Handled;
        }
        if keys.is_new_down(&Button::Step) {
            self.step_one = true;
            return DebugInput::Handled;
        }
        let stepping: bool = match self.debug_mode {
            DebugMode::Stepping => true,
            _ => false,
        };
        if keys.is_new_down(&Button::Continue) && stepping {
            self.debug_mode = DebugMode::Breakpoint(breakpoint);
            self.step_one = false;
        }
        if keys.is_down(&Button::ToggleStepping) {
            let stepping_now: bool = match self.debug_mode {
                DebugMode::Stepping => true,
                _ => false,
            };
            self.debug_mode = if stepping_now {
                DebugMode::Off
            } else {
                DebugMode::Stepping
            };
        }
        DebugInput::Proceed
    }
}

/// The layers of the picture after their three keys are looked at: a
/// key newly down turns its layer on or off.
pub open spec fn layers_after_keys(regs: GpuRegs, keys: InputView) -> GpuRegs {
    GpuRegs {
        show_background: regs.show_background != keys.is_new_down(Button::ToggleBackground),
        show_window: regs.show_window != keys.is_new_down(Button::ToggleWindow),
        show_objects: regs.show_objects != keys.is_new_down(Button::ToggleObjects),
        ..regs
    }
}

/// The bus with the picture's registers replaced.
pub open spec fn with_gpu_regs(mem: MemoryView, regs: GpuRegs) -> MemoryView {
    MemoryView { gpu: GpuView { regs, ..mem.gpu }, ..mem }
}

/// Why a free-running debugger begins stepping before the next step,
/// if it does: the configured count of steps is reached, or PC is at
/// the configured breakpoint.
pub open spec fn stop_reason(mode: DebugMode, cpu: Cpu, config: RunConfig) -> StepReason {
    if mode != DebugMode::Off {
        StepReason::NoReason
    } else if config.breakpoint_at_instruction_count != 0 && cpu.operations
        == config.breakpoint_at_instruction_count {
        StepReason::InstructionCount
    } else if cpu.PC == config.breakpoint_at_pc && config.breakpoint_at_pc != 0 {
        StepReason::ProgramCounter
    } else {
        StepReason::NoReason
    }
}

/// A report of a tick in which nothing ran.
pub open spec fn quiet_report() -> TickReport {
    TickReport {
        reload: false,
        ran: false,
        cycles: 0,
        stepping: StepReason::NoReason,
        print_cpu: false,
        flush_doctor: false,
        frame_ready: false,
    }
}

/// Whether a finished frame waits on the bus to be taken.
pub open spec fn frame_waits(mem: MemoryView) -> bool {
    mem.gpu.regs.can_draw && mem.gpu.regs.lcd_on()
}

/// What a tick settles before the processor may step.
pub struct Prelude {
    pub request: DebugInput,
    pub reason: StepReason,
    pub debug: DebugState,
    pub print_cpu: bool,
    pub mem: MemoryView,
}

impl Prelude {
    /// Whether the processor steps in this tick: the keys let the tick
    /// go on, and the debugger is not waiting to be asked for a step.
    pub open spec fn runs(self) -> bool {
        self.request == DebugInput::Proceed && !(self.debug.debug_mode == DebugMode::Stepping
            && !self.debug.step_one)
    }

    /// The report of a tick in which the processor does not step.
    pub open spec fn idle_report(self, use_doctor: bool) -> TickReport {
        TickReport {
            reload: self.request == DebugInput::Reload,
            stepping: self.reason,
            flush_doctor: self.reason != StepReason::NoReason && use_doctor,
            frame_ready: frame_waits(self.mem),
            ..quiet_report()
        }
    }
}

pub struct Emulator {
    pub cpu: Cpu,
    pub memory: Memory,
    pub config: RunConfig,
    pub debug: DebugState,
    pub loaded_rom: String,
}

impl Emulator {
    pub open spec fn wf(&self) -> bool {
        self.cpu.wf() && self.memory.wf()
    }

    pub fn get_initial_debug_mode(config: &RunConfig) -> (mode: DebugMode)
        ensures
            mode == initial_debug_mode(*config),
    {
        if config.breakpoint_at_pc != 0 {
            DebugMode::Breakpoint(config.breakpoint_at_pc)
        } else if config.use_stepping {
            DebugMode::Stepping
        } else {
            DebugMode::Off
        }
    }

    pub fn new(config: RunConfig) -> (emulator: Emulator)
        ensures
            emulator.wf(),
            emulator.config == config,
            emulator.debug == (DebugState {
                debug_mode: initial_debug_mode(config),
                step_one: false,
                draw_tiles: false,
            }),
            emulator.memory@ == MemoryView::power_on().reset(),
            emulator.cpu.fresh(),
            emulator.loaded_rom@.len() == 0,
    {
        let mode = Self::get_initial_debug_mode(&config);
        Emulator {
            cpu: Cpu::new(),
            memory: Memory::new(),
            config,
            debug: DebugState { debug_mode: mode, step_one: false, draw_tiles: false },
            loaded_rom: String::new(),
        }
    }

    /// Reads the header of a cartridge image and puts the image on the
    /// bus. `file_path` is kept as the name of what is loaded. Where the
    /// image is refused nothing changes.
    pub fn load_rom(&mut self, data: Vec<u8>, file_path: String) -> (r: Result<
        Cartridge,
        CartridgeError,
    >)
        requires
            old(self).wf(),
        ensures
            final(self).wf(),
            !header_ok(data@) ==> r == Err::<Cartridge, CartridgeError>(CartridgeError::BadHeader),
            header_ok(data@) ==> r == match load_outcome(data@, header_of(data@)) {
                Ok(_) => Ok::<Cartridge, CartridgeError>(header_of(data@)),
                Err(e) => Err::<Cartridge, CartridgeError>(e),
            },
            r.is_ok() ==> *final(self) == (Emulator {
                memory: final(self).memory,
                loaded_rom: file_path,
                ..*old(self)
            }) && final(self).memory@ == (MemoryView {
                rom: RomView::loaded(data@, header_of(data@)),
                ..old(self).memory@
            }),
            r.is_err() ==> *final(self) == (Emulator {
                memory: final(self).memory,
                ..*old(self)
            }) && final(self).memory@ == old(self).memory@,
    {
        let cartridge = match Cartridge::new(&data) {
            Ok(cartridge) => cartridge,
            Err(e) => {
                return Err(e);
            },
        };
        match self.memory.load(data, &cartridge) {
            Ok(_) => {
                self.loaded_rom = file_path;
                Ok(cartridge)
            },
            Err(e) => Err(e),
        }
    }

    /// Brings the processor and the registers on the bus back to their
    /// state after boot. Memories and the cartridge stay.
    pub fn reset(&mut self)
        requires
            old(self).wf(),
        ensures
            final(self).wf(),
            *final(self) == (Emulator {
                cpu: old(self).cpu.reset_spec(),
                memory: final(self).memory,
                ..*old(self)
            }),
            final(self).memory@ == old(self).memory@.reset(),
    {
        self.cpu.reset();
        self.memory.reset();
    }

    pub fn get_last_clock_t(&self) -> (t: u32)
        ensures
            t == self.cpu.clock_t,
    {
        self.cpu.get_clock_t()
    }

    /// Takes the finished frame, if there is one to show.
    pub fn take_frame(&mut self) -> (ready: bool)
        requires
            old(self).wf(),
        ensures
            final(self).wf(),
            ready == (old(self).memory.gpu.regs.can_draw && old(self).memory.gpu.regs.lcd_on()),
            *final(self) == (Emulator { memory: final(self).memory, ..*old(self) }),
            final(self).memory@ == with_gpu_regs(
                old(self).memory@,
                GpuRegs {
                    can_draw: old(self).memory.gpu.regs.can_draw && !ready,
                    ..old(self).memory.gpu.regs
                },
            ),
    {
        self.memory.take_frame()
    }

    /// The squares to paint for the finished frame, if there is one to
    /// show. The frame is then taken.
    pub fn draw(&mut self) -> (painted: Option<Vec<Paint>>)
        requires
            old(self).wf(),
        ensures
            final(self).wf(),
            painted is Some == frame_waits(old(self).memory@),
            *final(self) == (Emulator { memory: final(self).memory, ..*old(self) }),
            final(self).memory@ == with_gpu_regs(
                old(self).memory@,
                GpuRegs {
                    can_draw: old(self).memory.gpu.regs.can_draw && painted is None,
                    ..old(self).memory.gpu.regs
                },
            ),
            painted is Some ==> painted->0@.len() == 23040 && forall|i: int|
                0 <= i < 23040 ==> (#[trigger] painted->0@[i]) == frame_paint(
                    old(self).memory@.gpu.pixels[i],
                    i,
                ),
    {
        self.memory.draw()
    }

    /// The finished frame as host colours, three bytes to the pixel, if
    /// there is a frame to show. The frame is then taken.
    pub fn draw_texture(&mut self) -> (bytes: Option<Vec<u8>>)
        requires
            old(self).wf(),
        ensures
            final(self).wf(),
            bytes is Some == frame_waits(old(self).memory@),
            *final(self) == (Emulator { memory: final(self).memory, ..*old(self) }),
            final(self).memory@ == with_gpu_regs(
                old(self).memory@,
                GpuRegs {
                    can_draw: old(self).memory.gpu.regs.can_draw && bytes is None,
                    ..old(self).memory.gpu.regs
                },
            ),
            bytes is Some ==> bytes->0@.len() == 3 * 23040 && forall|i: int|
                0 <= i < 3 * 23040 ==> (#[trigger] bytes->0@[i]) == channel(
                    rgba_of(old(self).memory@.gpu.pixels[i / 3], ColorScheme::BlackWhite),
                    i % 3,
                ),
    {
        self.memory.draw_texture()
    }

    /// The squares that show the tiles for the debugger, where a dump of
    /// the tiles was asked for: the tiles of the background's map, then
    /// all tiles. The request is then taken.
    pub fn draw_debug(&mut self) -> (squares: Option<Vec<Paint>>)
        requires
            old(self).wf(),
        ensures
            final(self).wf(),
            squares is Some == old(self).debug.draw_tiles,
            *final(self) == (Emulator {
                debug: DebugState { draw_tiles: false, ..old(self).debug },
                ..*old(self)
            }),
            squares is Some ==> {
                &&& squares->0@.len() == (1024 + 384) * 64
                &&& forall|j: int|
                    0 <= j < 1024 * 64 ==> (#[trigger] squares->0@[j])
                        == old(self).memory@.gpu.map_square(j / 64, j % 64)
                &&& forall|j: int|
                    0 <= j < 384 * 64 ==> (#[trigger] squares->0@[1024 * 64 + j])
                        == old(self).memory@.gpu.sheet_square(j / 64, j % 64)
            },
    {
        if !self.debug.draw_tiles {
            return None;
        }
        self.debug.draw_tiles = false;
        Some(self.memory.gpu.draw_debug())
    }

    /// Looks at the debugger's keys.
    pub fn check_debug_input(&mut self, keys: &Input) -> (request: DebugInput)
        requires
            old(self).wf(),
            keys.wf(),
        ensures
            final(self).wf(),
            request == DebugState::request(keys@),
            *final(self) == (Emulator {
                memory: final(self).memory,
                debug: old(self).debug.after_input(keys@, old(self).config.breakpoint_at_pc),
                ..*old(self)
            }),
            request != DebugInput::Proceed ==> final(self).memory@ == old(self).memory@,
            request == DebugInput::Proceed ==> final(self).memory@ == with_gpu_regs(
                old(self).memory@,
                layers_after_keys(old(self).memory.gpu.regs, keys@),
            ),
    {
        let request = self.debug.handle_keys(keys, self.config.breakpoint_at_pc);
        match request {
            DebugInput::Proceed => {
                self.memory.debug_toggle_layers(
                    keys.is_new_down(&Button::ToggleBackground),
                    keys.is_new_down(&Button::ToggleWindow),
                    keys.is_new_down(&Button::ToggleObjects),
                );
            },
            _ => {},
        }
        request
    }

    /// Begins stepping where a free-running debugger has reached the
    /// configured count of steps or the configured breakpoint; the
    /// processor is then printed from now on.
    pub fn tick_debug(&mut self) -> (reason: StepReason)
        ensures
            reason == stop_reason(old(self).debug.debug_mode, old(self).cpu, old(self).config),
            reason == StepReason::NoReason ==> *final(self) == *old(self),
            reason != StepReason::NoReason ==> *final(self) == (Emulator {
                debug: DebugState { debug_mode: DebugMode::Stepping, ..old(self).debug },
                config: RunConfig { print_cpu: true, ..old(self).config },
                ..*old(self)
            }),
    {
        let free: bool = match self.debug.debug_mode {
            DebugMode::Off => true,
            _ => false,
        };
        if !free {
            return StepReason::NoReason;
        }
        let reason: StepReason = if self.cpu.has_reached_operation_count(
            self.config.breakpoint_at_instruction_count,
        ) {
            StepReason::InstructionCount
        } else if self.cpu.PC() == self.config.breakpoint_at_pc && self.config.breakpoint_at_pc
            != 0 {
            StepReason::ProgramCounter
        } else {
            return StepReason::NoReason;
        };
        self.debug.debug_mode = DebugMode::Stepping;
        self.config.print_cpu = true;
        reason
    }

    /// Steps the processor once and runs the timer and the picture unit
    /// for the cycles that the step took.
    pub fn step(&mut self) -> (r: Result<u32, CpuError>)
        requires
            old(self).wf(),
        ensures
            final(self).wf(),
            *final(self) == (Emulator {
                cpu: final(self).cpu,
                memory: final(self).memory,
                ..*old(self)
            }),
            final(self).cpu == old(self).cpu.step_spec(
                old(self).memory@,
                final(self).cpu.last_regs,
            ).cpu,
            r == old(self).cpu.step_spec(old(self).memory@, final(self).cpu.last_regs).result,
            r is Ok ==> final(self).memory@ == old(self).cpu.step_spec(
                old(self).memory@,
                final(self).cpu.last_regs,
            ).mem.tick(r->Ok_0 as nat),
            r is Err ==> final(self).memory@ == old(self).cpu.step_spec(
                old(self).memory@,
                final(self).cpu.last_regs,
            ).mem,
    {
        match self.cpu.tick(&mut self.memory) {
            Ok(cycles) => {
                self.memory.tick(cycles);
                Ok(cycles)
            },
            Err(e) => Err(e),
        }
    }

    /// What the next tick settles before the processor may step: the
    /// console's buttons reach the bus, the debugger looks at its keys,
    /// and a free-running debugger checks its breakpoints.
    pub open spec fn prelude(&self, keys: InputView) -> Prelude {
        let request = DebugState::request(keys);
        let keyed = self.debug.after_input(keys, self.config.breakpoint_at_pc);
        let pressed = self.memory@.with_buttons(keys.controller());
        if request == DebugInput::Proceed {
            let reason = stop_reason(keyed.debug_mode, self.cpu, self.config);
            Prelude {
                request,
                reason,
                debug: if reason == StepReason::NoReason {
                    keyed
                } else {
                    DebugState { debug_mode: DebugMode::Stepping, ..keyed }
                },
                print_cpu: self.config.print_cpu || reason != StepReason::NoReason,
                mem: with_gpu_regs(pressed, layers_after_keys(self.memory.gpu.regs, keys)),
            }
        } else {
            Prelude {
                request,
                reason: StepReason::NoReason,
                debug: keyed,
                print_cpu: self.config.print_cpu,
                mem: pressed,
            }
        }
    }

    /// The first part of a tick, up to where the processor may step.
    pub fn begin_tick(&mut self, keys: &Input) -> (started: (DebugInput, StepReason))
        requires
            old(self).wf(),
            keys.wf(),
        ensures
            final(self).wf(),
            started.0 == old(self).prelude(keys@).request,
            started.1 == old(self).prelude(keys@).reason,
            *final(self) == (Emulator {
                memory: final(self).memory,
                debug: old(self).prelude(keys@).debug,
                config: RunConfig {
                    print_cpu: old(self).prelude(keys@).print_cpu,
                    ..old(self).config
                },
                ..*old(self)
            }),
            final(self).memory@ == old(self).prelude(keys@).mem,
    {
        self.memory.set_buttons(keys.controller_byte());
        let request = self.check_debug_input(keys);
        match request {
            DebugInput::Proceed => {
                let reason = self.tick_debug();
                (request, reason)
            },
            _ => (request, StepReason::NoReason),
        }
    }

    /// One tick of the console.
    ///
    /// The buttons reach the bus and the debugger looks at its keys and
    /// breakpoints. Unless a key was dealt with or the debugger waits
    /// for a step, the processor then steps once, and the timer and the
    /// picture unit run for the cycles of that step; with the trace on,
    /// the step's line joins the trace buffer. The report says what is
    /// left for the host. An opcode that names no instruction ends the
    /// run with an error.
    pub fn tick(&mut self, keys: &Input) -> (r: Result<TickReport, CpuError>)
        requires
            old(self).wf(),
            keys.wf(),
        ensures
            final(self).wf(),
            final(self).config == (RunConfig {
                print_cpu: old(self).prelude(keys@).print_cpu,
                ..old(self).config
            }),
            final(self).loaded_rom == old(self).loaded_rom,
            !old(self).prelude(keys@).runs() ==> {
                &&& r == Ok::<TickReport, CpuError>(
                    old(self).prelude(keys@).idle_report(old(self).config.use_doctor),
                )
                &&& final(self).cpu == old(self).cpu
                &&& final(self).debug == old(self).prelude(keys@).debug
                &&& final(self).memory@ == old(self).prelude(keys@).mem
            },
            old(self).prelude(keys@).runs() ==> {
                let before = old(self).prelude(keys@);
                let stepped = old(self).cpu.step_spec(before.mem, final(self).cpu.last_regs);
                &&& final(self).debug == (DebugState { step_one: false, ..before.debug })
                &&& final(self).cpu == (Cpu {
                    doctor_buffer: final(self).cpu.doctor_buffer,
                    ..stepped.cpu
                })
                &&& match stepped.result {
                    Ok(cycles) => {
                        &&& final(self).memory@ == stepped.mem.tick(cycles as nat)
                        &&& final(self).cpu.doctor_buffer@ == if old(self).config.use_doctor
                            && stepped.cpu.traces() {
                            stepped.cpu.doctor_buffer@.push(stepped.cpu.last_regs)
                        } else {
                            stepped.cpu.doctor_buffer@
                        }
                        &&& r == Ok::<TickReport, CpuError>(
                            TickReport {
                                reload: false,
                                ran: true,
                                cycles,
                                stepping: before.reason,
                                print_cpu: before.print_cpu,
                                flush_doctor: old(self).config.use_doctor && (before.reason
                                    != StepReason::NoReason || (stepped.cpu.traces()
                                    && stepped.cpu.doctor_buffer@.len() + 1 == 1000)),
                                frame_ready: frame_waits(stepped.mem.tick(cycles as nat)),
                            },
                        )
                    },
                    Err(e) => {
                        &&& final(self).memory@ == stepped.mem
                        &&& final(self).cpu.doctor_buffer == stepped.cpu.doctor_buffer
                        &&& r == Err::<TickReport, CpuError>(e)
                    },
                }
            },
    {
        let (request, reason) = self.begin_tick(keys);
        let flush_now: bool = match reason {
            StepReason::NoReason => false,
            _ => self.config.use_doctor,
        };
        let proceed: bool = match request {
            DebugInput::Proceed => true,
            _ => false,
        };
        let stepping: bool = match self.debug.debug_mode {
            DebugMode::Stepping => true,
            _ => false,
        };
        if !proceed || (stepping && !self.debug.step_one) {
            let reload: bool = match request {
                DebugInput::Reload => true,
                _ => false,
            };
            return Ok(
                TickReport {
                    reload,
                    ran: false,
                    cycles: 0,
                    stepping: reason,
                    print_cpu: false,
                    flush_doctor: flush_now,
                    frame_ready: self.memory.frame_ready(),
                },
            );
        }
        self.debug.step_one = false;
        let cycles: u32 = match self.step() {
            Ok(cycles) => cycles,
            Err(e) => {
                return Err(e);
            },
        };
        let mut full: bool = false;
        if self.config.use_doctor {
            full = self.cpu.write_doctor();
        }
        Ok(
            TickReport {
                reload: false,
                ran: true,
                cycles,
                stepping: reason,
                print_cpu: self.config.print_cpu,
                flush_doctor: flush_now || full,
                frame_ready: self.memory.frame_ready(),
            },
        )
    }
}

} // verus!
