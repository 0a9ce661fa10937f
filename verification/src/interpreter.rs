//! The fetch, decode and execute loop.
//!
//! One step reads the opcode at the program counter, moves the program
//! counter past it, looks the opcode up, and performs the instruction. The
//! instruction's handler runs with the program counter at the first operand
//! byte. Afterwards the program counter moves past the operand bytes, unless
//! the instruction is one that sets the program counter itself.
//!
//! A run takes steps until the opcode at the program counter is BRK, which
//! ends the run, or is illegal, which is an error.

use vstd::prelude::*;
use crate::addressing::AddressingMode;
use crate::decode::{decode, decoded, Instruction, Mnemonic};
use crate::memory::MEMORY_SIZE;
use crate::state::{State, CPU, PROGRAM_START};

verus! {

/// The opcode of BRK, which ends a run.
pub const BRK_OPCODE: u8 = 0x00;

/// Why a step or a run failed.
#[derive(Debug, Clone, Copy, PartialEq, Eq, Structural)]
pub enum CpuError {
    /// The byte `opcode`, fetched at `pc`, stands for no instruction.
    IllegalOpcode { pc: u16, opcode: u8 },
}

impl Mnemonic {
    /// Whether the handler of the instruction takes `mode`. An instruction
    /// without operand takes every mode and ignores it.
    pub open spec fn supports(self, mode: AddressingMode) -> bool {
        match self {
            Mnemonic::Adc
            | Mnemonic::And
            | Mnemonic::Bit
            | Mnemonic::Cmp
            | Mnemonic::Cpx
            | Mnemonic::Cpy
            | Mnemonic::Dec
            | Mnemonic::Eor
            | Mnemonic::Inc
            | Mnemonic::Lda
            | Mnemonic::Ldx
            | Mnemonic::Ldy
            | Mnemonic::Ora
            | Mnemonic::Sbc
            | Mnemonic::Sta
            | Mnemonic::Stx
            | Mnemonic::Sty => mode.resolves(),
            Mnemonic::Asl | Mnemonic::Lsr | Mnemonic::Rol | Mnemonic::Ror => mode.locates(),
            Mnemonic::Bcc
            | Mnemonic::Bcs
            | Mnemonic::Beq
            | Mnemonic::Bmi
            | Mnemonic::Bne
            | Mnemonic::Bpl
            | Mnemonic::Bvc
            | Mnemonic::Bvs => mode == AddressingMode::Relative,
            Mnemonic::Jmp => mode.jumps(),
            Mnemonic::Jsr => mode == AddressingMode::Absolute,
            _ => true,
        }
    }

    /// Whether the instruction sets the program counter itself: the
    /// branches, JMP, JSR, RTS, RTI and BRK.
    pub open spec fn sets_pc(self) -> bool {
        match self {
            Mnemonic::Bcc
            | Mnemonic::Bcs
            | Mnemonic::Beq
            | Mnemonic::Bmi
            | Mnemonic::Bne
            | Mnemonic::Bpl
            | Mnemonic::Bvc
            | Mnemonic::Bvs
            | Mnemonic::Jmp
            | Mnemonic::Jsr
            | Mnemonic::Rts
            | Mnemonic::Rti
            | Mnemonic::Brk => true,
            _ => false,
        }
    }

    /// Whether the instruction sets the program counter itself.
    pub fn controls_flow(&self) -> (b: bool)
        ensures
            b == self.sets_pc(),
    {
        match self {
            Mnemonic::Bcc
            | Mnemonic::Bcs
            | Mnemonic::Beq
            | Mnemonic::Bmi
            | Mnemonic::Bne
            | Mnemonic::Bpl
            | Mnemonic::Bvc
            | Mnemonic::Bvs
            | Mnemonic::Jmp
            | Mnemonic::Jsr
            | Mnemonic::Rts
            | Mnemonic::Rti
            | Mnemonic::Brk => true,
            _ => false,
        }
    }
}

/// Every opcode of the map names a mode that its handler takes: the loop
/// never misuses an addressing mode.
pub proof fn lemma_decoded_supported(opcode: u8)
    ensures
        decoded(opcode) matches Some(i) ==> i.mnemonic.supports(i.mode),
{
}

impl State {
    /// The state after the handler of `mnemonic` has run with `mode`.
    pub open spec fn execute(self, mnemonic: Mnemonic, mode: AddressingMode) -> State {
        match mnemonic {
            Mnemonic::Adc => self.adc(mode),
            Mnemonic::And => self.and(mode),
            Mnemonic::Asl => self.asl(mode),
            Mnemonic::Bcc => self.bcc(),
            Mnemonic::Bcs => self.bcs(),
            Mnemonic::Beq => self.beq(),
            Mnemonic::Bit => self.bit(mode),
            Mnemonic::Bmi => self.bmi(),
            Mnemonic::Bne => self.bne(),
            Mnemonic::Bpl => self.bpl(),
            Mnemonic::Brk => self.brk(),
            Mnemonic::Bvc => self.bvc(),
            Mnemonic::Bvs => self.bvs(),
            Mnemonic::Clc => self.clc(),
            Mnemonic::Cld => self.cld(),
            Mnemonic::Cli => self.cli(),
            Mnemonic::Clv => self.clv(),
            Mnemonic::Cmp => self.cmp(mode),
            Mnemonic::Cpx => self.cpx(mode),
            Mnemonic::Cpy => self.cpy(mode),
            Mnemonic::Dec => self.dec(mode),
            Mnemonic::Dex => self.dex(),
            Mnemonic::Dey => self.dey(),
            Mnemonic::Eor => self.eor(mode),
            Mnemonic::Inc => self.inc(mode),
            Mnemonic::Inx => self.inx(),
            Mnemonic::Iny => self.iny(),
            Mnemonic::Jmp => self.jmp(mode),
            Mnemonic::Jsr => self.jsr(),
            Mnemonic::Lda => self.lda(mode),
            Mnemonic::Ldx => self.ldx(mode),
            Mnemonic::Ldy => self.ldy(mode),
            Mnemonic::Lsr => self.lsr(mode),
            Mnemonic::Nop => self,
            Mnemonic::Ora => self.ora(mode),
            Mnemonic::Pha => self.pha(),
            Mnemonic::Php => self.php(),
            Mnemonic::Pla => self.pla(),
            Mnemonic::Plp => self.plp(),
            Mnemonic::Rol => self.rol(mode),
            Mnemonic::Ror => self.ror(mode),
            Mnemonic::Rti => self.rti(),
            Mnemonic::Rts => self.rts(),
            Mnemonic::Sbc => self.sbc(mode),
            Mnemonic::Sec => self.sec(),
            Mnemonic::Sed => self.sed(),
            Mnemonic::Sei => self.sei(),
            Mnemonic::Sta => self.sta(mode),
            Mnemonic::Stx => self.stx(mode),
            Mnemonic::Sty => self.sty(mode),
            Mnemonic::Tax => self.tax(),
            Mnemonic::Tay => self.tay(),
            Mnemonic::Tsx => self.tsx(),
            Mnemonic::Txa => self.txa(),
            Mnemonic::Txs => self.txs(),
            Mnemonic::Tya => self.tya(),
        }
    }

    /// The state after `instruction` has been performed with the program
    /// counter at its first operand byte: the handler has run, and the
    /// program counter has moved past the operand bytes unless the
    /// instruction sets it itself.
    pub open spec fn performed(self, instruction: Instruction) -> State {
        let done = self.execute(instruction.mnemonic, instruction.mode);
        if instruction.mnemonic.sets_pc() {
            done
        } else {
            done.advanced(instruction.mode.operand_len())
        }
    }

    /// The opcode at the program counter.
    pub open spec fn opcode(self) -> u8 {
        self.read(self.pc)
    }

    /// Whether the opcode at the program counter is illegal.
    pub open spec fn at_illegal(self) -> bool {
        decoded(self.opcode()) is None
    }

    /// The state after one step. At an illegal opcode only the program
    /// counter moves, past the opcode.
    pub open spec fn step(self) -> State {
        match decoded(self.opcode()) {
            Some(instruction) => self.advanced(1).performed(instruction),
            None => self.advanced(1),
        }
    }

    /// What a step at this state returns: an error that names the program
    /// counter and the opcode if the opcode is illegal.
    pub open spec fn step_result(self) -> Result<(), CpuError> {
        if self.at_illegal() {
            Err(CpuError::IllegalOpcode { pc: self.pc, opcode: self.opcode() })
        } else {
            Ok(())
        }
    }

    /// Whether a run stops at this state: the opcode at the program counter
    /// is BRK or illegal.
    pub open spec fn stops(self) -> bool {
        self.opcode() == BRK_OPCODE || self.at_illegal()
    }

    /// Whether a run from this state stops after at most `n` steps.
    pub open spec fn stops_within(self, n: nat) -> bool
        decreases n,
    {
        self.stops() || (n > 0 && self.step().stops_within((n - 1) as nat))
    }

    /// Whether a run from this state ever stops.
    pub open spec fn halts(self) -> bool {
        exists|n: nat| self.stops_within(n)
    }

    /// The state after steps have been taken until the run stops, and at
    /// most `n` of them.
    pub open spec fn after(self, n: nat) -> State
        decreases n,
    {
        if n == 0 || self.stops() {
            self
        } else {
            self.step().after((n - 1) as nat)
        }
    }

    /// The state at which a run from this state stops, if it halts.
    pub open spec fn stopping_state(self) -> State {
        self.after(choose|n: nat| self.stops_within(n))
    }

    /// The state in which a run from this state ends, if it halts: the
    /// state at which it stops, with the program counter past the opcode
    /// found there.
    pub open spec fn run(self) -> State {
        self.stopping_state().advanced(1)
    }

    /// What a run from this state returns, if it halts: `Ok` if it stops at
    /// BRK, and the error of the step if it stops at an illegal opcode.
    pub open spec fn run_result(self) -> Result<(), CpuError> {
        self.stopping_state().step_result()
    }
}

/// A run that stops within `n` steps has stopped after `n` steps.
pub proof fn lemma_after_stops(s: State, n: nat)
    requires
        s.stops_within(n),
    ensures
        s.after(n).stops(),
    decreases n,
{
    if !s.stops() {
        lemma_after_stops(s.step(), (n - 1) as nat);
    }
}

/// Where a run stops does not depend on how many steps it is given, as
/// long as they are enough.
pub proof fn lemma_after_unique(s: State, n: nat, m: nat)
    requires
        s.stops_within(n),
        s.stops_within(m),
    ensures
        s.after(n) == s.after(m),
    decreases n,
{
    if !s.stops() {
        lemma_after_unique(s.step(), (n - 1) as nat, (m - 1) as nat);
    }
}

/// If a run stops within `n` steps, it halts, and it stops at the state
/// reached by stepping up to `n` times.
pub proof fn lemma_stopping_state(s: State, n: nat)
    requires
        s.stops_within(n),
    ensures
        s.halts(),
        s.stopping_state() == s.after(n),
        s.stopping_state().stops(),
{
    let k = choose|k: nat| s.stops_within(k);
    lemma_after_unique(s, k, n);
    lemma_after_stops(s, n);
}

/// A run that halts and has not stopped yet goes on from the next state and
/// stops where the run from there stops.
pub proof fn lemma_stopping_state_step(s: State)
    requires
        s.halts(),
        !s.stops(),
    ensures
        s.step().halts(),
        s.step().stopping_state() == s.stopping_state(),
{
    let k = choose|k: nat| s.stops_within(k);
    lemma_stopping_state(s, k);
    lemma_stopping_state(s.step(), (k - 1) as nat);
}

/// A run from a state at which it stops ends there, with the program
/// counter past the opcode.
pub proof fn lemma_run_stops(s: State)
    requires
        s.stops(),
    ensures
        s.halts(),
        s.run() == s.advanced(1),
        s.run_result() == s.step_result(),
{
    lemma_stopping_state(s, 0);
}

/// A run that halts from a state at which it does not stop is one step
/// followed by the run from the next state.
pub proof fn lemma_run_steps(s: State)
    requires
        !s.stops(),
        s.step().halts(),
    ensures
        s.halts(),
        s.run() == s.step().run(),
        s.run_result() == s.step().run_result(),
{
    let k = choose|k: nat| s.step().stops_within(k);
    assert(s.stops_within(k + 1));
    lemma_stopping_state(s, k + 1);
    lemma_stopping_state_step(s);
}

impl CPU {
    /// Runs the handler of `mnemonic` with `mode`. The program counter must
    /// point at the first operand byte.
    pub fn execute(&mut self, mnemonic: Mnemonic, mode: &AddressingMode)
        requires
            mnemonic.supports(*mode),
        ensures
            final(self)@ == old(self)@.execute(mnemonic, *mode),
    {
        match mnemonic {
            Mnemonic::Adc => self.adc(mode),
            Mnemonic::And => self.and(mode),
            Mnemonic::Asl => self.asl(mode),
            Mnemonic::Bcc => self.bcc(mode),
            Mnemonic::Bcs => self.bcs(mode),
            Mnemonic::Beq => self.beq(mode),
            Mnemonic::Bit => self.bit(mode),
            Mnemonic::Bmi => self.bmi(mode),
            Mnemonic::Bne => self.bne(mode),
            Mnemonic::Bpl => self.bpl(mode),
            Mnemonic::Brk => self.brk(),
            Mnemonic::Bvc => self.bvc(mode),
            Mnemonic::Bvs => self.bvs(mode),
            Mnemonic::Clc => self.clc(),
            Mnemonic::Cld => self.cld(),
            Mnemonic::Cli => self.cli(),
            Mnemonic::Clv => self.clv(),
            Mnemonic::Cmp => self.cmp(mode),
            Mnemonic::Cpx => self.cpx(mode),
            Mnemonic::Cpy => self.cpy(mode),
            Mnemonic::Dec => self.dec(mode),
            Mnemonic::Dex => self.dex(),
            Mnemonic::Dey => self.dey(),
            Mnemonic::Eor => self.eor(mode),
            Mnemonic::Inc => self.inc(mode),
            Mnemonic::Inx => self.inx(),
            Mnemonic::Iny => self.iny(),
            Mnemonic::Jmp => self.jmp(mode),
            Mnemonic::Jsr => self.jsr(mode),
            Mnemonic::Lda => self.lda(mode),
            Mnemonic::Ldx => self.ldx(mode),
            Mnemonic::Ldy => self.ldy(mode),
            Mnemonic::Lsr => self.lsr(mode),
            Mnemonic::Nop => {},
            Mnemonic::Ora => self.ora(mode),
            Mnemonic::Pha => self.pha(),
            Mnemonic::Php => self.php(),
            Mnemonic::Pla => self.pla(),
            Mnemonic::Plp => self.plp(),
            Mnemonic::Rol => self.rol(mode),
            Mnemonic::Ror => self.ror(mode),
            Mnemonic::Rti => self.rti(),
            Mnemonic::Rts => self.rts(),
            Mnemonic::Sbc => self.sbc(mode),
            Mnemonic::Sec => self.sec(),
            Mnemonic::Sed => self.sed(),
            Mnemonic::Sei => self.sei(),
            Mnemonic::Sta => self.sta(mode),
            Mnemonic::Stx => self.stx(mode),
            Mnemonic::Sty => self.sty(mode),
            Mnemonic::Tax => self.tax(),
            Mnemonic::Tay => self.tay(),
            Mnemonic::Tsx => self.tsx(),
            Mnemonic::Txa => self.txa(),
            Mnemonic::Txs => self.txs(),
            Mnemonic::Tya => self.tya(),
        }
    }

    /// Performs `instruction`, whose opcode has been fetched: runs its
    /// handler and then moves the program counter past the operand bytes,
    /// unless the instruction sets the program counter itself.
    pub fn perform(&mut self, instruction: Instruction)
        requires
            instruction.mnemonic.supports(instruction.mode),
        ensures
            final(self)@ == old(self)@.performed(instruction),
    {
        self.execute(instruction.mnemonic, &instruction.mode);
        if !instruction.mnemonic.controls_flow() {
            self.advance(instruction.mode.operand_bytes());
        }
    }

    /// Reads the opcode at the program counter and moves the program
    /// counter past it.
    pub fn fetch(&mut self) -> (opcode: u8)
        ensures
            opcode == old(self)@.opcode(),
            final(self)@ == old(self)@.advanced(1),
    {
        let opcode = self.mem_read(self.program_counter);
        self.advance(1);
        opcode
    }

    /// Takes one step: fetches, decodes and performs the instruction at the
    /// program counter. BRK is performed like every other instruction. At
    /// an illegal opcode the step fails.
    pub fn step(&mut self) -> (result: Result<(), CpuError>)
        ensures
            final(self)@ == old(self)@.step(),
            result == old(self)@.step_result(),
    {
        let pc = self.program_counter;
        let opcode = self.fetch();
        match decode(opcode) {
            Some(instruction) => {
                proof {
                    lemma_decoded_supported(opcode);
                }
                self.perform(instruction);
                Ok(())
            },
            None => Err(CpuError::IllegalOpcode { pc, opcode }),
        }
    }

    /// Runs until the opcode at the program counter is BRK or illegal. The
    /// BRK that ends the run is fetched and not performed. The run must be
    /// one that halts.
    pub fn run(&mut self) -> (result: Result<(), CpuError>)
        requires
            old(self)@.halts(),
        ensures
            final(self)@ == old(self)@.run(),
            result == old(self)@.run_result(),
    {
        let ghost mut fuel: nat = choose|n: nat| self@.stops_within(n);
        loop
            invariant
                self@.stops_within(fuel),
                self@.run() == old(self)@.run(),
                self@.run_result() == old(self)@.run_result(),
            decreases fuel,
        {
            let pc = self.program_counter;
            let ghost before = self@;
            let opcode = self.fetch();
            match decode(opcode) {
                None => {
                    proof {
                        lemma_run_stops(before);
                    }
                    return Err(CpuError::IllegalOpcode { pc, opcode });
                },
                Some(instruction) => {
                    if opcode == BRK_OPCODE {
                        proof {
                            lemma_run_stops(before);
                        }
                        return Ok(());
                    }
                    proof {
                        lemma_decoded_supported(opcode);
                        fuel = (fuel - 1) as nat;
                        lemma_stopping_state(before.step(), fuel);
                        lemma_run_steps(before);
                    }
                    self.perform(instruction);
                },
            }
        }
    }

    /// Runs like `run`, but takes at most `limit` steps, so that it returns
    /// for every program. If the run stops within `limit` steps, the machine
    /// ends as `run` leaves it, and the result is `Ok(true)` at BRK and the
    /// error at an illegal opcode. Otherwise `limit` steps have been taken
    /// and the result is `Ok(false)`.
    pub fn run_within(&mut self, limit: u64) -> (result: Result<bool, CpuError>)
        ensures
            old(self)@.stops_within(limit as nat) ==> final(self)@ == old(self)@.run() && result
                == match old(self)@.run_result() {
                Ok(_) => Ok::<bool, CpuError>(true),
                Err(e) => Err(e),
            },
            !old(self)@.stops_within(limit as nat) ==> final(self)@ == old(self)@.after(
                limit as nat,
            ) && result == Ok::<bool, CpuError>(false),
    {
        let mut remaining = limit;
        loop
            invariant
                old(self)@.stops_within(limit as nat) <==> self@.stops_within(remaining as nat),
                old(self)@.after(limit as nat) == self@.after(remaining as nat),
                old(self)@.stops_within(limit as nat) ==> self@.run() == old(self)@.run()
                    && self@.run_result() == old(self)@.run_result(),
            decreases remaining,
        {
            let pc = self.program_counter;
            let ghost before = self@;
            let opcode = self.mem_read(pc);
            match decode(opcode) {
                None => {
                    proof {
                        lemma_run_stops(before);
                    }
                    self.advance(1);
                    return Err(CpuError::IllegalOpcode { pc, opcode });
                },
                Some(instruction) => {
                    if opcode == BRK_OPCODE {
                        proof {
                            lemma_run_stops(before);
                        }
                        self.advance(1);
                        return Ok(true);
                    }
                    if remaining == 0 {
                        return Ok(false);
                    }
                    proof {
                        lemma_decoded_supported(opcode);
                        if before.stops_within(remaining as nat) {
                            lemma_stopping_state(before.step(), (remaining - 1) as nat);
                            lemma_run_steps(before);
                        }
                    }
                    self.advance(1);
                    self.perform(instruction);
                    remaining = remaining - 1;
                },
            }
        }
    }

    /// Loads `program`, resets the machine and runs it.
    pub fn load_and_run(&mut self, program: Vec<u8>) -> (result: Result<(), CpuError>)
        requires
            program@.len() <= MEMORY_SIZE - PROGRAM_START,
            old(self)@.loaded(program@).reset().halts(),
        ensures
            final(self)@ == old(self)@.loaded(program@).reset().run(),
            result == old(self)@.loaded(program@).reset().run_result(),
    {
        self.load(program);
        self.reset();
        self.run()
    }
}

} // verus!
