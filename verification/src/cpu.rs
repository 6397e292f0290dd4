//! The executable interpreter: a CPU owning its register file, memory,
//! call stack and program counter, verified against the transition
//! functions of the model.

use vstd::prelude::*;

use crate::decode::{lemma_decode_bounds, parse_instruction, Instruction};
use crate::fault::{Fault, State};
use crate::model::{
    add_of, call_of, frame_budget, lemma_steps_succ, ret_of, step_of, steps, CpuView,
    FLAG_REGISTER, MEM_SIZE, REG_COUNT, STACK_DEPTH,
};

verus! {

/// A register-machine interpreter instance.  Each instance independently
/// owns all of its state; there is no sharing across instances.
///
/// The fields are public so that a host can load a program, choose an
/// entry point and inspect the final machine state directly; every method
/// requires the well-formedness condition [`CpuView::wf`], which `new`
/// establishes and all operations preserve.
pub struct CPU {
    /// The register file: `REG_COUNT` 8-bit registers, of which register
    /// `FLAG_REGISTER` records arithmetic overflow.
    pub registers: Vec<u8>,
    /// The program counter: offset into `memory` of the next fetch.
    pub position_in_memory: usize,
    /// Flat byte memory of `MEM_SIZE` bytes holding the loaded program.
    pub memory: Vec<u8>,
    /// Storage for the call stack: `STACK_DEPTH` return-address slots.
    pub stack: Vec<u16>,
    /// The call stack's fill level: index of the next free slot.
    pub stack_pointer: usize,
    /// The run state; only a `Running` machine executes steps.
    pub state: State,
}

impl View for CPU {
    type V = CpuView;

    open spec fn view(&self) -> CpuView {
        CpuView {
            registers: self.registers@,
            pc: self.position_in_memory as nat,
            memory: self.memory@,
            stack: self.stack@,
            sp: self.stack_pointer as nat,
            state: self.state,
        }
    }
}

/// A vector of `n` zero bytes.
fn zeroed_bytes(n: usize) -> (v: Vec<u8>)
    ensures
        v@.len() == n,
        forall|i: int| 0 <= i < n ==> v@[i] == 0u8,
{
    let mut v: Vec<u8> = Vec::new();
    while v.len() < n
        invariant
            v@.len() <= n,
            forall|i: int| 0 <= i < v@.len() ==> v@[i] == 0u8,
        decreases n - v.len(),
    {
        v.push(0);
    }
    v
}

/// A vector of `n` zero words.
fn zeroed_words(n: usize) -> (v: Vec<u16>)
    ensures
        v@.len() == n,
        forall|i: int| 0 <= i < n ==> v@[i] == 0u16,
{
    let mut v: Vec<u16> = Vec::new();
    while v.len() < n
        invariant
            v@.len() <= n,
            forall|i: int| 0 <= i < v@.len() ==> v@[i] == 0u16,
        decreases n - v.len(),
    {
        v.push(0);
    }
    v
}

impl CPU {
    /// A fresh machine: all registers, memory bytes and stack slots zero,
    /// the program counter at offset 0, the stack empty, and the state
    /// `Running`.
    pub fn new() -> (cpu: CPU)
        ensures
            cpu@.wf(),
            cpu@.registers == Seq::new(REG_COUNT as nat, |i: int| 0u8),
            cpu@.memory == Seq::new(MEM_SIZE as nat, |i: int| 0u8),
            cpu@.stack == Seq::new(STACK_DEPTH as nat, |i: int| 0u16),
            cpu@.pc == 0,
            cpu@.sp == 0,
            cpu@.state is Running,
    {
        let cpu = CPU {
            registers: zeroed_bytes(REG_COUNT),
            position_in_memory: 0,
            memory: zeroed_bytes(MEM_SIZE),
            stack: zeroed_words(STACK_DEPTH),
            stack_pointer: 0,
            state: State::Running,
        };
        proof {
            assert(cpu@.registers =~= Seq::new(REG_COUNT as nat, |i: int| 0u8));
            assert(cpu@.memory =~= Seq::new(MEM_SIZE as nat, |i: int| 0u8));
            assert(cpu@.stack =~= Seq::new(STACK_DEPTH as nat, |i: int| 0u16));
        }
        cpu
    }

    /// Whether the machine is still running (neither halted nor faulted).
    pub fn is_running(&self) -> (b: bool)
        ensures
            b == (self@.state is Running),
    {
        match self.state {
            State::Running => true,
            _ => false,
        }
    }

    /// Writes one byte of memory, rejecting an address outside capacity.
    pub fn write_memory(&mut self, addr: usize, value: u8) -> (r: Result<(), Fault>)
        requires
            old(self)@.wf(),
        ensures
            final(self)@.wf(),
            addr < MEM_SIZE ==> r == Ok::<(), Fault>(()) && final(self)@ == (CpuView {
                memory: old(self)@.memory.update(addr as int, value),
                ..old(self)@
            }),
            addr >= MEM_SIZE ==> r == Err::<(), Fault>(Fault::IndexOutOfRange) && *final(self)
                == *old(self),
    {
        if addr >= MEM_SIZE {
            return Err(Fault::IndexOutOfRange);
        }
        self.memory[addr] = value;
        Ok(())
    }

    /// Places a program image into memory starting at `offset`, leaving
    /// every other byte unchanged.  Rejects an image that would run past
    /// the end of memory, leaving the machine untouched.
    pub fn load(&mut self, offset: usize, program: &[u8]) -> (r: Result<(), Fault>)
        requires
            old(self)@.wf(),
        ensures
            final(self)@.wf(),
            offset + program@.len() <= MEM_SIZE ==> {
                &&& r == Ok::<(), Fault>(())
                &&& final(self)@ == (CpuView {
                    memory: Seq::new(
                        MEM_SIZE as nat,
                        |i: int|
                            if offset <= i < offset + program@.len() {
                                program@[i - offset]
                            } else {
                                old(self)@.memory[i]
                            },
                    ),
                    ..old(self)@
                })
            },
            offset + program@.len() > MEM_SIZE ==> r == Err::<(), Fault>(Fault::IndexOutOfRange)
                && *final(self) == *old(self),
    {
        if program.len() > MEM_SIZE || offset > MEM_SIZE - program.len() {
            return Err(Fault::IndexOutOfRange);
        }
        let mut k: usize = 0;
        while k < program.len()
            invariant
                self@.wf(),
                offset + program@.len() <= MEM_SIZE,
                k <= program@.len(),
                self@.memory.len() == MEM_SIZE,
                forall|i: int|
                    0 <= i < MEM_SIZE ==> self@.memory[i] == if offset <= i < offset + k {
                        program@[i - offset]
                    } else {
                        old(self)@.memory[i]
                    },
                self@.registers == old(self)@.registers,
                self@.pc == old(self)@.pc,
                self@.stack == old(self)@.stack,
                self@.sp == old(self)@.sp,
                self@.state == old(self)@.state,
            decreases program@.len() - k,
        {
            self.memory[offset + k] = program[k];
            k = k + 1;
        }
        proof {
            assert(self@.memory =~= Seq::new(
                MEM_SIZE as nat,
                |i: int|
                    if offset <= i < offset + program@.len() {
                        program@[i - offset]
                    } else {
                        old(self)@.memory[i]
                    },
            ));
        }
        Ok(())
    }

    /// Reads the register at `index`, rejecting an index outside the
    /// register file.
    pub fn read_register(&self, index: u8) -> (r: Result<u8, Fault>)
        requires
            self@.wf(),
        ensures
            index < REG_COUNT ==> r == Ok::<u8, Fault>(self@.registers[index as int]),
            index >= REG_COUNT ==> r == Err::<u8, Fault>(Fault::IndexOutOfRange),
    {
        if (index as usize) >= REG_COUNT {
            return Err(Fault::IndexOutOfRange);
        }
        Ok(self.registers[index as usize])
    }

    /// Writes the register at `index`, rejecting an index outside the
    /// register file (in which case the machine is left untouched).
    pub fn write_register(&mut self, index: u8, value: u8) -> (r: Result<(), Fault>)
        requires
            old(self)@.wf(),
        ensures
            final(self)@.wf(),
            index < REG_COUNT ==> r == Ok::<(), Fault>(()) && final(self)@ == (CpuView {
                registers: old(self)@.registers.update(index as int, value),
                ..old(self)@
            }),
            index >= REG_COUNT ==> r == Err::<(), Fault>(Fault::IndexOutOfRange) && *final(self)
                == *old(self),
    {
        if (index as usize) >= REG_COUNT {
            return Err(Fault::IndexOutOfRange);
        }
        self.registers[index as usize] = value;
        Ok(())
    }

    /// The instruction at the program counter, assembled from its two
    /// bytes high byte first; `OutOfBounds` when either byte would lie
    /// outside memory.
    pub fn read_opcode(&self) -> (r: Result<u16, Fault>)
        requires
            self@.wf(),
        ensures
            self@.can_fetch() ==> r == Ok::<u16, Fault>(self@.fetched()),
            !self@.can_fetch() ==> r == Err::<u16, Fault>(Fault::OutOfBounds),
    {
        let p = self.position_in_memory;
        if p >= MEM_SIZE - 1 {
            return Err(Fault::OutOfBounds);
        }
        let op_byte1 = self.memory[p] as u16;
        let op_byte2 = self.memory[p + 1] as u16;
        let op = op_byte1 << 8 | op_byte2;
        proof {
            let hi = self@.memory[p as int];
            let lo = self@.memory[p as int + 1];
            assert((hi as u16) << 8 | (lo as u16) == crate::decode::opcode_from_bytes(hi, lo));
        }
        Ok(op)
    }

    /// `add_with_flag`: reads registers `x` and `y`, stores their sum
    /// modulo 256 into register `x`, and then records in the flag
    /// register whether the true sum exceeded 255 (1) or not (0).
    /// An index outside the register file is rejected and the machine is
    /// left untouched.
    pub fn add_xy(&mut self, x: u8, y: u8) -> (r: Result<(), Fault>)
        requires
            old(self)@.wf(),
        ensures
            final(self)@.wf(),
            x < REG_COUNT && y < REG_COUNT ==> r == Ok::<(), Fault>(()) && final(self)@ == add_of(
                old(self)@,
                x,
                y,
            ),
            !(x < REG_COUNT && y < REG_COUNT) ==> r == Err::<(), Fault>(Fault::IndexOutOfRange)
                && *final(self) == *old(self),
    {
        if (x as usize) >= REG_COUNT || (y as usize) >= REG_COUNT {
            return Err(Fault::IndexOutOfRange);
        }
        let arg1 = self.registers[x as usize];
        let arg2 = self.registers[y as usize];
        let sum: u16 = arg1 as u16 + arg2 as u16;
        let val: u8 = (sum % 256) as u8;
        let flag: u8 = if sum > 255 {
            1
        } else {
            0
        };
        self.registers[x as usize] = val;
        self.registers[FLAG_REGISTER] = flag;
        Ok(())
    }

    /// Call-subroutine: saves the current program counter at the stack
    /// pointer, moves the pointer up one slot, and jumps to `addr`.
    /// A full stack is rejected with `StackOverflow` and the machine is
    /// left untouched.
    pub fn call(&mut self, addr: u16) -> (r: Result<(), Fault>)
        requires
            old(self)@.wf(),
            addr <= MEM_SIZE as u16,
        ensures
            final(self)@.wf(),
            old(self)@.sp < STACK_DEPTH ==> r == Ok::<(), Fault>(()) && final(self)@ == call_of(
                old(self)@,
                addr,
            ),
            old(self)@.sp >= STACK_DEPTH ==> r == Err::<(), Fault>(Fault::StackOverflow)
                && *final(self) == *old(self),
    {
        let sp = self.stack_pointer;
        if sp >= STACK_DEPTH {
            return Err(Fault::StackOverflow);
        }
        self.stack[sp] = self.position_in_memory as u16;
        self.stack_pointer = sp + 1;
        self.position_in_memory = addr as usize;
        Ok(())
    }

    /// Return-from-subroutine: moves the stack pointer down one slot and
    /// resumes at the address saved there.  An empty stack is rejected
    /// with `StackUnderflow` and the machine is left untouched.
    pub fn ret(&mut self) -> (r: Result<(), Fault>)
        requires
            old(self)@.wf(),
        ensures
            final(self)@.wf(),
            old(self)@.sp > 0 ==> r == Ok::<(), Fault>(()) && final(self)@ == ret_of(old(self)@),
            old(self)@.sp == 0 ==> r == Err::<(), Fault>(Fault::StackUnderflow) && *final(self)
                == *old(self),
    {
        if self.stack_pointer == 0 {
            return Err(Fault::StackUnderflow);
        }
        self.stack_pointer = self.stack_pointer - 1;
        let addr = self.stack[self.stack_pointer];
        self.position_in_memory = addr as usize;
        Ok(())
    }

    /// One fetch-decode-dispatch cycle of the state machine.  On a
    /// machine that is not running this does nothing.  Otherwise it
    /// fetches the instruction at the program counter (faulting with
    /// `OutOfBounds` if either byte lies outside memory), advances the
    /// counter by 2 before dispatch — so a call saves a return address
    /// pointing past itself — and dispatches: the all-zero sentinel
    /// halts, `00EE` returns, `2nnn` calls, `8xy4` adds with an overflow
    /// flag, and any other pattern faults with `UnimplementedOpcode`.
    /// Any error an operation reports becomes the terminal `Faulted`
    /// state carrying that reason.
    pub fn step(&mut self)
        requires
            old(self)@.wf(),
        ensures
            final(self)@.wf(),
            final(self)@ == step_of(old(self)@),
    {
        if !self.is_running() {
            return;
        }
        let opcode = match self.read_opcode() {
            Ok(op) => op,
            Err(f) => {
                self.state = State::Faulted(f);
                return;
            },
        };
        self.position_in_memory = self.position_in_memory + 2;
        proof {
            lemma_decode_bounds(opcode);
        }
        match parse_instruction(opcode) {
            Instruction::Halt => {
                self.state = State::Halted;
            },
            Instruction::Return => {
                match self.ret() {
                    Ok(_) => {},
                    Err(f) => {
                        self.state = State::Faulted(f);
                    },
                }
            },
            Instruction::Call(nnn) => {
                match self.call(nnn) {
                    Ok(_) => {},
                    Err(f) => {
                        self.state = State::Faulted(f);
                    },
                }
            },
            Instruction::AddWithFlag(x, y) => {
                match self.add_xy(x, y) {
                    Ok(_) => {},
                    Err(f) => {
                        self.state = State::Faulted(f);
                    },
                }
            },
            Instruction::Unimplemented(raw) => {
                self.state = State::Faulted(Fault::UnimplementedOpcode(raw));
            },
        }
    }

    /// Drives the machine until it leaves the `Running` state: the
    /// repeated application of [`step_of`], stopped at the first terminal
    /// state.  A machine that is already halted or faulted is left as it
    /// is.  The loop provably terminates: within every subroutine level
    /// the program counter only moves forward, and the stack is bounded.
    pub fn run(&mut self)
        requires
            old(self)@.wf(),
        ensures
            final(self)@.wf(),
            !(final(self)@.state is Running),
            exists|n: nat|
                #![trigger steps(old(self)@, n)]
                final(self)@ == steps(old(self)@, n) && (forall|m: nat|
                    m < n ==> (#[trigger] steps(old(self)@, m)).state is Running),
    {
        let ghost c0 = self@;
        let ghost mut n: nat = 0;
        loop
            invariant
                self@.wf(),
                self@ == steps(c0, n),
                forall|m: nat| m < n ==> (#[trigger] steps(c0, m)).state is Running,
            ensures
                !(self@.state is Running),
            decreases
                    frame_budget(self@, 0),
                    frame_budget(self@, 1),
                    frame_budget(self@, 2),
                    frame_budget(self@, 3),
                    frame_budget(self@, 4),
                    frame_budget(self@, 5),
                    frame_budget(self@, 6),
                    frame_budget(self@, 7),
                    frame_budget(self@, 8),
                    frame_budget(self@, 9),
                    frame_budget(self@, 10),
                    frame_budget(self@, 11),
                    frame_budget(self@, 12),
                    frame_budget(self@, 13),
                    frame_budget(self@, 14),
                    frame_budget(self@, 15),
                    frame_budget(self@, 16),
        {
            if !self.is_running() {
                break;
            }
            self.step();
            proof {
                lemma_steps_succ(c0, n);
                n = n + 1;
            }
            if !self.is_running() {
                break;
            }
        }
    }

    /// Like [`Self::run`], but with a step budget imposed by the host to
    /// bound the work spent on a loaded program.  Executes at most
    /// `max_steps` steps, stopping earlier only when the machine leaves
    /// the `Running` state, and reports how many steps were taken: a
    /// count below the budget means the machine halted or faulted.
    pub fn run_with_limit(&mut self, max_steps: u64) -> (n: u64)
        requires
            old(self)@.wf(),
        ensures
            final(self)@.wf(),
            n <= max_steps,
            final(self)@ == steps(old(self)@, n as nat),
            forall|m: nat| m < n ==> (#[trigger] steps(old(self)@, m)).state is Running,
            n < max_steps ==> !(final(self)@.state is Running),
    {
        let ghost c0 = self@;
        let mut n: u64 = 0;
        loop
            invariant
                self@.wf(),
                n <= max_steps,
                self@ == steps(c0, n as nat),
                forall|m: nat| m < n ==> (#[trigger] steps(c0, m)).state is Running,
            ensures
                n <= max_steps,
                self@.wf(),
                self@ == steps(c0, n as nat),
                forall|m: nat| m < n ==> (#[trigger] steps(c0, m)).state is Running,
                n < max_steps ==> !(self@.state is Running),
            decreases max_steps - n,
        {
            if n >= max_steps {
                break;
            }
            if !self.is_running() {
                break;
            }
            self.step();
            proof {
                lemma_steps_succ(c0, n as nat);
            }
            n = n + 1;
        }
        n
    }
}

} // verus!
