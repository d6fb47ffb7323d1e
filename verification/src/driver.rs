//! The driving loop: fetch the instruction at the program counter, advance
//! the counter, execute, and repeat until the counter leaves the program,
//! the machine asks to halt, or the cycle counter would overflow.

use vstd::prelude::*;

use crate::yolorisc::{
    step, wf_instruction, Clock, Effect, Instruction, MachineState, OpCodes, YoloRisc,
};

verus! {

/// The state as the driver hands it to `execute`: the program counter is
/// incremented once before the instruction runs, so a jump that overwrites
/// the counter wins over the increment.
pub open spec fn advanced(s: MachineState) -> MachineState {
    MachineState {
        registers: s.registers,
        memory: s.memory,
        program_counter: s.program_counter + 1,
        carry: s.carry,
        zero: s.zero,
        negative: s.negative,
    }
}

/// The instruction the driver fetches at state `s`: the one at the current
/// program counter.
pub open spec fn fetched(program: Seq<Instruction>, s: MachineState) -> Instruction {
    program[s.program_counter as int]
}

/// One turn of the driver: from a state whose counter is inside the
/// program, increment the counter and execute the fetched instruction.
pub open spec fn driver_step(
    program: Seq<Instruction>,
    pre: MachineState,
    post: MachineState,
) -> bool {
    &&& pre.program_counter < program.len()
    &&& post == step(advanced(pre), fetched(program, pre)).0
}

/// The effect of the driver's turn at state `pre`.
pub open spec fn driver_effect(program: Seq<Instruction>, pre: MachineState) -> Effect {
    step(advanced(pre), fetched(program, pre)).1
}

/// A run prefix: the machine states seen between driver turns, starting at
/// the initial machine, each next state one driver turn after the last.
pub open spec fn run_trace(program: Seq<Instruction>, t: Seq<MachineState>) -> bool {
    &&& t.len() > 0
    &&& t[0] == MachineState::init()
    &&& forall|k: int| 0 <= k < t.len() - 1 ==> driver_step(program, #[trigger] t[k], t[k + 1])
}

/// A finished run: a trace that ends because the program counter left the
/// program, because the last executed instruction asked to halt, or because
/// the run reached the driver's cycle bound of `u64::MAX` turns. No earlier
/// turn may have asked to halt: the driver stops at the first END.
pub open spec fn run_complete(program: Seq<Instruction>, t: Seq<MachineState>) -> bool {
    &&& run_trace(program, t)
    &&& (t.last().program_counter >= program.len() || (t.len() >= 2 && driver_effect(
        program,
        t[t.len() - 2],
    ) == Effect::Halt) || t.len() - 1 == u64::MAX as int)
    &&& forall|k: int|
        0 <= k < t.len() - 2 ==> driver_effect(program, #[trigger] t[k]) != Effect::Halt
    &&& t.len() - 1 <= u64::MAX as int
}

/// A jump that overwrites the program counter at state `s`: JMP always,
/// JZ and JNZ as the zero flag says.
pub open spec fn taken_jump(instr: Instruction, s: MachineState) -> bool {
    match instr.opcode {
        OpCodes::JMP => true,
        OpCodes::JZ => s.zero,
        OpCodes::JNZ => !s.zero,
        _ => false,
    }
}

/// After a taken jump, the driver lands exactly on the stored target
/// `lhs - 1`: the jump overwrites the counter to `lhs - 1`, and since the
/// driver fetches at the counter before incrementing it, the next executed
/// instruction is the one at that index, not one earlier or later.
pub proof fn lemma_jump_lands_on_stored_target(
    program: Seq<Instruction>,
    pre: MachineState,
    post: MachineState,
)
    requires
        driver_step(program, pre, post),
        taken_jump(fetched(program, pre), pre),
        wf_instruction(fetched(program, pre)),
    ensures
        post.program_counter == fetched(program, pre).lhs - 1,
        post.program_counter < program.len() ==> fetched(program, post) == program[fetched(
            program,
            pre,
        ).lhs - 1],
{
}

/// Two run prefixes of one program agree state for state as far as both
/// reach: a driver turn determines the next state.
proof fn lemma_trace_prefix(
    program: Seq<Instruction>,
    t1: Seq<MachineState>,
    t2: Seq<MachineState>,
    k: int,
)
    requires
        run_trace(program, t1),
        run_trace(program, t2),
        0 <= k < t1.len(),
        k < t2.len(),
    ensures
        t1[k] == t2[k],
    decreases k,
{
    if k > 0 {
        lemma_trace_prefix(program, t1, t2, k - 1);
        assert(driver_step(program, t1[k - 1], t1[k]));
        assert(driver_step(program, t2[k - 1], t2[k]));
    }
}

/// No finished run is a strict prefix of another: a shorter one would have
/// had to end where the longer one still takes a turn.
proof fn lemma_no_shorter_run(
    program: Seq<Instruction>,
    t1: Seq<MachineState>,
    t2: Seq<MachineState>,
)
    requires
        run_complete(program, t1),
        run_complete(program, t2),
    ensures
        t1.len() >= t2.len(),
{
    if t1.len() < t2.len() {
        let n = t1.len() as int;
        lemma_trace_prefix(program, t1, t2, n - 1);
        assert(driver_step(program, t2[n - 1], t2[n]));
        if n >= 2 && driver_effect(program, t1[n - 2]) == Effect::Halt {
            lemma_trace_prefix(program, t1, t2, n - 2);
            assert(driver_effect(program, t2[n - 2]) != Effect::Halt);
        }
    }
}

/// A program has exactly one finished run, so the trace that
/// `run_program`'s contract speaks of is determined by the program alone.
pub proof fn lemma_run_deterministic(
    program: Seq<Instruction>,
    t1: Seq<MachineState>,
    t2: Seq<MachineState>,
)
    requires
        run_complete(program, t1),
        run_complete(program, t2),
    ensures
        t1 == t2,
{
    lemma_no_shorter_run(program, t1, t2);
    lemma_no_shorter_run(program, t2, t1);
    assert forall|k: int| 0 <= k < t1.len() implies t1[k] == t2[k] by {
        lemma_trace_prefix(program, t1, t2, k);
    }
    assert(t1 =~= t2);
}

/// Run a program to completion on a fresh machine and return the final
/// register file. The result is the register file at the end of a finished
/// run; any printing effects are dropped here, the caller that wants them
/// drives the machine itself.
pub fn run_program(program: Vec<Instruction>) -> (r: Vec<u8>)
    requires
        forall|k: int| 0 <= k < program@.len() ==> wf_instruction(#[trigger] program@[k]),
    ensures
        r@.len() == 8,
        exists|t: Seq<MachineState>|
            #[trigger] run_complete(program@, t) && r@ == t.last().registers,
{
    let mut cpu = YoloRisc::new();
    let mut clock = Clock::default();
    let mut halted = false;
    let ghost mut trace: Seq<MachineState> = seq![cpu@];
    while !halted && cpu.program_counter < program.len() && clock.cycles < u64::MAX
        invariant
            cpu@.wf(),
            forall|k: int| 0 <= k < program@.len() ==> wf_instruction(#[trigger] program@[k]),
            run_trace(program@, trace),
            trace.last() == cpu@,
            trace.len() == clock.cycles + 1,
            halted ==> trace.len() >= 2 && driver_effect(program@, trace[trace.len() - 2])
                == Effect::Halt,
            forall|k: int|
                0 <= k < trace.len() - 2 ==> driver_effect(program@, #[trigger] trace[k])
                    != Effect::Halt,
            !halted ==> forall|k: int|
                0 <= k < trace.len() - 1 ==> driver_effect(program@, #[trigger] trace[k])
                    != Effect::Halt,
        decreases u64::MAX - clock.cycles,
    {
        let ghost pre = cpu@;
        cpu.program_counter += 1;
        clock.tick();
        let ghost mid = cpu@;
        let instruction = &program[cpu.program_counter - 1];
        let eff = cpu.execute(instruction);
        halted = matches!(eff, Effect::Halt);
        proof {
            assert(mid == advanced(pre));
            assert(driver_step(program@, pre, cpu@));
            assert(eff == driver_effect(program@, pre));
            let trace0 = trace;
            trace = trace.push(cpu@);
            assert forall|k: int| 0 <= k < trace.len() - 1 implies driver_step(
                program@,
                #[trigger] trace[k],
                trace[k + 1],
            ) by {
                if k < trace0.len() - 1 {
                    assert(driver_step(program@, trace0[k], trace0[k + 1]));
                }
            }
            assert(trace[trace.len() - 2] == pre);
        }
    }
    proof {
        assert(run_complete(program@, trace));
    }
    cpu.registers
}

} // verus!
