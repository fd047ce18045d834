//! The EEPROM write discipline. Non-volatile registers only accept writes
//! while the lock mark is cleared, so every such write travels as an
//! explicit bracket: clear the lock, write, re-assert the lock. The bracket
//! is built here as a plan of register writes, and the servo's memory is
//! modelled so that what a plan does to it can be stated and proved.

use vstd::prelude::*;
use crate::bus::{spec_hi, spec_lo, u16_le_bytes};
use crate::registers::ServoRegister;

verus! {

/// Address of the lock-mark register.
pub const LOCK_MARK_ADDRESS: u8 = 0x37;

/// First address past the EEPROM (non-volatile) region.
pub const EEPROM_END_ADDRESS: u8 = 0x28;

/// One register write of a plan: the start address and the data bytes, one
/// per consecutive address.
pub struct RegisterWrite {
    pub address: u8,
    pub data: Vec<u8>,
}

impl RegisterWrite {
    /// The write as the memory model sees it.
    pub open spec fn view_pair(self) -> (int, Seq<u8>) {
        (self.address as int, self.data@)
    }
}

/// The writes of a plan as the memory model sees them, in order.
pub open spec fn spec_plan_view(plan: Seq<RegisterWrite>) -> Seq<(int, Seq<u8>)> {
    plan.map_values(|w: RegisterWrite| w.view_pair())
}

/// Model of the servo memory that writes act on: the register bytes and the
/// state of the EEPROM lock.
#[verifier::ext_equal]
pub struct ServoMemory {
    pub regs: Map<int, u8>,
    pub locked: bool,
}

/// What writing one byte at `addr` does to the memory: a write to the lock
/// mark moves the lock, a write to an EEPROM address is honoured only while
/// the lock is cleared, and a write to a volatile address always lands.
pub open spec fn spec_apply_byte(m: ServoMemory, addr: int, b: u8) -> ServoMemory {
    if addr == LOCK_MARK_ADDRESS {
        ServoMemory { regs: m.regs, locked: b != 0 }
    } else if addr < EEPROM_END_ADDRESS {
        if m.locked {
            m
        } else {
            ServoMemory { regs: m.regs.insert(addr, b), locked: m.locked }
        }
    } else {
        ServoMemory { regs: m.regs.insert(addr, b), locked: m.locked }
    }
}

/// What writing a run of bytes at consecutive addresses does to the memory.
pub open spec fn spec_apply_bytes(m: ServoMemory, addr: int, data: Seq<u8>) -> ServoMemory
    decreases data.len(),
{
    if data.len() == 0 {
        m
    } else {
        spec_apply_bytes(spec_apply_byte(m, addr, data[0]), addr + 1, data.drop_first())
    }
}

/// What a whole plan of writes does to the memory, in order.
pub open spec fn spec_apply_plan(m: ServoMemory, plan: Seq<(int, Seq<u8>)>) -> ServoMemory
    decreases plan.len(),
{
    if plan.len() == 0 {
        m
    } else {
        spec_apply_plan(spec_apply_bytes(m, plan[0].0, plan[0].1), plan.drop_first())
    }
}

/// The data bytes a register write of `value` carries: the register's width
/// decides between one byte and a little-endian pair.
pub open spec fn spec_register_bytes(register: ServoRegister, value: u16) -> Seq<u8> {
    if register.spec_width() == 2 {
        seq![spec_lo(value), spec_hi(value)]
    } else {
        seq![(value % 256) as u8]
    }
}

/// The bracketed plan that writes `value` into one EEPROM register: clear
/// the lock, write the register, re-assert the lock.
pub open spec fn spec_bracket_plan(register: ServoRegister, value: u16) -> Seq<(int, Seq<u8>)> {
    seq![
        (LOCK_MARK_ADDRESS as int, seq![0u8]),
        (register.spec_address() as int, spec_register_bytes(register, value)),
        (LOCK_MARK_ADDRESS as int, seq![1u8]),
    ]
}

/// Builds the data bytes of a register write of `value`.
pub fn register_bytes(register: ServoRegister, value: u16) -> (data: Vec<u8>)
    ensures
        data@ == spec_register_bytes(register, value),
{
    let mut data: Vec<u8> = Vec::new();
    if register.width() == 2 {
        let (lo, hi) = u16_le_bytes(value);
        data.push(lo);
        data.push(hi);
        proof {
            assert(data@ =~= spec_register_bytes(register, value));
        }
    } else {
        proof {
            assert(value & 0xFF == value % 256) by (bit_vector);
        }
        data.push((value & 0xFF) as u8);
        proof {
            assert(data@ =~= spec_register_bytes(register, value));
        }
    }
    data
}

/// Builds the bracketed plan that writes `value` into an EEPROM register:
/// the lock is cleared before the write and re-asserted after it, so no
/// caller ever has to remember the bracket.
pub fn eeprom_write_plan(register: ServoRegister, value: u16) -> (plan: Vec<RegisterWrite>)
    requires
        register.spec_is_eeprom(),
    ensures
        spec_plan_view(plan@) == spec_bracket_plan(register, value),
{
    let mut unlock_data: Vec<u8> = Vec::new();
    unlock_data.push(0);
    let mut lock_data: Vec<u8> = Vec::new();
    lock_data.push(1);
    let mut plan: Vec<RegisterWrite> = Vec::new();
    plan.push(RegisterWrite { address: LOCK_MARK_ADDRESS, data: unlock_data });
    plan.push(RegisterWrite { address: register.address(), data: register_bytes(register, value) });
    plan.push(RegisterWrite { address: LOCK_MARK_ADDRESS, data: lock_data });
    proof {
        assert(spec_plan_view(plan@) =~= spec_bracket_plan(register, value));
    }
    plan
}

/// Builds the bracketed plan that writes the three closed-loop coefficient
/// registers in one lock window.
pub fn pid_write_plan(p: u8, i: u8, d: u8) -> (plan: Vec<RegisterWrite>)
    ensures
        spec_plan_view(plan@) == seq![
            (LOCK_MARK_ADDRESS as int, seq![0u8]),
            (ServoRegister::PProportionalCoeff.spec_address() as int, seq![p]),
            (ServoRegister::IIntegralCoeff.spec_address() as int, seq![i]),
            (ServoRegister::DDifferentialCoeff.spec_address() as int, seq![d]),
            (LOCK_MARK_ADDRESS as int, seq![1u8]),
        ],
{
    let mut unlock_data: Vec<u8> = Vec::new();
    unlock_data.push(0);
    let mut lock_data: Vec<u8> = Vec::new();
    lock_data.push(1);
    let mut p_data: Vec<u8> = Vec::new();
    p_data.push(p);
    let mut i_data: Vec<u8> = Vec::new();
    i_data.push(i);
    let mut d_data: Vec<u8> = Vec::new();
    d_data.push(d);
    let mut plan: Vec<RegisterWrite> = Vec::new();
    plan.push(RegisterWrite { address: LOCK_MARK_ADDRESS, data: unlock_data });
    plan.push(RegisterWrite { address: ServoRegister::PProportionalCoeff.address(), data: p_data });
    plan.push(RegisterWrite { address: ServoRegister::IIntegralCoeff.address(), data: i_data });
    plan.push(RegisterWrite { address: ServoRegister::DDifferentialCoeff.address(), data: d_data });
    plan.push(RegisterWrite { address: LOCK_MARK_ADDRESS, data: lock_data });
    proof {
        assert(spec_plan_view(plan@) =~= seq![
            (LOCK_MARK_ADDRESS as int, seq![0u8]),
            (ServoRegister::PProportionalCoeff.spec_address() as int, seq![p]),
            (ServoRegister::IIntegralCoeff.spec_address() as int, seq![i]),
            (ServoRegister::DDifferentialCoeff.spec_address() as int, seq![d]),
            (LOCK_MARK_ADDRESS as int, seq![1u8]),
        ]);
    }
    plan
}

/// Builds the bracketed plan that changes the servo's bus address.
pub fn change_id_plan(new_id: u8) -> (plan: Vec<RegisterWrite>)
    ensures
        spec_plan_view(plan@) == spec_bracket_plan(ServoRegister::ID, new_id as u16),
{
    eeprom_write_plan(ServoRegister::ID, new_id as u16)
}

/// After a bracketed EEPROM write the lock is re-asserted, the register
/// holds the written bytes, and nothing else changed.
pub proof fn lemma_bracket_effect(m: ServoMemory, register: ServoRegister, value: u16)
    requires
        register.spec_is_eeprom(),
    ensures
        ({
            let after = spec_apply_plan(m, spec_bracket_plan(register, value));
            let bytes = spec_register_bytes(register, value);
            &&& after.locked
            &&& forall|k: int| 0 <= k < bytes.len()
                ==> #[trigger] after.regs.contains_key(register.spec_address() + k)
            &&& forall|k: int| 0 <= k < bytes.len()
                ==> #[trigger] after.regs[register.spec_address() + k] == bytes[k]
            &&& forall|a: int| (a < register.spec_address()
                    || a >= register.spec_address() + bytes.len())
                ==> #[trigger] after.regs.contains_key(a) == m.regs.contains_key(a)
                    && (m.regs.contains_key(a) ==> after.regs[a] == m.regs[a])
        }),
{
    reveal_with_fuel(spec_apply_plan, 4);
    reveal_with_fuel(spec_apply_bytes, 3);
    let bytes = spec_register_bytes(register, value);
    let unlocked = spec_apply_bytes(m, LOCK_MARK_ADDRESS as int, seq![0u8]);
    assert(seq![0u8].drop_first() =~= Seq::<u8>::empty());
    assert(unlocked == ServoMemory { regs: m.regs, locked: false });
    let written = spec_apply_bytes(unlocked, register.spec_address() as int, bytes);
    if bytes.len() == 2 {
        assert(bytes.drop_first() =~= seq![bytes[1]]);
        assert(seq![bytes[1]].drop_first() =~= Seq::<u8>::empty());
    } else {
        assert(bytes.drop_first() =~= Seq::<u8>::empty());
    }
    let locked = spec_apply_bytes(written, LOCK_MARK_ADDRESS as int, seq![1u8]);
    assert(seq![1u8].drop_first() =~= Seq::<u8>::empty());
    let plan = spec_bracket_plan(register, value);
    assert(plan.drop_first() =~= seq![plan[1], plan[2]]);
    assert(plan.drop_first().drop_first() =~= seq![plan[2]]);
    assert(plan.drop_first().drop_first().drop_first() =~= Seq::<(int, Seq<u8>)>::empty());
    assert(spec_apply_plan(m, plan) == locked);
}

/// Running the same bracketed EEPROM write twice in a row leaves the memory
/// exactly as one run leaves it: the register's final value is unchanged and
/// the lock is re-asserted.
pub proof fn lemma_bracket_idempotent(m: ServoMemory, register: ServoRegister, value: u16)
    requires
        register.spec_is_eeprom(),
    ensures
        ({
            let once = spec_apply_plan(m, spec_bracket_plan(register, value));
            let twice = spec_apply_plan(once, spec_bracket_plan(register, value));
            twice == once && once.locked
        }),
{
    let plan = spec_bracket_plan(register, value);
    let bytes = spec_register_bytes(register, value);
    let once = spec_apply_plan(m, plan);
    let twice = spec_apply_plan(once, plan);
    lemma_bracket_effect(m, register, value);
    lemma_bracket_effect(once, register, value);
    let base = register.spec_address() as int;
    assert(twice.regs =~= once.regs) by {
        assert forall|a: int| twice.regs.contains_key(a) == once.regs.contains_key(a) by {
            if base <= a < base + bytes.len() {
                let k = a - base;
                assert(twice.regs.contains_key(base + k) && once.regs.contains_key(base + k));
            }
        }
        assert forall|a: int| once.regs.contains_key(a) implies twice.regs[a] == once.regs[a] by {
            if base <= a < base + bytes.len() {
                let k = a - base;
                assert(twice.regs[base + k] == bytes[k] && once.regs[base + k] == bytes[k]);
            }
        }
    }
    assert(twice =~= once);
}

} // verus!
