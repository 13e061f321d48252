//! Register banks of one simulated device: four sparse address-to-value
//! stores (coils, discrete inputs, input registers, holding registers).
//! Reading a never-written address yields the kind's zero value, never an
//! error.

use vstd::prelude::*;
use std::collections::HashMap;
use crate::text::str_eq;

verus! {

broadcast use vstd::std_specs::hash::group_hash_axioms;

/// One configured register: its bank (`type_` holds the bank name), address,
/// initial value, and an optional display name and semantic key. The semantic
/// key lets simulation updates and command resolution work when a device uses
/// custom addresses.
#[derive(Clone, Debug)]
pub struct ModbusRegisterEntry {
    pub address: u16,
    pub value: u16,
    /// One of "coils", "discrete_inputs", "input_registers",
    /// "holding_registers"; entries of any other kind are ignored.
    pub type_: String,
    pub name: Option<String>,
    pub key: Option<String>,
}

/// The boolean value a register-list prescribes for a boolean bank.
pub open spec fn entry_bit(e: ModbusRegisterEntry) -> bool {
    e.value != 0
}

/// The boolean bank built from a register list: entries of the given kind,
/// later entries overwriting earlier ones at the same address.
pub open spec fn bank_bits_of(entries: Seq<ModbusRegisterEntry>, kind: Seq<char>) -> Map<
    u16,
    bool,
>
    decreases entries.len(),
{
    if entries.len() == 0 {
        Map::empty()
    } else {
        let prev = bank_bits_of(entries.drop_last(), kind);
        let e = entries.last();
        if e.type_@ == kind {
            prev.insert(e.address, entry_bit(e))
        } else {
            prev
        }
    }
}

/// The word bank built from a register list: entries of the given kind,
/// later entries overwriting earlier ones at the same address.
pub open spec fn bank_words_of(entries: Seq<ModbusRegisterEntry>, kind: Seq<char>) -> Map<
    u16,
    u16,
>
    decreases entries.len(),
{
    if entries.len() == 0 {
        Map::empty()
    } else {
        let prev = bank_words_of(entries.drop_last(), kind);
        let e = entries.last();
        if e.type_@ == kind {
            prev.insert(e.address, e.value)
        } else {
            prev
        }
    }
}

/// The value a word bank yields at an address: the stored word, or zero where
/// none was ever written.
pub open spec fn word_at(m: Map<u16, u16>, addr: u16) -> u16 {
    if m.contains_key(addr) {
        m[addr]
    } else {
        0
    }
}

/// The value a boolean bank yields at an address: the stored bit, or false
/// where none was ever written.
pub open spec fn bit_at(m: Map<u16, bool>, addr: u16) -> bool {
    if m.contains_key(addr) {
        m[addr]
    } else {
        false
    }
}

/// The four bank names are pairwise distinct.
proof fn lemma_kinds_distinct()
    ensures
        "coils"@ != "discrete_inputs"@,
        "coils"@ != "input_registers"@,
        "coils"@ != "holding_registers"@,
        "discrete_inputs"@ != "input_registers"@,
        "discrete_inputs"@ != "holding_registers"@,
        "input_registers"@ != "holding_registers"@,
{
    reveal_strlit("coils");
    reveal_strlit("discrete_inputs");
    reveal_strlit("input_registers");
    reveal_strlit("holding_registers");
    assert("discrete_inputs"@[0] != "input_registers"@[0]);
    assert("coils"@[0] != "discrete_inputs"@[0]);
    assert("coils"@[0] != "input_registers"@[0]);
    assert("coils"@[0] != "holding_registers"@[0]);
    assert("discrete_inputs"@[0] != "holding_registers"@[0]);
    assert("input_registers"@[0] != "holding_registers"@[0]);
}

/// The four register banks of one device.
pub struct DeviceRegisterContext {
    pub coils: HashMap<u16, bool>,
    pub discrete_inputs: HashMap<u16, bool>,
    pub input_registers: HashMap<u16, u16>,
    pub holding_registers: HashMap<u16, u16>,
}

impl DeviceRegisterContext {
    /// Four empty banks.
    pub fn new() -> (r: DeviceRegisterContext)
        ensures
            r.coils@ == Map::<u16, bool>::empty(),
            r.discrete_inputs@ == Map::<u16, bool>::empty(),
            r.input_registers@ == Map::<u16, u16>::empty(),
            r.holding_registers@ == Map::<u16, u16>::empty(),
    {
        DeviceRegisterContext {
            coils: HashMap::new(),
            discrete_inputs: HashMap::new(),
            input_registers: HashMap::new(),
            holding_registers: HashMap::new(),
        }
    }

    /// Builds the banks from a configured register list; entries of unknown
    /// kind are ignored, and a later entry overwrites an earlier one at the
    /// same address of the same bank.
    pub fn from_entries(entries: &Vec<ModbusRegisterEntry>) -> (r: DeviceRegisterContext)
        ensures
            r.coils@ == bank_bits_of(entries@, "coils"@),
            r.discrete_inputs@ == bank_bits_of(entries@, "discrete_inputs"@),
            r.input_registers@ == bank_words_of(entries@, "input_registers"@),
            r.holding_registers@ == bank_words_of(entries@, "holding_registers"@),
    {
        let mut ctx = DeviceRegisterContext::new();
        let mut i: usize = 0;
        while i < entries.len()
            invariant
                i <= entries@.len(),
                ctx.coils@ == bank_bits_of(entries@.take(i as int), "coils"@),
                ctx.discrete_inputs@ == bank_bits_of(
                    entries@.take(i as int),
                    "discrete_inputs"@,
                ),
                ctx.input_registers@ == bank_words_of(
                    entries@.take(i as int),
                    "input_registers"@,
                ),
                ctx.holding_registers@ == bank_words_of(
                    entries@.take(i as int),
                    "holding_registers"@,
                ),
            decreases entries@.len() - i,
        {
            let e = &entries[i];
            proof {
                lemma_kinds_distinct();
                assert(entries@.take(i + 1).drop_last() =~= entries@.take(i as int));
                assert(entries@.take(i + 1).last() == entries@[i as int]);
            }
            if str_eq(e.type_.as_str(), "coils") {
                ctx.coils.insert(e.address, e.value != 0);
            } else if str_eq(e.type_.as_str(), "discrete_inputs") {
                ctx.discrete_inputs.insert(e.address, e.value != 0);
            } else if str_eq(e.type_.as_str(), "input_registers") {
                ctx.input_registers.insert(e.address, e.value);
            } else if str_eq(e.type_.as_str(), "holding_registers") {
                ctx.holding_registers.insert(e.address, e.value);
            }
            i += 1;
        }
        proof {
            assert(entries@.take(entries@.len() as int) =~= entries@);
        }
        ctx
    }

    /// Reads a coil; a never-written address reads as false.
    pub fn get_coil(&self, addr: u16) -> (r: bool)
        ensures
            r == bit_at(self.coils@, addr),
    {
        match self.coils.get(&addr) {
            Some(v) => *v,
            None => false,
        }
    }

    /// Reads a discrete input; a never-written address reads as false.
    pub fn get_discrete_input(&self, addr: u16) -> (r: bool)
        ensures
            r == bit_at(self.discrete_inputs@, addr),
    {
        match self.discrete_inputs.get(&addr) {
            Some(v) => *v,
            None => false,
        }
    }

    /// Reads an input register; a never-written address reads as zero.
    pub fn get_input_register(&self, addr: u16) -> (r: u16)
        ensures
            r == word_at(self.input_registers@, addr),
    {
        match self.input_registers.get(&addr) {
            Some(v) => *v,
            None => 0,
        }
    }

    /// Reads a holding register; a never-written address reads as zero.
    pub fn get_holding_register(&self, addr: u16) -> (r: u16)
        ensures
            r == word_at(self.holding_registers@, addr),
    {
        match self.holding_registers.get(&addr) {
            Some(v) => *v,
            None => 0,
        }
    }

    /// Writes a coil.
    pub fn set_coil(&mut self, addr: u16, value: bool)
        ensures
            final(self).coils@ == old(self).coils@.insert(addr, value),
            final(self).discrete_inputs@ == old(self).discrete_inputs@,
            final(self).input_registers@ == old(self).input_registers@,
            final(self).holding_registers@ == old(self).holding_registers@,
    {
        self.coils.insert(addr, value);
    }

    /// Writes a discrete input (simulation-driven).
    pub fn set_discrete_input(&mut self, addr: u16, value: bool)
        ensures
            final(self).discrete_inputs@ == old(self).discrete_inputs@.insert(addr, value),
            final(self).coils@ == old(self).coils@,
            final(self).input_registers@ == old(self).input_registers@,
            final(self).holding_registers@ == old(self).holding_registers@,
    {
        self.discrete_inputs.insert(addr, value);
    }

    /// Writes an input register (simulation-driven).
    pub fn set_input_register(&mut self, addr: u16, value: u16)
        ensures
            final(self).input_registers@ == old(self).input_registers@.insert(addr, value),
            final(self).coils@ == old(self).coils@,
            final(self).discrete_inputs@ == old(self).discrete_inputs@,
            final(self).holding_registers@ == old(self).holding_registers@,
    {
        self.input_registers.insert(addr, value);
    }

    /// Writes a holding register on behalf of a client; command handling of
    /// the write is the protocol dispatcher's, which reports it to its caller.
    pub fn set_holding_register(&mut self, addr: u16, value: u16)
        ensures
            final(self).holding_registers@ == old(self).holding_registers@.insert(addr, value),
            final(self).coils@ == old(self).coils@,
            final(self).discrete_inputs@ == old(self).discrete_inputs@,
            final(self).input_registers@ == old(self).input_registers@,
    {
        self.holding_registers.insert(addr, value);
    }

    /// Writes a holding register on behalf of the simulation itself, without
    /// any command semantics (mirrored state registers).
    pub fn set_holding_register_silent(&mut self, addr: u16, value: u16)
        ensures
            final(self).holding_registers@ == old(self).holding_registers@.insert(addr, value),
            final(self).coils@ == old(self).coils@,
            final(self).discrete_inputs@ == old(self).discrete_inputs@,
            final(self).input_registers@ == old(self).input_registers@,
    {
        self.holding_registers.insert(addr, value);
    }
}

/// Reading any never-written address of a word bank returns zero.
pub proof fn lemma_unwritten_word_reads_zero(m: Map<u16, u16>, addr: u16)
    requires
        !m.contains_key(addr),
    ensures
        word_at(m, addr) == 0,
{
}

/// Reading any never-written address of a boolean bank returns false.
pub proof fn lemma_unwritten_bit_reads_false(m: Map<u16, bool>, addr: u16)
    requires
        !m.contains_key(addr),
    ensures
        !bit_at(m, addr),
{
}

} // verus!
