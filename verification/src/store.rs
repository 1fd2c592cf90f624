//! The server-side register store: four independently sized banks of
//! addressable values (coils, discrete inputs, holding registers, input
//! registers), with bounds-checked reads and writes.

use vstd::prelude::*;

verus! {

/// The two banks of single-bit values.
#[derive(Clone, Copy, PartialEq, Eq, Structural, Debug)]
pub enum BitKind {
    Coils,
    DiscreteInputs,
}

/// The two banks of 16-bit values.
#[derive(Clone, Copy, PartialEq, Eq, Structural, Debug)]
pub enum WordKind {
    Holding,
    Input,
}

/// The one failure a store operation can signal: the addressed range does not
/// lie inside the targeted bank.
#[derive(Clone, Copy, PartialEq, Eq, Structural, Debug)]
pub enum StoreError {
    OutOfRange,
}

/// Mathematical model of a store: one sequence per bank.
pub struct StoreModel {
    pub coils: Seq<bool>,
    pub discrete_inputs: Seq<bool>,
    pub holding_registers: Seq<u16>,
    pub input_registers: Seq<u16>,
}

/// The bit bank that `kind` names, in model `s`.
pub open spec fn bit_bank(s: StoreModel, kind: BitKind) -> Seq<bool> {
    match kind {
        BitKind::Coils => s.coils,
        BitKind::DiscreteInputs => s.discrete_inputs,
    }
}

/// The word bank that `kind` names, in model `s`.
pub open spec fn word_bank(s: StoreModel, kind: WordKind) -> Seq<u16> {
    match kind {
        WordKind::Holding => s.holding_registers,
        WordKind::Input => s.input_registers,
    }
}

/// `s` with the bit bank named by `kind` replaced by `bank`.
pub open spec fn with_bit_bank(s: StoreModel, kind: BitKind, bank: Seq<bool>) -> StoreModel {
    match kind {
        BitKind::Coils => StoreModel { coils: bank, ..s },
        BitKind::DiscreteInputs => StoreModel { discrete_inputs: bank, ..s },
    }
}

/// `s` with the word bank named by `kind` replaced by `bank`.
pub open spec fn with_word_bank(s: StoreModel, kind: WordKind, bank: Seq<u16>) -> StoreModel {
    match kind {
        WordKind::Holding => StoreModel { holding_registers: bank, ..s },
        WordKind::Input => StoreModel { input_registers: bank, ..s },
    }
}

/// Whether `[start, start + qty)` lies inside a bank of length `len`.
/// The sum is taken over the unbounded integers, so a pair whose 16-bit sum
/// would wrap is correctly out of range.
pub open spec fn range_in_bounds(start: u16, qty: u16, len: nat) -> bool {
    start + qty <= len
}

/// What a bounds-checked read of `qty` bits at `start` returns.
pub open spec fn spec_read_bits(s: StoreModel, kind: BitKind, start: u16, qty: u16) -> Result<
    Seq<bool>,
    StoreError,
> {
    if range_in_bounds(start, qty, bit_bank(s, kind).len()) {
        Ok(bit_bank(s, kind).subrange(start as int, start + qty))
    } else {
        Err(StoreError::OutOfRange)
    }
}

/// What a bounds-checked read of `qty` words at `start` returns.
pub open spec fn spec_read_words(s: StoreModel, kind: WordKind, start: u16, qty: u16) -> Result<
    Seq<u16>,
    StoreError,
> {
    if range_in_bounds(start, qty, word_bank(s, kind).len()) {
        Ok(word_bank(s, kind).subrange(start as int, start + qty))
    } else {
        Err(StoreError::OutOfRange)
    }
}

/// The store after one bit at `addr` is overwritten with `value`
/// (meaningful only when `addr` is in range).
pub open spec fn spec_write_bit(s: StoreModel, kind: BitKind, addr: u16, value: bool) -> StoreModel {
    with_bit_bank(s, kind, bit_bank(s, kind).update(addr as int, value))
}

/// The store after one word at `addr` is overwritten with `value`
/// (meaningful only when `addr` is in range).
pub open spec fn spec_write_word(s: StoreModel, kind: WordKind, addr: u16, value: u16) -> StoreModel {
    with_word_bank(s, kind, word_bank(s, kind).update(addr as int, value))
}

/// The store after the bits `values` are written starting at `start`
/// (meaningful only when the whole range is in bounds).
pub open spec fn spec_write_bits(s: StoreModel, kind: BitKind, start: u16, values: Seq<bool>) -> StoreModel {
    with_bit_bank(
        s,
        kind,
        Seq::new(
            bit_bank(s, kind).len(),
            |i: int|
                if start <= i < start + values.len() {
                    values[i - start]
                } else {
                    bit_bank(s, kind)[i]
                },
        ),
    )
}

/// The store after the words `values` are written starting at `start`
/// (meaningful only when the whole range is in bounds).
pub open spec fn spec_write_words(s: StoreModel, kind: WordKind, start: u16, values: Seq<u16>) -> StoreModel {
    with_word_bank(
        s,
        kind,
        Seq::new(
            word_bank(s, kind).len(),
            |i: int|
                if start <= i < start + values.len() {
                    values[i - start]
                } else {
                    word_bank(s, kind)[i]
                },
        ),
    )
}

/// In-memory register store of a Modbus server. Bank lengths are fixed at
/// construction; holding and input registers start out holding their own
/// address, bits start out cleared.
#[derive(Debug)]
pub struct ModbusData {
    pub coils: Vec<bool>,
    pub discrete_inputs: Vec<bool>,
    pub holding_registers: Vec<u16>,
    pub input_registers: Vec<u16>,
}

impl View for ModbusData {
    type V = StoreModel;

    open spec fn view(&self) -> StoreModel {
        StoreModel {
            coils: self.coils@,
            discrete_inputs: self.discrete_inputs@,
            holding_registers: self.holding_registers@,
            input_registers: self.input_registers@,
        }
    }
}

/// A bank of `n` bits, all cleared.
fn make_bit_bank(n: u16) -> (r: Vec<bool>)
    ensures
        r@.len() == n,
        forall|i: int| 0 <= i < n ==> r@[i] == false,
{
    let mut bank: Vec<bool> = Vec::new();
    let n = n as usize;
    let mut i: usize = 0;
    while i < n
        invariant
            i <= n,
            bank@.len() == i,
            forall|j: int| 0 <= j < i ==> bank@[j] == false,
        decreases n - i,
    {
        bank.push(false);
        i = i + 1;
    }
    bank
}

/// A bank of `n` words, each holding its own address.
fn make_word_bank(n: u16) -> (r: Vec<u16>)
    ensures
        r@.len() == n,
        forall|i: int| 0 <= i < n ==> r@[i] == i,
{
    let mut bank: Vec<u16> = Vec::new();
    let n = n as usize;
    let mut i: usize = 0;
    while i < n
        invariant
            n <= u16::MAX as usize,
            i <= n,
            bank@.len() == i,
            forall|j: int| 0 <= j < i ==> bank@[j] == j,
        decreases n - i,
    {
        bank.push(i as u16);
        i = i + 1;
    }
    bank
}

impl ModbusData {
    /// A fresh store with the four given bank sizes: bits cleared, every
    /// register equal to its own address.
    pub fn new(num_coils: u16, num_discrete: u16, num_holding: u16, num_input: u16) -> (r: Self)
        ensures
            r@.coils.len() == num_coils,
            r@.discrete_inputs.len() == num_discrete,
            r@.holding_registers.len() == num_holding,
            r@.input_registers.len() == num_input,
            forall|i: int| 0 <= i < num_coils ==> r@.coils[i] == false,
            forall|i: int| 0 <= i < num_discrete ==> r@.discrete_inputs[i] == false,
            forall|i: int| 0 <= i < num_holding ==> r@.holding_registers[i] == i,
            forall|i: int| 0 <= i < num_input ==> r@.input_registers[i] == i,
    {
        ModbusData {
            coils: make_bit_bank(num_coils),
            discrete_inputs: make_bit_bank(num_discrete),
            holding_registers: make_word_bank(num_holding),
            input_registers: make_word_bank(num_input),
        }
    }

    /// Read `qty` bits of the named bank, starting at `start`, in address
    /// order; out of range exactly when the range overruns the bank.
    pub fn read_bits(&self, kind: BitKind, start: u16, qty: u16) -> (r: Result<Vec<bool>, StoreError>)
        ensures
            match r {
                Ok(values) => spec_read_bits(self@, kind, start, qty) == Ok::<_, StoreError>(values@),
                Err(e) => spec_read_bits(self@, kind, start, qty) == Err::<Seq<bool>, _>(e),
            },
    {
        let bank: &Vec<bool> = match kind {
            BitKind::Coils => &self.coils,
            BitKind::DiscreteInputs => &self.discrete_inputs,
        };
        let end: usize = start as usize + qty as usize;
        if end > bank.len() {
            return Err(StoreError::OutOfRange);
        }
        let mut values: Vec<bool> = Vec::new();
        let mut i: usize = start as usize;
        while i < end
            invariant
                start <= i <= end,
                end <= bank@.len(),
                bank@ == bit_bank(self@, kind),
                values@ =~= bank@.subrange(start as int, i as int),
            decreases end - i,
        {
            values.push(bank[i]);
            i = i + 1;
        }
        Ok(values)
    }

    /// Read `qty` words of the named bank, starting at `start`, in address
    /// order; out of range exactly when the range overruns the bank.
    pub fn read_words(&self, kind: WordKind, start: u16, qty: u16) -> (r: Result<Vec<u16>, StoreError>)
        ensures
            match r {
                Ok(values) => spec_read_words(self@, kind, start, qty) == Ok::<_, StoreError>(values@),
                Err(e) => spec_read_words(self@, kind, start, qty) == Err::<Seq<u16>, _>(e),
            },
    {
        let bank: &Vec<u16> = match kind {
            WordKind::Holding => &self.holding_registers,
            WordKind::Input => &self.input_registers,
        };
        let end: usize = start as usize + qty as usize;
        if end > bank.len() {
            return Err(StoreError::OutOfRange);
        }
        let mut values: Vec<u16> = Vec::new();
        let mut i: usize = start as usize;
        while i < end
            invariant
                start <= i <= end,
                end <= bank@.len(),
                bank@ == word_bank(self@, kind),
                values@ =~= bank@.subrange(start as int, i as int),
            decreases end - i,
        {
            values.push(bank[i]);
            i = i + 1;
        }
        Ok(values)
    }

    /// Overwrite the bit at `addr` in the named bank; on an out-of-range
    /// address the store is left untouched.
    pub fn write_bit(&mut self, kind: BitKind, addr: u16, value: bool) -> (r: Result<(), StoreError>)
        ensures
            addr < bit_bank(old(self)@, kind).len() ==> r == Ok::<_, StoreError>(())
                && final(self)@ == spec_write_bit(old(self)@, kind, addr, value),
            addr >= bit_bank(old(self)@, kind).len() ==> r == Err::<(), _>(StoreError::OutOfRange)
                && final(self)@ == old(self)@,
    {
        let bank: &mut Vec<bool> = match kind {
            BitKind::Coils => &mut self.coils,
            BitKind::DiscreteInputs => &mut self.discrete_inputs,
        };
        if (addr as usize) < bank.len() {
            bank.set(addr as usize, value);
            Ok(())
        } else {
            Err(StoreError::OutOfRange)
        }
    }

    /// Overwrite the word at `addr` in the named bank; on an out-of-range
    /// address the store is left untouched.
    pub fn write_word(&mut self, kind: WordKind, addr: u16, value: u16) -> (r: Result<(), StoreError>)
        ensures
            addr < word_bank(old(self)@, kind).len() ==> r == Ok::<_, StoreError>(())
                && final(self)@ == spec_write_word(old(self)@, kind, addr, value),
            addr >= word_bank(old(self)@, kind).len() ==> r == Err::<(), _>(StoreError::OutOfRange)
                && final(self)@ == old(self)@,
    {
        let bank: &mut Vec<u16> = match kind {
            WordKind::Holding => &mut self.holding_registers,
            WordKind::Input => &mut self.input_registers,
        };
        if (addr as usize) < bank.len() {
            bank.set(addr as usize, value);
            Ok(())
        } else {
            Err(StoreError::OutOfRange)
        }
    }

    /// Overwrite the bits `[start, start + values.len())` of the named bank
    /// with `values`; on an out-of-range span the store is left untouched.
    pub fn write_bits(&mut self, kind: BitKind, start: u16, values: &[bool]) -> (r: Result<(), StoreError>)
        requires
            values@.len() <= u16::MAX,
        ensures
            start + values@.len() <= bit_bank(old(self)@, kind).len() ==> r == Ok::<_, StoreError>(())
                && final(self)@ == spec_write_bits(old(self)@, kind, start, values@),
            start + values@.len() > bit_bank(old(self)@, kind).len() ==> r == Err::<(), _>(StoreError::OutOfRange)
                && final(self)@ == old(self)@,
    {
        let bank: &mut Vec<bool> = match kind {
            BitKind::Coils => &mut self.coils,
            BitKind::DiscreteInputs => &mut self.discrete_inputs,
        };
        let end: usize = start as usize + values.len();
        if end > bank.len() {
            return Err(StoreError::OutOfRange);
        }
        let ghost before = bank@;
        let mut i: usize = 0;
        while i < values.len()
            invariant
                values@.len() <= u16::MAX,
                i <= values@.len(),
                start + values@.len() <= before.len(),
                bank@.len() == before.len(),
                forall|j: int| 0 <= j < i ==> bank@[start + j] == values@[j],
                forall|j: int|
                    0 <= j < before.len() && !(start <= j < start + i) ==> bank@[j] == before[j],
            decreases values@.len() - i,
        {
            bank.set(start as usize + i, values[i]);
            i = i + 1;
        }
        proof {
            assert(bank@ =~= Seq::new(
                before.len(),
                |j: int|
                    if start <= j < start + values@.len() {
                        values@[j - start]
                    } else {
                        before[j]
                    },
            ));
        }
        Ok(())
    }

    /// Overwrite the words `[start, start + values.len())` of the named bank
    /// with `values`; on an out-of-range span the store is left untouched.
    pub fn write_words(&mut self, kind: WordKind, start: u16, values: &[u16]) -> (r: Result<(), StoreError>)
        requires
            values@.len() <= u16::MAX,
        ensures
            start + values@.len() <= word_bank(old(self)@, kind).len() ==> r == Ok::<_, StoreError>(())
                && final(self)@ == spec_write_words(old(self)@, kind, start, values@),
            start + values@.len() > word_bank(old(self)@, kind).len() ==> r == Err::<(), _>(StoreError::OutOfRange)
                && final(self)@ == old(self)@,
    {
        let bank: &mut Vec<u16> = match kind {
            WordKind::Holding => &mut self.holding_registers,
            WordKind::Input => &mut self.input_registers,
        };
        let end: usize = start as usize + values.len();
        if end > bank.len() {
            return Err(StoreError::OutOfRange);
        }
        let ghost before = bank@;
        let mut i: usize = 0;
        while i < values.len()
            invariant
                values@.len() <= u16::MAX,
                i <= values@.len(),
                start + values@.len() <= before.len(),
                bank@.len() == before.len(),
                forall|j: int| 0 <= j < i ==> bank@[start + j] == values@[j],
                forall|j: int|
                    0 <= j < before.len() && !(start <= j < start + i) ==> bank@[j] == before[j],
            decreases values@.len() - i,
        {
            bank.set(start as usize + i, values[i]);
            i = i + 1;
        }
        proof {
            assert(bank@ =~= Seq::new(
                before.len(),
                |j: int|
                    if start <= j < start + values@.len() {
                        values@[j - start]
                    } else {
                        before[j]
                    },
            ));
        }
        Ok(())
    }
}

/// A bit read whose range lies inside the bank returns exactly `qty` values,
/// in address order starting at `start`; any other range — including one
/// whose 16-bit sum would wrap — is refused as out of range. This holds for
/// every bank size and every `(start, qty)` pair.
pub proof fn lemma_read_bits_exact(s: StoreModel, kind: BitKind, start: u16, qty: u16)
    ensures
        start + qty <= bit_bank(s, kind).len() ==> (spec_read_bits(s, kind, start, qty) matches Ok(
            values,
        ) && values.len() == qty && (forall|i: int|
            0 <= i < qty ==> values[i] == bit_bank(s, kind)[start + i])),
        start + qty > bit_bank(s, kind).len() ==> spec_read_bits(s, kind, start, qty) == Err::<
            Seq<bool>,
            _,
        >(StoreError::OutOfRange),
{
}

/// The word-bank counterpart of `lemma_read_bits_exact`.
pub proof fn lemma_read_words_exact(s: StoreModel, kind: WordKind, start: u16, qty: u16)
    ensures
        start + qty <= word_bank(s, kind).len() ==> (spec_read_words(s, kind, start, qty) matches
            Ok(values) && values.len() == qty && (forall|i: int|
            0 <= i < qty ==> values[i] == word_bank(s, kind)[start + i])),
        start + qty > word_bank(s, kind).len() ==> spec_read_words(s, kind, start, qty) == Err::<
            Seq<u16>,
            _,
        >(StoreError::OutOfRange),
{
}

/// Writing a bit and then reading back the one-element range at its address
/// yields exactly the written value, in every bank and at every in-range
/// address.
pub proof fn lemma_write_then_read_bit(s: StoreModel, kind: BitKind, addr: u16, value: bool)
    requires
        addr < bit_bank(s, kind).len(),
    ensures
        spec_read_bits(spec_write_bit(s, kind, addr, value), kind, addr, 1) == Ok::<_, StoreError>(
            seq![value],
        ),
{
    let written = spec_write_bit(s, kind, addr, value);
    assert(bit_bank(written, kind) == bit_bank(s, kind).update(addr as int, value));
    assert(bit_bank(written, kind).subrange(addr as int, addr + 1) =~= seq![value]);
}

/// Writing a word and then reading back the one-element range at its address
/// yields exactly the written value, in every bank and at every in-range
/// address.
pub proof fn lemma_write_then_read_word(s: StoreModel, kind: WordKind, addr: u16, value: u16)
    requires
        addr < word_bank(s, kind).len(),
    ensures
        spec_read_words(spec_write_word(s, kind, addr, value), kind, addr, 1) == Ok::<_, StoreError>(
            seq![value],
        ),
{
    let written = spec_write_word(s, kind, addr, value);
    assert(word_bank(written, kind) == word_bank(s, kind).update(addr as int, value));
    assert(word_bank(written, kind).subrange(addr as int, addr + 1) =~= seq![value]);
}

} // verus!
