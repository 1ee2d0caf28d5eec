use vstd::prelude::*;

verus! {

/// The 64 KiB address space seen by the CPU, held as plain bytes.
///
/// The cartridge area (`0x0000..0x8000`) starts out as `0xFF`, the value read
/// where no ROM is loaded; everything else starts out as zero.
pub struct Memory {
    bytes: [u8; 65536],
}

impl View for Memory {
    type V = Seq<u8>;

    closed spec fn view(&self) -> Seq<u8> {
        self.bytes@
    }
}

/// The byte an unwritten address holds in a fresh [`Memory`].
pub open spec fn initial_byte(address: int) -> u8 {
    if address < 0x8000 {
        0xFFu8
    } else {
        0u8
    }
}

impl Memory {
    /// Every memory holds exactly 65536 bytes.
    pub proof fn lemma_len(&self)
        ensures
            self@.len() == 65536,
    {
    }

    pub fn new() -> (r: Self)
        ensures
            r@.len() == 65536,
            forall|i: int| 0 <= i < 65536 ==> #[trigger] r@[i] == initial_byte(i),
    {
        let mut bytes = [0u8; 65536];
        let mut i: usize = 0;
        while i < 0x8000
            invariant
                i <= 0x8000,
                bytes@.len() == 65536,
                forall|j: int| 0 <= j < 65536 ==> bytes@[j] == (if j < i { 0xFFu8 } else { 0u8 }),
            decreases 0x8000 - i,
        {
            bytes[i] = 0xFF;
            i = i + 1;
        }
        Memory { bytes }
    }

    /// The byte at `address`.
    pub fn get(&self, address: u16) -> (r: u8)
        ensures
            r == self@[address as int],
    {
        self.bytes[address as usize]
    }

    /// Writes `value` at `address`.
    pub fn set(&mut self, address: u16, value: u8)
        ensures
            final(self)@ == old(self)@.update(address as int, value),
    {
        self.bytes[address as usize] = value;
    }
}

} // verus!
