//! Register-level model of the flash controller peripheral: the control,
//! status and key registers and the memory array they govern, with the bit
//! semantics the hardware gives them.
use crate::byte_order::{native_bytes, native_bytes_of, native_word};
use vstd::prelude::*;

verus! {

/// Base address of the flash array in the address space.
pub const FLASH_ORIGIN: usize = 0x0800_0000;

/// Size in bytes of one erase page.
pub const PAGE_SIZE: usize = 2048;

/// The page number field holds eight bits, so a part has at most this many pages.
pub const MAX_PAGES: usize = 256;

/// Value of every byte of an erased page.
pub const ERASED: u8 = 0xFF;

/// First key of the unlock sequence.
pub const FLASH_KEY1: u32 = 0x4567_0123;

/// Second key of the unlock sequence.
pub const FLASH_KEY2: u32 = 0xCDEF_89AB;

/// Fields of the control register.
#[derive(Clone, Copy, PartialEq, Eq, Structural, Debug)]
pub struct ControlRegister {
    /// Programming and erase are refused while set; cleared only by the key sequence.
    pub lock: bool,
    /// Programming enabled.
    pub pg: bool,
    /// Page erase enabled.
    pub per: bool,
    /// Mass erase enabled.
    pub mer1: bool,
    /// Page number of the next page erase.
    pub pnb: u8,
    /// Writing it set starts the erase armed by `per` or `mer1`; reads as clear.
    pub start: bool,
}

/// Fields of the status register.
#[derive(Clone, Copy, PartialEq, Eq, Structural, Debug)]
pub struct StatusRegister {
    /// An operation is in progress.
    pub bsy: bool,
    /// A programming operation failed.
    pub progerr: bool,
    /// A protected address, or the array while not armed for programming, was targeted.
    pub wrperr: bool,
}

/// What the peripheral holds at one instant.
pub ghost struct FlashState {
    pub cr: ControlRegister,
    pub progerr: bool,
    pub wrperr: bool,
    /// Number of status reads for which the running operation still reports busy.
    pub pending: u32,
    /// Number of status reads that an operation started now reports busy for.
    pub latency: u32,
    /// The first key of the unlock sequence was accepted.
    pub key_first: bool,
    /// A wrong key sequence blocked the key register until reset.
    pub key_blocked: bool,
    /// The memory array, from `FLASH_ORIGIN` on.
    pub mem: Seq<u8>,
}

impl FlashState {
    /// The array is a whole number of pages, as many as the page number field
    /// can address, and `start` reads as clear.
    pub open spec fn wf(self) -> bool {
        &&& self.mem.len() as int % (PAGE_SIZE as int) == 0
        &&& 1 <= self.page_count() <= MAX_PAGES
        &&& !self.cr.start
    }

    pub open spec fn page_count(self) -> int {
        self.mem.len() as int / (PAGE_SIZE as int)
    }

    pub open spec fn busy(self) -> bool {
        self.pending > 0
    }

    /// The status register as it reads now.
    pub open spec fn status(self) -> StatusRegister {
        StatusRegister { bsy: self.busy(), progerr: self.progerr, wrperr: self.wrperr }
    }

    /// Offset into the array of an absolute address.
    pub open spec fn offset(addr: int) -> int {
        addr - FLASH_ORIGIN
    }

    /// `n` bytes from `addr` on lie in the array.
    pub open spec fn in_array(self, addr: int, n: int) -> bool {
        FLASH_ORIGIN <= addr && 0 <= n && Self::offset(addr) + n <= self.mem.len()
    }

    /// The state after one status read: the running operation advances.
    pub open spec fn after_status_read(self) -> FlashState {
        FlashState { pending: if self.pending > 0 { (self.pending - 1) as u32 } else { 0 }, ..self }
    }

    /// The state after `v` is written to the control register.
    pub open spec fn after_cr_write(self, v: ControlRegister) -> FlashState {
        if self.cr.lock {
            self
        } else {
            let cr = ControlRegister { start: false, ..v };
            let s = FlashState { cr, ..self };
            if v.start && self.pending == 0 && v.mer1 {
                FlashState { mem: fill_erased(self.mem, 0, self.mem.len() as int), pending: self.latency, ..s }
            } else if v.start && self.pending == 0 && v.per && (v.pnb as int) < self.page_count() {
                FlashState {
                    mem: fill_erased(self.mem, v.pnb as int * PAGE_SIZE as int, PAGE_SIZE as int),
                    pending: self.latency,
                    ..s
                }
            } else {
                s
            }
        }
    }

    /// The state after `key` is written to the key register.
    pub open spec fn after_key_write(self, key: u32) -> FlashState {
        if self.key_blocked {
            self
        } else if self.cr.lock && !self.key_first && key == FLASH_KEY1 {
            FlashState { key_first: true, ..self }
        } else if self.cr.lock && self.key_first && key == FLASH_KEY2 {
            FlashState { key_first: false, cr: ControlRegister { lock: false, ..self.cr }, ..self }
        } else {
            FlashState { key_first: false, key_blocked: true, ..self }
        }
    }

    /// The state after the word with bytes `b` is stored at array offset `off`.
    pub open spec fn after_word_store(self, off: int, b: Seq<u8>) -> FlashState {
        if self.cr.lock || !self.cr.pg {
            FlashState { wrperr: true, ..self }
        } else if !erased_range(self.mem, off, 4) {
            FlashState { progerr: true, ..self }
        } else {
            FlashState { mem: splice(self.mem, off, b), pending: self.latency, ..self }
        }
    }
}

/// Every byte of `m` in `[off, off + n)` is erased.
pub open spec fn erased_range(m: Seq<u8>, off: int, n: int) -> bool {
    forall|i: int| off <= i < off + n ==> m[i] == ERASED
}

/// `m` with the bytes in `[off, off + n)` erased.
pub open spec fn fill_erased(m: Seq<u8>, off: int, n: int) -> Seq<u8> {
    Seq::new(m.len(), |i: int| if off <= i < off + n { ERASED } else { m[i] })
}

/// `m` with `b` written over it from `off` on.
pub open spec fn splice(m: Seq<u8>, off: int, b: Seq<u8>) -> Seq<u8> {
    Seq::new(m.len(), |i: int| if off <= i < off + b.len() { b[i - off] } else { m[i] })
}

/// The flash controller peripheral.
pub struct FlashPeripheral {
    cr: ControlRegister,
    progerr: bool,
    wrperr: bool,
    pending: u32,
    latency: u32,
    key_first: bool,
    key_blocked: bool,
    mem: Vec<u8>,
}

impl View for FlashPeripheral {
    type V = FlashState;

    closed spec fn view(&self) -> FlashState {
        FlashState {
            cr: self.cr,
            progerr: self.progerr,
            wrperr: self.wrperr,
            pending: self.pending,
            latency: self.latency,
            key_first: self.key_first,
            key_blocked: self.key_blocked,
            mem: self.mem@,
        }
    }
}

impl FlashPeripheral {
    /// The array is a whole number of addressable pages.
    pub open spec fn wf(&self) -> bool {
        self@.wf()
    }

    /// A peripheral out of reset: locked, idle, no error flags, every page
    /// erased. Each operation it starts reports busy for `latency` status reads.
    pub fn new(page_count: usize, latency: u32) -> (r: FlashPeripheral)
        requires
            1 <= page_count <= MAX_PAGES,
        ensures
            r.wf(),
            r@.cr == (ControlRegister { lock: true, pg: false, per: false, mer1: false, pnb: 0, start: false }),
            !r@.progerr && !r@.wrperr && r@.pending == 0 && r@.latency == latency,
            !r@.key_first && !r@.key_blocked,
            r@.mem.len() == page_count * PAGE_SIZE,
            erased_range(r@.mem, 0, r@.mem.len() as int),
    {
        let n: usize = page_count * PAGE_SIZE;
        let mut mem: Vec<u8> = Vec::with_capacity(n);
        let mut i: usize = 0;
        while i < n
            invariant
                i <= n,
                mem@.len() == i,
                erased_range(mem@, 0, i as int),
            decreases n - i,
        {
            mem.push(ERASED);
            i += 1;
        }
        let ghost len = mem@.len() as int;
        assert(len % (PAGE_SIZE as int) == 0 && len / (PAGE_SIZE as int) == page_count as int) by (nonlinear_arith)
            requires len == page_count as int * PAGE_SIZE as int;
        FlashPeripheral {
            cr: ControlRegister { lock: true, pg: false, per: false, mer1: false, pnb: 0, start: false },
            progerr: false,
            wrperr: false,
            pending: 0,
            latency,
            key_first: false,
            key_blocked: false,
            mem,
        }
    }

    /// Reads the control register.
    pub fn read_cr(&self) -> (r: ControlRegister)
        ensures
            r == self@.cr,
    {
        self.cr
    }

    /// Reads the status register; each read advances a running operation.
    pub fn read_sr(&mut self) -> (r: StatusRegister)
        ensures
            r == old(self)@.status(),
            final(self)@ == old(self)@.after_status_read(),
            old(self).wf() ==> final(self).wf(),
    {
        let r = StatusRegister { bsy: self.pending > 0, progerr: self.progerr, wrperr: self.wrperr };
        if self.pending > 0 {
            self.pending = self.pending - 1;
        }
        r
    }

    /// Erases `n` bytes of the array from offset `off` on.
    fn erase_bytes(&mut self, off: usize, n: usize)
        requires
            off + n <= old(self)@.mem.len(),
        ensures
            final(self)@ == (FlashState { mem: fill_erased(old(self)@.mem, off as int, n as int), ..old(self)@ }),
    {
        let len = self.mem.len();
        assert(off + n <= len);
        let end: usize = off + n;
        let mut i: usize = off;
        while i < end
            invariant
                end == off + n,
                off <= i <= off + n,
                off + n <= self.mem@.len(),
                self@ == (FlashState { mem: self.mem@, ..old(self)@ }),
                self.mem@ == fill_erased(old(self)@.mem, off as int, i - off),
            decreases end - i,
        {
            self.mem.set(i, ERASED);
            i += 1;
        }
        assert(self.mem@ =~= fill_erased(old(self)@.mem, off as int, n as int));
    }

    /// Writes the control register.
    pub fn write_cr(&mut self, v: ControlRegister)
        ensures
            old(self).wf() ==> final(self).wf(),
            final(self)@ == old(self)@.after_cr_write(v),
    {
        if self.cr.lock {
            return;
        }
        let start_now = v.start && self.pending == 0;
        self.cr = ControlRegister { start: false, ..v };
        let len = self.mem.len();
        if start_now && v.mer1 {
            self.erase_bytes(0, len);
            self.pending = self.latency;
        } else if start_now && v.per && (v.pnb as usize) < len / PAGE_SIZE {
            assert((v.pnb as int) * (PAGE_SIZE as int) + (PAGE_SIZE as int) <= len) by (nonlinear_arith)
                requires (v.pnb as int) < len as int / (PAGE_SIZE as int);
            self.erase_bytes(v.pnb as usize * PAGE_SIZE, PAGE_SIZE);
            self.pending = self.latency;
        }
    }

    /// Writes the key register.
    pub fn write_keyr(&mut self, key: u32)
        ensures
            old(self).wf() ==> final(self).wf(),
            final(self)@ == old(self)@.after_key_write(key),
    {
        if self.key_blocked {
        } else if self.cr.lock && !self.key_first && key == FLASH_KEY1 {
            self.key_first = true;
        } else if self.cr.lock && self.key_first && key == FLASH_KEY2 {
            self.key_first = false;
            self.cr = ControlRegister { lock: false, ..self.cr };
        } else {
            self.key_first = false;
            self.key_blocked = true;
        }
    }

    /// Loads the 32-bit word at the word-aligned address `addr`.
    pub fn read_word(&self, addr: usize) -> (r: u32)
        requires
            self@.in_array(addr as int, 4),
        ensures
            native_bytes_of(r) == self@.mem.subrange(
                FlashState::offset(addr as int),
                FlashState::offset(addr as int) + 4,
            ),
    {
        let off = addr - FLASH_ORIGIN;
        let b: [u8; 4] = [self.mem[off], self.mem[off + 1], self.mem[off + 2], self.mem[off + 3]];
        let r = native_word(&b);
        assert(b@ =~= self.mem@.subrange(off as int, off + 4));
        assert(b@.subrange(0, 4) =~= b@);
        r
    }

    /// Stores the 32-bit word `w` at the word-aligned address `addr`.
    pub fn write_word(&mut self, addr: usize, w: u32)
        requires
            old(self)@.in_array(addr as int, 4),
        ensures
            old(self).wf() ==> final(self).wf(),
            final(self)@ == old(self)@.after_word_store(FlashState::offset(addr as int), native_bytes_of(w)),
            native_bytes_of(w).len() == 4,
    {
        let off = addr - FLASH_ORIGIN;
        let b = native_bytes(w);
        if self.cr.lock || !self.cr.pg {
            self.wrperr = true;
            return;
        }
        if self.mem[off] != ERASED || self.mem[off + 1] != ERASED || self.mem[off + 2] != ERASED
            || self.mem[off + 3] != ERASED {
            self.progerr = true;
            return;
        }
        let ghost m0 = self.mem@;
        let end: usize = off + 4;
        let mut k: usize = 0;
        while k < 4
            invariant
                end == off + 4,
                k <= 4,
                off + 4 <= self.mem@.len(),
                b@.len() == 4,
                self@ == (FlashState { mem: self.mem@, ..old(self)@ }),
                self.mem@ == splice(m0, off as int, b@.subrange(0, k as int)),
            decreases 4 - k,
        {
            self.mem.set(off + k, b[k]);
            k += 1;
            assert(self.mem@ =~= splice(m0, off as int, b@.subrange(0, k as int)));
        }
        assert(b@.subrange(0, 4) =~= b@);
        self.pending = self.latency;
    }
}

} // verus!
