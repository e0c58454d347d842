//! The flash controller driver: lock protocol, status check, native and
//! buffered reads and writes, page and mass erase.
use crate::byte_order::{native_bytes, native_bytes_of, native_word};
use crate::extra_traits::flash::{FlashError, FlashResult, Locking};
use crate::registers::{
    erased_range, fill_erased, splice, ControlRegister, ERASED, FlashPeripheral, FlashState, StatusRegister,
    FLASH_KEY1, FLASH_KEY2, PAGE_SIZE,
};
use vstd::prelude::*;

verus! {

/// Bytes per native read.
pub const READ_SIZE: usize = 8;

/// Bytes per native write.
pub const WRITE_SIZE: usize = 8;

/// Status reads after which a busy flag that has not cleared gives `Timeout`.
pub const POLL_LIMIT: u32 = 1_000_000;

/// The outcome that the status register `sr` reports, in the priority order
/// busy, programming error, write protection error.
pub open spec fn status_outcome(sr: StatusRegister) -> FlashResult {
    if sr.bsy {
        Err(FlashError::Busy)
    } else if sr.progerr {
        Err(FlashError::ProgrammingError)
    } else if sr.wrperr {
        Err(FlashError::WriteProtectionError)
    } else {
        Ok(())
    }
}

/// Nothing is in progress and no error flag is set.
pub open spec fn idle_and_clean(s: FlashState) -> bool {
    status_outcome(s.status()) is Ok
}

/// The flash controller, owning its peripheral.
pub struct Flash {
    flash: FlashPeripheral,
}

impl View for Flash {
    type V = FlashState;

    closed spec fn view(&self) -> FlashState {
        self.flash@
    }
}

impl Flash {
    /// The peripheral's array is a whole number of addressable pages.
    pub open spec fn wf(&self) -> bool {
        self@.wf()
    }

    /// Takes ownership of the peripheral.
    pub fn new(flash: FlashPeripheral) -> (r: Flash)
        ensures
            r@ == flash@,
    {
        Self { flash: flash }
    }

    /// Hands the peripheral back.
    pub fn free(self) -> (r: FlashPeripheral)
        ensures
            r@ == self@,
    {
        self.flash
    }

    /// Polls the status register until the busy flag clears, at most
    /// `POLL_LIMIT` times.
    fn wait_idle(&mut self) -> (r: FlashResult)
        ensures
            r == if old(self)@.pending < POLL_LIMIT { Ok(()) } else { Err::<(), FlashError>(FlashError::Timeout) },
            final(self)@ == (FlashState {
                pending: if old(self)@.pending < POLL_LIMIT { 0 } else { (old(self)@.pending - POLL_LIMIT) as u32 },
                ..old(self)@
            }),
    {
        let mut polls: u32 = 0;
        loop
            invariant
                polls < POLL_LIMIT,
                polls <= old(self)@.pending,
                self@ == (FlashState { pending: (old(self)@.pending - polls) as u32, ..old(self)@ }),
            decreases POLL_LIMIT - polls,
        {
            let sr = self.flash.read_sr();
            if !sr.bsy {
                return Ok(());
            }
            polls = polls + 1;
            if polls == POLL_LIMIT {
                return Err(FlashError::Timeout);
            }
        }
    }

    /// Checks the flash status.
    pub fn status(&mut self) -> (r: FlashResult)
        ensures
            r == status_outcome(old(self)@.status()),
            final(self)@ == old(self)@.after_status_read(),
    {
        let sr = self.flash.read_sr();
        if sr.bsy {
            Err(FlashError::Busy)
        } else if sr.progerr {
            Err(FlashError::ProgrammingError)
        } else if sr.wrperr {
            Err(FlashError::WriteProtectionError)
        } else {
            Ok(())
        }
    }

    /// Reads `READ_SIZE` bytes from the aligned address `address`.
    pub fn read_native(&self, address: usize) -> (r: [u8; 8])
        requires
            self.wf(),
            self@.in_array(address as int, READ_SIZE as int),
            address % READ_SIZE == 0,
        ensures
            r@ == self@.mem.subrange(
                FlashState::offset(address as int),
                FlashState::offset(address as int) + READ_SIZE,
            ),
    {
        let a = native_bytes(self.flash.read_word(address));
        let b = native_bytes(self.flash.read_word(address + 4));
        let r: [u8; 8] = [a[0], a[1], a[2], a[3], b[0], b[1], b[2], b[3]];
        assert(r@ =~= self@.mem.subrange(
            FlashState::offset(address as int),
            FlashState::offset(address as int) + READ_SIZE,
        ));
        r
    }

    /// Programs the two words at the aligned address `address`: arms
    /// programming, stores both words, waits for the busy flag to clear,
    /// disarms programming and maps any error flag left set to
    /// `ProgrammingError`. The controller must be unlocked.
    pub fn write_native(&mut self, address: usize, first_word: u32, second_word: u32) -> (r: FlashResult)
        requires
            old(self).wf(),
            !old(self)@.cr.lock,
            old(self)@.in_array(address as int, WRITE_SIZE as int),
            address % WRITE_SIZE == 0,
        ensures
            final(self).wf(),
            ({
                let s = old(self)@;
                let off = FlashState::offset(address as int);
                &&& !idle_and_clean(s) ==> r == status_outcome(s.status()) && final(self)@ == s.after_status_read()
                &&& idle_and_clean(s) && s.latency < POLL_LIMIT ==> r == if erased_range(s.mem, off, 8) {
                    Ok(())
                } else {
                    Err::<(), FlashError>(FlashError::ProgrammingError)
                }
                &&& idle_and_clean(s) && s.latency >= POLL_LIMIT && erased_range(s.mem, off, 8) ==> r == Err::<
                    (),
                    FlashError,
                >(FlashError::Timeout)
                &&& idle_and_clean(s) && s.latency < POLL_LIMIT && !erased_range(s.mem, off, 8) ==> final(self)@.progerr
                    && final(self)@.cr == ControlRegister { pg: false, ..s.cr } && final(self)@.pending == 0
                &&& r is Ok ==> idle_and_clean(s) && s.latency < POLL_LIMIT && erased_range(s.mem, off, 8)
                &&& r is Ok ==> final(self)@ == (FlashState {
                    mem: splice(s.mem, off, native_bytes_of(first_word) + native_bytes_of(second_word)),
                    cr: ControlRegister { pg: false, ..s.cr },
                    ..s
                })
                &&& unchanged_outside(s, final(self)@, off, 8)
            }),
    {
        match self.status() {
            Ok(()) => {},
            Err(e) => {
                return Err(e);
            },
        }
        let ghost s = old(self)@;
        let ghost off = FlashState::offset(address as int);
        let cr = self.flash.read_cr();
        self.flash.write_cr(ControlRegister { pg: true, ..cr });
        self.flash.write_word(address, first_word);
        proof {
            lemma_erased_after_splice(s.mem, off, native_bytes_of(first_word), off + 4, 4);
        }
        self.flash.write_word(address + 4, second_word);
        match self.wait_idle() {
            Ok(()) => {},
            Err(e) => {
                return Err(e);
            },
        }
        let cr = self.flash.read_cr();
        self.flash.write_cr(ControlRegister { pg: false, ..cr });
        let sr = self.flash.read_sr();
        proof {
            assert(erased_range(s.mem, off, 8) <==> erased_range(s.mem, off, 4) && erased_range(s.mem, off + 4, 4));
            assert(splice(splice(s.mem, off, native_bytes_of(first_word)), off + 4, native_bytes_of(second_word))
                =~= splice(s.mem, off, native_bytes_of(first_word) + native_bytes_of(second_word)));
        }
        if sr.progerr || sr.wrperr {
            Err(FlashError::ProgrammingError)
        } else {
            Ok(())
        }
    }

    /// Reads `buf.len()` bytes from the aligned address `address`, one native
    /// read at a time.
    pub fn read(&self, address: usize, buf: &mut [u8])
        requires
            self.wf(),
            self@.in_array(address as int, old(buf)@.len() as int),
            address % READ_SIZE == 0,
            old(buf)@.len() % READ_SIZE as nat == 0,
        ensures
            final(buf)@ == self@.mem.subrange(
                FlashState::offset(address as int),
                FlashState::offset(address as int) + old(buf)@.len(),
            ),
    {
        let len = buf.len();
        let ghost off = FlashState::offset(address as int);
        let mut i: usize = 0;
        while i < len
            invariant
                len == buf@.len(),
                len == old(buf)@.len(),
                i <= len,
                i % 8 == 0,
                len % 8 == 0,
                address % 8 == 0,
                self.wf(),
                self@.in_array(address as int, len as int),
                off == FlashState::offset(address as int),
                buf@.subrange(0, i as int) == self@.mem.subrange(off, off + i),
            decreases len - i,
        {
            let chunk = self.read_native(address + i);
            let mut k: usize = 0;
            while k < 8
                invariant
                    len == buf@.len(),
                    i + 8 <= len,
                    k <= 8,
                    self@.in_array(address as int, len as int),
                    off == FlashState::offset(address as int),
                    chunk@ == self@.mem.subrange(off + i, off + i + 8),
                    buf@.subrange(0, i as int) == self@.mem.subrange(off, off + i),
                    forall|j: int| 0 <= j < k ==> buf@[i + j] == chunk@[j],
                decreases 8 - k,
            {
                buf[i + k] = chunk[k];
                proof {
                    assert(buf@.subrange(0, i as int) =~= self@.mem.subrange(off, off + i));
                }
                k += 1;
            }
            assert forall|j: int| 0 <= j < i + 8 implies buf@[j] == self@.mem[off + j] by {
                if j < i {
                    assert(buf@.subrange(0, i as int)[j] == self@.mem.subrange(off, off + i)[j]);
                } else {
                    assert(chunk@[j - i] == self@.mem.subrange(off + i, off + i + 8)[j - i]);
                }
            }
            assert(buf@.subrange(0, i + 8) =~= self@.mem.subrange(off, off + i + 8));
            i += 8;
        }
        assert(buf@.subrange(0, len as int) =~= buf@);
    }

    /// Programs `data` from the aligned address `address` on, one native
    /// write at a time, and stops at the first error: what the strides before
    /// it programmed stays. The controller must be unlocked.
    pub fn write(&mut self, address: usize, data: &[u8]) -> (r: FlashResult)
        requires
            old(self).wf(),
            !old(self)@.cr.lock,
            old(self)@.in_array(address as int, data@.len() as int),
            address % WRITE_SIZE == 0,
            data@.len() % WRITE_SIZE as nat == 0,
        ensures
            final(self).wf(),
            write_outcome(old(self)@, address, data@, r, final(self)@),
    {
        let len = data.len();
        let ghost s = old(self)@;
        let ghost off = FlashState::offset(address as int);
        let mut i: usize = 0;
        while i < len
            invariant
                self.wf(),
                len == data@.len(),
                i <= len,
                i % 8 == 0,
                len % 8 == 0,
                address % 8 == 0,
                s == old(self)@,
                off == FlashState::offset(address as int),
                s.in_array(address as int, len as int),
                !s.cr.lock,
                i == 0 ==> self@ == s,
                i > 0 ==> self@ == (FlashState { mem: splice(s.mem, off, data@.subrange(0, i as int)), cr: ControlRegister { pg: false, ..s.cr }, ..s }),
                i > 0 ==> idle_and_clean(s) && s.latency < POLL_LIMIT && erased_range(s.mem, off, i as int),
            decreases len - i,
        {
            let first: [u8; 4] = [data[i], data[i + 1], data[i + 2], data[i + 3]];
            let second: [u8; 4] = [data[i + 4], data[i + 5], data[i + 6], data[i + 7]];
            let w1 = native_word(&first);
            let w2 = native_word(&second);
            let ghost chunk = data@.subrange(i as int, i + 8);
            proof {
                assert(first@.subrange(0, 4) =~= first@);
                assert(second@.subrange(0, 4) =~= second@);
                assert(native_bytes_of(w1) + native_bytes_of(w2) =~= chunk);
                if i > 0 {
                    lemma_erased_after_splice(s.mem, off, data@.subrange(0, i as int), off + i, 8);
                    assert forall|j: int| off + i <= j < off + i + 8 implies self@.mem[j] == s.mem[j] by {}
                }
            }
            let ghost before = self@;
            match self.write_native(address + i, w1, w2) {
                Ok(()) => {},
                Err(e) => {
                    proof {
                        if i > 0 {
                            assert(!erased_range(before.mem, off + i, 8));
                            assert(!erased_range(s.mem, off, len as int));
                        }
                        let t = self@;
                        assert(t.mem.subrange(off, off + i) =~= data@.subrange(0, i as int));
                        assert(t.mem.subrange(off + i + 8, off + len) =~= s.mem.subrange(off + i + 8, off + len));
                        assert(committed_before(s, t, off, data@, i as int));
                    }
                    return Err(e);
                },
            }
            proof {
                assert(splice(before.mem, off + i, chunk) =~= splice(s.mem, off, data@.subrange(0, i + 8)));
                assert(erased_range(s.mem, off, i + 8));
            }
            i += 8;
        }
        proof {
            assert(data@.subrange(0, len as int) =~= data@);
        }
        Ok(())
    }

    /// Erases the page with index `page`: arms page erase for that page,
    /// starts it, waits for the busy flag to clear and disarms page erase.
    /// The controller must be unlocked.
    pub fn erase_page(&mut self, page: u8) -> (r: FlashResult)
        requires
            old(self).wf(),
            !old(self)@.cr.lock,
            (page as int) < old(self)@.page_count(),
        ensures
            final(self).wf(),
            erase_page_outcome(old(self)@, page, r, final(self)@),
    {
        match self.status() {
            Ok(()) => {},
            Err(e) => {
                return Err(e);
            },
        }
        let cr = self.flash.read_cr();
        let armed = ControlRegister { per: true, pnb: page, ..cr };
        self.flash.write_cr(armed);
        self.flash.write_cr(ControlRegister { start: true, ..armed });
        match self.wait_idle() {
            Ok(()) => {},
            Err(e) => {
                return Err(e);
            },
        }
        let cr = self.flash.read_cr();
        self.flash.write_cr(ControlRegister { per: false, ..cr });
        self.status()
    }

    /// Erases every page: arms mass erase, starts it, waits for the busy flag
    /// to clear and disarms mass erase. The controller must be unlocked.
    pub fn erase_all_pages(&mut self) -> (r: FlashResult)
        requires
            old(self).wf(),
            !old(self)@.cr.lock,
        ensures
            final(self).wf(),
            erase_all_outcome(old(self)@, r, final(self)@),
    {
        match self.status() {
            Ok(()) => {},
            Err(e) => {
                return Err(e);
            },
        }
        let cr = self.flash.read_cr();
        let armed = ControlRegister { mer1: true, ..cr };
        self.flash.write_cr(armed);
        self.flash.write_cr(ControlRegister { start: true, ..armed });
        match self.wait_idle() {
            Ok(()) => {},
            Err(e) => {
                return Err(e);
            },
        }
        let cr = self.flash.read_cr();
        self.flash.write_cr(ControlRegister { mer1: false, ..cr });
        self.status()
    }
}

impl Locking for Flash {
    open spec fn locked(&self) -> bool {
        self@.cr.lock
    }

    open spec fn unlocked_to(&self, after: Self) -> bool {
        after@ == self@.after_key_write(FLASH_KEY1).after_key_write(FLASH_KEY2)
    }

    open spec fn locked_to(&self, after: Self) -> bool {
        after@ == if self@.cr.lock {
            self@
        } else {
            FlashState { cr: ControlRegister { lock: true, start: false, ..self@.cr }, ..self@ }
        }
    }

    fn is_locked(&self) -> (r: bool) {
        self.flash.read_cr().lock
    }

    /// Writes the two keys, in order, if the controller is locked.
    fn unlock(&mut self)
        ensures
            final(self)@ == if old(self)@.cr.lock {
                old(self)@.after_key_write(FLASH_KEY1).after_key_write(FLASH_KEY2)
            } else {
                old(self)@
            },
            old(self)@.cr.lock && !old(self)@.key_first && !old(self)@.key_blocked ==> !final(self)@.cr.lock,
            old(self).wf() ==> final(self).wf(),
    {
        // the peripheral stalls on keys written while it is unlocked
        if self.is_locked() {
            self.flash.write_keyr(FLASH_KEY1);
            self.flash.write_keyr(FLASH_KEY2);
        }
    }

    fn lock(&mut self)
        ensures
            final(self)@ == if old(self)@.cr.lock {
                old(self)@
            } else {
                FlashState { cr: ControlRegister { lock: true, start: false, ..old(self)@.cr }, ..old(self)@ }
            },
            old(self).wf() ==> final(self).wf(),
    {
        let cr = self.flash.read_cr();
        self.flash.write_cr(ControlRegister { lock: true, start: false, ..cr });
    }
}

/// What `write` of `data` at `address` does: `s` before, `t` after, `r` returned.
pub open spec fn write_outcome(s: FlashState, address: usize, data: Seq<u8>, r: FlashResult, t: FlashState) -> bool {
    let off = FlashState::offset(address as int);
    let n = data.len() as int;
    &&& n == 0 ==> r is Ok && t == s
    &&& n > 0 && !idle_and_clean(s) ==> r == status_outcome(s.status()) && t
        == s.after_status_read()
    &&& n > 0 && idle_and_clean(s) && s.latency < POLL_LIMIT ==> r == if erased_range(s.mem, off, n) {
        Ok(())
    } else {
        Err::<(), FlashError>(FlashError::ProgrammingError)
    }
    &&& n > 0 && idle_and_clean(s) && s.latency < POLL_LIMIT && !erased_range(s.mem, off, n) ==> t.progerr
        && t.cr == ControlRegister { pg: false, ..s.cr } && t.pending == 0
    &&& n > 0 && idle_and_clean(s) && s.latency >= POLL_LIMIT && erased_range(s.mem, off, 8) ==> r
        == Err::<(), FlashError>(FlashError::Timeout)
    &&& n > 0 && r is Ok ==> t == (FlashState {
        mem: splice(s.mem, off, data),
        cr: ControlRegister { pg: false, ..s.cr },
        ..s
    })
    &&& r is Err ==> exists|k: int| 0 <= k < n && k % 8 == 0 && #[trigger] committed_before(s, t, off, data, k)
    &&& unchanged_outside(s, t, off, n)
}

/// After a buffered write that stopped at the stride starting `k` bytes in,
/// the strides before it hold their data and those after it are untouched.
pub open spec fn committed_before(s: FlashState, t: FlashState, off: int, data: Seq<u8>, k: int) -> bool {
    &&& t.mem.subrange(off, off + k) == data.subrange(0, k)
    &&& t.mem.subrange(off + k + 8, off + data.len()) == s.mem.subrange(off + k + 8, off + data.len())
}

/// What `erase_page` of `page` does: `s` before, `t` after, `r` returned.
/// A mass erase that an earlier, timed-out operation left armed takes
/// precedence over the page erase when the start bit is written.
pub open spec fn erase_page_outcome(s: FlashState, page: u8, r: FlashResult, t: FlashState) -> bool {
    let off = if s.cr.mer1 { 0 } else { page as int * PAGE_SIZE as int };
    let n = if s.cr.mer1 { s.mem.len() as int } else { PAGE_SIZE as int };
    let erased = fill_erased(s.mem, off, n);
    &&& !idle_and_clean(s) ==> r == status_outcome(s.status()) && t == s.after_status_read()
    &&& idle_and_clean(s) && s.latency < POLL_LIMIT ==> r is Ok && t == (FlashState {
        mem: erased,
        cr: ControlRegister { per: false, pnb: page, ..s.cr },
        ..s
    })
    &&& idle_and_clean(s) && s.latency >= POLL_LIMIT ==> r == Err::<(), FlashError>(FlashError::Timeout)
        && t.mem == erased
    &&& unchanged_outside(s, t, off, n)
}

/// What `erase_all_pages` does: `s` before, `t` after, `r` returned.
pub open spec fn erase_all_outcome(s: FlashState, r: FlashResult, t: FlashState) -> bool {
    let erased = fill_erased(s.mem, 0, s.mem.len() as int);
    &&& !idle_and_clean(s) ==> r == status_outcome(s.status()) && t == s.after_status_read()
    &&& idle_and_clean(s) && s.latency < POLL_LIMIT ==> r is Ok && t == (FlashState {
        mem: erased,
        cr: ControlRegister { mer1: false, ..s.cr },
        ..s
    })
    &&& idle_and_clean(s) && s.latency >= POLL_LIMIT ==> r == Err::<(), FlashError>(FlashError::Timeout)
        && t.mem == erased
    &&& unchanged_outside(s, t, 0, s.mem.len() as int)
}

/// `b` differs from `a` at most in the array bytes `[off, off + n)`, the
/// control register's arming bits, the error flags and the busy count.
pub open spec fn unchanged_outside(a: FlashState, b: FlashState, off: int, n: int) -> bool {
    &&& b.mem.len() == a.mem.len()
    &&& forall|i: int| 0 <= i < a.mem.len() && !(off <= i < off + n) ==> b.mem[i] == a.mem[i]
    &&& b.cr.lock == a.cr.lock
    &&& b.latency == a.latency
    &&& b.key_first == a.key_first
    &&& b.key_blocked == a.key_blocked
}

/// Writing bytes at `off` leaves a disjoint range as erased as it was.
proof fn lemma_erased_after_splice(m: Seq<u8>, off: int, b: Seq<u8>, o2: int, n: int)
    requires
        off + b.len() <= o2 || o2 + n <= off,
        0 <= o2,
        o2 + n <= m.len(),
    ensures
        erased_range(splice(m, off, b), o2, n) == erased_range(m, o2, n),
{
    assert forall|i: int| o2 <= i < o2 + n implies splice(m, off, b)[i] == m[i] by {}
}

/// Programming an erased range of an idle controller succeeds, and reading the
/// range back afterwards gives the programmed bytes.
pub proof fn lemma_read_after_write(
    s: FlashState,
    address: usize,
    data: Seq<u8>,
    r: FlashResult,
    t: FlashState,
)
    requires
        s.in_array(address as int, data.len() as int),
        erased_range(s.mem, FlashState::offset(address as int), data.len() as int),
        idle_and_clean(s),
        s.latency < POLL_LIMIT,
        write_outcome(s, address, data, r, t),
    ensures
        r is Ok,
        t.mem.subrange(
            FlashState::offset(address as int),
            FlashState::offset(address as int) + data.len(),
        ) == data,
{
    let off = FlashState::offset(address as int);
    if data.len() == 0 {
        assert(t.mem.subrange(off, off + data.len()) =~= data);
    } else {
        assert(splice(s.mem, off, data).subrange(off, off + data.len()) =~= data);
    }
}

/// Once a page of an idle controller is erased, every byte in it reads as
/// erased.
pub proof fn lemma_erased_page_reads_erased(s: FlashState, page: u8, r: FlashResult, t: FlashState, address: usize)
    requires
        s.wf(),
        (page as int) < s.page_count(),
        idle_and_clean(s),
        erase_page_outcome(s, page, r, t),
        page as int * PAGE_SIZE as int <= FlashState::offset(address as int) < (page as int + 1)
            * PAGE_SIZE as int,
    ensures
        t.mem[FlashState::offset(address as int)] == ERASED,
{
}

/// While an operation is in progress, programming and both erases refuse with
/// `Busy` and change neither the control register nor the array.
pub proof fn lemma_busy_refuses(
    s: FlashState,
    address: usize,
    data: Seq<u8>,
    page: u8,
    rw: FlashResult,
    tw: FlashState,
    rp: FlashResult,
    tp: FlashState,
    ra: FlashResult,
    ta: FlashState,
)
    requires
        s.busy(),
        data.len() > 0,
        write_outcome(s, address, data, rw, tw),
        erase_page_outcome(s, page, rp, tp),
        erase_all_outcome(s, ra, ta),
    ensures
        rw == Err::<(), FlashError>(FlashError::Busy) && tw.cr == s.cr && tw.mem == s.mem,
        rp == Err::<(), FlashError>(FlashError::Busy) && tp.cr == s.cr && tp.mem == s.mem,
        ra == Err::<(), FlashError>(FlashError::Busy) && ta.cr == s.cr && ta.mem == s.mem,
{
}

} // verus!
