//! Random number generator peripheral: a register-level model of it and its
//! driver.
use crate::byte_order::{native_bytes, native_bytes_of};
use vstd::prelude::*;

verus! {

/// What the RNG peripheral holds at one instant.
pub ghost struct RngState {
    /// Control register: generator enabled.
    pub rngen: bool,
    /// Control register: interrupt enabled.
    pub ie: bool,
    /// Status register: clock error.
    pub cecs: bool,
    /// Status register: seed error.
    pub secs: bool,
    /// The words the entropy source delivers, in order.
    pub samples: Seq<u32>,
    /// How many of them the data register has handed out.
    pub next: int,
}

impl RngState {
    /// Status register: a fresh word waits in the data register.
    pub open spec fn data_ready(self) -> bool {
        self.next < self.samples.len()
    }

    /// The words not yet handed out.
    pub open spec fn remaining(self) -> Seq<u32> {
        self.samples.subrange(self.next, self.samples.len() as int)
    }
}

/// The RNG peripheral.
pub struct RNG {
    rngen: bool,
    ie: bool,
    cecs: bool,
    secs: bool,
    samples: Vec<u32>,
    next: usize,
}

impl View for RNG {
    type V = RngState;

    closed spec fn view(&self) -> RngState {
        RngState {
            rngen: self.rngen,
            ie: self.ie,
            cecs: self.cecs,
            secs: self.secs,
            samples: self.samples@,
            next: self.next as int,
        }
    }
}

impl RNG {
    /// No more words were handed out than the source delivered.
    pub closed spec fn wf(&self) -> bool {
        self.next <= self.samples@.len()
    }

    /// A peripheral out of reset, disabled, whose entropy source will deliver
    /// `samples` in order.
    pub fn new(samples: Vec<u32>) -> (r: RNG)
        ensures
            r.wf(),
            r@ == (RngState { rngen: false, ie: false, cecs: false, secs: false, samples: samples@, next: 0 }),
    {
        RNG { rngen: false, ie: false, cecs: false, secs: false, samples, next: 0 }
    }

    /// Sets the control register's enable bit.
    pub fn set_rngen(&mut self)
        ensures
            final(self).wf() == old(self).wf(),
            final(self)@ == (RngState { rngen: true, ..old(self)@ }),
    {
        self.rngen = true;
    }

    /// Reads the data register: the next word of the entropy source, or the
    /// last one again (zero before the first) when no fresh word is ready.
    pub fn read_dr(&mut self) -> (r: u32)
        requires
            old(self).wf(),
        ensures
            final(self).wf(),
            old(self)@.data_ready() ==> r == old(self)@.samples[old(self)@.next],
            !old(self)@.data_ready() ==> r == if old(self)@.next > 0 {
                old(self)@.samples[old(self)@.next - 1]
            } else {
                0
            },
            final(self)@ == (RngState {
                next: if old(self)@.data_ready() { old(self)@.next + 1 } else { old(self)@.next },
                ..old(self)@
            }),
    {
        if self.next < self.samples.len() {
            let r = self.samples[self.next];
            self.next = self.next + 1;
            r
        } else if self.next > 0 {
            self.samples[self.next - 1]
        } else {
            0
        }
    }
}

/// The frozen clock configuration, as far as the RNG depends on it.
pub struct Clocks {
    /// The 48 MHz internal oscillator that clocks the RNG is on.
    pub hsi48: bool,
}

/// The AHB2 peripheral clock enable register, as far as the RNG uses it.
pub struct AHB2 {
    /// The RNG's bus clock is enabled.
    pub rngen: bool,
}

/// Extension trait to activate the RNG.
pub trait RngExt {
    /// Enables the RNG's bus clock, then the RNG itself. The 48 MHz
    /// oscillator must already be on.
    fn enable(self, ahb2: &mut AHB2, clocks: Clocks) -> (r: Rng)
        requires
            clocks.hsi48,
        ensures
            final(ahb2).rngen,
            r@.rngen,
    ;
}

impl RngExt for RNG {
    fn enable(self, ahb2: &mut AHB2, clocks: Clocks) -> (r: Rng)
        ensures
            r@ == (RngState { rngen: true, ..self@ }),
            r.wf() == self.wf(),
    {
        ahb2.rngen = true;
        let mut rng = self;
        rng.set_rngen();
        Rng { rng }
    }
}

/// Constrained RNG peripheral.
pub struct Rng {
    rng: RNG,
}

impl View for Rng {
    type V = RngState;

    closed spec fn view(&self) -> RngState {
        self.rng@
    }
}

/// Error of reading random bytes.
#[derive(Clone, Copy, PartialEq, Eq, Structural, Debug)]
pub enum Error {
    /// The entropy source had no fresh word ready.
    NoData,
}

impl Rng {
    /// The peripheral is well formed.
    pub closed spec fn wf(&self) -> bool {
        self.rng.wf()
    }

    /// Hands the peripheral back.
    pub fn free(self) -> (r: RNG)
        ensures
            r@ == self@,
            r.wf() == self.wf(),
    {
        self.rng
    }

    /// The next random word; a fresh one must be ready.
    pub fn get_random_data(&mut self) -> (r: u32)
        requires
            old(self).wf(),
            old(self)@.data_ready(),
        ensures
            final(self).wf(),
            r == old(self)@.samples[old(self)@.next],
            final(self)@ == (RngState { next: old(self)@.next + 1, ..old(self)@ }),
    {
        let word = self.possibly_invalid_random_data();
        word
    }

    /// Control register: interrupt enabled.
    pub fn is_interrupt_enabled(&self) -> (r: bool)
        ensures
            r == self@.ie,
    {
        self.rng.ie
    }

    /// Control register: generator enabled.
    pub fn is_enabled(&self) -> (r: bool)
        ensures
            r == self@.rngen,
    {
        self.rng.rngen
    }

    /// Status register: clock error.
    pub fn is_clock_error(&self) -> (r: bool)
        ensures
            r == self@.cecs,
    {
        self.rng.cecs
    }

    /// Status register: seed error.
    pub fn is_seed_error(&self) -> (r: bool)
        ensures
            r == self@.secs,
    {
        self.rng.secs
    }

    /// Status register: a fresh word is ready.
    pub fn is_data_ready(&self) -> (r: bool)
        ensures
            r == self@.data_ready(),
    {
        self.rng.next < self.rng.samples.len()
    }

    /// Reads the data register whether or not a fresh word is ready: without
    /// one it gives the last word again, or zero before the first.
    pub fn possibly_invalid_random_data(&mut self) -> (r: u32)
        requires
            old(self).wf(),
        ensures
            final(self).wf(),
            old(self)@.data_ready() ==> r == old(self)@.samples[old(self)@.next],
            !old(self)@.data_ready() ==> r == if old(self)@.next > 0 {
                old(self)@.samples[old(self)@.next - 1]
            } else {
                0
            },
            final(self)@ == (RngState {
                next: if old(self)@.data_ready() { old(self)@.next + 1 } else { old(self)@.next },
                ..old(self)@
            }),
    {
        self.rng.read_dr()
    }

    /// Fills `buffer` with random bytes, four from each word, in the target's
    /// byte order; the last word may give fewer. Fails with `NoData` if the
    /// source runs out of fresh words first.
    pub fn read(&mut self, buffer: &mut [u8]) -> (r: Result<(), Error>)
        requires
            old(self).wf(),
        ensures
            final(self).wf(),
            ({
                let rem = old(self)@.remaining();
                let len = old(buffer)@.len();
                let words = (len + 3) / 4;
                &&& final(buffer)@.len() == len
                &&& r is Ok <==> words <= rem.len()
                &&& r is Ok ==> final(self)@ == (RngState { next: old(self)@.next + words, ..old(self)@ })
                &&& r is Ok ==> forall|j: int|
                    0 <= j < len ==> #[trigger] final(buffer)@[j] == native_bytes_of(rem[j / 4])[j % 4]
            }),
    {
        let len = buffer.len();
        let ghost rem = old(self)@.remaining();
        let ghost start = old(self)@.next;
        let mut i: usize = 0;
        while i < len
            invariant
                self.wf(),
                len == buffer@.len(),
                len == old(buffer)@.len(),
                i <= len,
                i < len ==> i % 4 == 0,
                rem == old(self)@.remaining(),
                start == old(self)@.next,
                (i + 3) / 4 <= rem.len(),
                self@ == (RngState { next: start + (i + 3) / 4, ..old(self)@ }),
                forall|j: int| 0 <= j < i ==> #[trigger] buffer@[j] == native_bytes_of(rem[j / 4])[j % 4],
            decreases len - i,
        {
            proof {
                assert((i + 3) / 4 == i / 4) by (nonlinear_arith)
                    requires i % 4 == 0;
            }
            if !self.is_data_ready() {
                proof {
                    assert((len + 3) / 4 > rem.len()) by (nonlinear_arith)
                        requires i < len, i % 4 == 0, i / 4 == rem.len();
                }
                return Err(Error::NoData);
            }
            let word = self.get_random_data();
            let bytes = native_bytes(word);
            let n: usize = if len - i < 4 { len - i } else { 4 };
            let mut k: usize = 0;
            while k < n
                invariant
                    self.wf(),
                    len == buffer@.len(),
                    i + n <= len,
                    n <= 4,
                    k <= n,
                    i % 4 == 0,
                    i / 4 < rem.len(),
                    bytes@ == native_bytes_of(rem[i as int / 4]),
                    forall|j: int| 0 <= j < i + k ==> #[trigger] buffer@[j] == native_bytes_of(rem[j / 4])[j % 4],
                decreases n - k,
            {
                buffer[i + k] = bytes[k];
                proof {
                    assert((i + k) / 4 == i / 4 && (i + k) % 4 == k) by (nonlinear_arith)
                        requires i % 4 == 0, k < 4;
                }
                k += 1;
            }
            proof {
                assert((i + n + 3) / 4 == i / 4 + 1) by (nonlinear_arith)
                    requires i % 4 == 0, 1 <= n <= 4;
            }
            i += n;
        }
        Ok(())
    }
}

} // verus!
