//! Buffering of guest audio samples between the driver reader and the host
//! audio output.
use vstd::prelude::*;

verus! {

/// `x` brought back into `0..cap`, for `x < 2 * cap`.
pub open spec fn wrap(x: int, cap: int) -> int {
    if x < cap {
        x
    } else {
        x - cap
    }
}

/// A ring buffer of samples. One slot always stays free, so that a full
/// buffer and an empty one differ.
pub struct AudioRingBuffer {
    buffer: Vec<i16>,
    capacity: usize,
    read_pos: usize,
    write_pos: usize,
}

impl AudioRingBuffer {
    /// The buffer's positions are consistent.
    pub closed spec fn wf(&self) -> bool {
        &&& self.capacity >= 1
        &&& self.buffer@.len() == self.capacity
        &&& self.read_pos < self.capacity
        &&& self.write_pos < self.capacity
    }

    /// Slots of the buffer.
    pub closed spec fn spec_capacity(&self) -> nat {
        self.capacity as nat
    }

    /// Number of samples waiting.
    pub closed spec fn spec_available(&self) -> int {
        if self.write_pos >= self.read_pos {
            self.write_pos - self.read_pos
        } else {
            self.capacity - self.read_pos + self.write_pos
        }
    }

    /// The samples waiting, oldest first.
    pub closed spec fn view(&self) -> Seq<i16> {
        Seq::new(
            self.spec_available() as nat,
            |i: int| self.buffer@[wrap(self.read_pos + i, self.capacity as int)],
        )
    }

    /// An empty buffer of `capacity` slots, holding at most `capacity - 1`
    /// samples.
    pub fn new(capacity: usize) -> (r: Self)
        requires
            capacity >= 1,
        ensures
            r.wf(),
            r.view() == Seq::<i16>::empty(),
            r.spec_capacity() == capacity,
    {
        let buffer = vec![0i16; capacity];
        let r = AudioRingBuffer { buffer, capacity, read_pos: 0, write_pos: 0 };
        assert(r.view() =~= Seq::<i16>::empty());
        r
    }

    /// Number of samples waiting.
    pub fn available(&self) -> (r: usize)
        requires
            self.wf(),
        ensures
            r == self.view().len(),
            r < self.spec_capacity(),
    {
        if self.write_pos >= self.read_pos {
            self.write_pos - self.read_pos
        } else {
            self.capacity - self.read_pos + self.write_pos
        }
    }

    /// Number of samples that can still be written.
    pub fn free_space(&self) -> (r: usize)
        requires
            self.wf(),
        ensures
            r == self.spec_capacity() - self.view().len() - 1,
    {
        self.capacity - self.available() - 1
    }

    /// Appends as many of `samples` as fit; returns how many.
    pub fn write(&mut self, samples: &[i16]) -> (r: usize)
        requires
            old(self).wf(),
        ensures
            final(self).wf(),
            final(self).spec_capacity() == old(self).spec_capacity(),
            r as int == (if samples@.len() < old(self).spec_capacity() - old(self).view().len() - 1 {
                samples@.len() as int
            } else {
                old(self).spec_capacity() - old(self).view().len() - 1
            }),
            final(self).view() == old(self).view() + samples@.subrange(0, r as int),
    {
        let free = self.free_space();
        let n: usize = if samples.len() < free { samples.len() } else { free };
        let ghost cap = self.capacity as int;
        let ghost rd = self.read_pos as int;
        let ghost avail = old(self).spec_available();
        let ghost before = old(self).view();
        let start = self.write_pos;
        let mut i: usize = 0;
        while i < n
            invariant
                self.wf(),
                self.capacity == cap,
                self.read_pos == rd,
                self.write_pos == start,
                start as int == wrap(rd + avail, cap),
                0 <= avail < cap,
                n <= cap - avail - 1,
                n <= samples@.len(),
                0 <= i <= n,
                forall|j: int| 0 <= j < avail ==> #[trigger] self.buffer@[wrap(rd + j, cap)] == before[j],
                forall|k: int|
                    0 <= k < i ==> #[trigger] self.buffer@[wrap(rd + avail + k, cap)] == samples@[k],
            decreases n - i,
        {
            let pos: usize = if i < self.capacity - start {
                start + i
            } else {
                i - (self.capacity - start)
            };
            assert(pos as int == wrap(rd + avail + i, cap));
            self.buffer.set(pos, samples[i]);
            i = i + 1;
        }
        let end: usize = if n < self.capacity - start {
            start + n
        } else {
            n - (self.capacity - start)
        };
        self.write_pos = end;
        assert(self.spec_available() == avail + n);
        assert(self.view() =~= before + samples@.subrange(0, n as int)) by {
            assert forall|k: int| 0 <= k < avail + n implies #[trigger] self.view()[k] == (before
                + samples@.subrange(0, n as int))[k] by {
                if k < avail {
                    assert(self.buffer@[wrap(rd + k, cap)] == before[k]);
                } else {
                    assert(self.buffer@[wrap(rd + avail + (k - avail), cap)] == samples@[k - avail]);
                }
            }
        }
        n
    }

    /// Moves as many waiting samples as fit into the front of `output`;
    /// returns how many.
    pub fn read(&mut self, output: &mut [i16]) -> (r: usize)
        requires
            old(self).wf(),
        ensures
            final(self).wf(),
            final(self).spec_capacity() == old(self).spec_capacity(),
            r as int == (if old(output)@.len() < old(self).view().len() {
                old(output)@.len() as int
            } else {
                old(self).view().len() as int
            }),
            final(output)@ == old(self).view().subrange(0, r as int) + old(output)@.subrange(
                r as int,
                old(output)@.len() as int,
            ),
            final(self).view() == old(self).view().subrange(r as int, old(self).view().len() as int),
    {
        let avail = self.available();
        let n: usize = if output.len() < avail { output.len() } else { avail };
        let ghost cap = self.capacity as int;
        let ghost rd = self.read_pos as int;
        let ghost before = old(self).view();
        let ghost out0 = old(output)@;
        let start = self.read_pos;
        let mut i: usize = 0;
        while i < n
            invariant
                self.wf(),
                *self == *old(self),
                self.capacity == cap,
                start as int == rd,
                rd == self.read_pos,
                before == self.view(),
                n <= avail,
                avail == before.len(),
                n <= out0.len(),
                output@.len() == out0.len(),
                0 <= i <= n,
                forall|k: int| 0 <= k < i ==> output@[k] == before[k],
                forall|k: int| i <= k < out0.len() ==> output@[k] == out0[k],
            decreases n - i,
        {
            let pos: usize = if i < self.capacity - start {
                start + i
            } else {
                i - (self.capacity - start)
            };
            assert(pos as int == wrap(rd + i, cap));
            output[i] = self.buffer[pos];
            i = i + 1;
        }
        let next: usize = if n < self.capacity - start {
            start + n
        } else {
            n - (self.capacity - start)
        };
        self.read_pos = next;
        assert(output@ =~= before.subrange(0, n as int) + out0.subrange(n as int, out0.len() as int));
        assert(self.view() =~= before.subrange(n as int, before.len() as int)) by {
            assert(self.spec_available() == before.len() - n);
            assert forall|k: int| 0 <= k < before.len() - n implies #[trigger] self.view()[k]
                == before[k + n] by {
                assert(wrap(wrap(rd + n, cap) + k, cap) == wrap(rd + (k + n), cap));
            }
        }
        n
    }
}

/// Stereo volume settings: each channel clamped to 0..=255, and the master
/// level their average.
pub fn stereo_levels(left: i32, right: i32) -> (r: (u8, u8, i32))
    ensures
        r.0 as int == (if left < 0 { 0 } else if left > 255 { 255 } else { left as int }),
        r.1 as int == (if right < 0 { 0 } else if right > 255 { 255 } else { right as int }),
        r.2 as int == (r.0 as int + r.1 as int) / 2,
{
    let l: i32 = if left < 0 { 0 } else if left > 255 { 255 } else { left };
    let rr: i32 = if right < 0 { 0 } else if right > 255 { 255 } else { right };
    (l as u8, rr as u8, (l + rr) / 2)
}

} // verus!
