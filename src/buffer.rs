use crate::error::AudioError;
use crate::sample::Sample;
use vstd::arithmetic::div_mod::{
    lemma_fundamental_div_mod,
    lemma_fundamental_div_mod_converse_div,
    lemma_fundamental_div_mod_converse_mod,
};
use vstd::prelude::*;

verus! {

/// Length of the shortest sequence among `chs`; zero when there is none.
pub open spec fn shortest<T>(chs: Seq<Seq<T>>) -> nat
    decreases chs.len(),
{
    if chs.len() == 0 {
        0
    } else if chs.len() == 1 {
        chs[0].len()
    } else {
        let rest = shortest(chs.drop_last());
        if chs.last().len() < rest {
            chs.last().len()
        } else {
            rest
        }
    }
}

/// How many of `len` interleaved samples belong to channel `i` of `c`: those at
/// offsets `i`, `i + c`, `i + 2c` and so on below `len`.
pub open spec fn stride_count(len: nat, c: nat, i: int) -> nat {
    if 0 <= i < len {
        ((len - i - 1) / (c as int) + 1) as nat
    } else {
        0
    }
}

/// Every `c`-th sample of `s`, starting at offset `i`.
pub open spec fn strided<T>(s: Seq<T>, c: nat, i: int) -> Seq<T> {
    Seq::new(stride_count(s.len(), c, i), |k: int| s[i + k * c])
}

/// An interleaved stream split into `c` channels: channel `i` receives every
/// `c`-th sample starting at offset `i`.
pub open spec fn deinterlaced<T>(s: Seq<T>, c: nat) -> Seq<Seq<T>> {
    Seq::new(c, |i: int| strided(s, c, i))
}

/// Channels recombined into one stream, channel-major: sample 0 of every
/// channel, then sample 1 of every channel, and so on, for as many samples as
/// the shortest channel holds.
pub open spec fn interlaced<T>(chs: Seq<Seq<T>>) -> Seq<T> {
    Seq::new(
        chs.len() * shortest(chs),
        |p: int| chs[p % (chs.len() as int)][p / (chs.len() as int)],
    )
}

/// No channel is shorter than the shortest.
pub proof fn lemma_shortest_is_lower_bound<T>(chs: Seq<Seq<T>>, i: int)
    requires
        0 <= i < chs.len(),
    ensures
        shortest(chs) <= chs[i].len(),
    decreases chs.len(),
{
    if chs.len() > 1 && i < chs.len() - 1 {
        lemma_shortest_is_lower_bound(chs.drop_last(), i);
    }
}

/// Where every channel holds `n` samples, the shortest holds `n`.
pub proof fn lemma_shortest_of_uniform<T>(chs: Seq<Seq<T>>, n: nat)
    requires
        chs.len() >= 1,
        forall|i: int| 0 <= i < chs.len() ==> #[trigger] chs[i].len() == n,
    ensures
        shortest(chs) == n,
    decreases chs.len(),
{
    if chs.len() > 1 {
        let rest = chs.drop_last();
        assert forall|i: int| 0 <= i < rest.len() implies #[trigger] rest[i].len() == n by {
            assert(rest[i] == chs[i]);
        }
        lemma_shortest_of_uniform(rest, n);
    }
}

/// One channel's worth of samples.
#[derive(Debug, Clone)]
pub struct Buffer<T> {
    data: Vec<T>,
}

impl<T> View for Buffer<T> {
    type V = Seq<T>;

    closed spec fn view(&self) -> Seq<T> {
        self.data@
    }
}

impl<T: Copy> Buffer<T> {
    /// Replaces the whole contents with `data`, whatever its length.
    pub fn write(&mut self, data: Vec<T>)
        ensures
            final(self)@ == data@,
    {
        self.data = data;
    }

    /// A copy of the current contents.
    pub fn read(&self) -> (r: Vec<T>)
        ensures
            r@ == self@,
    {
        let mut out: Vec<T> = Vec::with_capacity(self.data.len());
        let mut i: usize = 0;
        while i < self.data.len()
            invariant
                i <= self.data@.len(),
                out@ == self.data@.subrange(0, i as int),
            decreases self.data@.len() - i,
        {
            out.push(self.data[i]);
            i = i + 1;
            proof {
                assert(out@ =~= self.data@.subrange(0, i as int));
            }
        }
        proof {
            assert(out@ =~= self.data@);
        }
        out
    }

    /// The number of samples held.
    pub fn len(&self) -> (r: usize)
        ensures
            r == self@.len(),
    {
        self.data.len()
    }
}

impl<T: Sample> Buffer<T> {
    /// A buffer of `buffer_size` silent samples.
    pub fn new(buffer_size: usize) -> (r: Buffer<T>)
        ensures
            r@ == Seq::new(buffer_size as nat, |i: int| T::silence()),
    {
        let mut data: Vec<T> = Vec::with_capacity(buffer_size);
        let mut i: usize = 0;
        while i < buffer_size
            invariant
                i <= buffer_size,
                data@ == Seq::new(i as nat, |k: int| T::silence()),
            decreases buffer_size - i,
        {
            data.push(T::zero());
            i = i + 1;
            proof {
                assert(data@ =~= Seq::new(i as nat, |k: int| T::silence()));
            }
        }
        Buffer { data }
    }

    /// Adds `data` sample by sample into the buffer. An operand whose length
    /// differs from the buffer's is refused and the buffer is left as it was.
    pub fn overdub(&mut self, data: Vec<T>) -> (r: Result<(), AudioError>)
        ensures
            data@.len() == old(self)@.len() ==> r is Ok && final(self)@ == Seq::new(
                old(self)@.len(),
                |i: int| old(self)@[i].mixed(data@[i]),
            ),
            data@.len() != old(self)@.len() ==> r == Err::<(), AudioError>(
                AudioError::MismatchedBufferSize,
            ) && final(self)@ == old(self)@,
    {
        if data.len() != self.data.len() {
            return Err(AudioError::MismatchedBufferSize);
        }
        let ghost before = self.data@;
        let mut i: usize = 0;
        while i < self.data.len()
            invariant
                data@.len() == before.len(),
                self.data@.len() == before.len(),
                i <= before.len(),
                forall|k: int| 0 <= k < i ==> self.data@[k] == before[k].mixed(data@[k]),
                forall|k: int| i <= k < before.len() ==> self.data@[k] == before[k],
            decreases before.len() - i,
        {
            let s = self.data[i].mix(data[i]);
            self.data[i] = s;
            i = i + 1;
        }
        proof {
            assert(self.data@ =~= Seq::new(before.len(), |k: int| before[k].mixed(data@[k])));
        }
        Ok(())
    }
}

} // verus!

verus! {

/// An ordered set of channel buffers with a read cursor that walks them
/// channel-major: sample 0 of every channel, then sample 1, and so on.
#[derive(Clone)]
pub struct BuffVec<T> {
    data: Vec<Buffer<T>>,
    outer_pointer: usize,
    inner_pointer: usize,
}

impl<T> BuffVec<T> {
    /// The samples of each channel, in channel order.
    pub closed spec fn channels(&self) -> Seq<Seq<T>> {
        self.data@.map_values(|b: Buffer<T>| b@)
    }

    /// How many samples of the channel-major walk the cursor has passed.
    pub closed spec fn position(&self) -> int {
        self.inner_pointer * self.data@.len() + self.outer_pointer
    }

    /// The cursor lies within the walk.
    pub closed spec fn wf(&self) -> bool {
        &&& self.outer_pointer <= self.data@.len()
        &&& self.inner_pointer <= shortest(self.channels())
        &&& self.position() <= self.data@.len() * shortest(self.channels())
    }

    /// What is left of the channel-major walk.
    pub open spec fn remaining(&self) -> Seq<T> {
        interlaced(self.channels()).subrange(
            self.position(),
            interlaced(self.channels()).len() as int,
        )
    }
}

impl<T: Copy> BuffVec<T> {
    /// `channels` empty channel buffers, with the cursor at the start.
    pub fn new(channels: usize) -> (r: Self)
        ensures
            r.wf(),
            r.channels() == Seq::new(channels as nat, |i: int| Seq::<T>::empty()),
            r.position() == 0,
    {
        let mut data: Vec<Buffer<T>> = Vec::with_capacity(channels);
        let mut i: usize = 0;
        while i < channels
            invariant
                i <= channels,
                data@.len() == i,
                forall|k: int| 0 <= k < i ==> (#[trigger] data@[k])@ == Seq::<T>::empty(),
            decreases channels - i,
        {
            data.push(Buffer { data: Vec::new() });
            i = i + 1;
        }
        let r = BuffVec { data, outer_pointer: 0, inner_pointer: 0 };
        proof {
            assert(r.channels() =~= Seq::new(channels as nat, |i: int| Seq::<T>::empty()));
            if channels > 0 {
                lemma_shortest_of_uniform(r.channels(), 0);
            }
        }
        r
    }

    /// The number of channels.
    pub fn channel_count(&self) -> (r: usize)
        ensures
            r == self.channels().len(),
    {
        self.data.len()
    }

    /// A copy of channel `index`'s samples; `OutOfBounds` where there is no
    /// such channel.
    pub fn get_buffer(&self, index: usize) -> (r: Result<Vec<T>, AudioError>)
        ensures
            index < self.channels().len() ==> r is Ok && r->Ok_0@ == self.channels()[index as int],
            index >= self.channels().len() ==> r == Err::<Vec<T>, AudioError>(
                AudioError::OutOfBounds,
            ),
    {
        if index < self.data.len() {
            Ok(self.data[index].read())
        } else {
            Err(AudioError::OutOfBounds)
        }
    }

    /// Every `step`-th sample of `data`, starting at `offset`.
    fn take_strided(data: &[T], step: usize, offset: usize) -> (r: Vec<T>)
        requires
            offset < step,
        ensures
            r@ == strided(data@, step as nat, offset as int),
    {
        let len = data.len();
        let mut out: Vec<T> = Vec::new();
        let mut j: usize = offset;
        let ghost mut k: int = 0;
        while j < len
            invariant
                offset < step,
                len == data@.len(),
                k >= 0,
                j < len ==> j == offset + k * step,
                j >= len ==> offset + k * step >= len,
                k > 0 ==> offset + (k - 1) * step < len,
                out@ == Seq::new(k as nat, |t: int| data@[offset + t * step]),
            decreases len - j,
        {
            out.push(data[j]);
            proof {
                assert((k + 1) * step == k * step + step) by (nonlinear_arith);
                assert(out@ =~= Seq::new((k + 1) as nat, |t: int| data@[offset + t * step]));
                k = k + 1;
            }
            if len - j > step {
                j = j + step;
            } else {
                j = len;
            }
        }
        proof {
            let x = len - offset - 1;
            if k > 0 {
                assert(x == (k - 1) * step + (x - (k - 1) * step));
                assert(k * step == (k - 1) * step + step) by (nonlinear_arith);
                lemma_fundamental_div_mod_converse_div(x, step as int, k - 1, x - (k - 1) * step);
                assert(stride_count(len as nat, step as nat, offset as int) == k);
            } else {
                assert(offset >= len);
            }
            assert(out@ =~= strided(data@, step as nat, offset as int));
        }
        out
    }

    /// Splits an interleaved stream into `num_channels` channels: channel `i`
    /// receives every `num_channels`-th sample starting at offset `i`. The
    /// cursor starts at the beginning.
    pub fn deinterlace(data: &[T], num_channels: usize) -> (r: Self)
        ensures
            r.wf(),
            r.channels() == deinterlaced(data@, num_channels as nat),
            r.position() == 0,
    {
        let mut bufs: Vec<Buffer<T>> = Vec::with_capacity(num_channels);
        let mut i: usize = 0;
        while i < num_channels
            invariant
                i <= num_channels,
                bufs@.len() == i,
                forall|k: int|
                    0 <= k < i ==> (#[trigger] bufs@[k])@ == strided(
                        data@,
                        num_channels as nat,
                        k,
                    ),
            decreases num_channels - i,
        {
            let samples = Self::take_strided(data, num_channels, i);
            bufs.push(Buffer { data: samples });
            i = i + 1;
        }
        let r = BuffVec { data: bufs, outer_pointer: 0, inner_pointer: 0 };
        proof {
            assert(r.channels() =~= deinterlaced(data@, num_channels as nat));
        }
        r
    }
}


impl<T: Copy> BuffVec<T> {
    /// The number of samples in the shortest channel.
    fn frame_count(&self) -> (r: usize)
        ensures
            r == shortest(self.channels()),
    {
        let c = self.data.len();
        if c == 0 {
            return 0;
        }
        let ghost chs = self.channels();
        let mut m: usize = self.data[0].len();
        let mut k: usize = 1;
        proof {
            assert(chs.subrange(0, 1)[0] == chs[0]);
        }
        while k < c
            invariant
                1 <= k <= c,
                c == chs.len(),
                chs == self.channels(),
                m == shortest(chs.subrange(0, k as int)),
            decreases c - k,
        {
            let n = self.data[k].len();
            proof {
                let next = chs.subrange(0, k + 1);
                assert(next.drop_last() =~= chs.subrange(0, k as int));
                assert(next.last() == chs[k as int]);
            }
            if n < m {
                m = n;
            }
            k = k + 1;
        }
        proof {
            assert(chs.subrange(0, c as int) =~= chs);
        }
        m
    }

    /// The next sample of the channel-major walk, or `None` once every channel
    /// has given as many samples as the shortest holds.
    pub fn get_next(&mut self) -> (r: Option<T>)
        requires
            old(self).wf(),
        ensures
            final(self).wf(),
            final(self).channels() == old(self).channels(),
            old(self).remaining().len() > 0 ==> r == Some(old(self).remaining()[0])
                && final(self).remaining() == old(self).remaining().drop_first(),
            old(self).remaining().len() == 0 ==> r is None && final(self).remaining()
                == old(self).remaining(),
    {
        let ghost chs = self.channels();
        let ghost total = interlaced(chs).len();
        let c = self.data.len();
        if c == 0 {
            return None;
        }
        let frames = self.frame_count();
        proof {
            assert(total == c * frames);
        }
        if self.outer_pointer == c {
            if frames - self.inner_pointer <= 1 {
                proof {
                    let i = self.inner_pointer as int;
                    assert(self.position() == (i + 1) * c) by (nonlinear_arith)
                        requires
                            self.position() == i * c + c,
                    ;
                    assert((i + 1) * c >= frames * c) by (nonlinear_arith)
                        requires
                            i + 1 >= frames,
                            c > 0,
                    ;
                }
                return None;
            }
            proof {
                let i = self.inner_pointer as int;
                assert((i + 1) * c == i * c + c) by (nonlinear_arith);
            }
            self.outer_pointer = 0;
            self.inner_pointer = self.inner_pointer + 1;
        }
        if self.inner_pointer >= frames {
            proof {
                let i = self.inner_pointer as int;
                assert(i * c >= c * frames) by (nonlinear_arith)
                    requires
                        i >= frames,
                        c > 0,
                ;
                assert(self.position() >= total);
            }
            return None;
        }
        let outer = self.outer_pointer;
        let inner = self.inner_pointer;
        proof {
            let p = inner * c + outer;
            assert(p == self.position());
            assert(p < frames * c) by (nonlinear_arith)
                requires
                    p == inner * c + outer,
                    outer < c,
                    inner < frames,
            ;
            lemma_fundamental_div_mod_converse_div(p, c as int, inner as int, outer as int);
            lemma_fundamental_div_mod_converse_mod(p, c as int, inner as int, outer as int);
            assert(chs[outer as int] == self.data@[outer as int]@);
            lemma_shortest_is_lower_bound(chs, outer as int);
        }
        let sample = self.data[outer].data[inner];
        self.outer_pointer = outer + 1;
        proof {
            assert(self.channels() =~= chs);
            assert(self.position() == old(self).position() + 1);
            assert(old(self).remaining().len() > 0);
            assert(self.remaining() =~= old(self).remaining().drop_first());
        }
        Some(sample)
    }

    /// Drains the rest of the channel-major walk into one interleaved stream.
    /// From a fresh cursor this is the inverse of `deinterlace`.
    pub fn interlace(&mut self) -> (r: Vec<T>)
        requires
            old(self).wf(),
        ensures
            final(self).wf(),
            final(self).channels() == old(self).channels(),
            r@ == old(self).remaining(),
            final(self).remaining().len() == 0,
    {
        let ghost start = self.remaining();
        let mut out: Vec<T> = Vec::new();
        loop
            invariant
                self.wf(),
                self.channels() == old(self).channels(),
                start == old(self).remaining(),
                out@ + self.remaining() == start,
            ensures
                self.wf(),
                self.channels() == old(self).channels(),
                out@ == start,
                self.remaining().len() == 0,
            decreases self.remaining().len(),
        {
            let ghost before = self.remaining();
            match self.get_next() {
                Some(sample) => {
                    out.push(sample);
                    proof {
                        assert(out@ + self.remaining() =~= start);
                    }
                },
                None => {
                    proof {
                        assert(out@ + self.remaining() =~= out@);
                    }
                    break ;
                },
            }
        }
        out
    }
}

/// A stream whose length is a multiple of `c` splits into `c` channels of
/// equal length.
pub proof fn lemma_deinterlace_uniform<T>(samples: Seq<T>, c: nat)
    requires
        c >= 1,
        samples.len() % c == 0,
    ensures
        forall|i: int|
            0 <= i < c ==> #[trigger] deinterlaced(samples, c)[i].len() == samples.len() / c,
{
    let len = samples.len() as int;
    let ci = c as int;
    let n = len / ci;
    let chs = deinterlaced(samples, c);
    lemma_fundamental_div_mod(len, ci);
    assert forall|i: int| 0 <= i < chs.len() implies #[trigger] chs[i].len() == n by {
        if len > 0 {
            let x = len - i - 1;
            assert((n - 1) * ci + (ci - i - 1) == x) by (nonlinear_arith)
                requires
                    len == ci * n,
                    x == len - i - 1,
            ;
            lemma_fundamental_div_mod_converse_div(x, ci, n - 1, ci - i - 1);
        } else {
            assert(n == 0) by (nonlinear_arith)
                requires
                    len == ci * n,
                    len == 0,
                    ci >= 1,
            ;
        }
    }
}

/// Splitting an interleaved stream into `c` channels and recombining them
/// gives back the stream, whenever its length is a multiple of `c`.
pub proof fn lemma_round_trip<T>(samples: Seq<T>, c: nat)
    requires
        c >= 1,
        samples.len() % c == 0,
    ensures
        interlaced(deinterlaced(samples, c)) == samples,
{
    let len = samples.len() as int;
    let ci = c as int;
    let n = len / ci;
    let chs = deinterlaced(samples, c);
    lemma_fundamental_div_mod(len, ci);
    lemma_deinterlace_uniform(samples, c);
    assert forall|i: int| 0 <= i < chs.len() implies #[trigger] chs[i].len() == n by {
        assert(deinterlaced(samples, c)[i].len() == n);
    }
    lemma_shortest_of_uniform(chs, n as nat);
    let out = interlaced(chs);
    assert(out.len() == len);
    assert forall|p: int| 0 <= p < len implies #[trigger] out[p] == samples[p] by {
        lemma_fundamental_div_mod(p, ci);
        let q = p / ci;
        let r = p % ci;
        assert(p == q * ci + r) by (nonlinear_arith)
            requires
                p == ci * q + r,
        ;
        assert(0 <= q < n) by (nonlinear_arith)
            requires
                p == q * ci + r,
                0 <= r < ci,
                0 <= p < len,
                len == ci * n,
        ;
        assert(chs[r].len() == n);
        assert(r + q * ci == p);
        assert(chs[r][q] == samples[r + q * ci]);
    }
    assert(out =~= samples);
}

} // verus!
