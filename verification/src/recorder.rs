use vstd::prelude::*;

use std::collections::VecDeque;

use crate::utils::{downmixed, mean_toward_zero};

verus! {

/// How many input samples are collected before a chunk is checked for speech.
pub const BUFFER_SIZE: usize = 1024 * 30;

/// `s` with its last sample kept aside when there is an odd number of them.
pub open spec fn odd_tail(s: Seq<i16>) -> Seq<i16> {
    if s.len() % 2 == 1 {
        seq![s.last()]
    } else {
        Seq::empty()
    }
}

proof fn lemma_downmixed_push_odd(s: Seq<i16>, x: i16)
    requires
        s.len() % 2 == 0,
    ensures
        downmixed(s.push(x)) == downmixed(s),
{
    assert(downmixed(s.push(x)) =~= downmixed(s)) by {
        assert forall|k: int| 0 <= k < s.len() / 2 implies #[trigger] downmixed(s.push(x))[k]
            == downmixed(s)[k] by {
            assert(s.push(x)[2 * k] == s[2 * k]);
            assert(s.push(x)[2 * k + 1] == s[2 * k + 1]);
        }
    }
}

proof fn lemma_downmixed_push_even(s: Seq<i16>, x: i16)
    requires
        s.len() % 2 == 1,
    ensures
        downmixed(s.push(x)) == downmixed(s).push(
            mean_toward_zero(s.last() as int, x as int) as i16,
        ),
{
    let t = s.push(x);
    assert(downmixed(t) =~= downmixed(s).push(mean_toward_zero(s.last() as int, x as int) as i16)) by {
        assert forall|k: int| 0 <= k < t.len() / 2 implies #[trigger] downmixed(t)[k] == downmixed(
            s,
        ).push(mean_toward_zero(s.last() as int, x as int) as i16)[k] by {
            if k < s.len() / 2 {
                assert(t[2 * k] == s[2 * k]);
                assert(t[2 * k + 1] == s[2 * k + 1]);
            } else {
                assert(2 * k == s.len() - 1);
            }
        }
    }
}

pub struct RecorderBuffersView {
    /// downsampled samples not yet taken as a chunk
    pub buffer: Seq<i16>,
    /// an input sample waiting for its pair
    pub pending: Seq<i16>,
}

/// The microphone samples on their way to the client: halved in rate by
/// averaging pairs, then taken in chunks of `BUFFER_SIZE`.
pub struct RecorderBuffers {
    buffer: VecDeque<i16>,
    downsample_buffer: Vec<i16>,
}

impl View for RecorderBuffers {
    type V = RecorderBuffersView;

    closed spec fn view(&self) -> RecorderBuffersView {
        RecorderBuffersView { buffer: self.buffer@, pending: self.downsample_buffer@ }
    }
}

impl RecorderBuffers {
    pub open spec fn wf(&self) -> bool {
        self@.pending.len() <= 1
    }

    pub fn new() -> (r: Self)
        ensures
            r.wf(),
            r@.buffer.len() == 0,
            r@.pending.len() == 0,
    {
        RecorderBuffers { buffer: VecDeque::new(), downsample_buffer: Vec::new() }
    }

    /// Takes the first-channel samples of a batch of input frames: pairs of
    /// them become their mean (rounded toward zero); once `BUFFER_SIZE`
    /// downsampled samples are collected, the first `BUFFER_SIZE` of them come
    /// back as a chunk.
    pub fn push_samples(&mut self, samples: &[i16]) -> (chunk: Option<Vec<i16>>)
        requires
            old(self).wf(),
        ensures
            final(self).wf(),
            ({
                let all = old(self)@.pending + samples@;
                let collected = old(self)@.buffer + downmixed(all);
                &&& final(self)@.pending == odd_tail(all)
                &&& if collected.len() >= BUFFER_SIZE {
                    &&& chunk matches Some(c) && c@ == collected.subrange(0, BUFFER_SIZE as int)
                    &&& final(self)@.buffer == collected.subrange(
                        BUFFER_SIZE as int,
                        collected.len() as int,
                    )
                } else {
                    chunk is None && final(self)@.buffer == collected
                }
            }),
    {
        let ghost old_buffer = self@.buffer;
        let ghost old_pending = self@.pending;
        let mut i: usize = 0;
        while i < samples.len()
            invariant
                i <= samples@.len(),
                old_pending.len() <= 1,
                self@.buffer == old_buffer + downmixed(old_pending + samples@.subrange(0, i as int)),
                self@.pending == odd_tail(old_pending + samples@.subrange(0, i as int)),
            decreases samples@.len() - i,
        {
            let sample = samples[i];
            let ghost consumed = old_pending + samples@.subrange(0, i as int);
            proof {
                assert(old_pending + samples@.subrange(0, i as int + 1) =~= consumed.push(sample));
            }
            if self.downsample_buffer.len() == 1 {
                let first = self.downsample_buffer[0];
                let sum = first as i32 + sample as i32;
                let mean: i32 = if sum >= 0 {
                    sum / 2
                } else {
                    -((-sum) / 2)
                };
                self.buffer.push_back(mean as i16);
                self.downsample_buffer.clear();
                proof {
                    assert(consumed.len() % 2 == 1);
                    assert(first == consumed.last());
                    lemma_downmixed_push_even(consumed, sample);
                    assert(self@.buffer =~= old_buffer + downmixed(consumed.push(sample)));
                    assert(self@.pending =~= odd_tail(consumed.push(sample)));
                }
            } else {
                self.downsample_buffer.push(sample);
                proof {
                    assert(consumed.len() % 2 == 0);
                    lemma_downmixed_push_odd(consumed, sample);
                    assert(self@.pending =~= odd_tail(consumed.push(sample)));
                }
            }
            i = i + 1;
        }
        proof {
            assert(samples@.subrange(0, samples@.len() as int) =~= samples@);
        }
        if self.buffer.len() >= BUFFER_SIZE {
            let ghost collected = self@.buffer;
            let mut chunk: Vec<i16> = Vec::new();
            let mut taken: usize = 0;
            while taken < BUFFER_SIZE
                invariant
                    taken <= BUFFER_SIZE,
                    collected.len() >= BUFFER_SIZE,
                    chunk@ == collected.subrange(0, taken as int),
                    self@.buffer == collected.subrange(taken as int, collected.len() as int),
                    self@.pending == odd_tail(old_pending + samples@),
                    old_pending.len() <= 1,
                decreases BUFFER_SIZE - taken,
            {
                match self.buffer.pop_front() {
                    Some(sample) => {
                        chunk.push(sample);
                        assert(chunk@ =~= collected.subrange(0, taken as int + 1));
                        assert(self@.buffer =~= collected.subrange(
                            taken as int + 1,
                            collected.len() as int,
                        ));
                    },
                    None => {
                        assert(false);
                    },
                }
                taken = taken + 1;
            }
            Some(chunk)
        } else {
            None
        }
    }
}

/// Audio waiting to be played, served one sample at a time.
pub struct PlaybackBuffer {
    samples: VecDeque<i16>,
}

impl View for PlaybackBuffer {
    type V = Seq<i16>;

    closed spec fn view(&self) -> Seq<i16> {
        self.samples@
    }
}

impl PlaybackBuffer {
    pub fn new() -> (r: Self)
        ensures
            r@.len() == 0,
    {
        PlaybackBuffer { samples: VecDeque::new() }
    }

    /// Queues decoded samples behind those already waiting.
    pub fn extend(&mut self, samples: &[i16])
        ensures
            final(self)@ == old(self)@ + samples@,
    {
        let ghost before = self@;
        let mut i: usize = 0;
        while i < samples.len()
            invariant
                i <= samples@.len(),
                self@ == before + samples@.subrange(0, i as int),
            decreases samples@.len() - i,
        {
            self.samples.push_back(samples[i]);
            assert(self@ =~= before + samples@.subrange(0, i as int + 1));
            i = i + 1;
        }
        assert(samples@.subrange(0, samples@.len() as int) =~= samples@);
    }

    /// The next sample to play; silence (0) while nothing is waiting.
    pub fn next_sample(&mut self) -> (r: i16)
        ensures
            old(self)@.len() > 0 ==> r == old(self)@[0] && final(self)@ == old(self)@.subrange(
                1,
                old(self)@.len() as int,
            ),
            old(self)@.len() == 0 ==> r == 0 && final(self)@ == old(self)@,
    {
        match self.samples.pop_front() {
            Some(v) => v,
            None => 0,
        }
    }

    pub fn len(&self) -> (r: usize)
        ensures
            r == self@.len(),
    {
        self.samples.len()
    }
}

} // verus!
