use vstd::prelude::*;

verus! {

/// Number of tone channels.
pub const NUM_CHANNELS: u8 = 3;

/// A request to start a tone, sent from the command side to the generator.
#[derive(Clone, Copy, Debug, PartialEq, Eq, Structural)]
pub struct GeneratorMessage {
    pub channel: u8,
    pub waveform: u8,
    pub volume: u8,
    pub frequency: i16,
    pub duration: i16,
}

/// Busy flags after the channels in `finished` reported completion.
pub open spec fn drained(busy: Seq<bool>, finished: Seq<u8>) -> Seq<bool> {
    Seq::new(busy.len(), |c: int| busy[c] && !finished.contains(c as u8))
}

/// Whether a tone request for `channel` is accepted once `finished` is
/// drained: the channel exists and is idle.
pub open spec fn tone_accepted(busy: Seq<bool>, finished: Seq<u8>, channel: u8) -> bool {
    channel < NUM_CHANNELS && !drained(busy, finished)[channel as int]
}

/// Busy flags after a tone request: an accepted request with a positive
/// duration occupies its channel.
pub open spec fn busy_after(busy: Seq<bool>, finished: Seq<u8>, channel: u8, duration: i16) -> Seq<
    bool,
> {
    if tone_accepted(busy, finished, channel) && duration > 0 {
        drained(busy, finished).update(channel as int, true)
    } else {
        drained(busy, finished)
    }
}

/// Busy state of the tone channels, as the command side sees it.
pub struct AudioChannels {
    pub channels_busy: Vec<bool>,
}

impl AudioChannels {
    pub open spec fn wf(&self) -> bool {
        self.channels_busy@.len() == NUM_CHANNELS
    }

    /// All channels idle.
    pub fn new() -> (r: AudioChannels)
        ensures
            r.wf(),
            forall|c: int| 0 <= c < NUM_CHANNELS ==> !#[trigger] r.channels_busy@[c],
    {
        AudioChannels { channels_busy: vec![false, false, false] }
    }

    /// Marks idle every channel in `finished`, the completions that the
    /// generator reported.
    pub fn release(&mut self, finished: &Vec<u8>)
        requires
            old(self).wf(),
        ensures
            final(self).wf(),
            final(self).channels_busy@ == drained(old(self).channels_busy@, finished@),
    {
        let ghost busy0 = self.channels_busy@;
        let mut i: usize = 0;
        while i < finished.len()
            invariant
                self.wf(),
                busy0.len() == NUM_CHANNELS,
                0 <= i <= finished@.len(),
                forall|c: int|
                    0 <= c < NUM_CHANNELS ==> #[trigger] self.channels_busy@[c] == (busy0[c]
                        && !finished@.subrange(0, i as int).contains(c as u8)),
            decreases finished@.len() - i,
        {
            let b = finished[i];
            if b < NUM_CHANNELS {
                self.channels_busy.set(b as usize, false);
            }
            proof {
                assert forall|c: int| 0 <= c < NUM_CHANNELS implies #[trigger] finished@.subrange(
                    0,
                    i + 1,
                ).contains(c as u8) == (finished@.subrange(0, i as int).contains(c as u8) || b
                    == c as u8) by {
                    let s0 = finished@.subrange(0, i as int);
                    let s1 = finished@.subrange(0, i + 1);
                    assert(s1 == s0.push(b));
                    if s1.contains(c as u8) {
                        let j = choose|j: int| 0 <= j < s1.len() && s1[j] == c as u8;
                        if j < i {
                            assert(s0[j] == c as u8);
                        }
                    }
                    if s0.contains(c as u8) {
                        let j = choose|j: int| 0 <= j < s0.len() && s0[j] == c as u8;
                        assert(s1[j] == c as u8);
                    }
                    if b == c as u8 {
                        assert(s1[i as int] == c as u8);
                    }
                }
            }
            i = i + 1;
        }
        proof {
            assert(finished@.subrange(0, finished@.len() as int) == finished@);
            assert(self.channels_busy@ =~= drained(busy0, finished@));
        }
    }

    /// Handles a tone request. First every channel in `finished` (the
    /// completions that the generator reported since the last call) becomes
    /// idle; then the request is accepted when its channel exists and is
    /// idle. An accepted request with a positive duration occupies the
    /// channel and yields the message for the generator; one with a zero or
    /// negative duration succeeds without occupying it.
    pub fn start_tone(
        &mut self,
        finished: &Vec<u8>,
        channel: u8,
        waveform: u8,
        volume: u8,
        frequency: i16,
        duration: i16,
    ) -> (r: (bool, Option<GeneratorMessage>))
        requires
            old(self).wf(),
        ensures
            final(self).wf(),
            r.0 == tone_accepted(old(self).channels_busy@, finished@, channel),
            final(self).channels_busy@ == busy_after(
                old(self).channels_busy@,
                finished@,
                channel,
                duration,
            ),
            r.1 == if r.0 && duration > 0 {
                Some(GeneratorMessage { channel, waveform, volume, frequency, duration })
            } else {
                None::<GeneratorMessage>
            },
    {
        self.release(finished);
        if channel >= NUM_CHANNELS || self.channels_busy[channel as usize] {
            (false, None)
        } else {
            if duration > 0 {
                self.channels_busy.set(channel as usize, true);
                (true, Some(GeneratorMessage { channel, waveform, volume, frequency, duration }))
            } else {
                (true, None)
            }
        }
    }
}

/// Samples that a tone of `duration` milliseconds lasts at `rate` samples per
/// second.
pub open spec fn tone_samples(duration: int, rate: int) -> int {
    trunc_div_1000(duration * rate)
}

/// Division by 1000 rounding toward zero.
pub open spec fn trunc_div_1000(a: int) -> int {
    if a >= 0 {
        a / 1000
    } else {
        -((-a) / 1000)
    }
}

/// Remaining samples of the tone on each channel, as the generator sees it.
pub struct ToneCountdown {
    pub samples_to_go: Vec<i32>,
}

impl ToneCountdown {
    pub open spec fn wf(&self) -> bool {
        self.samples_to_go@.len() == NUM_CHANNELS
    }

    /// No tone playing.
    pub fn new() -> (r: ToneCountdown)
        ensures
            r.wf(),
            forall|c: int| 0 <= c < NUM_CHANNELS ==> #[trigger] r.samples_to_go@[c] == 0,
    {
        ToneCountdown { samples_to_go: vec![0, 0, 0] }
    }

    /// Starts the tone of `msg` at `rate` samples per second, replacing
    /// whatever its channel was playing.
    pub fn start(&mut self, msg: &GeneratorMessage, rate: i32)
        requires
            old(self).wf(),
            msg.channel < NUM_CHANNELS,
            0 < rate <= 0xffff,
        ensures
            final(self).wf(),
            final(self).samples_to_go@ == old(self).samples_to_go@.update(
                msg.channel as int,
                tone_samples(msg.duration as int, rate as int) as i32,
            ),
    {
        let d = msg.duration as i32;
        assert(-0x8000 * 0xffff <= d * rate <= 0x7fff * 0xffff) by (nonlinear_arith)
            requires
                -0x8000 <= d <= 0x7fff,
                0 < rate <= 0xffff,
        ;
        let prod: i32 = d * rate;
        let n: i32 = if prod >= 0 { prod / 1000 } else { -((-prod) / 1000) };
        self.samples_to_go.set(msg.channel as usize, n);
    }

    /// Whether channel `ch` is playing.
    pub fn is_active(&self, ch: usize) -> (r: bool)
        requires
            self.wf(),
            ch < NUM_CHANNELS,
        ensures
            r == (self.samples_to_go@[ch as int] > 0),
    {
        self.samples_to_go[ch] > 0
    }

    /// Advances every playing channel by one sample, and returns the channels
    /// whose tone ended on this sample, in channel order.
    pub fn step(&mut self) -> (done: Vec<u8>)
        requires
            old(self).wf(),
        ensures
            final(self).wf(),
            forall|c: int|
                0 <= c < NUM_CHANNELS ==> #[trigger] final(self).samples_to_go@[c] == countdown_step(
                    old(self).samples_to_go@[c] as int,
                ),
            forall|c: u8|
                c < NUM_CHANNELS ==> (#[trigger] done@.contains(c) <==> old(self).samples_to_go@[c as int]
                    == 1),
            forall|j: int| 0 <= j < done@.len() ==> #[trigger] done@[j] < NUM_CHANNELS,
    {
        let ghost s0 = self.samples_to_go@;
        let mut done: Vec<u8> = Vec::new();
        let mut c: usize = 0;
        while c < 3
            invariant
                self.wf(),
                s0.len() == NUM_CHANNELS,
                0 <= c <= 3,
                forall|k: int|
                    0 <= k < NUM_CHANNELS ==> #[trigger] self.samples_to_go@[k] == if k < c && s0[k]
                        > 0 {
                        s0[k] - 1
                    } else {
                        s0[k] as int
                    },
                forall|k: u8| #[trigger] done@.contains(k) <==> (k < c && s0[k as int] == 1),
                forall|j: int| 0 <= j < done@.len() ==> #[trigger] done@[j] < c,
            decreases 3 - c,
        {
            let s = self.samples_to_go[c];
            if s > 0 {
                self.samples_to_go.set(c, s - 1);
                if s == 1 {
                    let ghost before = done@;
                    done.push(c as u8);
                    proof {
                        assert forall|k: u8| #[trigger] done@.contains(k) <==> (before.contains(k)
                            || k == c as u8) by {
                            if done@.contains(k) {
                                let j = choose|j: int| 0 <= j < done@.len() && done@[j] == k;
                                if j < before.len() {
                                    assert(before[j] == k);
                                }
                            }
                            if before.contains(k) {
                                let j = choose|j: int| 0 <= j < before.len() && before[j] == k;
                                assert(done@[j] == k);
                            }
                            if k == c as u8 {
                                assert(done@[before.len() as int] == k);
                            }
                        }
                    }
                }
            }
            c = c + 1;
        }
        done
    }
}

/// The channel protocol. A request for a channel that is busy after
/// draining is refused and sends the generator nothing, so the playing
/// tone's countdown goes on untouched. A request with a positive duration
/// for an idle channel succeeds, marks it busy and hands the generator its
/// countdown; the flag is cleared again only by a completion report for that
/// channel, which the generator makes only on the sample where that
/// countdown reaches zero.
pub proof fn lemma_tone_channel_protocol(
    busy: Seq<bool>,
    finished: Seq<u8>,
    channel: u8,
    duration: i16,
    next_finished: Seq<u8>,
    other: u8,
    other_duration: i16,
)
    requires
        busy.len() == NUM_CHANNELS,
        channel < NUM_CHANNELS,
    ensures
        drained(busy, finished)[channel as int] ==> !tone_accepted(busy, finished, channel)
            && busy_after(busy, finished, channel, duration) == drained(busy, finished),
        !drained(busy, finished)[channel as int] && duration > 0 ==> tone_accepted(
            busy,
            finished,
            channel,
        ) && busy_after(busy, finished, channel, duration)[channel as int],
        busy_after(busy, finished, channel, duration)[channel as int] && !next_finished.contains(
            channel,
        ) ==> busy_after(
            busy_after(busy, finished, channel, duration),
            next_finished,
            other,
            other_duration,
        )[channel as int],
{
}

/// A countdown after one sample: a playing tone counts down, a silent
/// channel stays as it is.
pub open spec fn countdown_step(s: int) -> int {
    if s > 0 {
        s - 1
    } else {
        s
    }
}

/// A countdown after `n` samples.
pub open spec fn countdown_after(s: int, n: nat) -> int
    decreases n,
{
    if n == 0 {
        s
    } else {
        countdown_step(countdown_after(s, (n - 1) as nat))
    }
}

/// Over `n` samples a tone with `s` samples to go counts down to
/// `max(s - n, 0)`; its completion, reported on the sample that takes the
/// countdown from 1 to 0, comes on sample `s` (counting from 1) and on no
/// other, so within `n` samples exactly when `0 < s <= n`.
pub proof fn lemma_countdown_over_samples(s: int, n: nat, k: nat)
    ensures
        countdown_after(s, n) == if s > 0 {
            if s - n > 0 {
                s - n
            } else {
                0
            }
        } else {
            s
        },
        k < n ==> (countdown_after(s, k) == 1 <==> (s > 0 && k == s - 1)),
    decreases n,
{
    if n > 0 {
        lemma_countdown_over_samples(s, (n - 1) as nat, k);
    }
    if k < n {
        lemma_countdown_over_samples(s, k, 0);
    }
}

/// Busy flags after a run of tone requests, each given as the completions
/// drained before it, its channel and its duration.
pub open spec fn busy_through(busy: Seq<bool>, reqs: Seq<(Seq<u8>, u8, i16)>) -> Seq<bool>
    decreases reqs.len(),
{
    if reqs.len() == 0 {
        busy
    } else {
        let r = reqs.last();
        busy_after(busy_through(busy, reqs.drop_last()), r.0, r.1, r.2)
    }
}

/// A busy channel stays busy through any run of requests that brings no
/// completion report for it, and every request for it in that run is
/// refused.
pub proof fn lemma_busy_until_completion(busy: Seq<bool>, reqs: Seq<(Seq<u8>, u8, i16)>, c: u8)
    requires
        busy.len() == NUM_CHANNELS,
        c < NUM_CHANNELS,
        busy[c as int],
        forall|i: int| 0 <= i < reqs.len() ==> !(#[trigger] reqs[i]).0.contains(c),
    ensures
        busy_through(busy, reqs).len() == NUM_CHANNELS,
        busy_through(busy, reqs)[c as int],
        forall|i: int|
            0 <= i < reqs.len() && (#[trigger] reqs[i]).1 == c ==> !tone_accepted(
                busy_through(busy, reqs.subrange(0, i)),
                reqs[i].0,
                c,
            ),
    decreases reqs.len(),
{
    if reqs.len() > 0 {
        let pre = reqs.drop_last();
        assert forall|i: int| 0 <= i < pre.len() implies !(#[trigger] pre[i]).0.contains(c) by {
            assert(pre[i] == reqs[i]);
        }
        lemma_busy_until_completion(busy, pre, c);
        assert forall|i: int|
            0 <= i < reqs.len() && (#[trigger] reqs[i]).1 == c implies !tone_accepted(
                busy_through(busy, reqs.subrange(0, i)),
                reqs[i].0,
                c,
            ) by {
            if i < pre.len() {
                assert(reqs.subrange(0, i) == pre.subrange(0, i));
                assert(pre[i] == reqs[i]);
            } else {
                assert(reqs.subrange(0, i) == pre);
                assert(!reqs.last().0.contains(c));
            }
        }
    }
}

} // verus!
