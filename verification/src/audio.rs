//! Morse code as sound: which tone each character of a Morse string stands
//! for, the order of tones and pauses when the string is played, and the
//! sample buffer of the string when it is exported.
//!
//! The tones themselves are synthesised, played and written to disk
//! elsewhere; this module decides what is played or written, and in which
//! order.

use crate::morse::Morse;
use crate::std_specs::duration_nanos;
use std::time::Duration;
use vstd::prelude::*;

verus! {

/// One of the three sounds that Morse code is rendered with.
#[derive(Clone, Copy, Debug, PartialEq, Eq)]
pub enum Tone {
    /// The sound of a dot.
    ShortBeep,
    /// The sound of a dash.
    LongBeep,
    /// The sound of any other character.
    Silence,
}

/// One step of playing Morse code.
#[derive(Clone, Copy, Debug, PartialEq, Eq)]
pub enum PlayStep {
    /// Play the tone to its end.
    Tone(Tone),
    /// Wait for the given time.
    Pause(Duration),
}

/// The layout of exported audio: the number of channels, the number of
/// samples per second and channel, and the number of bits of one sample.
/// Samples are signed integers.
#[derive(Clone, Copy, Debug, PartialEq, Eq)]
pub struct WavFormat {
    pub channels: u16,
    pub sample_rate: u32,
    pub bits_per_sample: u16,
}

/// The number of samples of a tone that lasts `nanos` nanoseconds, at
/// `sample_rate` samples per second: one sample for each of the instants
/// `0`, `1 / sample_rate`, `2 / sample_rate` and so on that lie before the
/// end of the tone.
pub open spec fn tone_length(nanos: nat, sample_rate: nat) -> nat {
    ((nanos * sample_rate + 999_999_999) / 1_000_000_000) as nat
}

/// The tone that the character `c` of a Morse string stands for: the short
/// beep for a dot, the long beep for a dash, silence for anything else.
pub open spec fn tone_of(c: char) -> Tone {
    if c == '.' {
        Tone::ShortBeep
    } else if c == '-' {
        Tone::LongBeep
    } else {
        Tone::Silence
    }
}

/// The steps of playing `code`: for each character its tone, then a pause.
pub open spec fn playback(code: Seq<char>, pause: Duration) -> Seq<PlayStep> {
    Seq::new(
        2 * code.len(),
        |k: int|
            if k % 2 == 0 {
                PlayStep::Tone(tone_of(code[k / 2]))
            } else {
                PlayStep::Pause(pause)
            },
    )
}

/// The samples of `tone`, given the samples of each of the three tones.
pub open spec fn tone_samples<S>(
    tone: Tone,
    short_beep: Seq<S>,
    long_beep: Seq<S>,
    silence: Seq<S>,
) -> Seq<S> {
    match tone {
        Tone::ShortBeep => short_beep,
        Tone::LongBeep => long_beep,
        Tone::Silence => silence,
    }
}

/// The samples of `code`: the samples of the tone of each of its characters,
/// one tone after the other with nothing in between.
pub open spec fn rendered<S>(
    code: Seq<char>,
    short_beep: Seq<S>,
    long_beep: Seq<S>,
    silence: Seq<S>,
) -> Seq<S>
    decreases code.len(),
{
    if code.len() == 0 {
        Seq::<S>::empty()
    } else {
        rendered(code.drop_last(), short_beep, long_beep, silence) + tone_samples(
            tone_of(code.last()),
            short_beep,
            long_beep,
            silence,
        )
    }
}

/// The samples of two Morse strings in a row are the samples of the first
/// followed by the samples of the second.
pub proof fn lemma_rendered_concat<S>(
    first: Seq<char>,
    second: Seq<char>,
    short_beep: Seq<S>,
    long_beep: Seq<S>,
    silence: Seq<S>,
)
    ensures
        rendered(first + second, short_beep, long_beep, silence) == rendered(
            first,
            short_beep,
            long_beep,
            silence,
        ) + rendered(second, short_beep, long_beep, silence),
    decreases second.len(),
{
    if second.len() > 0 {
        lemma_rendered_concat(first, second.drop_last(), short_beep, long_beep, silence);
        assert((first + second).drop_last() == first + second.drop_last());
    }
}

impl Tone {
    /// The tone that the character `c` of a Morse string stands for.
    pub fn of(c: char) -> (tone: Tone)
        ensures
            tone == tone_of(c),
    {
        if c == '.' {
            Tone::ShortBeep
        } else if c == '-' {
            Tone::LongBeep
        } else {
            Tone::Silence
        }
    }
}

/// A sample is counted exactly when its instant lies before the end of the
/// tone: sample number `n`, counted from zero, belongs to the tone when
/// `n / sample_rate` seconds are less than `nanos` nanoseconds.
pub proof fn lemma_tone_length_counts(nanos: nat, sample_rate: nat, n: nat)
    ensures
        n < tone_length(nanos, sample_rate) <==> n * 1_000_000_000 < nanos * sample_rate,
{
}

/// Counts the samples of a tone that lasts `duration`, at `sample_rate`
/// samples per second. There is no count where it would not fit in `usize`.
pub fn sample_count(duration: Duration, sample_rate: u32) -> (count: Option<usize>)
    ensures
        match count {
            Some(n) => n == tone_length(duration_nanos(duration), sample_rate as nat),
            None => tone_length(duration_nanos(duration), sample_rate as nat) > usize::MAX,
        },
{
    let nanos: u128 = duration.as_nanos();
    match nanos.checked_mul(sample_rate as u128) {
        None => None,
        Some(product) => {
            let whole: u128 = product / 1_000_000_000;
            let count: u128 = if product % 1_000_000_000 == 0 {
                whole
            } else {
                whole + 1
            };
            if count <= usize::MAX as u128 {
                Some(count as usize)
            } else {
                None
            }
        },
    }
}

impl WavFormat {
    /// The layout of exported audio at `sample_rate` samples per second: one
    /// channel of 16-bit samples.
    pub fn mono_16_bit(sample_rate: u32) -> (format: WavFormat)
        ensures
            format.channels == 1,
            format.sample_rate == sample_rate,
            format.bits_per_sample == 16,
    {
        WavFormat { channels: 1, sample_rate, bits_per_sample: 16 }
    }
}

impl Morse {
    /// Lays out how `morse_code` is played: for each of its characters the
    /// tone is played to its end, then the translator's pause is made, before
    /// the next character is taken up.
    pub fn play_morse_code(&self, morse_code: &str) -> (steps: Vec<PlayStep>)
        ensures
            steps@ == playback(morse_code@, self.pause()),
    {
        let pause = self.duration();
        let mut steps: Vec<PlayStep> = Vec::new();
        for c in it: morse_code.chars()
            invariant
                it.seq() == morse_code@,
                pause == self.pause(),
                steps@ == playback(morse_code@.take(it.index()), pause),
        {
            steps.push(PlayStep::Tone(Tone::of(c)));
            steps.push(PlayStep::Pause(pause));
        }
        steps
    }

    /// Renders `morse_code` as one buffer of samples, given the samples of
    /// the three tones: the tone of each character is appended in turn, and
    /// nothing is put between two tones.
    pub fn to_audio<S: Copy>(
        &self,
        morse_code: &str,
        short_beep: &[S],
        long_beep: &[S],
        silence: &[S],
    ) -> (samples: Vec<S>)
        ensures
            samples@ == rendered(morse_code@, short_beep@, long_beep@, silence@),
    {
        let mut samples: Vec<S> = Vec::new();
        for c in it: morse_code.chars()
            invariant
                it.seq() == morse_code@,
                samples@ == rendered(
                    morse_code@.take(it.index()),
                    short_beep@,
                    long_beep@,
                    silence@,
                ),
        {
            assert(morse_code@.take(it.index() + 1).drop_last() == morse_code@.take(it.index()));
            let tone = match Tone::of(c) {
                Tone::ShortBeep => short_beep,
                Tone::LongBeep => long_beep,
                Tone::Silence => silence,
            };
            let ghost before = samples@;
            let mut i: usize = 0;
            while i < tone.len()
                invariant
                    i <= tone.len(),
                    samples@ == before + tone@.take(i as int),
                decreases tone.len() - i,
            {
                samples.push(tone[i]);
                i += 1;
            }
        }
        assert(morse_code@.take(morse_code@.len() as int) == morse_code@);
        samples
    }
}

} // verus!
