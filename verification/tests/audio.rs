use hound::{SampleFormat, WavReader, WavSpec, WavWriter};
use morseus::audio::{sample_count, PlayStep, Tone, WavFormat};
use morseus::morse::Morse;
use std::io::Cursor;
use std::time::Duration;

fn spec_of(format: WavFormat) -> WavSpec {
    WavSpec {
        channels: format.channels,
        sample_rate: format.sample_rate,
        bits_per_sample: format.bits_per_sample,
        sample_format: SampleFormat::Int,
    }
}

fn wav_file(format: WavFormat, samples: &[i16]) -> Vec<u8> {
    let mut file = Cursor::new(Vec::new());
    let mut writer = WavWriter::new(&mut file, spec_of(format)).unwrap();
    for sample in samples {
        writer.write_sample(*sample).unwrap();
    }
    writer.finalize().unwrap();
    file.into_inner()
}

#[test]
fn one_dot_written_as_wav_reads_back_as_one_short_beep() {
    let mut morse = Morse::new();
    morse.set_sampling_rate(8000);
    let short_beep: Vec<i16> = (0..4000).map(|n: i32| ((n * 37) % 2001 - 1000) as i16).collect();
    let long_beep: Vec<i16> = vec![i16::MAX; 8000];
    let silence: Vec<i16> = vec![0; 8000];
    let samples = morse.to_audio(".", &short_beep, &long_beep, &silence);
    let format = WavFormat::mono_16_bit(morse.sampling_rate());
    let file = wav_file(format, &samples);
    assert_eq!(file.len(), 44 + 2 * 4000);

    let mut reader = WavReader::new(Cursor::new(file)).unwrap();
    assert_eq!(reader.spec().channels, 1);
    assert_eq!(reader.spec().bits_per_sample, 16);
    assert_eq!(reader.spec().sample_rate, 8000);
    assert_eq!(reader.spec().sample_format, SampleFormat::Int);
    let read: Vec<i16> = reader.samples::<i16>().map(|s| s.unwrap()).collect();
    assert_eq!(read, short_beep);
}

#[test]
fn morse_string_written_as_wav_keeps_every_sample() {
    let morse = Morse::new();
    let short_beep: Vec<i16> = vec![100, -100];
    let long_beep: Vec<i16> = vec![200, -200, 200];
    let silence: Vec<i16> = vec![0];
    let samples = morse.to_audio(".. -- .", &short_beep, &long_beep, &silence);
    let file = wav_file(WavFormat::mono_16_bit(morse.sampling_rate()), &samples);
    let mut reader = WavReader::new(Cursor::new(file)).unwrap();
    assert_eq!(reader.spec().sample_rate, 44100);
    assert_eq!(reader.len(), 14);
    let read: Vec<i16> = reader.samples::<i16>().map(|s| s.unwrap()).collect();
    assert_eq!(
        read,
        vec![100, -100, 100, -100, 0, 200, -200, 200, 200, -200, 200, 0, 100, -100]
    );
}

#[test]
fn defaults() {
    let morse = Morse::new();
    assert_eq!(morse.duration(), Duration::from_millis(500));
    assert_eq!(morse.duration(), Duration::from_secs_f32(0.5));
    assert_eq!(morse.duration().as_nanos(), 500_000_000);
    assert_eq!(morse.sampling_rate(), 44100);
}

#[test]
fn set_duration_changes_the_pause_only() {
    let mut morse = Morse::new();
    morse.set_duration(Duration::from_secs_f32(0.25));
    assert_eq!(morse.duration(), Duration::from_millis(250));
    assert_eq!(morse.sampling_rate(), 44100);
    assert_eq!(morse.encode("SOS"), "... --- ...");
}

#[test]
fn set_sampling_rate_changes_the_rate_only() {
    let mut morse = Morse::new();
    morse.set_sampling_rate(8);
    assert_eq!(morse.sampling_rate(), 8);
    assert_eq!(morse.duration(), Duration::from_millis(500));
    assert_eq!(morse.decode("... --- ..."), "SOS");
}

#[test]
fn tone_of_each_character() {
    assert_eq!(Tone::of('.'), Tone::ShortBeep);
    assert_eq!(Tone::of('-'), Tone::LongBeep);
    assert_eq!(Tone::of(' '), Tone::Silence);
    assert_eq!(Tone::of('/'), Tone::Silence);
    assert_eq!(Tone::of('A'), Tone::Silence);
    assert_eq!(Tone::of('_'), Tone::Silence);
}

#[test]
fn play_morse_code_alternates_tones_and_pauses() {
    let morse = Morse::new();
    let pause = PlayStep::Pause(Duration::from_millis(500));
    assert_eq!(
        morse.play_morse_code(".- /"),
        vec![
            PlayStep::Tone(Tone::ShortBeep),
            pause,
            PlayStep::Tone(Tone::LongBeep),
            pause,
            PlayStep::Tone(Tone::Silence),
            pause,
            PlayStep::Tone(Tone::Silence),
            pause,
        ]
    );
}

#[test]
fn play_morse_code_of_nothing_is_nothing() {
    let morse = Morse::new();
    assert_eq!(morse.play_morse_code(""), vec![]);
}

#[test]
fn play_morse_code_uses_the_pause_that_was_set() {
    let mut morse = Morse::new();
    morse.set_duration(Duration::from_millis(20));
    let steps = morse.play_morse_code(".. -- .");
    assert_eq!(steps.len(), 14);
    for (k, step) in steps.iter().enumerate() {
        if k % 2 == 1 {
            assert_eq!(*step, PlayStep::Pause(Duration::from_millis(20)));
        } else {
            assert!(matches!(step, PlayStep::Tone(_)));
        }
    }
    assert_eq!(steps[0], PlayStep::Tone(Tone::ShortBeep));
    assert_eq!(steps[4], PlayStep::Tone(Tone::Silence));
    assert_eq!(steps[6], PlayStep::Tone(Tone::LongBeep));
}

#[test]
fn to_audio_appends_the_tone_of_each_character() {
    let morse = Morse::new();
    let short_beep: Vec<i16> = vec![1, 2];
    let long_beep: Vec<i16> = vec![3, 4, 5];
    let silence: Vec<i16> = vec![0];
    assert_eq!(
        morse.to_audio(".- .", &short_beep, &long_beep, &silence),
        vec![1, 2, 3, 4, 5, 0, 1, 2]
    );
    assert_eq!(
        morse.to_audio("-/x", &short_beep, &long_beep, &silence),
        vec![3, 4, 5, 0, 0]
    );
}

#[test]
fn to_audio_of_one_dot_is_one_short_beep() {
    let morse = Morse::new();
    let short_beep: Vec<f32> = (0..24000).map(|n| (n as f32 * 0.01).sin() * 0.2).collect();
    let long_beep: Vec<f32> = vec![0.5; 48000];
    let silence: Vec<f32> = vec![0.0; 48000];
    let samples = morse.to_audio(".", &short_beep, &long_beep, &silence);
    assert_eq!(samples, short_beep);
}

#[test]
fn to_audio_of_nothing_is_empty() {
    let morse = Morse::new();
    let tone: Vec<i16> = vec![7; 10];
    assert_eq!(morse.to_audio("", &tone, &tone, &tone), Vec::<i16>::new());
}

#[test]
fn to_audio_with_empty_tones() {
    let morse = Morse::new();
    let none: Vec<u8> = vec![];
    let long_beep: Vec<u8> = vec![9];
    assert_eq!(morse.to_audio(".-.-", &none, &long_beep, &none), vec![9, 9]);
}

#[test]
fn to_audio_of_two_strings_in_a_row() {
    let morse = Morse::new();
    let short_beep: Vec<i16> = vec![1];
    let long_beep: Vec<i16> = vec![2, 2];
    let silence: Vec<i16> = vec![0, 0, 0];
    let mut both = morse.to_audio("... ", &short_beep, &long_beep, &silence);
    both.extend(morse.to_audio("---", &short_beep, &long_beep, &silence));
    assert_eq!(morse.to_audio("... ---", &short_beep, &long_beep, &silence), both);
}

#[test]
fn wav_format_is_mono_16_bit() {
    let format = WavFormat::mono_16_bit(44100);
    assert_eq!(format.channels, 1);
    assert_eq!(format.sample_rate, 44100);
    assert_eq!(format.bits_per_sample, 16);
    assert_eq!(
        WavFormat::mono_16_bit(8),
        WavFormat { channels: 1, sample_rate: 8, bits_per_sample: 16 }
    );
}

#[test]
fn sample_count_is_duration_times_rate() {
    assert_eq!(sample_count(Duration::from_millis(500), 44100), Some(22050));
    assert_eq!(sample_count(Duration::from_secs(1), 44100), Some(44100));
    assert_eq!(sample_count(Duration::from_secs_f32(0.5), 48000), Some(24000));
    assert_eq!(sample_count(Duration::from_secs(3), 8), Some(24));
}

#[test]
fn sample_count_takes_every_instant_before_the_end() {
    assert_eq!(sample_count(Duration::from_nanos(1), 1), Some(1));
    assert_eq!(sample_count(Duration::from_nanos(333_333_333), 44100), Some(14700));
    assert_eq!(sample_count(Duration::from_nanos(1_000_000_001), 1), Some(2));
    assert_eq!(sample_count(Duration::from_nanos(999_999_999), 1), Some(1));
    assert_eq!(sample_count(Duration::from_millis(1), 999), Some(1));
    assert_eq!(sample_count(Duration::from_millis(1), 1001), Some(2));
}

#[test]
fn sample_count_of_nothing_is_zero() {
    assert_eq!(sample_count(Duration::from_secs(0), 44100), Some(0));
    assert_eq!(sample_count(Duration::from_secs(10), 0), Some(0));
}

#[test]
fn sample_count_that_does_not_fit() {
    assert_eq!(sample_count(Duration::MAX, u32::MAX), None);
    assert_eq!(sample_count(Duration::MAX, 1_000_000_000), None);
}
