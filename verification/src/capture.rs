//! Checks on the configuration an audio device reports before capture
//! starts, and the metadata a finished capture carries.

use crate::text::{decimal, decimal_string};
use vstd::prelude::*;
use vstd::string::StringExecFns;

verus! {

/// Sample rate every captured stream ends up at, in Hz.
pub const TARGET_SAMPLE_RATE_HZ: u32 = 48000;

/// Most interleaved channels the mono downmix handles.
pub const MAX_CAPTURE_CHANNELS: u16 = 8;

/// What a capture thread learned about its device: the native sample rate
/// (samples are resampled to 48 kHz when it differs) and the channel count.
#[derive(Clone, Copy, Debug, PartialEq, Eq, Structural)]
pub struct RecordingMeta {
    pub sample_rate: u32,
    pub channels: u16,
}

/// The downmix handles this many channels.
pub open spec fn channels_supported(channels: u16) -> bool {
    1 <= channels <= MAX_CAPTURE_CHANNELS
}

/// The error for an input device with an unsupported channel count.
pub open spec fn input_channels_message(channels: u16) -> Seq<char> {
    "device reports "@ + decimal(channels as nat)
        + " channels; refusing to capture (downmix supports 1-8)"@
}

/// Accepts an input (microphone) device configuration: any sample rate
/// (it is resampled later), and 1 to 8 channels.
pub fn check_input_config(sample_rate: u32, channels: u16) -> (r: Result<RecordingMeta, String>)
    ensures
        1 <= channels <= 8 ==> r == Ok::<RecordingMeta, String>(
            RecordingMeta { sample_rate, channels },
        ),
        channels == 0 || channels > 8 ==> r is Err,
        channels_supported(channels) ==> r == Ok::<RecordingMeta, String>(
            RecordingMeta { sample_rate, channels },
        ),
        !channels_supported(channels) ==> (r matches Err(e) && e@ == input_channels_message(
            channels,
        )),
{
    if 1 <= channels && channels <= MAX_CAPTURE_CHANNELS {
        Ok(RecordingMeta { sample_rate, channels })
    } else {
        let mut e = "device reports ".to_owned();
        let n = decimal_string(channels as u64);
        e.append(n.as_str());
        e.append(" channels; refusing to capture (downmix supports 1-8)");
        Err(e)
    }
}

/// The error for a loopback (system output) device not running at 48 kHz.
pub open spec fn loopback_rate_message(sample_rate: u32) -> Seq<char> {
    "output device sample rate is "@ + decimal(sample_rate as nat)
        + " Hz; M1 requires 48000 Hz (rubato resampling lands in M1.5)"@
}

/// The error for a loopback device with an unsupported channel count.
pub open spec fn loopback_channels_message(channels: u16) -> Seq<char> {
    "output device reports "@ + decimal(channels as nat) + " channels; downmix supports 1-8"@
}

/// Accepts a loopback device configuration, which must run at 48 kHz with
/// 1 to 8 channels; the sample rate is checked first.
pub fn check_loopback_config(sample_rate: u32, channels: u16) -> (r: Result<RecordingMeta, String>)
    ensures
        sample_rate == 48000 && 1 <= channels <= 8 ==> r == Ok::<RecordingMeta, String>(
            RecordingMeta { sample_rate, channels },
        ),
        sample_rate != 48000 || channels == 0 || channels > 8 ==> r is Err,
        sample_rate == TARGET_SAMPLE_RATE_HZ && channels_supported(channels) ==> r == Ok::<
            RecordingMeta,
            String,
        >(RecordingMeta { sample_rate, channels }),
        sample_rate != TARGET_SAMPLE_RATE_HZ ==> (r matches Err(e) && e@ == loopback_rate_message(
            sample_rate,
        )),
        sample_rate == TARGET_SAMPLE_RATE_HZ && !channels_supported(channels) ==> (r matches Err(e)
            && e@ == loopback_channels_message(channels)),
{
    if sample_rate != TARGET_SAMPLE_RATE_HZ {
        let mut e = "output device sample rate is ".to_owned();
        let n = decimal_string(sample_rate as u64);
        e.append(n.as_str());
        e.append(" Hz; M1 requires 48000 Hz (rubato resampling lands in M1.5)");
        return Err(e);
    }
    if 1 <= channels && channels <= MAX_CAPTURE_CHANNELS {
        Ok(RecordingMeta { sample_rate, channels })
    } else {
        let mut e = "output device reports ".to_owned();
        let n = decimal_string(channels as u64);
        e.append(n.as_str());
        e.append(" channels; downmix supports 1-8");
        Err(e)
    }
}

/// Bytes in one 32-bit float sample.
pub const BYTES_PER_SAMPLE: usize = 4;

/// How a block of interleaved 32-bit float samples divides into frames.
#[derive(Clone, Copy, Debug, PartialEq, Eq, Structural)]
pub struct BufferLayout {
    /// Whole samples in the block.
    pub samples: usize,
    /// Channels per frame (a reported zero counts as one).
    pub channels: usize,
    /// Whole frames in the block.
    pub frames: usize,
}

/// The layout of `byte_len` bytes of interleaved float samples with
/// `channels` reported channels, when it holds at least one whole frame.
pub open spec fn interleaved_layout_spec(byte_len: nat, channels: nat) -> Option<BufferLayout> {
    let ch = if channels == 0 {
        1
    } else {
        channels
    };
    let samples = byte_len / 4;
    let frames = samples / ch;
    if frames == 0 {
        None
    } else {
        Some(BufferLayout { samples: samples as usize, channels: ch as usize, frames: frames as usize })
    }
}

/// Divides a block of `byte_len` bytes of interleaved float samples with
/// `channels` reported channels into frames; `None` when not even one whole
/// frame is present, in which case the block is skipped.
pub fn interleaved_layout(byte_len: usize, channels: u32) -> (r: Option<BufferLayout>)
    ensures
        r == interleaved_layout_spec(byte_len as nat, channels as nat),
        layout_fits(r, byte_len as nat, channels as nat),
{
    proof {
        lemma_interleaved_layout_fits(byte_len as nat, channels as nat);
    }
    let ch: usize = if channels == 0 {
        1
    } else {
        channels as usize
    };
    let samples = byte_len / BYTES_PER_SAMPLE;
    let frames = samples / ch;
    if frames == 0 {
        None
    } else {
        Some(BufferLayout { samples, channels: ch, frames })
    }
}

/// Divides a PipeWire chunk of `chunk_bytes` valid bytes, in a mapped buffer
/// of `mapped_len` bytes, into frames; an empty chunk or one larger than the
/// mapping is skipped.
pub fn chunk_layout(chunk_bytes: usize, mapped_len: usize, channels: u32) -> (r: Option<
    BufferLayout,
>)
    ensures
        chunk_bytes == 0 || mapped_len < chunk_bytes ==> r is None,
        !(chunk_bytes == 0 || mapped_len < chunk_bytes) ==> r == interleaved_layout_spec(
            chunk_bytes as nat,
            channels as nat,
        ),
        r matches Some(l) ==> l.samples * 4 <= mapped_len && layout_fits(
            r,
            chunk_bytes as nat,
            channels as nat,
        ),
{
    if chunk_bytes == 0 || mapped_len < chunk_bytes {
        return None;
    }
    interleaved_layout(chunk_bytes, channels)
}

/// The number of frames a set of planar channel buffers of the given byte
/// lengths holds: the whole samples of the shortest one, or zero when there
/// are no buffers.
pub open spec fn planar_frames_spec(byte_lens: Seq<usize>) -> nat
    decreases byte_lens.len(),
{
    if byte_lens.len() == 0 {
        0
    } else if byte_lens.len() == 1 {
        (byte_lens[0] / 4) as nat
    } else {
        let rest = planar_frames_spec(byte_lens.drop_last());
        let last = (byte_lens.last() / 4) as nat;
        if last < rest {
            last
        } else {
            rest
        }
    }
}

/// Whole frames held by planar buffers (one channel each) of the given
/// byte lengths: limited by the shortest buffer.
pub fn planar_frames(byte_lens: &[usize]) -> (n: usize)
    ensures
        n == planar_frames_spec(byte_lens@),
        shortest_samples(n as nat, byte_lens@),
{
    proof {
        lemma_planar_frames_shortest(byte_lens@);
    }
    if byte_lens.len() == 0 {
        return 0;
    }
    let mut n = byte_lens[0] / BYTES_PER_SAMPLE;
    let mut i: usize = 1;
    assert(byte_lens@.take(1).drop_last() =~= Seq::<usize>::empty());
    assert(planar_frames_spec(byte_lens@.take(1)) == n);
    while i < byte_lens.len()
        invariant
            1 <= i <= byte_lens@.len(),
            n == planar_frames_spec(byte_lens@.take(i as int)),
        decreases byte_lens@.len() - i,
    {
        let c = byte_lens[i] / BYTES_PER_SAMPLE;
        assert(byte_lens@.take(i + 1).drop_last() =~= byte_lens@.take(i as int));
        if c < n {
            n = c;
        }
        i += 1;
    }
    assert(byte_lens@.take(byte_lens@.len() as int) =~= byte_lens@);
    n
}

/// A capture source.
#[derive(Clone, Copy, Debug, PartialEq, Eq, Structural)]
pub enum CaptureSource {
    Microphone,
    SystemAudio,
}

/// The error for starting a capture that is already running.
pub open spec fn already_running_message(source: CaptureSource) -> Seq<char> {
    match source {
        CaptureSource::Microphone => "recording already in progress"@,
        CaptureSource::SystemAudio => "system audio recording already in progress"@,
    }
}

/// A capture of `source` may start only when it is not already running.
pub fn start_guard(running: bool, source: CaptureSource) -> (r: Result<(), String>)
    ensures
        !running ==> r is Ok,
        running ==> (r matches Err(e) && e@ == already_running_message(source)),
{
    if !running {
        return Ok(());
    }
    match source {
        CaptureSource::Microphone => Err("recording already in progress".to_owned()),
        CaptureSource::SystemAudio => Err("system audio recording already in progress".to_owned()),
    }
}

/// A capture may be stopped only while it runs.
pub fn stop_guard(running: bool) -> (r: Result<(), String>)
    ensures
        running ==> r is Ok,
        !running ==> (r matches Err(e) && e@ == "not recording"@),
{
    if running {
        Ok(())
    } else {
        Err("not recording".to_owned())
    }
}

/// The sample rate to resample from, given the rate a capture negotiated
/// (zero when negotiation never happened, in which case the samples are
/// returned as they are).
pub fn negotiated_sample_rate(stored: u32) -> (r: Option<u32>)
    ensures
        r == if stored == 0 {
            None::<u32>
        } else {
            Some(stored)
        },
{
    if stored == 0 {
        None
    } else {
        Some(stored)
    }
}

/// What a layout must be for a block of `byte_len` bytes with `channels`
/// reported channels: when given, it counts every whole sample in the block,
/// one or more whole frames of the channel count (a reported zero counting as
/// one), and no frame reaches past the samples; when not given, the block
/// holds less than one whole frame.
pub open spec fn layout_fits(r: Option<BufferLayout>, byte_len: nat, channels: nat) -> bool {
    let ch: nat = if channels == 0 {
        1
    } else {
        channels
    };
    match r {
        Some(l) => {
            &&& l.channels == ch
            &&& l.samples * 4 <= byte_len < l.samples * 4 + 4
            &&& l.frames >= 1
            &&& l.frames * l.channels <= l.samples < (l.frames + 1) * l.channels
        },
        None => byte_len < 4 * ch,
    }
}

/// Layout law: the layout of an interleaved block counts the whole samples
/// it holds and splits them into whole frames of the reported channel count
/// (zero counting as one), with fewer than one frame's samples left over, so
/// no frame reaches past the block; a block with less than a frame is skipped.
pub proof fn lemma_interleaved_layout_fits(byte_len: nat, channels: nat)
    requires
        byte_len <= usize::MAX,
        channels <= u32::MAX,
    ensures
        layout_fits(interleaved_layout_spec(byte_len, channels), byte_len, channels),
{
    let ch: nat = if channels == 0 {
        1
    } else {
        channels
    };
    let samples = byte_len / 4;
    vstd::arithmetic::div_mod::lemma_fundamental_div_mod(byte_len as int, 4);
    vstd::arithmetic::div_mod::lemma_fundamental_div_mod(samples as int, ch as int);
    let frames = samples / ch;
    let rem = samples % ch;
    assert(frames * ch <= samples < (frames + 1) * ch) by (nonlinear_arith)
        requires
            samples == ch * frames + rem,
            0 <= rem < ch,
    ;
    assert(frames <= samples) by (nonlinear_arith)
        requires
            frames * ch <= samples,
            ch >= 1,
            frames >= 0,
    ;
    if frames == 0 {
        assert(samples < ch) by (nonlinear_arith)
            requires
                samples < (frames + 1) * ch,
                frames == 0,
        ;
    }
}

/// Chunk law: a PipeWire chunk is divided only when it is non-empty and lies
/// within the mapped buffer, and then as its interleaved layout, so no frame
/// reaches past the mapping.
pub proof fn lemma_chunk_layout_within_mapping(chunk_bytes: nat, mapped_len: nat, channels: nat)
    requires
        chunk_bytes <= usize::MAX,
        channels <= u32::MAX,
        chunk_bytes > 0,
        chunk_bytes <= mapped_len,
    ensures
        layout_fits(interleaved_layout_spec(chunk_bytes, channels), chunk_bytes, channels),
        interleaved_layout_spec(chunk_bytes, channels) matches Some(l) ==> l.samples * 4
            <= mapped_len,
{
    lemma_interleaved_layout_fits(chunk_bytes, channels);
}

/// `n` is the whole-sample count of the shortest buffer among `byte_lens`
/// (zero when there is none).
pub open spec fn shortest_samples(n: nat, byte_lens: Seq<usize>) -> bool {
    &&& byte_lens.len() == 0 ==> n == 0
    &&& forall|i: int| 0 <= i < byte_lens.len() ==> n <= #[trigger] byte_lens[i] / 4
    &&& byte_lens.len() > 0 ==> exists|j: int| 0 <= j < byte_lens.len() && n == #[trigger] byte_lens[j] / 4
}

/// Planar law: planar buffers hold as many frames as the shortest buffer
/// holds whole samples: no more than any buffer holds, exactly what one of
/// them holds, and none when there are no buffers.
pub proof fn lemma_planar_frames_shortest(byte_lens: Seq<usize>)
    ensures
        shortest_samples(planar_frames_spec(byte_lens), byte_lens),
    decreases byte_lens.len(),
{
    if byte_lens.len() > 1 {
        let init = byte_lens.drop_last();
        lemma_planar_frames_shortest(init);
        let rest = planar_frames_spec(init);
        let j0 = choose|j: int| 0 <= j < init.len() && rest == #[trigger] init[j] / 4;
        let n = planar_frames_spec(byte_lens);
        assert forall|i: int| 0 <= i < byte_lens.len() implies n <= #[trigger] byte_lens[i] / 4 by {
            if i < init.len() {
                assert(init[i] == byte_lens[i]);
            }
        }
        if byte_lens.last() / 4 < rest {
            assert(n == byte_lens[byte_lens.len() - 1] / 4);
        } else {
            assert(init[j0] == byte_lens[j0]);
            assert(n == byte_lens[j0] / 4);
        }
    } else if byte_lens.len() == 1 {
        assert(planar_frames_spec(byte_lens) == byte_lens[0] / 4);
    }
}

/// Channel law: a device is accepted for capture exactly when it reports
/// 1 to 8 channels.
pub proof fn lemma_channels_supported(channels: u16)
    ensures
        channels_supported(channels) <==> (1 <= channels && channels <= 8),
{
}

} // verus!
