//! The audio stream adapter: turns the playback engine's push-based output
//! callback into paced, chunked, wire-ready audio messages.
//!
//! Sample packets accumulate in a buffer of 16-bit sample words (the
//! embedding program converts the engine's floating-point frames before
//! handing them in). Once the buffer reaches the chunk threshold it is
//! serialized to little-endian PCM, base64-encoded, and emitted as one
//! audio-data message; pre-encoded raw packets bypass the buffer. Emissions
//! are paced: each one is stamped at least the pacing interval after the
//! previous one, and the adapter reports how long the caller must wait before
//! sending so the stream approximates real time.
use vstd::prelude::*;

use base64::Engine;

use crate::outbound::{OutboundMessage, OutboundView, PacketKind};

verus! {

/// Sample frames per audio-data emission: 50 ms of stereo audio at the
/// engine's 44.1 kHz rate, buffered to roughly 100 ms of playback per chunk.
pub const CHUNK_SAMPLES: usize = 4410;

/// Minimum wall-clock spacing between successive samples-chunk emissions.
pub const PACING_INTERVAL_MS: u64 = 100;

/// Sample rate of the engine's decoded output, in hertz.
pub const SAMPLE_RATE_HZ: u32 = 44100;

/// Channel count of the engine's decoded output.
pub const CHANNEL_COUNT: u32 = 2;

/// The sample formats the engine can be configured to emit.
#[derive(Clone, Copy, Debug, PartialEq, Eq, Structural)]
pub enum AudioFormat {
    F64,
    F32,
    S32,
    S24,
    S24_3,
    S16,
}

impl Default for AudioFormat {
    /// The engine's default output format.
    fn default() -> (r: AudioFormat)
        ensures
            r == AudioFormat::S16,
    {
        AudioFormat::S16
    }
}

impl AudioFormat {
    /// Bits per sample of each format.
    pub open spec fn spec_bit_depth(self) -> u32 {
        match self {
            AudioFormat::S16 => 16,
            AudioFormat::S24 => 24,
            AudioFormat::S24_3 => 24,
            AudioFormat::S32 => 32,
            AudioFormat::F32 => 32,
            AudioFormat::F64 => 64,
        }
    }

    /// Executable counterpart of [`spec_bit_depth`](Self::spec_bit_depth).
    pub fn bit_depth(self) -> (r: u32)
        ensures
            r == self.spec_bit_depth(),
    {
        match self {
            AudioFormat::S16 => 16,
            AudioFormat::S24 => 24,
            AudioFormat::S24_3 => 24,
            AudioFormat::S32 => 32,
            AudioFormat::F32 => 32,
            AudioFormat::F64 => 64,
        }
    }

    /// The human-readable tag of each format, as announced on the wire.
    pub open spec fn spec_tag(self) -> Seq<char> {
        match self {
            AudioFormat::F64 => "F64"@,
            AudioFormat::F32 => "F32"@,
            AudioFormat::S32 => "S32"@,
            AudioFormat::S24 => "S24"@,
            AudioFormat::S24_3 => "S24_3"@,
            AudioFormat::S16 => "S16"@,
        }
    }

    /// Executable counterpart of [`spec_tag`](Self::spec_tag).
    pub fn tag(self) -> (r: &'static str)
        ensures
            r@ == self.spec_tag(),
    {
        match self {
            AudioFormat::F64 => "F64",
            AudioFormat::F32 => "F32",
            AudioFormat::S32 => "S32",
            AudioFormat::S24 => "S24",
            AudioFormat::S24_3 => "S24_3",
            AudioFormat::S16 => "S16",
        }
    }
}

/// The little-endian byte rendering of a sequence of 16-bit sample words:
/// each word contributes its low byte, then its high byte.
pub open spec fn le_bytes_of(samples: Seq<u16>) -> Seq<u8> {
    Seq::new(
        2 * samples.len(),
        |i: int|
            if i % 2 == 0 {
                (samples[i / 2] % 256) as u8
            } else {
                (samples[i / 2] / 256) as u8
            },
    )
}

/// The base64 rendering (standard alphabet, padded) of a byte sequence, as
/// base64's `STANDARD` engine computes it.
pub uninterp spec fn base64_of(bytes: Seq<u8>) -> Seq<char>;

/// Relies on base64's `Engine::encode` with the `STANDARD` engine: the
/// standard-alphabet, padded base64 rendering, a pure function of the input
/// bytes alone.
#[verifier::external_body]
fn base64_encode(bytes: &[u8]) -> (r: String)
    ensures
        r@ == base64_of(bytes@),
{
    base64::engine::general_purpose::STANDARD.encode(bytes)
}

/// Serializes 16-bit sample words as little-endian PCM bytes.
pub fn pcm_le_bytes(samples: &Vec<u16>) -> (r: Vec<u8>)
    ensures
        r@ == le_bytes_of(samples@),
{
    let mut bytes: Vec<u8> = Vec::new();
    let mut i: usize = 0;
    while i < samples.len()
        invariant
            i <= samples@.len(),
            bytes@ == le_bytes_of(samples@.take(i as int)),
        decreases samples@.len() - i,
    {
        let s = samples[i];
        bytes.push((s % 256) as u8);
        bytes.push((s / 256) as u8);
        i = i + 1;
        proof {
            assert(bytes@ =~= le_bytes_of(samples@.take(i as int)));
        }
    }
    proof {
        assert(samples@.take(samples@.len() as int) =~= samples@);
    }
    bytes
}

/// When an emission decided at instant `now_ms` actually goes out: the first
/// emission goes at once; a later one waits until a full pacing interval has
/// passed since the previous emission's instant.
pub open spec fn spec_emit_time(last: Option<u64>, now_ms: u64) -> int {
    match last {
        None => now_ms as int,
        Some(l) => {
            let elapsed = if now_ms >= l {
                now_ms - l
            } else {
                0
            };
            if elapsed < PACING_INTERVAL_MS {
                now_ms + (PACING_INTERVAL_MS - elapsed)
            } else {
                now_ms as int
            }
        },
    }
}

/// How long the caller must wait at `now_ms` before sending the emission.
pub open spec fn spec_pacing_delay(last: Option<u64>, now_ms: u64) -> int {
    spec_emit_time(last, now_ms) - now_ms
}

/// Pacing: under a monotonic clock (the deciding instant is not before the
/// previous emission's instant), any two consecutive samples-chunk emissions
/// are at least the pacing interval apart.
pub proof fn lemma_pacing_interval(last_emit: u64, now_ms: u64)
    requires
        now_ms >= last_emit,
    ensures
        spec_emit_time(Some(last_emit), now_ms) >= last_emit + PACING_INTERVAL_MS,
{
}

/// One step of the chunking discipline: `buffered` pending samples take in
/// `incoming` more; reaching the chunk threshold empties the whole buffer
/// into one emission. Yields the new pending count and whether an emission
/// happened.
pub open spec fn chunk_step(buffered: nat, incoming: nat, chunk: nat) -> (nat, bool) {
    if buffered + incoming >= chunk {
        (0nat, true)
    } else {
        ((buffered + incoming) as nat, false)
    }
}

/// How many emissions a run of sample packets of the given sizes produces,
/// starting from `buffered` pending samples.
pub open spec fn chunk_emissions(buffered: nat, sizes: Seq<nat>, chunk: nat) -> nat
    decreases sizes.len(),
{
    if sizes.len() == 0 {
        0nat
    } else {
        let step = chunk_step(buffered, sizes[0], chunk);
        (if step.1 {
            1nat
        } else {
            0nat
        }) + chunk_emissions(step.0, sizes.drop_first(), chunk)
    }
}

/// The total sample count of a run of packet sizes.
pub open spec fn seq_sum(sizes: Seq<nat>) -> nat
    decreases sizes.len(),
{
    if sizes.len() == 0 {
        0nat
    } else {
        sizes[0] + seq_sum(sizes.drop_first())
    }
}

proof fn lemma_chunking_under_threshold(buffered: nat, sizes: Seq<nat>, chunk: nat)
    requires
        buffered + seq_sum(sizes) < chunk,
    ensures
        chunk_emissions(buffered, sizes, chunk) == 0,
    decreases sizes.len(),
{
    if sizes.len() > 0 {
        lemma_chunking_under_threshold((buffered + sizes[0]) as nat, sizes.drop_first(), chunk);
    }
}

proof fn lemma_chunking_reaches_once(buffered: nat, sizes: Seq<nat>, chunk: nat)
    requires
        chunk > 0,
        buffered < chunk,
        buffered + seq_sum(sizes) == chunk,
    ensures
        chunk_emissions(buffered, sizes, chunk) == 1,
    decreases sizes.len(),
{
    if sizes.len() == 0 {
        assert(false);
    } else {
        let n = sizes[0];
        if buffered + n >= chunk {
            lemma_chunking_under_threshold(0nat, sizes.drop_first(), chunk);
        } else {
            lemma_chunking_reaches_once((buffered + n) as nat, sizes.drop_first(), chunk);
        }
    }
}

/// Audio chunking, exact case: starting from an empty buffer, feeding sample
/// packets whose cumulative count exactly equals the chunk threshold yields
/// exactly one audio-data emission.
pub proof fn lemma_chunking_exact(sizes: Seq<nat>, chunk: nat)
    requires
        chunk > 0,
        seq_sum(sizes) == chunk,
    ensures
        chunk_emissions(0nat, sizes, chunk) == 1,
{
    lemma_chunking_reaches_once(0nat, sizes, chunk);
}

/// Audio chunking, remainder case: starting from an empty buffer, feeding
/// fewer samples than the chunk threshold yields no audio-data emission (and
/// stopping the adapter discards the remainder rather than flushing it).
pub proof fn lemma_chunking_below(sizes: Seq<nat>, chunk: nat)
    requires
        seq_sum(sizes) < chunk,
    ensures
        chunk_emissions(0nat, sizes, chunk) == 0,
{
    lemma_chunking_under_threshold(0nat, sizes, chunk);
}

/// What one samples write asks of the caller: wait `delay_ms`, then send the
/// message, if there is one.
pub struct WriteEffect {
    pub delay_ms: u64,
    pub message: Option<OutboundMessage>,
}

/// The audio stream adapter's state. See the module documentation.
pub struct AudioStreamAdapter {
    active: bool,
    buffer: Vec<u16>,
    chunk_size: usize,
    last_emit_ms: Option<u64>,
    device_id: String,
    format: AudioFormat,
}

/// Mathematical image of [`AudioStreamAdapter`].
pub struct AdapterView {
    pub active: bool,
    pub buffer: Seq<u16>,
    pub chunk_size: usize,
    pub last_emit_ms: Option<u64>,
    pub device_id: Seq<char>,
    pub format: AudioFormat,
}

impl View for AudioStreamAdapter {
    type V = AdapterView;

    closed spec fn view(&self) -> AdapterView {
        AdapterView {
            active: self.active,
            buffer: self.buffer@,
            chunk_size: self.chunk_size,
            last_emit_ms: self.last_emit_ms,
            device_id: self.device_id@,
            format: self.format,
        }
    }
}

impl AudioStreamAdapter {
    /// A fresh, inactive adapter for one device's audio path.
    pub fn new(format: AudioFormat, device_id: String) -> (r: AudioStreamAdapter)
        ensures
            r@ == (AdapterView {
                active: false,
                buffer: Seq::<u16>::empty(),
                chunk_size: CHUNK_SAMPLES,
                last_emit_ms: None,
                device_id: device_id@,
                format,
            }),
    {
        AudioStreamAdapter {
            active: false,
            buffer: Vec::new(),
            chunk_size: CHUNK_SAMPLES,
            last_emit_ms: None,
            device_id,
            format,
        }
    }

    /// Activates the audio path: resets the buffer and the pacing clock and
    /// yields the format notice describing the stream.
    pub fn start(&mut self) -> (r: OutboundMessage)
        ensures
            final(self)@ == (AdapterView {
                active: true,
                buffer: Seq::<u16>::empty(),
                last_emit_ms: None,
                ..old(self)@
            }),
            r@ == (OutboundView::AudioFormatNotice {
                device_id: old(self)@.device_id,
                sample_rate: SAMPLE_RATE_HZ,
                channels: CHANNEL_COUNT,
                bit_depth: old(self)@.format.spec_bit_depth(),
                format: old(self)@.format.spec_tag(),
            }),
    {
        self.active = true;
        self.buffer.clear();
        self.last_emit_ms = None;
        OutboundMessage::AudioFormatNotice {
            device_id: self.device_id.clone(),
            sample_rate: SAMPLE_RATE_HZ,
            channels: CHANNEL_COUNT,
            bit_depth: self.format.bit_depth(),
            format: String::from_str(self.format.tag()),
        }
    }

    /// Deactivates the audio path and yields the stream-stopped notice. Any
    /// buffered samples below the threshold are discarded, not flushed.
    pub fn stop(&mut self) -> (r: OutboundMessage)
        ensures
            final(self)@ == (AdapterView {
                active: false,
                buffer: Seq::<u16>::empty(),
                last_emit_ms: None,
                ..old(self)@
            }),
            r@ == (OutboundView::AudioStreamStopped { device_id: old(self)@.device_id }),
    {
        self.active = false;
        self.buffer.clear();
        self.last_emit_ms = None;
        OutboundMessage::AudioStreamStopped { device_id: self.device_id.clone() }
    }

    /// Forwards one pre-encoded packet: emitted immediately as one audio-data
    /// message tagged raw, bypassing the buffer; dropped silently while the
    /// adapter is inactive.
    pub fn write_raw(&self, data: &[u8]) -> (r: Option<OutboundMessage>)
        ensures
            self@.active ==> (r matches Some(m) && m@ == (OutboundView::AudioData {
                device_id: self@.device_id,
                format: "pcm_s16le"@,
                packet_type: PacketKind::Raw,
                encoded: base64_of(data@),
            })),
            !self@.active ==> r is None,
    {
        if !self.active {
            return None;
        }
        Some(
            OutboundMessage::AudioData {
                device_id: self.device_id.clone(),
                format: String::from_str("pcm_s16le"),
                packet_type: PacketKind::Raw,
                encoded: base64_encode(data),
            },
        )
    }

    /// Takes in one packet of 16-bit sample words, decided at instant
    /// `now_ms` of a millisecond clock. Dropped silently while inactive;
    /// otherwise the samples join the buffer, and reaching the chunk
    /// threshold turns the whole buffer into one paced audio-data emission
    /// tagged samples, exactly as [`chunk_step`], [`le_bytes_of`] and
    /// [`spec_emit_time`] state.
    pub fn write_samples(&mut self, samples: &[u16], now_ms: u64) -> (r: WriteEffect)
        requires
            now_ms <= u64::MAX - PACING_INTERVAL_MS,
            old(self)@.buffer.len() + samples@.len() <= usize::MAX,
        ensures
            !old(self)@.active ==> r.delay_ms == 0 && r.message is None && final(self)@ == old(
                self,
            )@,
            old(self)@.active ==> (final(self)@.buffer.len(), r.message is Some) == chunk_step(
                old(self)@.buffer.len() as nat,
                samples@.len() as nat,
                old(self)@.chunk_size as nat,
            ),
            old(self)@.active && old(self)@.buffer.len() + samples@.len() < old(
                self,
            )@.chunk_size as int ==> r.delay_ms == 0 && r.message is None && final(self)@ == (
            AdapterView { buffer: old(self)@.buffer + samples@, ..old(self)@ }),
            old(self)@.active && old(self)@.buffer.len() + samples@.len() >= old(
                self,
            )@.chunk_size as int ==> {
                &&& r.message matches Some(m) && m@ == (OutboundView::AudioData {
                    device_id: old(self)@.device_id,
                    format: "pcm_s16le"@,
                    packet_type: PacketKind::Samples,
                    encoded: base64_of(le_bytes_of(old(self)@.buffer + samples@)),
                })
                &&& r.delay_ms == spec_pacing_delay(old(self)@.last_emit_ms, now_ms)
                &&& final(self)@ == (AdapterView {
                    buffer: Seq::<u16>::empty(),
                    last_emit_ms: Some(spec_emit_time(old(self)@.last_emit_ms, now_ms) as u64),
                    ..old(self)@
                })
            },
    {
        if !self.active {
            return WriteEffect { delay_ms: 0, message: None };
        }
        let ghost buffered_before = self.buffer@;
        let mut i: usize = 0;
        while i < samples.len()
            invariant
                i <= samples@.len(),
                self.buffer@ == buffered_before + samples@.take(i as int),
                buffered_before == old(self)@.buffer,
                buffered_before.len() + samples@.len() <= usize::MAX,
                self@.active == old(self)@.active,
                self@.chunk_size == old(self)@.chunk_size,
                self@.last_emit_ms == old(self)@.last_emit_ms,
                self@.device_id == old(self)@.device_id,
                self@.format == old(self)@.format,
            decreases samples@.len() - i,
        {
            self.buffer.push(samples[i]);
            i = i + 1;
            proof {
                assert(self.buffer@ =~= buffered_before + samples@.take(i as int));
            }
        }
        proof {
            assert(buffered_before + samples@.take(samples@.len() as int) =~= buffered_before
                + samples@);
        }
        if self.buffer.len() >= self.chunk_size {
            let delay: u64 = match self.last_emit_ms {
                None => 0,
                Some(l) => {
                    let elapsed = now_ms.saturating_sub(l);
                    if elapsed < PACING_INTERVAL_MS {
                        PACING_INTERVAL_MS - elapsed
                    } else {
                        0
                    }
                },
            };
            let emit_at = now_ms + delay;
            self.last_emit_ms = Some(emit_at);
            let bytes = pcm_le_bytes(&self.buffer);
            let encoded = base64_encode(bytes.as_slice());
            self.buffer.clear();
            WriteEffect {
                delay_ms: delay,
                message: Some(
                    OutboundMessage::AudioData {
                        device_id: self.device_id.clone(),
                        format: String::from_str("pcm_s16le"),
                        packet_type: PacketKind::Samples,
                        encoded,
                    },
                ),
            }
        } else {
            WriteEffect { delay_ms: 0, message: None }
        }
    }
}

} // verus!
