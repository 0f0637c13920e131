//! The state of an Ogg Opus stream being written: the two header packets,
//! cutting incoming samples into whole 20 ms frames, the granule position,
//! and holding the newest encoded packet back so that the true last packet
//! can be marked as the end of the stream.
//!
//! Encoding a frame and writing a packet to disk are done by the caller; this
//! type decides which frames are encoded and which packets are written, in
//! which order, with which page flag and granule position.

use crate::opus_header::{build_opus_head, build_opus_tags, opus_head, opus_tags};
use crate::text::{decimal, decimal_string};
use vstd::prelude::*;
use vstd::string::StringExecFns;

verus! {

/// Sample rate of every stream written, in Hz.
pub const SAMPLE_RATE_HZ: u32 = 48000;

/// Samples per channel in one 20 ms frame at 48 kHz.
pub const SAMPLES_PER_FRAME: usize = 960;

/// Room given to one encoded Opus packet, in bytes.
pub const MAX_PACKET_BYTES: usize = 4000;

/// Samples the decoder drops at the start to cover encoder lookahead
/// (80 ms, the value RFC 7845 recommends).
pub const PRE_SKIP_SAMPLES: u16 = 3840;

/// Serial number used when the clock reads before the Unix epoch.
pub const FALLBACK_SERIAL: u32 = 0xDEAD_BEEF;

/// How a packet ends in the Ogg stream.
#[derive(Clone, Copy, Debug, PartialEq, Eq, Structural)]
pub enum PacketEnd {
    /// An ordinary packet; the page may continue.
    NormalPacket,
    /// The page ends after this packet.
    EndPage,
    /// The logical stream ends after this packet.
    EndStream,
}

/// A packet to be written to the Ogg stream.
pub struct OggPacket {
    pub data: Vec<u8>,
    pub serial: u32,
    pub end: PacketEnd,
    pub granule: u64,
}

/// The abstract state of an [`OpusOggStream`].
pub struct StreamModel<S> {
    /// Interleaved channels: 1 or 2.
    pub channels: u16,
    /// Ogg logical stream serial number.
    pub serial: u32,
    /// Samples per channel encoded so far (the granule position).
    pub granule: u64,
    /// Samples fed but not yet handed out as part of a frame.
    pub partial: Seq<S>,
    /// The newest encoded packet, held back, with its granule position.
    pub pending: Option<(Seq<u8>, u64)>,
    /// Every sample ever fed, in order.
    pub fed: Seq<S>,
    /// Every frame handed out for encoding, concatenated in order.
    pub framed: Seq<S>,
    /// Audio packets handed out as ordinary packets, in order.
    pub released: Seq<(Seq<u8>, u64)>,
    /// The last frame has been handed out; no more samples are accepted.
    pub closing: bool,
}

/// Granule positions of `r` strictly increase.
pub open spec fn granules_increase(r: Seq<(Seq<u8>, u64)>) -> bool {
    forall|i: int, j: int| 0 <= i < j < r.len() ==> #[trigger] r[i].1 < #[trigger] r[j].1
}

/// `n` copies of `s`.
pub open spec fn silence_run<S>(s: S, n: nat) -> Seq<S> {
    Seq::new(n, |i: int| s)
}

impl<S> StreamModel<S> {
    /// Interleaved samples in one frame.
    pub open spec fn frame_len(self) -> nat {
        SAMPLES_PER_FRAME as nat * self.channels as nat
    }

    /// The state right after `new`.
    pub open spec fn fresh(channels: u16, serial: u32) -> StreamModel<S> {
        StreamModel {
            channels,
            serial,
            granule: 0,
            partial: Seq::empty(),
            pending: None,
            fed: Seq::empty(),
            framed: Seq::empty(),
            released: Seq::empty(),
            closing: false,
        }
    }

    pub open spec fn wf(self) -> bool {
        &&& self.channels == 1 || self.channels == 2
        &&& self.granule % 960 == 0
        &&& self.framed.len() % self.frame_len() == 0
        &&& !self.closing ==> self.framed + self.partial == self.fed
        &&& self.closing ==> self.partial.len() == 0 && self.fed.is_prefix_of(self.framed)
        &&& granules_increase(self.released)
        &&& forall|i: int|
            0 <= i < self.released.len() ==> #[trigger] self.released[i].1 < self.granule
        &&& forall|i: int|
            0 <= i < self.released.len() ==> #[trigger] self.released[i].1 % 960 == 0
        &&& match self.pending {
            Some((_, g)) => g == self.granule && g > 0,
            None => true,
        }
    }

    /// After feeding `samples`.
    pub open spec fn pushed(self, samples: Seq<S>) -> StreamModel<S> {
        StreamModel { partial: self.partial + samples, fed: self.fed + samples, ..self }
    }

    /// A whole frame is waiting.
    pub open spec fn frame_ready(self) -> bool {
        self.partial.len() >= self.frame_len()
    }

    /// The frame handed out next when one is ready.
    pub open spec fn next_frame(self) -> Seq<S> {
        self.partial.take(self.frame_len() as int)
    }

    /// After handing out the next frame.
    pub open spec fn after_frame(self) -> StreamModel<S> {
        StreamModel {
            partial: self.partial.skip(self.frame_len() as int),
            framed: self.framed + self.next_frame(),
            ..self
        }
    }

    /// After a packet slot is opened: the granule advances by one frame and
    /// the held-back packet, if any, is released as an ordinary packet.
    pub open spec fn after_start(self) -> StreamModel<S> {
        StreamModel {
            granule: (self.granule + 960) as u64,
            pending: None,
            released: match self.pending {
                Some(p) => self.released.push(p),
                None => self.released,
            },
            ..self
        }
    }

    /// After the newest encoded packet is held back.
    pub open spec fn after_hold(self, data: Seq<u8>) -> StreamModel<S> {
        StreamModel { pending: Some((data, self.granule)), ..self }
    }

    /// One encoded packet through the stream: open a slot, hold the packet.
    pub open spec fn after_packet(self, data: Seq<u8>) -> StreamModel<S> {
        self.after_start().after_hold(data)
    }

    /// The last frame to encode, if one is needed: the remaining samples
    /// padded with silence to a whole frame, or a whole frame of silence when
    /// nothing is held back, or none.
    pub open spec fn final_frame(self, silence: S) -> Option<Seq<S>> {
        if self.partial.len() > 0 {
            Some(self.partial + silence_run(silence, (self.frame_len() - self.partial.len()) as nat))
        } else if self.pending is None {
            Some(silence_run(silence, self.frame_len()))
        } else {
            None
        }
    }

    /// After the last frame is handed out.
    pub open spec fn after_final(self, silence: S) -> StreamModel<S> {
        StreamModel {
            partial: Seq::empty(),
            framed: match self.final_frame(silence) {
                Some(f) => self.framed + f,
                None => self.framed,
            },
            closing: true,
            ..self
        }
    }
}

/// The serial number for a stream started `since_epoch_secs` seconds after
/// the Unix epoch (truncated to 32 bits), or [`FALLBACK_SERIAL`] when the
/// clock reads before the epoch.
pub fn stream_serial(since_epoch_secs: Option<u64>) -> (serial: u32)
    ensures
        serial == match since_epoch_secs {
            Some(s) => (s % 0x1_0000_0000) as u32,
            None => FALLBACK_SERIAL,
        },
{
    match since_epoch_secs {
        Some(s) => (s % 0x1_0000_0000) as u32,
        None => FALLBACK_SERIAL,
    }
}

/// The error for a channel count Opus streams here do not support.
pub open spec fn unsupported_channels_message(channels: u16) -> Seq<char> {
    "unsupported channel count for Opus: "@ + decimal(channels as nat)
}

/// An Ogg Opus stream being written; see the module documentation.
pub struct OpusOggStream<S> {
    channels: u16,
    serial: u32,
    granule: u64,
    /// Samples waiting to be framed are `buf[start..]`.
    buf: Vec<S>,
    start: usize,
    pending: Option<(Vec<u8>, u64)>,
    fed: Ghost<Seq<S>>,
    framed: Ghost<Seq<S>>,
    released: Ghost<Seq<(Seq<u8>, u64)>>,
    closing: Ghost<bool>,
}

impl<S> View for OpusOggStream<S> {
    type V = StreamModel<S>;

    closed spec fn view(&self) -> StreamModel<S> {
        StreamModel {
            channels: self.channels,
            serial: self.serial,
            granule: self.granule,
            partial: self.buf@.skip(self.start as int),
            pending: match self.pending {
                Some((d, g)) => Some((d@, g)),
                None => None,
            },
            fed: self.fed@,
            framed: self.framed@,
            released: self.released@,
            closing: self.closing@,
        }
    }
}

impl<S> OpusOggStream<S> {
    /// The stream's representation is consistent and its state well formed.
    pub closed spec fn wf(&self) -> bool {
        &&& self.start <= self.buf@.len()
        &&& self@.wf()
    }
}

fn copy_range<S: Copy>(buf: &Vec<S>, from: usize, to: usize) -> (v: Vec<S>)
    requires
        from <= to <= buf@.len(),
    ensures
        v@ == buf@.subrange(from as int, to as int),
{
    let mut v: Vec<S> = Vec::with_capacity(to - from);
    let mut i: usize = from;
    while i < to
        invariant
            from <= i <= to <= buf@.len(),
            v@ == buf@.subrange(from as int, i as int),
        decreases to - i,
    {
        v.push(buf[i]);
        assert(buf@.subrange(from as int, i + 1) =~= buf@.subrange(from as int, i as int).push(
            buf@[i as int],
        ));
        i += 1;
    }
    v
}

fn silence_vec<S: Copy>(silence: S, n: usize) -> (v: Vec<S>)
    ensures
        v@ == silence_run(silence, n as nat),
{
    let mut v: Vec<S> = Vec::with_capacity(n);
    let mut i: usize = 0;
    while i < n
        invariant
            i <= n,
            v@ == silence_run(silence, i as nat),
        decreases n - i,
    {
        v.push(silence);
        assert(v@ =~= silence_run(silence, (i + 1) as nat));
        i += 1;
    }
    v
}

impl<S: Copy> OpusOggStream<S> {
    /// Opens a stream of `channels` interleaved channels with the given
    /// serial number, and returns it together with its two header packets:
    /// `OpusHead` and `OpusTags`, each ending its own page at granule 0.
    /// Only mono and stereo are accepted.
    pub fn new(channels: u16, serial: u32) -> (r: Result<(OpusOggStream<S>, OggPacket, OggPacket), String>)
        ensures
            match r {
                Ok((w, head, tags)) => {
                    &&& channels == 1 || channels == 2
                    &&& w@ == StreamModel::<S>::fresh(channels, serial)
                    &&& w.wf()
                    &&& w@.wf()
                    &&& head.data@ == opus_head(channels as u8, PRE_SKIP_SAMPLES, SAMPLE_RATE_HZ)
                    &&& head.serial == serial
                    &&& head.end == PacketEnd::EndPage
                    &&& head.granule == 0
                    &&& tags.data@ == opus_tags()
                    &&& tags.serial == serial
                    &&& tags.end == PacketEnd::EndPage
                    &&& tags.granule == 0
                },
                Err(e) => {
                    &&& channels != 1 && channels != 2
                    &&& e@ == unsupported_channels_message(channels)
                },
            },
    {
        if channels != 1 && channels != 2 {
            let mut e = "unsupported channel count for Opus: ".to_owned();
            let n = decimal_string(channels as u64);
            e.append(n.as_str());
            return Err(e);
        }
        let head = OggPacket {
            data: build_opus_head(channels as u8, PRE_SKIP_SAMPLES, SAMPLE_RATE_HZ),
            serial,
            end: PacketEnd::EndPage,
            granule: 0,
        };
        let tags = OggPacket { data: build_opus_tags(), serial, end: PacketEnd::EndPage, granule: 0 };
        let w = OpusOggStream {
            channels,
            serial,
            granule: 0,
            buf: Vec::new(),
            start: 0,
            pending: None,
            fed: Ghost(Seq::empty()),
            framed: Ghost(Seq::empty()),
            released: Ghost(Seq::empty()),
            closing: Ghost(false),
        };
        assert(w@.framed + w@.partial =~= w@.fed);
        Ok((w, head, tags))
    }

    /// Interleaved channel count.
    pub fn channels(&self) -> (c: u16)
        ensures
            c == self@.channels,
    {
        self.channels
    }

    /// Serial number of the logical stream.
    pub fn serial(&self) -> (s: u32)
        ensures
            s == self@.serial,
    {
        self.serial
    }

    /// Samples per channel encoded so far.
    pub fn granule(&self) -> (g: u64)
        ensures
            g == self@.granule,
    {
        self.granule
    }

    /// Interleaved samples in one frame.
    pub fn frame_len(&self) -> (n: usize)
        requires
            self.wf(),
        ensures
            n == self@.frame_len(),
    {
        SAMPLES_PER_FRAME * self.channels as usize
    }

    /// Samples fed but not yet handed out in a frame.
    pub fn waiting_samples(&self) -> (n: usize)
        requires
            self.wf(),
        ensures
            n == self@.partial.len(),
    {
        self.buf.len() - self.start
    }

    /// Whether a packet is held back.
    pub fn has_pending(&self) -> (b: bool)
        ensures
            b == self@.pending is Some,
    {
        self.pending.is_some()
    }

    /// Appends `samples` to the samples waiting to be framed.
    pub fn push_samples(&mut self, samples: &[S])
        requires
            old(self).wf(),
            !old(self)@.closing,
        ensures
            final(self)@ == old(self)@.pushed(samples@),
            final(self).wf(),
            final(self)@.wf(),
    {
        let mut buf: Vec<S> = Vec::new();
        std::mem::swap(&mut buf, &mut self.buf);
        if self.start > 0 {
            let rest = buf.split_off(self.start);
            buf = rest;
        }
        self.start = 0;
        assert(buf@ =~= old(self)@.partial);
        let ghost start = buf@;
        let mut i: usize = 0;
        while i < samples.len()
            invariant
                i <= samples@.len(),
                buf@ == start + samples@.take(i as int),
            decreases samples@.len() - i,
        {
            buf.push(samples[i]);
            assert(samples@.take(i + 1) =~= samples@.take(i as int).push(samples@[i as int]));
            i += 1;
        }
        assert(samples@.take(samples@.len() as int) =~= samples@);
        self.buf = buf;
        self.fed = Ghost(self.fed@ + samples@);
        assert(self@.partial =~= old(self)@.partial + samples@);
        assert(self@.framed + self@.partial =~= self@.fed);
    }

    /// Hands out the next whole frame for encoding, or `None` when fewer
    /// than a frame's worth of samples are waiting.
    pub fn next_frame(&mut self) -> (f: Option<Vec<S>>)
        requires
            old(self).wf(),
            !old(self)@.closing,
        ensures
            final(self).wf(),
            final(self)@.wf(),
            old(self)@.frame_ready() ==> {
                &&& f matches Some(v) && v@ == old(self)@.next_frame()
                &&& final(self)@ == old(self)@.after_frame()
            },
            !old(self)@.frame_ready() ==> f is None && final(self)@ == old(self)@,
    {
        let n = self.frame_len();
        if self.buf.len() - self.start < n {
            return None;
        }
        let frame = copy_range(&self.buf, self.start, self.start + n);
        self.start = self.start + n;
        let ghost old_framed = self.framed@;
        self.framed = Ghost(self.framed@ + frame@);
        proof {
            let m = self@;
            assert(frame@ =~= old(self)@.next_frame());
            assert(m.partial =~= old(self)@.partial.skip(n as int));
            assert(frame@ + m.partial =~= old(self)@.partial);
            assert(m.framed + m.partial =~= old_framed + (frame@ + m.partial));
            assert(m.framed.len() == m.frame_len() + old_framed.len());
            vstd::arithmetic::div_mod::lemma_mod_add_multiples_vanish(
                old_framed.len() as int,
                m.frame_len() as int,
            );
        }
        Some(frame)
    }

    /// Opens the slot for a newly encoded packet: advances the granule
    /// position by one frame and releases the packet held back so far, if
    /// any, as an ordinary packet to be written now.
    pub fn start_packet(&mut self) -> (p: Option<OggPacket>)
        requires
            old(self).wf(),
            old(self)@.granule + 960 <= u64::MAX,
        ensures
            final(self)@ == old(self)@.after_start(),
            final(self).wf(),
            final(self)@.wf(),
            match old(self)@.pending {
                Some((d, g)) => p matches Some(q) && q.data@ == d && q.serial == old(self)@.serial
                    && q.end == PacketEnd::NormalPacket && q.granule == g,
                None => p is None,
            },
    {
        self.granule = self.granule + 960;
        let taken = self.pending.take();
        match taken {
            Some((data, g)) => {
                let ghost item = (data@, g);
                self.released = Ghost(self.released@.push(item));
                Some(OggPacket { data, serial: self.serial, end: PacketEnd::NormalPacket, granule: g })
            },
            None => None,
        }
    }

    /// Holds back the newest encoded packet at the current granule position.
    pub fn hold_packet(&mut self, data: Vec<u8>)
        requires
            old(self).wf(),
            old(self)@.pending is None,
            old(self)@.granule > 0,
        ensures
            final(self)@ == old(self)@.after_hold(data@),
            final(self).wf(),
            final(self)@.wf(),
    {
        self.pending = Some((data, self.granule));
    }

    /// Hands out the last frame to encode, if one is needed (see
    /// [`StreamModel::final_frame`]); afterwards no more samples are taken.
    pub fn final_frame(&mut self, silence: S) -> (f: Option<Vec<S>>)
        requires
            old(self).wf(),
            !old(self)@.closing,
            old(self)@.partial.len() < old(self)@.frame_len(),
        ensures
            final(self)@ == old(self)@.after_final(silence),
            final(self).wf(),
            final(self)@.wf(),
            match old(self)@.final_frame(silence) {
                Some(g) => f matches Some(v) && v@ == g,
                None => f is None,
            },
    {
        let n = self.frame_len();
        let ghost old_framed = self.framed@;
        let ghost fed = self.fed@;
        let waiting = self.buf.len() - self.start;
        let result = if waiting > 0 {
            let mut frame = copy_range(&self.buf, self.start, self.buf.len());
            let mut pad = silence_vec(silence, n - waiting);
            frame.append(&mut pad);
            assert(frame@ =~= old(self)@.partial + silence_run(silence, (n - waiting) as nat));
            Some(frame)
        } else if self.pending.is_none() {
            Some(silence_vec(silence, n))
        } else {
            None
        };
        match &result {
            Some(frame) => {
                self.framed = Ghost(old_framed + frame@);
                proof {
                    vstd::arithmetic::div_mod::lemma_mod_add_multiples_vanish(
                        old_framed.len() as int,
                        n as int,
                    );
                    assert(fed.is_prefix_of(self.framed@)) by {
                        assert(self.framed@.subrange(0, fed.len() as int) =~= fed);
                    }
                }
            },
            None => {},
        }
        self.buf.clear();
        self.start = 0;
        self.closing = Ghost(true);
        assert(self@.partial =~= Seq::<S>::empty());
        result
    }

    /// Ends the stream: releases the packet held back as the packet that
    /// ends the logical stream, carrying the final granule position.
    pub fn finish(self) -> (p: Option<OggPacket>)
        requires
            self.wf(),
            self@.closing,
        ensures
            match self@.pending {
                Some((d, g)) => p matches Some(q) && q.data@ == d && q.serial == self@.serial
                    && q.end == PacketEnd::EndStream && q.granule == g && g == self@.granule,
                None => p is None,
            },
    {
        match self.pending {
            Some((data, g)) => Some(
                OggPacket { data, serial: self.serial, end: PacketEnd::EndStream, granule: g },
            ),
            None => None,
        }
    }
}

/// The state after handing out frames for as long as a whole frame is
/// waiting.
pub open spec fn drained<S>(m: StreamModel<S>) -> StreamModel<S>
    decreases m.partial.len(),
{
    if m.frame_len() > 0 && m.frame_ready() {
        drained(m.after_frame())
    } else {
        m
    }
}

/// The state after each packet of `ds`, in order, has gone through the
/// stream (a slot opened for it, then held back).
pub open spec fn after_packets<S>(m: StreamModel<S>, ds: Seq<Seq<u8>>) -> StreamModel<S>
    decreases ds.len(),
{
    if ds.len() == 0 {
        m
    } else {
        after_packets(m, ds.drop_last()).after_packet(ds.last())
    }
}

/// Framing law: handing out frames until none is ready leaves fewer than a
/// frame's worth of samples waiting; the frames handed out are the waiting
/// samples from the front, in order, a whole number of frames, and no
/// sample is lost or reordered.
pub proof fn lemma_draining_frames<S>(m: StreamModel<S>)
    requires
        m.wf(),
        !m.closing,
    ensures
        ({
            let d = drained(m);
            let taken = (m.partial.len() - d.partial.len()) as int;
            &&& d.wf()
            &&& !d.closing
            &&& d.partial.len() < d.frame_len()
            &&& 0 <= taken
            &&& taken % (m.frame_len() as int) == 0
            &&& d.partial == m.partial.skip(taken)
            &&& d.framed == m.framed + m.partial.take(taken)
            &&& d.fed == m.fed
            &&& d.channels == m.channels && d.granule == m.granule && d.pending == m.pending
            &&& d.released == m.released
        }),
    decreases m.partial.len(),
{
    if m.frame_ready() {
        let n = m.after_frame();
        let f = m.frame_len() as int;
        assert(n.wf()) by {
            assert(n.framed + n.partial =~= m.framed + m.partial);
            vstd::arithmetic::div_mod::lemma_mod_add_multiples_vanish(m.framed.len() as int, f);
            assert(n.framed.len() == f + m.framed.len());
        }
        lemma_draining_frames(n);
        let d = drained(n);
        let t1 = (n.partial.len() - d.partial.len()) as int;
        vstd::arithmetic::div_mod::lemma_mod_add_multiples_vanish(t1, f);
        assert(d.partial =~= m.partial.skip(f + t1));
        assert(d.framed =~= m.framed + m.partial.take(f + t1));
    } else {
        assert(m.partial.skip(0) =~= m.partial);
        assert(m.partial.take(0) =~= Seq::<S>::empty());
        assert(m.framed + Seq::<S>::empty() =~= m.framed);
    }
}

/// Feeding law: after samples are fed and frames handed out until none is
/// ready, every sample fed so far has either been handed out in a frame or is
/// waiting, in order, and fewer than a frame's worth are waiting.
pub proof fn lemma_feed_then_drain<S>(m: StreamModel<S>, samples: Seq<S>)
    requires
        m.wf(),
        !m.closing,
    ensures
        ({
            let d = drained(m.pushed(samples));
            &&& d.wf()
            &&& d.partial.len() < d.frame_len()
            &&& d.fed == m.fed + samples
            &&& d.framed + d.partial == m.fed + samples
            &&& m.framed.is_prefix_of(d.framed)
        }),
{
    let p = m.pushed(samples);
    assert(p.framed + p.partial =~= p.fed);
    lemma_draining_frames(p);
    let d = drained(p);
    assert(d.framed.subrange(0, m.framed.len() as int) =~= m.framed);
}

/// Packet-order law: starting with nothing encoded, when packets `ds` go
/// through the stream one after another, all but the newest are handed out
/// as ordinary packets, each exactly once and in order, the k-th (from 1)
/// carrying granule position 960·k; the newest is held back with granule
/// position 960·|ds|, to be handed out by `finish` as the end of the stream.
pub proof fn lemma_packets_in_order<S>(m: StreamModel<S>, ds: Seq<Seq<u8>>)
    requires
        m.wf(),
        m.granule == 0,
        m.pending is None,
        m.released.len() == 0,
        960 * ds.len() <= u64::MAX,
    ensures
        ({
            let r = after_packets(m, ds);
            &&& r.wf()
            &&& r.granule == 960 * ds.len()
            &&& ds.len() == 0 ==> r == m
            &&& ds.len() > 0 ==> {
                &&& r.pending == Some((ds.last(), (960 * ds.len()) as u64))
                &&& r.released == Seq::new(
                    (ds.len() - 1) as nat,
                    |i: int| (ds[i], (960 * (i + 1)) as u64),
                )
            }
            &&& r.partial == m.partial && r.fed == m.fed && r.framed == m.framed
            &&& r.closing == m.closing && r.serial == m.serial && r.channels == m.channels
        }),
    decreases ds.len(),
{
    if ds.len() > 0 {
        let prev = ds.drop_last();
        lemma_packets_in_order(m, prev);
        let r0 = after_packets(m, prev);
        let k = prev.len();
        let r1 = r0.after_start();
        if k == 0 {
            assert(r1.released =~= Seq::new(0, |i: int| (ds[i], (960 * (i + 1)) as u64)));
        } else {
            assert(r1.released =~= Seq::new(k as nat, |i: int| (ds[i], (960 * (i + 1)) as u64)));
        }
    }
}

/// End-of-stream law: whatever state the stream is in, once the last frame
/// has been handed out (and, when one was handed out, its packet has gone
/// through the stream), a packet is held back, so `finish` always hands out
/// exactly one end-of-stream packet. Every sample fed reaches the encoder in
/// order, followed only by silence: less than a frame of it when samples were
/// waiting, none when a packet was already held back.
pub proof fn lemma_finalize_ends_stream<S>(m: StreamModel<S>, silence: S, data: Seq<u8>)
    requires
        m.wf(),
        !m.closing,
        m.partial.len() < m.frame_len(),
        m.granule + 960 <= u64::MAX,
    ensures
        ({
            let c = m.after_final(silence);
            let pad = (c.framed.len() - m.fed.len()) as nat;
            &&& c.wf()
            &&& c.framed == m.fed + silence_run(silence, pad)
            &&& m.partial.len() > 0 ==> pad < m.frame_len()
            &&& m.final_frame(silence) is None ==> c.pending is Some && pad == 0
            &&& m.final_frame(silence) is Some ==> {
                &&& c.after_packet(data).pending is Some
                &&& c.after_packet(data).wf()
            }
        }),
{
    let c = m.after_final(silence);
    let f = m.frame_len() as int;
    match m.final_frame(silence) {
        Some(fr) => {
            assert(fr.len() == f);
            vstd::arithmetic::div_mod::lemma_mod_add_multiples_vanish(m.framed.len() as int, f);
            assert(c.framed.subrange(0, c.fed.len() as int) =~= c.fed);
            let pad = (c.framed.len() - m.fed.len()) as nat;
            if m.partial.len() > 0 {
                assert(c.framed =~= m.fed + silence_run(silence, pad));
            } else {
                assert(m.framed =~= m.fed);
                assert(c.framed =~= m.fed + silence_run(silence, pad));
            }
        },
        None => {
            assert(m.framed =~= m.fed);
            assert(c.framed =~= c.fed);
            assert(c.framed =~= m.fed + silence_run(silence, 0));
        },
    }
}

/// One round of the writer's feed loop: hand out the next frame, then put
/// the packet the encoder makes of it through the stream. An Opus encoder
/// carries state from frame to frame, so `enc` gives the packet for the
/// newest frame as a function of every frame handed out so far, concatenated.
pub open spec fn encode_step<S>(m: StreamModel<S>, enc: spec_fn(Seq<S>) -> Seq<u8>) -> StreamModel<
    S,
> {
    let n = m.after_frame();
    n.after_packet(enc(n.framed))
}

/// Rounds of the feed loop for as long as a whole frame is waiting.
pub open spec fn encode_ready<S>(m: StreamModel<S>, enc: spec_fn(Seq<S>) -> Seq<u8>) -> StreamModel<
    S,
>
    decreases m.partial.len(),
{
    if m.frame_len() > 0 && m.frame_ready() {
        encode_ready(encode_step(m, enc), enc)
    } else {
        m
    }
}

/// The state after one feed of `samples`: they are appended, then frames are
/// handed out and their packets put through the stream while one is ready.
pub open spec fn feed<S>(m: StreamModel<S>, samples: Seq<S>, enc: spec_fn(Seq<S>) -> Seq<u8>) -> StreamModel<S> {
    encode_ready(m.pushed(samples), enc)
}

/// All the samples of `feeds`, in order.
pub open spec fn concat_all<S>(feeds: Seq<Seq<S>>) -> Seq<S>
    decreases feeds.len(),
{
    if feeds.len() == 0 {
        Seq::empty()
    } else {
        concat_all(feeds.drop_last()) + feeds.last()
    }
}

/// The state after each feed of `feeds`, in order.
pub open spec fn feed_all<S>(
    m: StreamModel<S>,
    feeds: Seq<Seq<S>>,
    enc: spec_fn(Seq<S>) -> Seq<u8>,
) -> StreamModel<S>
    decreases feeds.len(),
{
    if feeds.len() == 0 {
        m
    } else {
        feed(feed_all(m, feeds.drop_last(), enc), feeds.last(), enc)
    }
}

/// The state after finalizing: the last frame, if one is needed, is handed
/// out and its packet put through the stream. The packet then held back is
/// the one `finish` hands out as the end of the stream.
pub open spec fn finalize<S>(m: StreamModel<S>, silence: S, enc: spec_fn(Seq<S>) -> Seq<u8>) -> StreamModel<S> {
    let c = m.after_final(silence);
    if m.final_frame(silence) is Some {
        c.after_packet(enc(c.framed))
    } else {
        c
    }
}

/// The number of audio packets a recording of `n` interleaved samples in
/// frames of `f` makes: one per frame begun, and at least one.
pub open spec fn audio_packet_count(n: nat, f: nat) -> nat {
    if n == 0 {
        1
    } else {
        ((n + f - 1) / f as int) as nat
    }
}

/// The audio packet at position `i` (from 0) of a stream whose frames,
/// concatenated, are `framed`: what the encoder made of the first `i + 1`
/// frames, at granule position 960·(i + 1).
pub open spec fn packet_at<S>(
    framed: Seq<S>,
    f: nat,
    enc: spec_fn(Seq<S>) -> Seq<u8>,
    i: int,
) -> (Seq<u8>, u64) {
    (enc(framed.take(f * (i + 1))), (960 * (i + 1)) as u64)
}

/// `j` frames have been handed out and each has put its packet through the
/// stream: all but the newest released in order, the newest held back.
pub open spec fn regular<S>(m: StreamModel<S>, enc: spec_fn(Seq<S>) -> Seq<u8>, j: nat) -> bool {
    &&& m.framed.len() == j * m.frame_len()
    &&& m.granule == 960 * j
    &&& j == 0 ==> m.released.len() == 0 && m.pending is None
    &&& j > 0 ==> {
        &&& m.released == Seq::new(
            (j - 1) as nat,
            |i: int| packet_at(m.framed, m.frame_len(), enc, i),
        )
        &&& m.pending == Some((enc(m.framed), (960 * j) as u64))
    }
}

proof fn lemma_regular_packet<S>(
    m: StreamModel<S>,
    n: StreamModel<S>,
    enc: spec_fn(Seq<S>) -> Seq<u8>,
    j: nat,
)
    requires
        regular(m, enc, j),
        n.channels == m.channels,
        n.granule == m.granule,
        n.pending == m.pending,
        n.released == m.released,
        n.framed.len() == m.framed.len() + m.frame_len(),
        n.framed.take(m.framed.len() as int) == m.framed,
        960 * (j + 1) <= u64::MAX,
    ensures
        regular(n.after_packet(enc(n.framed)), enc, j + 1),
{
    let f = m.frame_len();
    let r = n.after_packet(enc(n.framed));
    assert((j + 1) * f == j * f + f) by (nonlinear_arith);
    assert(n.framed.take(f * (j + 1) as int) =~= n.framed) by {
        assert(f * (j + 1) == j * f + f) by (nonlinear_arith);
    }
    let target = Seq::new(j, |i: int| packet_at(n.framed, f, enc, i));
    if j == 0 {
        assert(r.released =~= target);
    } else {
        assert forall|i: int| 0 <= i < j - 1 implies packet_at(m.framed, f, enc, i) == packet_at(
            n.framed,
            f,
            enc,
            i,
        ) by {
            assert(f * (i + 1) <= j * f) by (nonlinear_arith)
                requires
                    0 <= i < j - 1,
            ;
            assert(n.framed.take(f * (i + 1)) =~= m.framed.take(f * (i + 1)));
        }
        assert(packet_at(n.framed, f, enc, j - 1) == (enc(m.framed), (960 * j) as u64)) by {
            assert(f * (j - 1 + 1) == j * f) by (nonlinear_arith);
            assert(n.framed.take(f * (j - 1 + 1)) =~= m.framed);
        }
        assert(r.released =~= target);
    }
}

proof fn lemma_encode_ready_regular<S>(m: StreamModel<S>, enc: spec_fn(Seq<S>) -> Seq<u8>, j: nat)
    requires
        m.channels == 1 || m.channels == 2,
        regular(m, enc, j),
        960 * (j + m.partial.len() / m.frame_len()) <= u64::MAX,
    ensures
        ({
            let f = m.frame_len();
            let q = m.partial.len() / f;
            let r = encode_ready(m, enc);
            &&& regular(r, enc, j + q)
            &&& q * f <= m.partial.len()
            &&& r.framed == m.framed + m.partial.take((q * f) as int)
            &&& r.partial == m.partial.skip((q * f) as int)
            &&& r.channels == m.channels
            &&& r.closing == m.closing
            &&& r.fed == m.fed
        }),
    decreases m.partial.len(),
{
    let f = m.frame_len();
    let len = m.partial.len();
    let q = len / f;
    vstd::arithmetic::div_mod::lemma_fundamental_div_mod(len as int, f as int);
    let rem = len % f;
    if m.frame_ready() {
        let a = m.after_frame();
        assert(a.framed.take(m.framed.len() as int) =~= m.framed);
        assert(q >= 1) by (nonlinear_arith)
            requires
                len == f * q + rem,
                rem < f,
                len >= f,
                q >= 0,
        ;
        lemma_regular_packet(m, a, enc, j);
        let n = encode_step(m, enc);
        assert(n.partial.len() == len - f);
        assert(len - f == (q - 1) * f + rem) by (nonlinear_arith)
            requires
                len == f * q + rem,
                q >= 1,
        ;
        vstd::arithmetic::div_mod::lemma_fundamental_div_mod_converse(
            (len - f) as int,
            f as int,
            (q - 1) as int,
            rem as int,
        );
        lemma_encode_ready_regular(n, enc, j + 1);
        let r = encode_ready(n, enc);
        assert(q * f == f + (q - 1) * f) by (nonlinear_arith);
        assert(r.framed =~= m.framed + m.partial.take((q * f) as int));
        assert(r.partial =~= m.partial.skip((q * f) as int));
    } else {
        vstd::arithmetic::div_mod::lemma_fundamental_div_mod_converse(len as int, f as int, 0, len as int);
        assert(m.partial.take(0) =~= Seq::<S>::empty());
        assert(m.framed + Seq::<S>::empty() =~= m.framed);
        assert(m.partial.skip(0) =~= m.partial);
    }
}

proof fn lemma_step_then_push<S>(m: StreamModel<S>, s: Seq<S>, enc: spec_fn(Seq<S>) -> Seq<u8>)
    requires
        m.frame_len() > 0,
        m.frame_ready(),
    ensures
        encode_step(m, enc).pushed(s) == encode_step(m.pushed(s), enc),
{
    let f = m.frame_len() as int;
    assert((m.partial + s).take(f) =~= m.partial.take(f));
    assert((m.partial + s).skip(f) =~= m.partial.skip(f) + s);
    let x = encode_step(m, enc).pushed(s);
    let y = encode_step(m.pushed(s), enc);
    assert(x.partial =~= y.partial);
    assert(x.framed =~= y.framed);
    assert(x.fed =~= y.fed);
}

proof fn lemma_encode_ready_then_push<S>(m: StreamModel<S>, s: Seq<S>, enc: spec_fn(Seq<S>) -> Seq<u8>)
    ensures
        encode_ready(encode_ready(m, enc).pushed(s), enc) == encode_ready(m.pushed(s), enc),
    decreases m.partial.len(),
{
    if m.frame_len() > 0 && m.frame_ready() {
        let n = encode_step(m, enc);
        lemma_encode_ready_then_push(n, s, enc);
        lemma_step_then_push(m, s, enc);
    }
}

/// Split law: feeding `a` and then `b` leaves the stream exactly as feeding
/// `a + b` at once does: the same samples waiting, the same frames handed to
/// the encoder in the same order, the same packets released with the same
/// granule positions, and the same packet held back.
pub proof fn lemma_feed_split<S>(
    m: StreamModel<S>,
    a: Seq<S>,
    b: Seq<S>,
    enc: spec_fn(Seq<S>) -> Seq<u8>,
)
    ensures
        feed(feed(m, a, enc), b, enc) == feed(m, a + b, enc),
{
    lemma_encode_ready_then_push(m.pushed(a), b, enc);
    let x = m.pushed(a).pushed(b);
    let y = m.pushed(a + b);
    assert(x.partial =~= y.partial);
    assert(x.fed =~= y.fed);
    assert(x == y);
}

/// Any sequence of feeds, started with less than a frame waiting, leaves the
/// stream as one feed of all their samples does.
pub proof fn lemma_feeds_concat<S>(
    m: StreamModel<S>,
    feeds: Seq<Seq<S>>,
    enc: spec_fn(Seq<S>) -> Seq<u8>,
)
    requires
        m.frame_len() > 0 ==> !m.frame_ready(),
    ensures
        feed_all(m, feeds, enc) == feed(m, concat_all(feeds), enc),
    decreases feeds.len(),
{
    if feeds.len() == 0 {
        let p = m.pushed(Seq::empty());
        assert(p.partial =~= m.partial);
        assert(p.fed =~= m.fed);
        assert(p == m);
    } else {
        lemma_feeds_concat(m, feeds.drop_last(), enc);
        lemma_feed_split(m, concat_all(feeds.drop_last()), feeds.last(), enc);
    }
}

/// Whole-recording law: a stream opened for `channels` channels, fed any
/// samples in any number of feeds and then finalized, with every frame handed
/// out encoded into one packet, has put `k` = max(1, ⌈N/F⌉) audio packets
/// through (N samples fed, F samples per frame). The frames are the samples
/// in order, padded with silence to whole frames (or one silent frame when
/// nothing was fed). The first k − 1 packets are released as ordinary packets
/// with granule positions 960, 1920, …, each what the encoder made of the
/// frames up to its own; the k-th, with granule position 960·k, is held back,
/// so `finish` hands it out as the one end-of-stream packet.
pub proof fn lemma_whole_recording<S>(
    channels: u16,
    serial: u32,
    feeds: Seq<Seq<S>>,
    silence: S,
    enc: spec_fn(Seq<S>) -> Seq<u8>,
)
    requires
        channels == 1 || channels == 2,
        960 * (concat_all(feeds).len() + 1) <= u64::MAX,
    ensures
        ({
            let input = concat_all(feeds);
            let m0 = StreamModel::<S>::fresh(channels, serial);
            let r = finalize(feed_all(m0, feeds, enc), silence, enc);
            let f = m0.frame_len();
            let k = audio_packet_count(input.len(), f);
            &&& k >= 1
            &&& r.closing
            &&& r.framed == input + silence_run(silence, (k * f - input.len()) as nat)
            &&& r.granule == 960 * k
            &&& r.released.len() == k - 1
            &&& forall|i: int|
                0 <= i < k - 1 ==> #[trigger] r.released[i] == packet_at(r.framed, f, enc, i)
            &&& r.pending == Some((enc(r.framed), (960 * k) as u64))
        }),
{
    let input = concat_all(feeds);
    let m0 = StreamModel::<S>::fresh(channels, serial);
    let f = m0.frame_len();
    let n = input.len();
    lemma_feeds_concat(m0, feeds, enc);
    let p = m0.pushed(input);
    assert(p.framed.len() == 0 * f) by (nonlinear_arith)
        requires
            p.framed.len() == 0,
    ;
    assert(regular(p, enc, 0));
    assert(p.partial =~= input);
    vstd::arithmetic::div_mod::lemma_fundamental_div_mod(n as int, f as int);
    let q = n / f;
    let rem = n % f;
    assert(q <= n) by (nonlinear_arith)
        requires
            n == f * q + rem,
            f >= 1,
            q >= 0,
            rem >= 0,
    ;
    lemma_encode_ready_regular(p, enc, 0);
    let m1 = encode_ready(p, enc);
    assert(m1 == feed_all(m0, feeds, enc));
    assert(q * f == f * q) by (nonlinear_arith);
    assert(m1.framed =~= input.take((q * f) as int));
    assert(m1.partial =~= input.skip((q * f) as int));
    let c = m1.after_final(silence);
    let r = finalize(m1, silence, enc);
    let k = audio_packet_count(n, f);
    if rem > 0 {
        assert(n + f - 1 == (q + 1) * f + (rem - 1)) by (nonlinear_arith)
            requires
                n == f * q + rem,
        ;
        vstd::arithmetic::div_mod::lemma_fundamental_div_mod_converse(
            (n + f - 1) as int,
            f as int,
            (q + 1) as int,
            (rem - 1) as int,
        );
        assert(k == q + 1);
        assert(c.framed.take(m1.framed.len() as int) =~= m1.framed);
        assert(c.framed.len() == m1.framed.len() + f);
        lemma_regular_packet(m1, c, enc, q);
        assert((q + 1) * f == q * f + f) by (nonlinear_arith);
        assert(c.framed =~= input + silence_run(silence, (k * f - n) as nat));
    } else if q > 0 {
        assert(n + f - 1 == q * f + (f - 1)) by (nonlinear_arith)
            requires
                n == f * q + rem,
                rem == 0,
        ;
        vstd::arithmetic::div_mod::lemma_fundamental_div_mod_converse(
            (n + f - 1) as int,
            f as int,
            q as int,
            (f - 1) as int,
        );
        assert(k == q);
        assert(m1.partial.len() == 0);
        assert(input.take((q * f) as int) =~= input);
        assert(r.framed =~= input + silence_run(silence, (k * f - n) as nat));
    } else {
        assert(n == 0) by (nonlinear_arith)
            requires
                n == f * q + rem,
                rem == 0,
                q == 0,
        ;
        assert(k == 1);
        assert(c.framed.take(m1.framed.len() as int) =~= m1.framed);
        lemma_regular_packet(m1, c, enc, 0);
        assert(c.framed =~= input + silence_run(silence, (k * f - n) as nat));
    }
}

} // verus!
