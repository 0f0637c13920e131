# steno

The verified core of a local meeting recorder's audio pipeline, written in
Verus.

- `src/stream.rs` — the Ogg Opus stream state: header packets, cutting
  samples into whole 20 ms frames, granule positions, and holding the newest
  packet back so the true last packet ends the stream. Laws: no sample is lost
  or reordered, splitting input across feeds changes nothing, packets come out
  once each in order with granules 960·k, and a whole recording of N samples
  makes max(1, ⌈N/F⌉) packets ending in exactly one end-of-stream packet.
- `src/opus_header.rs` — the `OpusHead` and `OpusTags` packets, byte for byte.
- `src/commands.rs` — error messages for capture failures (always carrying the
  raw error, and the permission tag where promised), the settings panel to
  open per platform, the opener command line, the recording file's location.
- `src/capture.rs` — device configuration checks, capture start/stop guards,
  and sample-buffer layouts.
- `src/meter.rs` — the shared lock-free peak register.
- `src/text.rs` — decimal rendering, substring search, lowercasing.

`app/` holds what cannot be verified here: audio devices (cpal, PipeWire,
ScreenCaptureKit), threads, the Opus encoder and the Ogg file writer,
floating-point sample arithmetic (mixing, downmixing, resampling, peak
levels), and the commands that drive them.
