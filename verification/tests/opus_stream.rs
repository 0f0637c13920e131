use steno::{OpusOggStream, PacketEnd, build_opus_head, build_opus_tags, stream_serial};

#[test]
fn opus_head_layout() {
    let head = build_opus_head(1, 3840, 48_000);
    let mut expected = b"OpusHead".to_vec();
    expected.extend_from_slice(&[1, 1]);
    expected.extend_from_slice(&3840u16.to_le_bytes());
    expected.extend_from_slice(&48_000u32.to_le_bytes());
    expected.extend_from_slice(&[0, 0, 0]);
    assert_eq!(head, expected);
    assert_eq!(head.len(), 19);
}

#[test]
fn opus_head_stereo_and_odd_values() {
    let head = build_opus_head(2, 0x1234, 0xA1B2_C3D4);
    assert_eq!(&head[0..8], b"OpusHead");
    assert_eq!(head[8], 1);
    assert_eq!(head[9], 2);
    assert_eq!(&head[10..12], &[0x34, 0x12]);
    assert_eq!(&head[12..16], &[0xD4, 0xC3, 0xB2, 0xA1]);
    assert_eq!(&head[16..19], &[0, 0, 0]);
}

#[test]
fn opus_tags_layout() {
    let tags = build_opus_tags();
    let mut expected = b"OpusTags".to_vec();
    expected.extend_from_slice(&5u32.to_le_bytes());
    expected.extend_from_slice(b"steno");
    expected.extend_from_slice(&0u32.to_le_bytes());
    assert_eq!(tags, expected);
    assert_eq!(tags.len(), 21);
}

#[test]
fn serial_from_clock_or_fallback() {
    assert_eq!(stream_serial(Some(1_700_000_000)), 1_700_000_000);
    assert_eq!(stream_serial(Some(0x1_0000_0005)), 5);
    assert_eq!(stream_serial(None), 0xDEAD_BEEF);
}

#[test]
fn rejects_unsupported_channel_counts() {
    match OpusOggStream::<f32>::new(3, 7) {
        Err(e) => assert_eq!(e, "unsupported channel count for Opus: 3"),
        Ok(_) => panic!("three channels accepted"),
    }
    match OpusOggStream::<f32>::new(0, 7) {
        Err(e) => assert_eq!(e, "unsupported channel count for Opus: 0"),
        Ok(_) => panic!("zero channels accepted"),
    }
    match OpusOggStream::<f32>::new(1000, 7) {
        Err(e) => assert_eq!(e, "unsupported channel count for Opus: 1000"),
        Ok(_) => panic!("1000 channels accepted"),
    }
}

#[test]
fn header_packets_end_their_pages_at_granule_zero() {
    let (w, head, tags) = OpusOggStream::<f32>::new(2, 42).unwrap();
    assert_eq!(head.data, build_opus_head(2, 3840, 48_000));
    assert_eq!(head.serial, 42);
    assert_eq!(head.end, PacketEnd::EndPage);
    assert_eq!(head.granule, 0);
    assert_eq!(tags.data, build_opus_tags());
    assert_eq!(tags.serial, 42);
    assert_eq!(tags.end, PacketEnd::EndPage);
    assert_eq!(tags.granule, 0);
    assert_eq!(w.frame_len(), 1920);
    assert_eq!(w.granule(), 0);
    assert_eq!(w.channels(), 2);
    assert_eq!(w.serial(), 42);
    assert!(!w.has_pending());
}

/// Runs a stream the way the file writer does, encoding a frame as its
/// first sample and its length.
fn run(channels: u16, feeds: &[Vec<i32>]) -> (Vec<Vec<i32>>, Vec<(Vec<u8>, PacketEnd, u64)>) {
    let (mut w, head, tags) = OpusOggStream::<i32>::new(channels, 9).unwrap();
    let mut frames = Vec::new();
    let mut written = vec![(head.data, head.end, head.granule), (tags.data, tags.end, tags.granule)];
    let mut encode = |frame: &Vec<i32>| vec![frame[0] as u8, frame.len() as u8];
    for samples in feeds {
        w.push_samples(samples);
        while let Some(frame) = w.next_frame() {
            let packet = encode(&frame);
            frames.push(frame);
            if let Some(p) = w.start_packet() {
                written.push((p.data, p.end, p.granule));
            }
            w.hold_packet(packet);
        }
    }
    if let Some(frame) = w.final_frame(-1) {
        let packet = encode(&frame);
        frames.push(frame);
        if let Some(p) = w.start_packet() {
            written.push((p.data, p.end, p.granule));
        }
        w.hold_packet(packet);
    }
    let last = w.finish().expect("pending packet for EOS");
    written.push((last.data, last.end, last.granule));
    (frames, written)
}

#[test]
fn frames_cover_input_in_order_and_pad_the_tail() {
    let input: Vec<i32> = (0..2000).collect();
    let (frames, written) = run(1, &[input[..700].to_vec(), input[700..].to_vec()]);
    assert_eq!(frames.len(), 3);
    assert!(frames.iter().all(|f| f.len() == 960));
    let flat: Vec<i32> = frames.concat();
    assert_eq!(&flat[..2000], &input[..]);
    assert!(flat[2000..].iter().all(|&s| s == -1));
    // Two headers, two ordinary packets, one end-of-stream packet.
    assert_eq!(written.len(), 5);
    assert_eq!(written[2].1, PacketEnd::NormalPacket);
    assert_eq!(written[2].2, 960);
    assert_eq!(written[3].1, PacketEnd::NormalPacket);
    assert_eq!(written[3].2, 1920);
    assert_eq!(written[4].1, PacketEnd::EndStream);
    assert_eq!(written[4].2, 2880);
    assert_eq!(written[2].0, vec![0u8, 192]);
    assert_eq!(written[3].0, vec![(960 % 256) as u8, 192]);
    assert_eq!(written[4].0, vec![(1920 % 256) as u8, 192]);
}

#[test]
fn exact_frame_multiple_needs_no_padding() {
    let input: Vec<i32> = (0..1920).collect();
    let (frames, written) = run(1, &[input.clone()]);
    assert_eq!(frames.len(), 2);
    assert_eq!(frames.concat(), input);
    assert_eq!(written.len(), 4);
    assert_eq!(written[2].1, PacketEnd::NormalPacket);
    assert_eq!(written[2].2, 960);
    assert_eq!(written[3].1, PacketEnd::EndStream);
    assert_eq!(written[3].2, 1920);
}

#[test]
fn empty_stream_still_gets_one_silent_end_of_stream_packet() {
    let (frames, written) = run(1, &[]);
    assert_eq!(frames, vec![vec![-1; 960]]);
    assert_eq!(written.len(), 3);
    assert_eq!(written[2].1, PacketEnd::EndStream);
    assert_eq!(written[2].2, 960);
}

#[test]
fn stereo_frames_hold_both_channels() {
    let input: Vec<i32> = (0..1920 + 10).collect();
    let (frames, written) = run(2, &[input.clone()]);
    assert_eq!(frames.len(), 2);
    assert!(frames.iter().all(|f| f.len() == 1920));
    assert_eq!(&frames.concat()[..1930], &input[..]);
    assert_eq!(written.last().unwrap().2, 1920);
    assert_eq!(written.last().unwrap().1, PacketEnd::EndStream);
}

#[test]
fn empty_feed_changes_nothing() {
    let (mut w, _, _) = OpusOggStream::<f32>::new(1, 1).unwrap();
    w.push_samples(&[]);
    assert!(w.next_frame().is_none());
    assert_eq!(w.granule(), 0);
}

#[test]
fn partial_frame_is_kept_until_more_arrives() {
    let (mut w, _, _) = OpusOggStream::<f32>::new(1, 1).unwrap();
    w.push_samples(&vec![0.25f32; 959]);
    assert!(w.next_frame().is_none());
    w.push_samples(&[0.5f32]);
    let frame = w.next_frame().unwrap();
    assert_eq!(frame.len(), 960);
    assert_eq!(frame[958], 0.25);
    assert_eq!(frame[959], 0.5);
    assert!(w.next_frame().is_none());
}

#[test]
fn long_feed_is_framed_completely() {
    let input: Vec<i32> = (0..2_000_000).collect();
    let (frames, written) = run(1, &[input[..1_000_001].to_vec(), input[1_000_001..].to_vec()]);
    assert_eq!(frames.len(), 2_000_000 / 960 + 1);
    let flat: Vec<i32> = frames.concat();
    assert_eq!(&flat[..2_000_000], &input[..]);
    let audio = &written[2..];
    for (k, p) in audio.iter().enumerate() {
        assert_eq!(p.2, 960 * (k as u64 + 1));
        let expected = if k + 1 == audio.len() { PacketEnd::EndStream } else { PacketEnd::NormalPacket };
        assert_eq!(p.1, expected);
    }
}

#[test]
fn splitting_feeds_changes_nothing() {
    let input: Vec<i32> = (0..5000).collect();
    let whole = run(1, &[input.clone()]);
    let split = run(1, &[input[..1].to_vec(), input[1..2881].to_vec(), vec![], input[2881..].to_vec()]);
    assert_eq!(whole, split);
    let stereo_whole = run(2, &[input.clone()]);
    let stereo_split = run(2, &[input[..1919].to_vec(), input[1919..].to_vec()]);
    assert_eq!(stereo_whole, stereo_split);
}
