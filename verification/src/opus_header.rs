//! The two header packets that open an Ogg Opus stream: the identification
//! header (`OpusHead`) and the comment header (`OpusTags`).

use vstd::prelude::*;

verus! {

/// Little-endian bytes of a 16-bit value.
pub open spec fn le16(x: u16) -> Seq<u8> {
    seq![(x % 256) as u8, (x / 256) as u8]
}

/// Little-endian bytes of a 32-bit value.
pub open spec fn le32(x: u32) -> Seq<u8> {
    seq![
        (x % 256) as u8,
        ((x / 256) % 256) as u8,
        ((x / 65536) % 256) as u8,
        (x / 16777216) as u8,
    ]
}

/// The eight-byte magic signature `OpusHead`.
pub open spec fn opus_head_magic() -> Seq<u8> {
    seq![0x4f, 0x70, 0x75, 0x73, 0x48, 0x65, 0x61, 0x64]
}

/// The identification header: magic, version 1, channel count, pre-skip,
/// input sample rate, output gain 0 and channel mapping family 0.
pub open spec fn opus_head(channels: u8, pre_skip: u16, input_sample_rate: u32) -> Seq<u8> {
    opus_head_magic() + seq![1u8, channels] + le16(pre_skip) + le32(input_sample_rate) + le16(0)
        + seq![0u8]
}

fn push_le16(out: &mut Vec<u8>, x: u16)
    ensures
        final(out)@ == old(out)@ + le16(x),
{
    out.push((x % 256) as u8);
    out.push((x / 256) as u8);
}

fn push_le32(out: &mut Vec<u8>, x: u32)
    ensures
        final(out)@ == old(out)@ + le32(x),
{
    out.push((x % 256) as u8);
    out.push(((x / 256) % 256) as u8);
    out.push(((x / 65536) % 256) as u8);
    out.push((x / 16777216) as u8);
}

/// Builds the `OpusHead` identification packet (RFC 7845, section 5.1).
pub fn build_opus_head(channels: u8, pre_skip: u16, input_sample_rate: u32) -> (head: Vec<u8>)
    ensures
        head@ == opus_head(channels, pre_skip, input_sample_rate),
        head@.len() == 19,
{
    let mut head: Vec<u8> = Vec::with_capacity(19);
    head.push(0x4f);
    head.push(0x70);
    head.push(0x75);
    head.push(0x73);
    head.push(0x48);
    head.push(0x65);
    head.push(0x61);
    head.push(0x64);
    head.push(1);
    head.push(channels);
    push_le16(&mut head, pre_skip);
    push_le32(&mut head, input_sample_rate);
    push_le16(&mut head, 0);
    head.push(0);
    assert(head@ =~= opus_head(channels, pre_skip, input_sample_rate));
    head
}

/// The eight-byte magic signature `OpusTags`.
pub open spec fn opus_tags_magic() -> Seq<u8> {
    seq![0x4f, 0x70, 0x75, 0x73, 0x54, 0x61, 0x67, 0x73]
}

/// The vendor string written into the comment header: `steno`.
pub open spec fn vendor() -> Seq<u8> {
    seq![0x73, 0x74, 0x65, 0x6e, 0x6f]
}

/// The comment header: magic, vendor string length, vendor string and a
/// user comment count of zero.
pub open spec fn opus_tags() -> Seq<u8> {
    opus_tags_magic() + le32(vendor().len() as u32) + vendor() + le32(0)
}

fn vendor_bytes() -> (v: Vec<u8>)
    ensures
        v@ == vendor(),
{
    let mut v: Vec<u8> = Vec::with_capacity(5);
    v.push(0x73);
    v.push(0x74);
    v.push(0x65);
    v.push(0x6e);
    v.push(0x6f);
    assert(v@ =~= vendor());
    v
}

/// Builds the `OpusTags` comment packet (RFC 7845, section 5.2) with the
/// library's vendor string and no user comments.
pub fn build_opus_tags() -> (tags: Vec<u8>)
    ensures
        tags@ == opus_tags(),
        tags@.len() == 16 + vendor().len(),
{
    let name = vendor_bytes();
    let mut tags: Vec<u8> = Vec::with_capacity(16 + name.len());
    tags.push(0x4f);
    tags.push(0x70);
    tags.push(0x75);
    tags.push(0x73);
    tags.push(0x54);
    tags.push(0x61);
    tags.push(0x67);
    tags.push(0x73);
    push_le32(&mut tags, name.len() as u32);
    let mut i: usize = 0;
    while i < name.len()
        invariant
            i <= name@.len(),
            name@ == vendor(),
            tags@ == opus_tags_magic() + le32(vendor().len() as u32) + vendor().take(i as int),
        decreases name@.len() - i,
    {
        tags.push(name[i]);
        assert(vendor().take(i + 1) =~= vendor().take(i as int).push(vendor()[i as int]));
        i += 1;
    }
    assert(vendor().take(5) =~= vendor());
    push_le32(&mut tags, 0);
    assert(tags@ =~= opus_tags());
    tags
}

/// The value of two little-endian bytes.
pub open spec fn le16_value(b: Seq<u8>) -> int {
    b[0] + 256 * b[1]
}

/// The value of four little-endian bytes.
pub open spec fn le32_value(b: Seq<u8>) -> int {
    b[0] + 256 * b[1] + 65536 * b[2] + 16777216 * b[3]
}

proof fn lemma_le16_value(x: u16)
    ensures
        le16_value(le16(x)) == x,
{
    vstd::arithmetic::div_mod::lemma_fundamental_div_mod(x as int, 256);
}

proof fn lemma_le32_value(x: u32)
    ensures
        le32_value(le32(x)) == x,
{
    let a = x as int;
    vstd::arithmetic::div_mod::lemma_fundamental_div_mod(a, 256);
    vstd::arithmetic::div_mod::lemma_fundamental_div_mod(a / 256, 256);
    vstd::arithmetic::div_mod::lemma_fundamental_div_mod(a / 65536, 256);
    vstd::arithmetic::div_mod::lemma_div_denominator(a, 256, 256);
    vstd::arithmetic::div_mod::lemma_div_denominator(a, 65536, 256);
    assert(a / 16777216 < 256) by {
        vstd::arithmetic::div_mod::lemma_div_is_ordered(a, 0xffff_ffff, 16777216);
    }
}

/// Header law: an RFC 7845 reader of the identification header finds the
/// magic signature, version 1, and, decoding the little-endian fields, the
/// channel count, pre-skip and input sample rate it was built from, with
/// zero output gain and channel mapping family 0.
pub proof fn lemma_opus_head_fields(channels: u8, pre_skip: u16, input_sample_rate: u32)
    ensures
        ({
            let h = opus_head(channels, pre_skip, input_sample_rate);
            &&& h.len() == 19
            &&& h.subrange(0, 8) == opus_head_magic()
            &&& h[8] == 1
            &&& h[9] == channels
            &&& le16_value(h.subrange(10, 12)) == pre_skip
            &&& le32_value(h.subrange(12, 16)) == input_sample_rate
            &&& le16_value(h.subrange(16, 18)) == 0
            &&& h[18] == 0
        }),
{
    let h = opus_head(channels, pre_skip, input_sample_rate);
    lemma_le16_value(pre_skip);
    lemma_le32_value(input_sample_rate);
    lemma_le16_value(0);
    assert(h.subrange(0, 8) =~= opus_head_magic());
    assert(h.subrange(10, 12) =~= le16(pre_skip));
    assert(h.subrange(12, 16) =~= le32(input_sample_rate));
    assert(h.subrange(16, 18) =~= le16(0));
}

/// Header law: a reader of the comment header finds the magic signature, a
/// vendor length that matches the vendor string that follows it, and a user
/// comment count of zero right after it.
pub proof fn lemma_opus_tags_fields()
    ensures
        ({
            let t = opus_tags();
            let n = vendor().len() as int;
            &&& t.len() == 16 + n
            &&& t.subrange(0, 8) == opus_tags_magic()
            &&& le32_value(t.subrange(8, 12)) == n
            &&& t.subrange(12, 12 + n) == vendor()
            &&& le32_value(t.subrange(12 + n, 16 + n)) == 0
        }),
{
    let t = opus_tags();
    lemma_le32_value(5);
    lemma_le32_value(0);
    assert(t.subrange(0, 8) =~= opus_tags_magic());
    assert(t.subrange(8, 12) =~= le32(5));
    assert(t.subrange(12, 17) =~= vendor());
    assert(t.subrange(17, 21) =~= le32(0));
}

} // verus!
