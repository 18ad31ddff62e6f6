use vstd::prelude::*;

verus! {

/// The two bytes of the low 16 bits of `x`, least significant first.
pub open spec fn le16(x: nat) -> Seq<u8> {
    seq![(x % 256) as u8, ((x / 256) % 256) as u8]
}

/// The four bytes of the low 32 bits of `x`, least significant first.
pub open spec fn le32(x: nat) -> Seq<u8> {
    le16(x % 0x1_0000) + le16((x / 0x1_0000) % 0x1_0000)
}

/// The bytes of an ASCII tag of four characters.
pub open spec fn tag(a: char, b: char, c: char, d: char) -> Seq<u8> {
    seq![a as u8, b as u8, c as u8, d as u8]
}

/// The speaker mask of the extensible format: one bit per channel, for at
/// most eighteen channels.
pub open spec fn channel_mask(channels: nat) -> nat {
    (vstd::arithmetic::power2::pow2(if channels > 18 { 18 } else { channels }) - 1) as nat
}

/// The subformat GUID of integer PCM data.
pub open spec fn pcm_subformat() -> Seq<u8> {
    seq![0x01, 0x00, 0x00, 0x00, 0x00, 0x00, 0x10, 0x00, 0x80, 0x00, 0x00, 0xaa, 0x00, 0x38, 0x9b, 0x71]
}

/// The format chunk of 16-bit integer samples: the plain PCM layout for one
/// or two channels, the extensible layout above that.
pub open spec fn format_chunk(channels: nat, rate: nat) -> Seq<u8> {
    let common = le16(channels) + le32(rate) + le32(2 * channels * rate) + le16(2 * channels);
    if channels <= 2 {
        tag('f', 'm', 't', ' ') + le32(16) + le16(1) + common + le16(16)
    } else {
        tag('f', 'm', 't', ' ') + le32(40) + le16(0xfffe) + common + le16(16) + le16(22) + le16(16)
            + le32(channel_mask(channels)) + pcm_subformat()
    }
}

/// The size of the header in front of the samples.
pub open spec fn header_size(channels: nat) -> nat {
    if channels <= 2 {
        44
    } else {
        68
    }
}

/// The header of a WAV file of 16-bit integer samples holding `data_len`
/// bytes of samples.
pub open spec fn wav_header(channels: nat, rate: nat, data_len: nat) -> Seq<u8> {
    tag('R', 'I', 'F', 'F') + le32((header_size(channels) - 8 + data_len) as nat) + tag('W', 'A', 'V', 'E')
        + format_chunk(channels, rate) + tag('d', 'a', 't', 'a') + le32(data_len)
}

/// The bytes of signed 16-bit samples, each little-endian, in order.
pub open spec fn sample_bytes(samples: Seq<i16>) -> Seq<u8>
    decreases samples.len(),
{
    if samples.len() == 0 {
        Seq::empty()
    } else {
        sample_bytes(samples.drop_last()) + le16(
            (if samples.last() < 0 { samples.last() + 0x1_0000 } else { samples.last() as int }) as nat,
        )
    }
}

/// A complete WAV file of 16-bit integer samples.
pub open spec fn wav_file(channels: nat, rate: nat, samples: Seq<i16>) -> Seq<u8> {
    wav_header(channels, rate, 2 * samples.len()) + sample_bytes(samples)
}

/// Each sample takes two bytes.
pub proof fn lemma_sample_bytes_len(samples: Seq<i16>)
    ensures
        sample_bytes(samples).len() == 2 * samples.len(),
    decreases samples.len(),
{
    if samples.len() > 0 {
        lemma_sample_bytes_len(samples.drop_last());
    }
}

/// A file is its header followed by two bytes per sample.
pub proof fn lemma_wav_file_len(channels: nat, rate: nat, samples: Seq<i16>)
    ensures
        wav_header(channels, rate, 2 * samples.len()).len() == header_size(channels),
        wav_file(channels, rate, samples).len() == header_size(channels) + 2 * samples.len(),
{
    lemma_sample_bytes_len(samples);
    let data_len = 2 * samples.len();
    assert forall|x: nat| #[trigger] le16(x).len() == 2 by {}
    assert forall|x: nat| #[trigger] le32(x).len() == 4 by {
        assert(le16(x % 0x1_0000).len() == 2);
        assert(le16((x / 0x1_0000) % 0x1_0000).len() == 2);
    }
    let common = le16(channels) + le32(rate) + le32(2 * channels * rate) + le16(2 * channels);
    assert(common.len() == 12);
    assert(pcm_subformat().len() == 16);
    let fmt = tag('f', 'm', 't', ' ');
    assert(fmt.len() == 4);
    if channels <= 2 {
        assert(format_chunk(channels, rate).len() == 24);
    } else {
        assert(format_chunk(channels, rate).len() == 48);
    }
}

} // verus!
