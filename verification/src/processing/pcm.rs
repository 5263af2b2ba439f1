//! Mixing of 16-bit PCM audio.
use crate::types::trunc_div;
use vstd::prelude::*;

verus! {

/// The value of two bytes as a signed 16-bit number, the low byte first.
pub open spec fn le_value(low: u8, high: u8) -> int {
    let bits = low + 256 * high;
    if bits >= 0x8000 {
        bits - 0x1_0000
    } else {
        bits
    }
}

/// The audio sample at an index of a run of bytes.
pub open spec fn pcm_sample(bytes: Seq<u8>, i: int) -> int {
    le_value(bytes[2 * i], bytes[2 * i + 1])
}

/// Equal parts of two samples, rounded towards zero.
pub open spec fn mixed(a: int, b: int) -> int {
    trunc_div(a + b, 2)
}

/// Four fifths of a sample, rounded towards zero.
pub open spec fn reduced(a: int) -> int {
    trunc_div(a * 4, 5)
}

/// The sample at an index of the mix of system audio and microphone audio:
/// equal parts of both as far as the microphone audio goes, the system audio
/// at reduced volume from there on.
pub open spec fn mix_sample(sys: Seq<u8>, mic: Seq<u8>, i: int) -> int {
    if i < mic.len() as int / 2 {
        mixed(pcm_sample(sys, i), pcm_sample(mic, i))
    } else {
        reduced(pcm_sample(sys, i))
    }
}

/// Whether `out` holds the mix of `sys` and `mic` and is `before` elsewhere.
pub open spec fn is_mix(sys: Seq<u8>, mic: Seq<u8>, before: Seq<u8>, out: Seq<u8>) -> bool {
    &&& out.len() == before.len()
    &&& forall|i: int|
        0 <= i < sys.len() as int / 2 ==> #[trigger] pcm_sample(out, i) == mix_sample(sys, mic, i)
    &&& forall|k: int|
        2 * (sys.len() as int / 2) <= k < out.len() ==> #[trigger] out[k] == before[k]
}

/// Reads the audio sample at an index.
pub fn read_sample(bytes: &[u8], i: usize) -> (r: i16)
    requires
        2 * i + 1 < bytes@.len(),
    ensures
        r == pcm_sample(bytes@, i as int),
{
    assert(2 * i + 1 < bytes.len());
    let bits: i32 = bytes[2 * i] as i32 + 256 * bytes[2 * i + 1] as i32;
    if bits >= 0x8000 {
        (bits - 0x1_0000) as i16
    } else {
        bits as i16
    }
}

/// Writes an audio sample at an index.
pub fn write_sample(bytes: &mut Vec<u8>, i: usize, value: i16)
    requires
        2 * i + 1 < old(bytes)@.len(),
    ensures
        final(bytes)@.len() == old(bytes)@.len(),
        pcm_sample(final(bytes)@, i as int) == value,
        forall|k: int|
            0 <= k < old(bytes)@.len() && k != 2 * i && k != 2 * i + 1
                ==> #[trigger] final(bytes)@[k] == old(bytes)@[k],
{
    let bits: i32 = if value < 0 {
        value as i32 + 0x1_0000
    } else {
        value as i32
    };
    assert(2 * i + 1 < bytes.len());
    bytes.set(2 * i, (bits % 256) as u8);
    bytes.set(2 * i + 1, (bits / 256) as u8);
}

/// Equal parts of two samples.
pub fn mix_pair(a: i16, b: i16) -> (r: i16)
    ensures
        r == mixed(a as int, b as int),
{
    ((a as i32 + b as i32) / 2) as i16
}

/// A sample at reduced volume.
pub fn reduce_volume(a: i16) -> (r: i16)
    ensures
        r == reduced(a as int),
{
    (a as i32 * 4 / 5) as i16
}

/// Writes the mix of system audio and microphone audio into `output`.
///
/// There are as many samples in the mix as in the system audio. Bytes behind
/// the last whole sample stay as they are.
pub fn mix_pcm_audio(sys: &[u8], mic: &[u8], output: &mut Vec<u8>)
    requires
        2 * (sys@.len() as int / 2) <= old(output)@.len(),
    ensures
        is_mix(sys@, mic@, old(output)@, final(output)@),
{
    let sys_len: usize = sys.len() / 2;
    let mic_len: usize = mic.len() / 2;
    for i in 0..sys_len
        invariant
            sys_len == sys@.len() as int / 2,
            mic_len == mic@.len() as int / 2,
            2 * sys_len <= output@.len(),
            output@.len() == old(output)@.len(),
            forall|j: int|
                0 <= j < i ==> #[trigger] pcm_sample(output@, j) == mix_sample(sys@, mic@, j),
            forall|k: int| 2 * i <= k < output@.len() ==> #[trigger] output@[k] == old(output)@[k],
    {
        let value: i16 = if i < mic_len {
            mix_pair(read_sample(sys, i), read_sample(mic, i))
        } else {
            reduce_volume(read_sample(sys, i))
        };
        let ghost before = output@;
        write_sample(output, i, value);
        assert forall|j: int| 0 <= j < i + 1 implies #[trigger] pcm_sample(output@, j)
            == mix_sample(sys@, mic@, j) by {
            if j < i {
                assert(pcm_sample(before, j) == mix_sample(sys@, mic@, j));
                assert(output@[2 * j] == before[2 * j]);
                assert(output@[2 * j + 1] == before[2 * j + 1]);
            }
        }
        assert forall|k: int| 2 * (i + 1) <= k < output@.len() implies #[trigger] output@[k]
            == old(output)@[k] by {
            assert(before[k] == old(output)@[k]);
        }
    }
}

/// Mixing treats its two sources alike.
pub proof fn mixing_is_symmetric(a: int, b: int)
    ensures
        mixed(a, b) == mixed(b, a),
{
}

/// A mixed sample lies between its two sources, so that mixing never clips.
pub proof fn mixing_stays_between(a: int, b: int)
    requires
        a <= b,
    ensures
        a <= mixed(a, b) <= b,
{
}

/// Reducing the volume keeps the sign and never makes a sample louder.
pub proof fn reduction_is_quieter(a: int)
    ensures
        a >= 0 ==> 0 <= reduced(a) <= a,
        a <= 0 ==> a <= reduced(a) <= 0,
{
}

/// Mixing a signal with itself gives the signal back.
pub proof fn mixing_with_itself(sys: Seq<u8>, before: Seq<u8>, out: Seq<u8>)
    requires
        is_mix(sys, sys, before, out),
    ensures
        forall|i: int|
            0 <= i < sys.len() as int / 2 ==> #[trigger] pcm_sample(out, i) == pcm_sample(sys, i),
{
    assert forall|i: int| 0 <= i < sys.len() as int / 2 implies #[trigger] pcm_sample(out, i)
        == pcm_sample(sys, i) by {
        let v = pcm_sample(sys, i);
        assert(mix_sample(sys, sys, i) == mixed(v, v));
        assert(mixed(v, v) == v);
    }
}

/// Two bytes stand for the signed number whose sixteen bits they are, the low
/// byte first.
pub proof fn bytes_are_little_endian(low: u8, high: u8)
    ensures
        -32768 <= le_value(low, high) <= 32767,
        (le_value(low, high) - low - 256 * high) % 65536 == 0,
{
}

/// A mixed sample is half the sum of its two sources, but for the half that is
/// rounded off towards zero.
pub proof fn mixing_averages(a: int, b: int)
    ensures
        -1 <= a + b - 2 * mixed(a, b) <= 1,
        a + b >= 0 ==> 0 <= 2 * mixed(a, b) <= a + b,
        a + b <= 0 ==> a + b <= 2 * mixed(a, b) <= 0,
{
}

/// A sample at reduced volume is four fifths of what it was, but for what is
/// rounded off towards zero.
pub proof fn reduction_takes_a_fifth(a: int)
    ensures
        -5 < 4 * a - 5 * reduced(a) < 5,
        a >= 0 ==> 0 <= 5 * reduced(a) <= 4 * a,
        a <= 0 ==> 4 * a <= 5 * reduced(a) <= 0,
{
}

/// The audio sample at an index, from its two bytes.
pub open spec fn sound_at(bytes: Seq<u8>, i: int) -> int {
    bytes[2 * i] + 256 * bytes[2 * i + 1] - if bytes[2 * i + 1] >= 128 {
        65536int
    } else {
        0int
    }
}

/// As far as both sources go, every sample of a mix is the average of theirs.
/// From where the microphone ends, it is four fifths of the system audio.
pub proof fn a_mix_is_heard_as_both(sys: Seq<u8>, mic: Seq<u8>, before: Seq<u8>, out: Seq<u8>)
    requires
        is_mix(sys, mic, before, out),
        2 * (sys.len() as int / 2) <= before.len(),
    ensures
        out.len() == before.len(),
        forall|i: int|
            #![trigger sound_at(out, i)]
            0 <= i < sys.len() as int / 2 && i < mic.len() as int / 2 ==> -1 <= sound_at(sys, i)
                + sound_at(mic, i) - 2 * sound_at(out, i) <= 1,
        forall|i: int|
            #![trigger sound_at(out, i)]
            mic.len() as int / 2 <= i < sys.len() as int / 2 ==> -5 < 4 * sound_at(sys, i) - 5
                * sound_at(out, i) < 5,
{
    assert forall|i: int|
        #![trigger sound_at(out, i)]
        0 <= i < sys.len() as int / 2 && i < mic.len() as int / 2 implies -1 <= sound_at(sys, i)
        + sound_at(mic, i) - 2 * sound_at(out, i) <= 1 by {
        assert(pcm_sample(out, i) == mix_sample(sys, mic, i));
    }
    assert forall|i: int|
        #![trigger sound_at(out, i)]
        mic.len() as int / 2 <= i < sys.len() as int / 2 implies -5 < 4 * sound_at(sys, i) - 5
        * sound_at(out, i) < 5 by {
        assert(pcm_sample(out, i) == mix_sample(sys, mic, i));
    }
}

} // verus!
