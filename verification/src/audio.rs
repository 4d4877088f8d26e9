//! Audio processing between the capture callback and the recogniser: down-mixing to
//! mono, cutting the stream into fixed-size blocks, and choosing the capture device.

use vstd::prelude::*;
use crate::devices::{
    copy_device, find_loopback_device, is_first_where, is_loopback_name, resolve_device,
    spec_is_loopback_name, spec_resolve_device, AudioDeviceInfo,
};
use crate::text::{chars_of, trim, trim_chars};

verus! {

/// Sample rate the recogniser expects (16 kHz mono).
pub const SAMPLE_RATE: u32 = 16000;

/// Which sound is captured.
#[derive(Clone, Copy, Debug, PartialEq, Eq, Structural)]
pub enum AudioMode {
    /// What the system plays (output loopback).
    Loopback,
    /// The microphone.
    Mic,
}

/// The sum of `s[a..b]`.
pub open spec fn sum_range(s: Seq<i16>, a: int, b: int) -> int
    decreases b - a,
{
    if b <= a {
        0
    } else {
        sum_range(s, a, b - 1) + s[b - 1] as int
    }
}

/// Integer division rounding toward zero, as Rust's `/` on integers does.
pub open spec fn div_toward_zero(a: int, b: int) -> int {
    if a >= 0 {
        a / b
    } else {
        -((-a) / b)
    }
}

/// The mono signal for interleaved `samples` with `channels` channels: each frame of
/// `channels` samples (the last frame may be shorter) becomes its sum divided by
/// `channels`, rounded toward zero; with at most one channel the samples are kept.
pub open spec fn downmix(samples: Seq<i16>, channels: nat) -> Seq<i16> {
    if channels <= 1 {
        samples
    } else {
        Seq::new(
            ((samples.len() + channels - 1) / channels as int) as nat,
            |j: int| {
                let a = j * channels;
                let b = if (j + 1) * channels <= samples.len() { (j + 1) * channels } else { samples.len() as int };
                div_toward_zero(sum_range(samples, a, b), channels as int) as i16
            },
        )
    }
}

proof fn lemma_sum_range_bounds(s: Seq<i16>, a: int, b: int)
    requires
        0 <= a <= b <= s.len(),
    ensures
        -32768 * (b - a) <= sum_range(s, a, b) <= 32767 * (b - a),
    decreases b - a,
{
    if b > a {
        lemma_sum_range_bounds(s, a, b - 1);
    }
}

proof fn lemma_average_bounds(s: int, c: int)
    requires
        c >= 1,
        -32768 * c <= s <= 32767 * c,
    ensures
        -32768 <= div_toward_zero(s, c) <= 32767,
{
    if s >= 0 {
        assert(s / c <= 32767) by (nonlinear_arith)
            requires s <= 32767 * c, c >= 1, s >= 0;
        assert(s / c >= 0) by (nonlinear_arith)
            requires c >= 1, s >= 0;
    } else {
        assert((-s) / c <= 32768) by (nonlinear_arith)
            requires -s <= 32768 * c, c >= 1, s < 0;
        assert((-s) / c >= 0) by (nonlinear_arith)
            requires c >= 1, s < 0;
    }
}

/// Down-mixes interleaved samples to mono by averaging the channels of each frame.
pub fn downmix_to_mono_i16(samples: &[i16], channels: usize) -> (r: Vec<i16>)
    requires
        channels <= 65536,
    ensures
        r@ == downmix(samples@, channels as nat),
{
    if channels <= 1 {
        let mut r: Vec<i16> = Vec::new();
        let mut k: usize = 0;
        while k < samples.len()
            invariant
                k <= samples.len(),
                r@ == samples@.subrange(0, k as int),
            decreases samples.len() - k,
        {
            r.push(samples[k]);
            k = k + 1;
        }
        assert(samples@.subrange(0, samples.len() as int) =~= samples@);
        return r;
    }
    let ghost frames = ((samples@.len() + channels - 1) / channels as int) as nat;
    let mut r: Vec<i16> = Vec::new();
    let mut start: usize = 0;
    assert(r.len() * channels == 0) by (nonlinear_arith)
        requires r.len() == 0;
    while start < samples.len()
        invariant
            2 <= channels <= 65536,
            start <= samples.len(),
            start < samples.len() ==> start == r.len() * channels,
            start == samples.len() ==> r.len() * channels >= samples.len(),
            r.len() * channels < samples.len() + channels,
            forall|j: int| 0 <= j < r.len() ==> #[trigger] r@[j] == downmix(samples@, channels as nat)[j],
            frames == ((samples@.len() + channels - 1) / channels as int) as nat,
        decreases samples.len() - start,
    {
        let end: usize = if samples.len() - start >= channels { start + channels } else { samples.len() };
        let mut sum: i32 = 0;
        let mut k: usize = start;
        while k < end
            invariant
                start <= k <= end <= samples.len(),
                end - start <= channels <= 65536,
                sum == sum_range(samples@, start as int, k as int),
            decreases end - k,
        {
            proof {
                lemma_sum_range_bounds(samples@, start as int, k + 1);
                assert(-32768 * (k + 1 - start) >= -32768 * 65536) by (nonlinear_arith)
                    requires k + 1 - start <= 65536;
                assert(32767 * (k + 1 - start) <= 32767 * 65536) by (nonlinear_arith)
                    requires k + 1 - start <= 65536;
            }
            sum = sum + samples[k] as i32;
            k = k + 1;
        }
        let ch = channels as i32;
        proof {
            lemma_sum_range_bounds(samples@, start as int, end as int);
            assert(-32768 * (end - start) >= -32768 * channels) by (nonlinear_arith)
                requires end - start <= channels;
            assert(32767 * (end - start) <= 32767 * channels) by (nonlinear_arith)
                requires end - start <= channels;
            lemma_average_bounds(sum as int, channels as int);
        }
        let avg = sum / ch;
        let ghost j = r.len() as int;
        proof {
            assert((j + 1) * channels == start + channels) by (nonlinear_arith)
                requires j * channels == start;
            assert(avg as int == div_toward_zero(sum as int, channels as int));
            assert(j < frames) by (nonlinear_arith)
                requires
                    j * channels == start,
                    start < samples@.len(),
                    frames == (samples@.len() + channels - 1) / channels as int,
                    channels >= 2,
            ;
        }
        r.push(avg as i16);
        start = end;
        proof {
            assert(r.len() * channels == (j + 1) * channels);
        }
    }
    proof {
        assert(r.len() == frames) by (nonlinear_arith)
            requires
                r.len() * channels >= samples@.len(),
                r.len() * channels < samples@.len() + channels,
                frames == (samples@.len() + channels - 1) / channels as int,
                channels >= 2,
        ;
    }
    assert(r@ =~= downmix(samples@, channels as nat));
    r
}

/// Samples per block sent to the main thread: `chunk_ms` milliseconds at
/// `sample_rate`, at least 256.
pub open spec fn spec_block_size(sample_rate: u32, chunk_ms: u32) -> int {
    let n = (sample_rate as int * chunk_ms as int) / 1000;
    if n < 256 { 256 } else { n }
}

/// The block size for a stream (see `spec_block_size`).
pub fn block_size(sample_rate: u32, chunk_ms: u32) -> (r: usize)
    requires
        spec_block_size(sample_rate, chunk_ms) <= usize::MAX,
    ensures
        r == spec_block_size(sample_rate, chunk_ms),
{
    assert((sample_rate as u64) * (chunk_ms as u64) <= u64::MAX) by (nonlinear_arith)
        requires sample_rate <= u32::MAX, chunk_ms <= u32::MAX;
    let n: u64 = (sample_rate as u64 * chunk_ms as u64) / 1000;
    if n < 256 {
        256
    } else {
        n as usize
    }
}

/// The concatenation of the blocks.
pub open spec fn joined(blocks: Seq<Vec<i16>>) -> Seq<i16>
    decreases blocks.len(),
{
    if blocks.len() == 0 {
        Seq::empty()
    } else {
        joined(blocks.drop_last()) + blocks.last()@
    }
}

/// Appends `incoming` to the pending samples in `buf`, then takes every full block of
/// `block_size` samples off its front, oldest first; what is left stays pending.
pub fn take_blocks(buf: &mut Vec<i16>, incoming: &[i16], block_size: usize) -> (blocks: Vec<Vec<i16>>)
    requires
        block_size > 0,
    ensures
        joined(blocks@) + final(buf)@ == old(buf)@ + incoming@,
        forall|i: int| 0 <= i < blocks.len() ==> (#[trigger] blocks@[i])@.len() == block_size,
        final(buf)@.len() < block_size,
{
    let mut all: Vec<i16> = Vec::new();
    let mut k: usize = 0;
    while k < buf.len()
        invariant
            k <= buf.len(),
            all@ == buf@.subrange(0, k as int),
        decreases buf.len() - k,
    {
        all.push(buf[k]);
        k = k + 1;
    }
    let mut m: usize = 0;
    while m < incoming.len()
        invariant
            m <= incoming.len(),
            k == buf.len(),
            all@ == buf@.subrange(0, k as int) + incoming@.subrange(0, m as int),
        decreases incoming.len() - m,
    {
        all.push(incoming[m]);
        m = m + 1;
    }
    assert(buf@.subrange(0, k as int) =~= buf@);
    assert(incoming@.subrange(0, m as int) =~= incoming@);
    let ghost total = all@;
    let mut blocks: Vec<Vec<i16>> = Vec::new();
    let mut pos: usize = 0;
    assert(joined(blocks@) =~= Seq::<i16>::empty());
    while all.len() - pos >= block_size
        invariant
            block_size > 0,
            all@ == total,
            pos <= all.len(),
            joined(blocks@) == total.subrange(0, pos as int),
            forall|i: int| 0 <= i < blocks.len() ==> (#[trigger] blocks@[i])@.len() == block_size,
        decreases all.len() - pos,
    {
        let mut block: Vec<i16> = Vec::new();
        let mut q: usize = 0;
        while q < block_size
            invariant
                q <= block_size,
                pos + block_size <= all.len(),
                block@ == all@.subrange(pos as int, pos + q),
            decreases block_size - q,
        {
            block.push(all[pos + q]);
            q = q + 1;
        }
        let ghost before = blocks@;
        blocks.push(block);
        proof {
            assert(blocks@.drop_last() =~= before);
            assert(total.subrange(0, pos + block_size) =~= total.subrange(0, pos as int) + block@);
        }
        pos = pos + block_size;
    }
    let mut rest: Vec<i16> = Vec::new();
    let mut t: usize = pos;
    while t < all.len()
        invariant
            pos <= t <= all.len(),
            rest@ == all@.subrange(pos as int, t as int),
        decreases all.len() - t,
    {
        rest.push(all[t]);
        t = t + 1;
    }
    assert(total =~= total.subrange(0, pos as int) + rest@);
    *buf = rest;
    blocks
}

/// Samples of an unsigned 16-bit stream recentred to signed: `s - 32768`.
pub fn u16_to_pcm(data: &[u16]) -> (r: Vec<i16>)
    ensures
        r@.len() == data@.len(),
        forall|i: int| 0 <= i < data.len() ==> #[trigger] r@[i] as int == data@[i] as int - 32768,
{
    let mut r: Vec<i16> = Vec::new();
    let mut k: usize = 0;
    while k < data.len()
        invariant
            k <= data.len(),
            r@.len() == k,
            forall|i: int| 0 <= i < k ==> #[trigger] r@[i] as int == data@[i] as int - 32768,
        decreases data.len() - k,
    {
        r.push((data[k] as i32 - 32768) as i16);
        k = k + 1;
    }
    r
}

/// Why no capture device could be chosen.
#[derive(Clone, Copy, Debug, PartialEq, Eq, Structural)]
pub enum DeviceError {
    LoopbackNotFound,
    MicrophoneNotFound,
}

impl DeviceError {
    /// The message the program shows for this error.
    pub fn message(&self) -> (r: &'static str)
        ensures
            r@ == match self {
                DeviceError::LoopbackNotFound => "Loopback device not found"@,
                DeviceError::MicrophoneNotFound => "Microphone not found"@,
            },
    {
        match self {
            DeviceError::LoopbackNotFound => "Loopback device not found",
            DeviceError::MicrophoneNotFound => "Microphone not found",
        }
    }
}

/// The device a recording uses: the configured one when the name is not blank and
/// designates a device; otherwise, for loopback the first loopback device, and for
/// the microphone the device that the host's default input name designates.
pub open spec fn spec_pick_device(
    mode: AudioMode,
    device_name: Seq<char>,
    devices: Seq<AudioDeviceInfo>,
    default_input: Option<Seq<char>>,
    r: Result<AudioDeviceInfo, DeviceError>,
) -> bool {
    if trim(device_name).len() != 0 && (exists|d: AudioDeviceInfo| spec_resolve_device(devices, device_name, Some(d))) {
        r matches Ok(d) && spec_resolve_device(devices, device_name, Some(d))
    } else {
        match mode {
            AudioMode::Loopback => match r {
                Ok(d) => is_first_where(devices, |n: Seq<char>| spec_is_loopback_name(n), Some(d)),
                Err(e) => e == DeviceError::LoopbackNotFound && is_first_where(devices, |n: Seq<char>| spec_is_loopback_name(n), None),
            },
            AudioMode::Mic => match (default_input, r) {
                (Some(n), Ok(d)) => spec_resolve_device(devices, n, Some(d)),
                (Some(n), Err(e)) => e == DeviceError::MicrophoneNotFound && spec_resolve_device(devices, n, None),
                (None, Ok(_)) => false,
                (None, Err(e)) => e == DeviceError::MicrophoneNotFound,
            },
        }
    }
}

/// `spec_resolve_device` describes one result for each name and list.
proof fn lemma_resolve_unique(devices: Seq<AudioDeviceInfo>, name: Seq<char>, a: Option<AudioDeviceInfo>, b: Option<AudioDeviceInfo>)
    requires
        spec_resolve_device(devices, name, a),
        spec_resolve_device(devices, name, b),
    ensures
        a == b,
{
    let t = trim(name);
    if t.len() != 0 {
        if exists|i: int| 0 <= i < devices.len() && #[trigger] devices[i].name@ == t {
            lemma_first_unique(devices, crate::devices::name_is(t), a, b);
        } else {
            lemma_first_unique(devices, crate::devices::name_contains_lower(t), a, b);
        }
    }
}

proof fn lemma_first_unique(devices: Seq<AudioDeviceInfo>, p: spec_fn(Seq<char>) -> bool, a: Option<AudioDeviceInfo>, b: Option<AudioDeviceInfo>)
    requires
        is_first_where(devices, p, a),
        is_first_where(devices, p, b),
    ensures
        a == b,
{
    if a is Some && b is Some {
        let i = choose|i: int| 0 <= i < devices.len() && devices[i] == a->0 && p(devices[i].name@) && forall|k: int| 0 <= k < i ==> !p(#[trigger] devices[k].name@);
        let j = choose|j: int| 0 <= j < devices.len() && devices[j] == b->0 && p(devices[j].name@) && forall|k: int| 0 <= k < j ==> !p(#[trigger] devices[k].name@);
        if i < j {
            assert(!p(devices[i].name@));
        } else if j < i {
            assert(!p(devices[j].name@));
        }
    } else if a is Some {
        let i = choose|i: int| 0 <= i < devices.len() && devices[i] == a->0 && p(devices[i].name@) && forall|k: int| 0 <= k < i ==> !p(#[trigger] devices[k].name@);
        assert(!p(devices[i].name@));
    } else if b is Some {
        let j = choose|j: int| 0 <= j < devices.len() && devices[j] == b->0 && p(devices[j].name@) && forall|k: int| 0 <= k < j ==> !p(#[trigger] devices[k].name@);
        assert(!p(devices[j].name@));
    }
}

/// Chooses the device for a recording (see `spec_pick_device`); `devices` is the current
/// device list and `default_input` the name of the host's default input device.
pub fn pick_device(
    mode: AudioMode,
    device_name: &str,
    devices: &[AudioDeviceInfo],
    default_input: Option<&str>,
) -> (r: Result<AudioDeviceInfo, DeviceError>)
    ensures
        spec_pick_device(mode, device_name@, devices@, match default_input { Some(n) => Some(n@), None => None }, r),
{
    let nv = chars_of(device_name);
    let t = trim_chars(nv.as_slice());
    if t.len() != 0 {
        let found = resolve_device(device_name, devices);
        match found {
            Some(d) => return Ok(d),
            None => {
                proof {
                    assert forall|d: AudioDeviceInfo| !spec_resolve_device(devices@, device_name@, Some(d)) by {
                        if spec_resolve_device(devices@, device_name@, Some(d)) {
                            lemma_resolve_unique(devices@, device_name@, Some(d), None);
                        }
                    }
                }
            },
        }
    }
    match mode {
        AudioMode::Loopback => match find_loopback_device(devices) {
            Some(d) => Ok(d),
            None => Err(DeviceError::LoopbackNotFound),
        },
        AudioMode::Mic => match default_input {
            Some(n) => match resolve_device(n, devices) {
                Some(d) => Ok(d),
                None => Err(DeviceError::MicrophoneNotFound),
            },
            None => Err(DeviceError::MicrophoneNotFound),
        },
    }
}

/// Whether the device a recording uses is opened among the host's output devices:
/// listed as an output, captured as loopback, or named like a loopback device.
pub fn opens_as_output(info: &AudioDeviceInfo, mode: AudioMode) -> (r: bool)
    ensures
        r == (info.is_output || mode == AudioMode::Loopback || spec_is_loopback_name(info.name@)),
{
    info.is_output || mode == AudioMode::Loopback || is_loopback_name(info.name.as_str())
}

/// Whether a host output device named `host_name` is the listed device `listed_name`
/// (whose label may carry a suffix after the host's name).
pub fn output_name_matches(listed_name: &str, host_name: &str) -> (r: bool)
    ensures
        r == (host_name@.len() <= listed_name@.len() && listed_name@.subrange(0, host_name@.len() as int) == host_name@),
{
    let l = chars_of(listed_name);
    let h = chars_of(host_name);
    if h.len() > l.len() {
        return false;
    }
    let mut i: usize = 0;
    while i < h.len()
        invariant
            h.len() <= l.len(),
            l@ == listed_name@,
            h@ == host_name@,
            i <= h.len(),
            forall|k: int| 0 <= k < i ==> l@[k] == h@[k],
        decreases h.len() - i,
    {
        if l[i] != h[i] {
            proof {
                assert(l@.subrange(0, h@.len() as int)[i as int] != h@[i as int]);
                assert(!(l@.subrange(0, h@.len() as int) =~= h@));
                assert(!(listed_name@.subrange(0, host_name@.len() as int) =~= host_name@));
            }
            return false;
        }
        i = i + 1;
    }
    assert(l@.subrange(0, h@.len() as int) =~= h@);
    true
}

/// Down-mixing averages every channel of a frame: output sample `j` is the sum of all
/// the samples of frame `j` (the `channels` samples from `j * channels` on, fewer only
/// in a short last frame) divided by `channels`, rounded toward zero; and there is one
/// output sample per frame.
pub proof fn lemma_downmix_averages_whole_frame(samples: Seq<i16>, channels: nat, j: int)
    requires
        channels >= 2,
        0 <= j,
        j * channels < samples.len(),
    ensures
        downmix(samples, channels).len() == (samples.len() + channels - 1) / (channels as int),
        j < downmix(samples, channels).len(),
        ({
            let a = j * channels;
            let b = if a + channels <= samples.len() { a + channels } else { samples.len() as int };
            let total = sum_range(samples, a, b);
            let v = downmix(samples, channels)[j] as int;
            &&& total >= 0 ==> channels * v <= total < channels * (v + 1)
            &&& total < 0 ==> channels * (v - 1) < total <= channels * v
        }),
{
    let c = channels as int;
    let n = samples.len() as int;
    assert(j < (n + c - 1) / c) by (nonlinear_arith)
        requires j * c < n, c >= 2, j >= 0;
    let a = j * c;
    assert((j + 1) * c == a + c) by (nonlinear_arith)
        requires a == j * c;
    let b = if a + c <= n { a + c } else { n };
    assert(0 <= a) by (nonlinear_arith)
        requires a == j * c, j >= 0, c >= 2;
    let total = sum_range(samples, a, b);
    lemma_sum_range_bounds(samples, a, b);
    assert(-32768 * (b - a) >= -32768 * c) by (nonlinear_arith)
        requires b - a <= c, b - a >= 0;
    assert(32767 * (b - a) <= 32767 * c) by (nonlinear_arith)
        requires b - a <= c, b - a >= 0;
    lemma_average_bounds(total, c);
    let d = div_toward_zero(total, c);
    assert(downmix(samples, channels)[j] == d as i16);
    assert(downmix(samples, channels)[j] as int == d);
    if total >= 0 {
        assert(c * (total / c) <= total < c * (total / c + 1)) by (nonlinear_arith)
            requires total >= 0, c >= 2;
    } else {
        let m = -total;
        assert(c * (m / c) <= m < c * (m / c + 1)) by (nonlinear_arith)
            requires m > 0, c >= 2;
        assert(c * (-(m / c) - 1) < total <= c * (-(m / c))) by (nonlinear_arith)
            requires c * (m / c) <= m, m < c * (m / c + 1), total == -m;
    }
}

/// The configured device comes first, in every mode: whenever the trimmed configured
/// name designates a device of the list, that device is the one recorded from (the
/// first loopback device and the default microphone only stand in when it designates
/// none).
pub proof fn lemma_configured_device_wins(
    mode: AudioMode,
    device_name: Seq<char>,
    devices: Seq<AudioDeviceInfo>,
    default_input: Option<Seq<char>>,
    r: Result<AudioDeviceInfo, DeviceError>,
    d: AudioDeviceInfo,
)
    requires
        spec_pick_device(mode, device_name, devices, default_input, r),
        spec_resolve_device(devices, device_name, Some(d)),
    ensures
        r == Ok::<AudioDeviceInfo, DeviceError>(d),
{
    let t = trim(device_name);
    assert(t.len() != 0);
    let e = r->Ok_0;
    lemma_resolve_unique(devices, device_name, Some(e), Some(d));
}

/// In particular, a configured name that is exactly the name of a listed device, up to
/// surrounding blanks, selects the first device with that name, in every mode.
pub proof fn lemma_exact_configured_name_wins(
    mode: AudioMode,
    device_name: Seq<char>,
    devices: Seq<AudioDeviceInfo>,
    default_input: Option<Seq<char>>,
    r: Result<AudioDeviceInfo, DeviceError>,
    i: int,
)
    requires
        spec_pick_device(mode, device_name, devices, default_input, r),
        trim(device_name).len() != 0,
        0 <= i < devices.len(),
        devices[i].name@ == trim(device_name),
        forall|k: int| 0 <= k < i ==> devices[k].name@ != trim(device_name),
    ensures
        r == Ok::<AudioDeviceInfo, DeviceError>(devices[i]),
{
    let t = trim(device_name);
    let p = crate::devices::name_is(t);
    assert(p(devices[i].name@));
    assert forall|k: int| 0 <= k < i implies !p(#[trigger] devices[k].name@) by {}
    assert(is_first_where(devices, p, Some(devices[i])));
    assert(spec_resolve_device(devices, device_name, Some(devices[i])));
    lemma_configured_device_wins(mode, device_name, devices, default_input, r, devices[i]);
}

} // verus!
