//! Audio devices as the capture layer reports them, and how the program recognises
//! loopback and microphone devices by name.

use vstd::prelude::*;
use crate::text::{chars_of, contains, contains_chars, extend_chars, lowercase, string_of, to_lowercase, trim, trim_chars};

verus! {

/// One capture device, numbered in the order the devices were listed.
#[derive(Clone, Debug, PartialEq, Eq)]
pub struct AudioDeviceInfo {
    pub index: usize,
    pub name: String,
    pub channels: u16,
    pub is_output: bool,
}

/// A device as the audio host reports it: its name, when the host could read one,
/// and the channel count of its default configuration, when it has one.
#[derive(Clone, Debug)]
pub struct RawDevice {
    pub name: Option<String>,
    pub channels: Option<u16>,
}

/// A field-by-field copy of `d`.
pub fn copy_device(d: &AudioDeviceInfo) -> (r: AudioDeviceInfo)
    ensures
        r == *d,
{
    AudioDeviceInfo { index: d.index, name: d.name.clone(), channels: d.channels, is_output: d.is_output }
}

/// The lower-cased name holds one of the words that mark a loopback device.
pub open spec fn loopback_match(lower: Seq<char>) -> bool {
    ||| contains(lower, "loopback"@)
    ||| contains(lower, "stereo mix"@)
    ||| contains(lower, "стерео микшер"@)
    ||| contains(lower, "стереомикшер"@)
    ||| contains(lower, "what u hear"@)
    ||| contains(lower, "what you hear"@)
    ||| contains(lower, "wave out"@)
    ||| contains(lower, "mixout"@)
    ||| contains(lower, "mix out"@)
    ||| contains(lower, "внутреннее аудио"@)
    ||| contains(lower, "output mix"@)
    ||| contains(lower, "cable output"@)
    ||| contains(lower, "virtual audio"@)
    ||| contains(lower, "blackhole"@)
    ||| contains(lower, "monitor"@)
}

/// A device name marks a loopback (system output capture) device.
pub open spec fn spec_is_loopback_name(name: Seq<char>) -> bool {
    loopback_match(lowercase(name))
}

/// A device name marks a microphone: it names a microphone and no loopback device.
pub open spec fn spec_is_mic_name(name: Seq<char>) -> bool {
    let lower = lowercase(name);
    &&& !spec_is_loopback_name(lower)
    &&& (contains(lower, "mic"@) || contains(lower, "microphone"@) || contains(lower, "микрофон"@))
}

fn has(hay: &[char], word: &str) -> (r: bool)
    ensures
        r == contains(hay@, word@),
{
    let w = chars_of(word);
    contains_chars(hay, w.as_slice())
}

fn loopback_match_chars(lower: &[char]) -> (r: bool)
    ensures
        r == loopback_match(lower@),
{
    has(lower, "loopback") || has(lower, "stereo mix") || has(lower, "стерео микшер")
        || has(lower, "стереомикшер") || has(lower, "what u hear") || has(lower, "what you hear")
        || has(lower, "wave out") || has(lower, "mixout") || has(lower, "mix out")
        || has(lower, "внутреннее аудио") || has(lower, "output mix") || has(lower, "cable output")
        || has(lower, "virtual audio") || has(lower, "blackhole") || has(lower, "monitor")
}

/// Whether `name`, lower-cased, holds one of the loopback words.
pub fn is_loopback_name(name: &str) -> (r: bool)
    ensures
        r == spec_is_loopback_name(name@),
{
    let lower = to_lowercase(name);
    let lv = chars_of(lower.as_str());
    loopback_match_chars(lv.as_slice())
}

/// Whether `name` names a microphone and no loopback device.
pub fn is_mic_name(name: &str) -> (r: bool)
    ensures
        r == spec_is_mic_name(name@),
{
    let lower = to_lowercase(name);
    if is_loopback_name(lower.as_str()) {
        return false;
    }
    let lv = chars_of(lower.as_str());
    has(lv.as_slice(), "mic") || has(lv.as_slice(), "microphone") || has(lv.as_slice(), "микрофон")
}

/// `r` is the first device of `devices` whose name satisfies `p`, or `None` when none does.
pub open spec fn is_first_where(devices: Seq<AudioDeviceInfo>, p: spec_fn(Seq<char>) -> bool, r: Option<AudioDeviceInfo>) -> bool {
    match r {
        Some(d) => exists|i: int|
            0 <= i < devices.len() && devices[i] == d && p(devices[i].name@) && forall|k: int|
                0 <= k < i ==> !p(#[trigger] devices[k].name@),
        None => forall|k: int| 0 <= k < devices.len() ==> !p(#[trigger] devices[k].name@),
    }
}

/// The first loopback device of the list, if any.
pub fn find_loopback_device(devices: &[AudioDeviceInfo]) -> (r: Option<AudioDeviceInfo>)
    ensures
        is_first_where(devices@, |n: Seq<char>| spec_is_loopback_name(n), r),
{
    let mut i: usize = 0;
    while i < devices.len()
        invariant
            i <= devices.len(),
            forall|k: int| 0 <= k < i ==> !spec_is_loopback_name(#[trigger] devices@[k].name@),
        decreases devices.len() - i,
    {
        if is_loopback_name(devices[i].name.as_str()) {
            return Some(copy_device(&devices[i]));
        }
        i = i + 1;
    }
    None
}

/// The first microphone of the list, if any.
pub fn find_mic_device(devices: &[AudioDeviceInfo]) -> (r: Option<AudioDeviceInfo>)
    ensures
        is_first_where(devices@, |n: Seq<char>| spec_is_mic_name(n), r),
{
    let mut i: usize = 0;
    while i < devices.len()
        invariant
            i <= devices.len(),
            forall|k: int| 0 <= k < i ==> !spec_is_mic_name(#[trigger] devices@[k].name@),
        decreases devices.len() - i,
    {
        if is_mic_name(devices[i].name.as_str()) {
            return Some(copy_device(&devices[i]));
        }
        i = i + 1;
    }
    None
}

/// Names equal to `t`.
pub open spec fn name_is(t: Seq<char>) -> spec_fn(Seq<char>) -> bool {
    |n: Seq<char>| n == t
}

/// Names whose lower-cased form contains the lower-cased `t`.
pub open spec fn name_contains_lower(t: Seq<char>) -> spec_fn(Seq<char>) -> bool {
    |n: Seq<char>| contains(lowercase(n), lowercase(t))
}

/// The device that a configured name designates: the first device with exactly the
/// trimmed name, else the first whose lower-cased name contains the lower-cased
/// trimmed name; `None` for a blank name.
pub open spec fn spec_resolve_device(devices: Seq<AudioDeviceInfo>, name: Seq<char>, r: Option<AudioDeviceInfo>) -> bool {
    let target = trim(name);
    if target.len() == 0 {
        r is None
    } else if exists|i: int| 0 <= i < devices.len() && #[trigger] devices[i].name@ == target {
        is_first_where(devices, name_is(target), r)
    } else {
        is_first_where(devices, name_contains_lower(target), r)
    }
}

fn same_chars(a: &[char], b: &[char]) -> (r: bool)
    ensures
        r == (a@ == b@),
{
    if a.len() != b.len() {
        return false;
    }
    let mut i: usize = 0;
    while i < a.len()
        invariant
            a.len() == b.len(),
            i <= a.len(),
            forall|k: int| 0 <= k < i ==> a@[k] == b@[k],
        decreases a.len() - i,
    {
        if a[i] != b[i] {
            return false;
        }
        i = i + 1;
    }
    assert(a@ =~= b@);
    true
}

/// Finds the device that a configured name designates (see `spec_resolve_device`).
pub fn resolve_device(name: &str, devices: &[AudioDeviceInfo]) -> (r: Option<AudioDeviceInfo>)
    ensures
        spec_resolve_device(devices@, name@, r),
{
    let nv = chars_of(name);
    let target = trim_chars(nv.as_slice());
    if target.len() == 0 {
        return None;
    }
    let mut i: usize = 0;
    while i < devices.len()
        invariant
            i <= devices.len(),
            target@ == trim(name@),
            target@.len() > 0,
            forall|k: int| 0 <= k < i ==> #[trigger] devices@[k].name@ != target@,
        decreases devices.len() - i,
    {
        let dn = chars_of(devices[i].name.as_str());
        if same_chars(dn.as_slice(), target.as_slice()) {
            let d = copy_device(&devices[i]);
            proof {
                let t = trim(name@);
                assert(devices@[i as int].name@ == t);
                let p = name_is(t);
                assert(p(devices@[i as int].name@));
                assert(devices@[i as int] == d);
                assert(forall|k: int| 0 <= k < i ==> !p(#[trigger] devices@[k].name@));
            }
            return Some(d);
        }
        i = i + 1;
    }
    let ts = string_of(target.as_slice());
    let tl = to_lowercase(ts.as_str());
    let tlv = chars_of(tl.as_str());
    let mut j: usize = 0;
    while j < devices.len()
        invariant
            j <= devices.len(),
            target@ == trim(name@),
            target@.len() > 0,
            tlv@ == lowercase(target@),
            forall|k: int| 0 <= k < devices.len() ==> #[trigger] devices@[k].name@ != target@,
            forall|k: int| 0 <= k < j ==> !contains(lowercase(#[trigger] devices@[k].name@), lowercase(target@)),
        decreases devices.len() - j,
    {
        let dl = to_lowercase(devices[j].name.as_str());
        let dlv = chars_of(dl.as_str());
        if contains_chars(dlv.as_slice(), tlv.as_slice()) {
            let d = copy_device(&devices[j]);
            proof {
                let t = trim(name@);
                assert(!exists|k: int| 0 <= k < devices@.len() && #[trigger] devices@[k].name@ == t);
                let p = name_contains_lower(t);
                assert(p(devices@[j as int].name@));
                assert(devices@[j as int] == d);
                assert(forall|k: int| 0 <= k < j ==> !p(#[trigger] devices@[k].name@));
            }
            return Some(d);
        }
        j = j + 1;
    }
    proof {
        let t = trim(name@);
        assert(!exists|k: int| 0 <= k < devices@.len() && #[trigger] devices@[k].name@ == t);
    }
    None
}

/// How many of the raw devices have a name.
pub open spec fn named_count(raws: Seq<RawDevice>) -> nat
    decreases raws.len(),
{
    if raws.len() == 0 {
        0
    } else {
        named_count(raws.drop_last()) + if raws.last().name is Some { 1nat } else { 0nat }
    }
}

/// A listed device as plain values: index, name, channels, whether it is an output.
pub open spec fn device_view(d: AudioDeviceInfo) -> (nat, Seq<char>, u16, bool) {
    (d.index as nat, d.name@, d.channels, d.is_output)
}

/// The listed devices for `raws`: those with a name, numbered from `start`, with
/// `default_channels` where no channel count is known, their names followed by `suffix`.
pub open spec fn device_entries(raws: Seq<RawDevice>, start: nat, is_output: bool, default_channels: u16, suffix: Seq<char>) -> Seq<(nat, Seq<char>, u16, bool)>
    decreases raws.len(),
{
    if raws.len() == 0 {
        Seq::empty()
    } else {
        let before = device_entries(raws.drop_last(), start, is_output, default_channels, suffix);
        match raws.last().name {
            None => before,
            Some(n) => before.push((
                start + named_count(raws.drop_last()),
                n@ + suffix,
                match raws.last().channels {
                    Some(c) => c,
                    None => default_channels,
                },
                is_output,
            )),
        }
    }
}

fn append_entries(out: &mut Vec<AudioDeviceInfo>, raws: &[RawDevice], start: usize, is_output: bool, default_channels: u16, suffix: &str) -> (next: usize)
    requires
        start + raws.len() <= usize::MAX,
    ensures
        next == start + named_count(raws@),
        final(out)@.map_values(|d: AudioDeviceInfo| device_view(d)) == old(out)@.map_values(|d: AudioDeviceInfo| device_view(d)) + device_entries(raws@, start as nat, is_output, default_channels, suffix@),
{
    let sv = chars_of(suffix);
    let mut index = start;
    let mut k: usize = 0;
    while k < raws.len()
        invariant
            k <= raws.len(),
            start + raws.len() <= usize::MAX,
            sv@ == suffix@,
            index == start + named_count(raws@.subrange(0, k as int)),
            named_count(raws@.subrange(0, k as int)) <= k,
            out@.map_values(|d: AudioDeviceInfo| device_view(d)) == old(out)@.map_values(|d: AudioDeviceInfo| device_view(d)) + device_entries(raws@.subrange(0, k as int), start as nat, is_output, default_channels, suffix@),
        decreases raws.len() - k,
    {
        let ghost before = out@;
        assert(raws@.subrange(0, k + 1).drop_last() =~= raws@.subrange(0, k as int));
        assert(raws@.subrange(0, k + 1).last() == raws@[k as int]);
        match &raws[k].name {
            Some(n) => {
                let mut label = chars_of(n.as_str());
                extend_chars(&mut label, sv.as_slice());
                let channels = match raws[k].channels {
                    Some(c) => c,
                    None => default_channels,
                };
                out.push(AudioDeviceInfo { index, name: string_of(label.as_slice()), channels, is_output });
                assert(out@.map_values(|d: AudioDeviceInfo| device_view(d)) =~= before.map_values(|d: AudioDeviceInfo| device_view(d)).push(device_view(out@.last())));
                index = index + 1;
            },
            None => {},
        }
        k = k + 1;
    }
    assert(raws@.subrange(0, raws.len() as int) =~= raws@);
    index
}

/// The capture devices as listed for the user: the named input devices first, then
/// the named output devices, labelled `" [loopback]"`, numbered consecutively from 0.
/// Inputs without a known channel count get 1 channel, outputs 2.
pub fn list_input_devices(inputs: &[RawDevice], outputs: &[RawDevice]) -> (r: Vec<AudioDeviceInfo>)
    requires
        inputs.len() + outputs.len() <= usize::MAX,
    ensures
        r@.map_values(|d: AudioDeviceInfo| device_view(d)) == device_entries(inputs@, 0, false, 1, Seq::empty())
            + device_entries(outputs@, named_count(inputs@), true, 2, " [loopback]"@),
{
    let mut out: Vec<AudioDeviceInfo> = Vec::new();
    assert(out@.map_values(|d: AudioDeviceInfo| device_view(d)) =~= Seq::empty());
    let next = append_entries(&mut out, inputs, 0, false, 1, "");
    proof {
        lemma_named_count_le(inputs@);
        assert(""@ =~= Seq::<char>::empty()) by {
            reveal_strlit("");
        }
    }
    append_entries(&mut out, outputs, next, true, 2, " [loopback]");
    out
}

proof fn lemma_named_count_le(raws: Seq<RawDevice>)
    ensures
        named_count(raws) <= raws.len(),
    decreases raws.len(),
{
    if raws.len() > 0 {
        lemma_named_count_le(raws.drop_last());
    }
}

} // verus!
