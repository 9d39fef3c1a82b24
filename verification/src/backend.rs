//! Backend-neutral descriptions of audio hosts, devices and stream configurations.

use vstd::prelude::*;
use crate::text::{copy_text, eq_ignore_ascii_case, eq_ignore_case};

verus! {

/// Sample rate every stream is processed at; devices running at another rate are resampled.
pub const TARGET_SAMPLE_RATE: u32 = 48000;

/// Errors reported by audio backends and device selection.
#[derive(Debug)]
pub enum AudioError {
    /// The device is gone (unplugged or invalidated).
    DeviceNotAvailable,
    /// The device rejected the requested stream configuration.
    UnsupportedConfig,
    /// The device is held exclusively by another program or access was denied.
    DeviceBusyOrDenied,
    /// Any other failure, with its description.
    Other(String),
}

impl AudioError {
    /// A copy of this error.
    pub fn duplicate(&self) -> (r: AudioError)
        ensures
            r == *self,
    {
        match self {
            AudioError::DeviceNotAvailable => AudioError::DeviceNotAvailable,
            AudioError::UnsupportedConfig => AudioError::UnsupportedConfig,
            AudioError::DeviceBusyOrDenied => AudioError::DeviceBusyOrDenied,
            AudioError::Other(msg) => AudioError::Other(msg.clone()),
        }
    }

    /// The user-facing message of this error.
    pub fn message(&self) -> (r: String)
        ensures
            self matches AudioError::Other(m) ==> r@ == m@,
    {
        match self {
            AudioError::DeviceNotAvailable => copy_text(
                "Audio device is not available, check if it is plugged in properly",
            ),
            AudioError::UnsupportedConfig => copy_text(
                "Unsupported audio configuration, try a different audio device",
            ),
            AudioError::DeviceBusyOrDenied => copy_text("Audio device is busy or access was denied"),
            AudioError::Other(msg) => msg.clone(),
        }
    }
}

/// The direction a device supports.
#[derive(Debug, Clone, Copy, PartialEq, Eq, Structural)]
pub enum DeviceDirection {
    Input,
    Output,
    Duplex,
    Unknown,
}

/// Sample formats a device can deliver or accept.
#[derive(Debug, Clone, Copy, PartialEq, Eq, Structural)]
pub enum SampleFormat {
    F32,
    I16,
    U16,
    Other,
}

/// Device description without depending on a particular backend's types.
pub struct DeviceDescription {
    pub name: String,
    pub driver: Option<String>,
    pub direction: DeviceDirection,
}

/// Represents a supported stream configuration range.
#[derive(Clone, Copy)]
pub struct StreamConfigRange {
    pub channels: u16,
    pub min_sample_rate: u32,
    pub max_sample_rate: u32,
    pub sample_format: SampleFormat,
}

/// Buffer size for audio streams.
#[derive(Debug, Clone, Copy, PartialEq, Eq, Structural)]
pub enum BufferSize {
    Default,
    Fixed(u32),
}

/// A concrete stream configuration.
#[derive(Debug, Clone, Copy)]
pub struct StreamConfig {
    pub channels: u16,
    pub sample_rate: u32,
    pub sample_format: SampleFormat,
    pub buffer_size: BufferSize,
}

impl StreamConfigRange {
    /// The configuration of this range at `sample_rate`, with the backend's default buffer size.
    pub open spec fn spec_at_rate(self, sample_rate: u32) -> StreamConfig {
        StreamConfig {
            channels: self.channels,
            sample_rate,
            sample_format: self.sample_format,
            buffer_size: BufferSize::Default,
        }
    }

    pub fn with_sample_rate(&self, sample_rate: u32) -> (r: StreamConfig)
        ensures
            r == self.spec_at_rate(sample_rate),
    {
        StreamConfig {
            channels: self.channels,
            sample_rate,
            sample_format: self.sample_format,
            buffer_size: BufferSize::Default,
        }
    }
}

/// What a backend reports to describe a device: its name, its driver if known, and further
/// lines of description.
pub struct DescriptionLines {
    pub name: String,
    pub driver: Option<String>,
    pub extended: Vec<String>,
}

/// The texts of a list of strings.
pub open spec fn texts(v: Seq<String>) -> Seq<Seq<char>> {
    v.map_values(|s: String| s@)
}

/// The name a device is shown by: its name, followed by its driver in parentheses where the
/// driver is known and is not the name again (ignoring ASCII case). Without a description it
/// is empty.
pub open spec fn spec_display_name(d: Option<DescriptionLines>) -> Seq<char> {
    match d {
        None => Seq::empty(),
        Some(d) => match d.driver {
            Some(drv) => if eq_ignore_case(drv@, d.name@) {
                d.name@
            } else {
                d.name@ + " ("@ + drv@ + ")"@
            },
            None => d.name@,
        },
    }
}

/// Appends `x` unless it is already there.
pub open spec fn push_new(s: Seq<Seq<char>>, x: Seq<char>) -> Seq<Seq<char>> {
    if s.contains(x) {
        s
    } else {
        s.push(x)
    }
}

/// Appends each of `xs` in turn unless it is already there.
pub open spec fn push_all_new(s: Seq<Seq<char>>, xs: Seq<Seq<char>>) -> Seq<Seq<char>>
    decreases xs.len(),
{
    if xs.len() == 0 {
        s
    } else {
        push_new(push_all_new(s, xs.drop_last()), xs.last())
    }
}

/// Everything a device may have been stored under, in order: the display name (when not
/// empty), the name, the driver and the further description lines.
pub open spec fn identifier_candidates(d: Option<DescriptionLines>) -> Seq<Seq<char>> {
    let display = spec_display_name(d);
    let first: Seq<Seq<char>> = if display.len() > 0 {
        seq![display]
    } else {
        seq![]
    };
    match d {
        None => first,
        Some(d) => first + seq![d.name@] + match d.driver {
            Some(v) => seq![v@],
            None => Seq::<Seq<char>>::empty(),
        } + texts(d.extended@),
    }
}

/// The names a device is matched by, each once, in the order of its candidates.
pub open spec fn spec_device_identifiers(d: Option<DescriptionLines>) -> Seq<Seq<char>> {
    push_all_new(Seq::empty(), identifier_candidates(d))
}

/// The name a device is shown by.
pub fn device_display_name(d: Option<&DescriptionLines>) -> (r: String)
    ensures
        r@ == spec_display_name(match d {
            Some(x) => Some(*x),
            None => None,
        }),
{
    match d {
        None => String::new(),
        Some(desc) => match &desc.driver {
            Some(drv) => {
                if eq_ignore_ascii_case(drv.as_str(), desc.name.as_str()) {
                    desc.name.clone()
                } else {
                    let shown = desc.name.clone().concat(" (");
                    let shown = shown.concat(drv.as_str());
                    shown.concat(")")
                }
            },
            None => desc.name.clone(),
        },
    }
}

fn has_text(v: &Vec<String>, s: &String) -> (r: bool)
    ensures
        r == texts(v@).contains(s@),
{
    let mut i: usize = 0;
    while i < v.len()
        invariant
            i <= v.len(),
            forall|k: int| 0 <= k < i ==> (#[trigger] v@[k])@ != s@,
        decreases v.len() - i,
    {
        if v[i] == *s {
            assert(texts(v@)[i as int] == s@);
            return true;
        }
        i += 1;
    }
    assert forall|k: int| 0 <= k < texts(v@).len() implies texts(v@)[k] != s@ by {
        assert(v@[k]@ != s@);
    }
    false
}

fn push_if_new(ids: &mut Vec<String>, x: String)
    ensures
        texts(final(ids)@) == push_new(texts(old(ids)@), x@),
{
    if !has_text(ids, &x) {
        let ghost before = ids@;
        ids.push(x);
        assert(texts(ids@) =~= texts(before).push(x@));
    }
}

/// The names a device is matched by: the display name (when not empty), the name, the driver
/// and the further description lines, each once. Configurations saved under an older naming
/// scheme still find their device through these.
pub fn device_identifiers(d: Option<&DescriptionLines>) -> (r: Vec<String>)
    ensures
        texts(r@) == spec_device_identifiers(match d {
            Some(x) => Some(*x),
            None => None,
        }),
{
    let ghost dv = match d {
        Some(x) => Some(*x),
        None => None,
    };
    let ghost cands = identifier_candidates(dv);
    let mut ids: Vec<String> = Vec::new();
    let display = device_display_name(d);
    let ghost first: Seq<Seq<char>> = if display@.len() > 0 {
        seq![display@]
    } else {
        seq![]
    };
    let ghost done: Seq<Seq<char>> = Seq::empty();
    assert(texts(ids@) =~= push_all_new(Seq::empty(), done));
    if !display.as_str().is_empty() {
        push_if_new(&mut ids, display);
        proof {
            done = done.push(first[0]);
            assert(done.drop_last() =~= Seq::<Seq<char>>::empty());
            assert(texts(ids@) == push_all_new(Seq::empty(), done));
        }
    }
    assert(done =~= first);
    match d {
        None => {
            assert(cands =~= first);
        },
        Some(desc) => {
            push_if_new(&mut ids, desc.name.clone());
            proof {
                let prev = done;
                done = done.push(desc.name@);
                assert(done.drop_last() =~= prev);
                assert(texts(ids@) == push_all_new(Seq::empty(), done));
            }
            match &desc.driver {
                Some(drv) => {
                    push_if_new(&mut ids, drv.clone());
                    proof {
                        let prev = done;
                        done = done.push(drv@);
                        assert(done.drop_last() =~= prev);
                        assert(texts(ids@) == push_all_new(Seq::empty(), done));
                    }
                },
                None => {},
            }
            let ghost head = done;
            assert(head + texts(desc.extended@).take(0) =~= head);
            assert(head + texts(desc.extended@) =~= cands);
            let mut j: usize = 0;
            while j < desc.extended.len()
                invariant
                    j <= desc.extended.len(),
                    head + texts(desc.extended@) == cands,
                    texts(ids@) == push_all_new(Seq::empty(), head + texts(desc.extended@).take(
                        j as int,
                    )),
                decreases desc.extended.len() - j,
            {
                let line = desc.extended[j].clone();
                push_if_new(&mut ids, line);
                proof {
                    let next = head + texts(desc.extended@).take(j + 1);
                    assert(next.drop_last() =~= head + texts(desc.extended@).take(j as int));
                    assert(next.last() == desc.extended@[j as int]@);
                }
                j += 1;
            }
            assert(texts(desc.extended@).take(j as int) =~= texts(desc.extended@));
        },
    }
    ids
}

/// Frames per chunk a stream at `sample_rate` is resampled in, or `None` where the stream runs
/// at the target rate and needs no resampling: the stream's fixed buffer size, else 1024.
pub fn resample_chunk_size(sample_rate: u32, buffer_size: BufferSize) -> (r: Option<usize>)
    ensures
        sample_rate == TARGET_SAMPLE_RATE ==> r is None,
        sample_rate != TARGET_SAMPLE_RATE ==> r == Some(match buffer_size {
            BufferSize::Fixed(n) => n as usize,
            BufferSize::Default => 1024usize,
        }),
{
    if sample_rate == TARGET_SAMPLE_RATE {
        None
    } else {
        match buffer_size {
            BufferSize::Fixed(n) => Some(n as usize),
            BufferSize::Default => Some(1024),
        }
    }
}

/// No text occurs twice.
pub open spec fn no_dup(s: Seq<Seq<char>>) -> bool {
    forall|i: int, j: int| 0 <= i < j < s.len() ==> s[i] != s[j]
}

proof fn lemma_push_all_new(s: Seq<Seq<char>>, xs: Seq<Seq<char>>)
    requires
        no_dup(s),
    ensures
        no_dup(push_all_new(s, xs)),
        forall|x: Seq<char>| #[trigger] push_all_new(s, xs).contains(x) <==> (s.contains(x)
            || xs.contains(x)),
    decreases xs.len(),
{
    if xs.len() > 0 {
        let prev = push_all_new(s, xs.drop_last());
        lemma_push_all_new(s, xs.drop_last());
        let r = push_all_new(s, xs);
        assert(r == push_new(prev, xs.last()));
        assert forall|x: Seq<char>| #[trigger] r.contains(x) <==> (s.contains(x) || xs.contains(x)) by {
            if xs.contains(x) && !xs.drop_last().contains(x) {
                let k = choose|k: int| 0 <= k < xs.len() && xs[k] == x;
                if k < xs.len() - 1 {
                    assert(xs.drop_last()[k] == x);
                }
            }
            if xs.drop_last().contains(x) {
                let k = choose|k: int| 0 <= k < xs.drop_last().len() && xs.drop_last()[k] == x;
                assert(xs[k] == x);
            }
            if !prev.contains(xs.last()) && r.contains(x) && !prev.contains(x) {
                assert(r == prev.push(xs.last()));
                let k = choose|k: int| 0 <= k < r.len() && r[k] == x;
                if k < prev.len() {
                    assert(prev[k] == x);
                }
            }
            if prev.contains(x) && !prev.contains(xs.last()) {
                let k = choose|k: int| 0 <= k < prev.len() && prev[k] == x;
                assert(prev.push(xs.last())[k] == x);
            }
            if x == xs.last() {
                assert(xs[xs.len() - 1] == x);
                if !prev.contains(x) {
                    assert(prev.push(x)[prev.len() as int] == x);
                }
            }
        }
    }
}

/// A device's identifiers name each of its candidates, and each only once.
pub proof fn lemma_identifiers_name_each_candidate_once(d: Option<DescriptionLines>)
    ensures
        no_dup(spec_device_identifiers(d)),
        forall|x: Seq<char>| #[trigger] spec_device_identifiers(d).contains(x)
            <==> identifier_candidates(d).contains(x),
{
    lemma_push_all_new(Seq::empty(), identifier_candidates(d));
}

/// A running audio stream. Dropping it stops the stream.
pub trait AudioStream {
    fn play(&self) -> Result<(), AudioError>;
}

} // verus!
