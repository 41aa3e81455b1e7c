//! Models of the RTP parameter types: codecs, capabilities, encodings and
//! the sender/receiver/transceiver handles built over them.

use vstd::prelude::*;

use crate::NativePtr;
use crate::api::media_types::MediaType;
use crate::cxxstd::{MapStringString, StringVector};
use crate::error::RtcResult;

verus! {

/// A codec entry of RTP parameters: the media kind, the codec name, and
/// its optional clock rate, channel count and format parameters.
pub struct RtpCodec {
    kind: MediaType,
    name: String,
    clock_rate: Option<i32>,
    num_channels: Option<i32>,
    parameters: MapStringString,
}

impl RtpCodec {
    /// An empty audio codec entry.
    pub fn new() -> (r: RtpCodec)
        ensures
            r.spec_kind() == MediaType::Audio,
            r.spec_name() == Seq::<char>::empty(),
            r.spec_clock_rate() is None,
            r.spec_num_channels() is None,
            r.spec_params().len() == 0,
            r.wf(),
    {
        RtpCodec {
            kind: MediaType::Audio,
            name: String::new(),
            clock_rate: None,
            num_channels: None,
            parameters: MapStringString::new(),
        }
    }

    /// The media kind.
    pub closed spec fn spec_kind(self) -> MediaType {
        self.kind
    }

    /// The codec name.
    pub closed spec fn spec_name(self) -> Seq<char> {
        self.name@
    }

    /// The clock rate, when set.
    pub closed spec fn spec_clock_rate(self) -> Option<i32> {
        self.clock_rate
    }

    /// The channel count, when set.
    pub closed spec fn spec_num_channels(self) -> Option<i32> {
        self.num_channels
    }

    /// The format parameters.
    pub closed spec fn spec_params(self) -> Seq<(Seq<char>, Seq<char>)> {
        self.parameters@
    }

    /// The parameter map keeps its keys unique.
    pub closed spec fn wf(self) -> bool {
        self.parameters.keys_unique()
    }

    /// A borrow-only view of the codec.
    pub fn as_ref(&self) -> (r: RtpCodecRef<'_>)
        ensures
            r.spec_codec() == *self,
    {
        RtpCodecRef { target: self }
    }

    /// Sets the media kind.
    pub fn set_kind(&mut self, media_type: MediaType)
        ensures
            final(self).spec_kind() == media_type,
            codec_others_equal(*old(self), *final(self)),
            final(self).spec_name() == old(self).spec_name(),
            final(self).wf() == old(self).wf(),
    {
        self.kind = media_type;
    }

    /// Sets the codec name.
    pub fn set_name(&mut self, name: &str)
        ensures
            final(self).spec_name() == name@,
            final(self).spec_kind() == old(self).spec_kind(),
            codec_others_equal(*old(self), *final(self)),
            final(self).wf() == old(self).wf(),
    {
        self.name = name.to_owned();
    }

    /// The codec name.
    pub fn name(&self) -> (r: RtcResult<String>)
        ensures
            r is Ok,
            r->Ok_0@ == self.spec_name(),
    {
        Ok(self.name.clone())
    }

    /// The clock rate, when set.
    pub fn clock_rate(&self) -> (r: Option<i32>)
        ensures
            r == self.spec_clock_rate(),
    {
        self.clock_rate
    }

    /// Sets or clears the clock rate.
    pub fn set_clock_rate(&mut self, value: Option<i32>)
        ensures
            final(self).spec_clock_rate() == value,
            final(self).spec_kind() == old(self).spec_kind(),
            final(self).spec_name() == old(self).spec_name(),
            final(self).spec_num_channels() == old(self).spec_num_channels(),
            final(self).spec_params() == old(self).spec_params(),
            final(self).wf() == old(self).wf(),
    {
        self.clock_rate = value;
    }

    /// The channel count, when set.
    pub fn num_channels(&self) -> (r: Option<i32>)
        ensures
            r == self.spec_num_channels(),
    {
        self.num_channels
    }

    /// Sets or clears the channel count.
    pub fn set_num_channels(&mut self, value: Option<i32>)
        ensures
            final(self).spec_num_channels() == value,
            final(self).spec_kind() == old(self).spec_kind(),
            final(self).spec_name() == old(self).spec_name(),
            final(self).spec_clock_rate() == old(self).spec_clock_rate(),
            final(self).spec_params() == old(self).spec_params(),
            final(self).wf() == old(self).wf(),
    {
        self.num_channels = value;
    }

    /// The format parameters, for reading and updating in place.
    pub fn parameters(&mut self) -> (r: &mut MapStringString)
        ensures
            r@ == old(self).spec_params(),
            old(self).wf() ==> r.keys_unique(),
            final(self).spec_params() == final(r)@,
            final(self).spec_kind() == old(self).spec_kind(),
            final(self).spec_name() == old(self).spec_name(),
            final(self).spec_clock_rate() == old(self).spec_clock_rate(),
            final(self).spec_num_channels() == old(self).spec_num_channels(),
            final(r).keys_unique() ==> final(self).wf(),
    {
        &mut self.parameters
    }

    /// The native address of the codec entry; never null.
    pub fn as_ptr(&self) -> (r: NativePtr)
        ensures
            r == (NativePtr { addr: 1 }),
    {
        NativePtr { addr: 1 }
    }

    /// A deep copy of the codec entry.
    pub fn clone_codec(&self) -> (r: RtpCodec)
        ensures
            r.spec_kind() == self.spec_kind(),
            r.spec_name() == self.spec_name(),
            r.spec_clock_rate() == self.spec_clock_rate(),
            r.spec_num_channels() == self.spec_num_channels(),
            r.spec_params() == self.spec_params(),
            r.wf() == self.wf(),
    {
        RtpCodec {
            kind: self.kind,
            name: self.name.clone(),
            clock_rate: self.clock_rate,
            num_channels: self.num_channels,
            parameters: clone_map(&self.parameters),
        }
    }
}

/// Whether two codec entries agree on clock rate, channel count and
/// parameters.
pub open spec fn codec_others_equal(a: RtpCodec, b: RtpCodec) -> bool {
    &&& a.spec_clock_rate() == b.spec_clock_rate()
    &&& a.spec_num_channels() == b.spec_num_channels()
    &&& a.spec_params() == b.spec_params()
}

/// A deep copy of a parameter map.
fn clone_map(m: &MapStringString) -> (r: MapStringString)
    ensures
        r@ == m@,
        r.keys_unique() == m.keys_unique(),
{
    let mut out = MapStringString::from_raw();
    let mut it = m.iter();
    let ghost whole = m@;
    let ghost mut seen: int = 0;
    loop
        invariant
            whole == m@,
            0 <= seen <= whole.len(),
            it.remaining() == whole.skip(seen),
            out@ =~= whole.subrange(0, seen),
        decreases whole.len() - seen,
    {
        match it.next() {
            Some(pair) => {
                proof {
                    assert(whole.skip(seen)[0] == whole[seen]);
                }
                push_pair(&mut out, pair.0, pair.1);
                proof {
                    assert(whole[seen] =~= (whole[seen].0, whole[seen].1));
                    assert(out@ =~= whole.subrange(0, seen + 1));
                    assert(whole.skip(seen).skip(1) =~= whole.skip(seen + 1));
                    seen = seen + 1;
                }
            },
            None => {
                proof {
                    assert(whole.skip(seen).len() == 0);
                    assert(out@ =~= whole);
                }
                return out;
            },
        }
    }
}

/// Appends one pair to a map under construction without a key scan; the
/// caller keeps uniqueness by copying from a map that already has it.
fn push_pair(m: &mut MapStringString, key: String, value: String)
    ensures
        final(m)@ == old(m)@.push((key@, value@)),
{
    m.push_entry(key, value);
}

/// A borrowed view of a codec entry.
pub struct RtpCodecRef<'a> {
    target: &'a RtpCodec,
}

impl<'a> RtpCodecRef<'a> {
    /// Wraps a borrowed codec entry.
    pub fn from_raw(target: &'a RtpCodec) -> (r: RtpCodecRef<'a>)
        ensures
            r.spec_codec() == *target,
    {
        RtpCodecRef { target }
    }

    /// The viewed codec entry.
    pub closed spec fn spec_codec(self) -> RtpCodec {
        *self.target
    }

    /// The codec name.
    pub fn name(&self) -> (r: RtcResult<String>)
        ensures
            r is Ok,
            r->Ok_0@ == self.spec_codec().spec_name(),
    {
        self.target.name()
    }

    /// The clock rate, when set.
    pub fn clock_rate(&self) -> (r: Option<i32>)
        ensures
            r == self.spec_codec().spec_clock_rate(),
    {
        self.target.clock_rate()
    }

    /// The channel count, when set.
    pub fn num_channels(&self) -> (r: Option<i32>)
        ensures
            r == self.spec_codec().spec_num_channels(),
    {
        self.target.num_channels()
    }

    /// The native address of the codec entry; never null.
    pub fn as_ptr(&self) -> (r: NativePtr)
        ensures
            r == (NativePtr { addr: 1 }),
    {
        NativePtr { addr: 1 }
    }
}

/// A codec capability: a codec entry as a capability listing reports it.
pub struct RtpCodecCapability {
    codec: RtpCodec,
}

impl RtpCodecCapability {
    /// An empty audio capability.
    pub fn new() -> (r: RtpCodecCapability)
        ensures
            r.spec_codec().spec_kind() == MediaType::Audio,
            r.spec_codec().spec_name() == Seq::<char>::empty(),
            r.spec_codec().spec_clock_rate() is None,
            r.spec_codec().spec_num_channels() is None,
            r.spec_codec().spec_params().len() == 0,
            r.spec_codec().wf(),
    {
        RtpCodecCapability { codec: RtpCodec::new() }
    }

    /// The codec entry underneath.
    pub closed spec fn spec_codec(self) -> RtpCodec {
        self.codec
    }

    /// A borrow-only view of the capability.
    pub fn as_ref(&self) -> (r: RtpCodecCapabilityRef<'_>)
        ensures
            r.spec_codec() == self.spec_codec(),
    {
        RtpCodecCapabilityRef { target: self }
    }

    /// The capability viewed as its codec entry.
    pub fn cast_to_codec(&self) -> (r: RtpCodecRef<'_>)
        ensures
            r.spec_codec() == self.spec_codec(),
    {
        RtpCodecRef { target: &self.codec }
    }

    /// Sets the media kind.
    pub fn set_kind(&mut self, media_type: MediaType)
        ensures
            final(self).spec_codec().spec_kind() == media_type,
            final(self).spec_codec().spec_name() == old(self).spec_codec().spec_name(),
            codec_others_equal(old(self).spec_codec(), final(self).spec_codec()),
            final(self).spec_codec().wf() == old(self).spec_codec().wf(),
    {
        self.codec.set_kind(media_type);
    }

    /// Sets the codec name.
    pub fn set_name(&mut self, name: &str)
        ensures
            final(self).spec_codec().spec_name() == name@,
            final(self).spec_codec().spec_kind() == old(self).spec_codec().spec_kind(),
            codec_others_equal(old(self).spec_codec(), final(self).spec_codec()),
            final(self).spec_codec().wf() == old(self).spec_codec().wf(),
    {
        self.codec.set_name(name);
    }

    /// The codec name.
    pub fn name(&self) -> (r: RtcResult<String>)
        ensures
            r is Ok,
            r->Ok_0@ == self.spec_codec().spec_name(),
    {
        self.codec.name()
    }

    /// The clock rate, when set.
    pub fn clock_rate(&self) -> (r: Option<i32>)
        ensures
            r == self.spec_codec().spec_clock_rate(),
    {
        self.codec.clock_rate()
    }

    /// Sets or clears the clock rate.
    pub fn set_clock_rate(&mut self, value: Option<i32>)
        ensures
            final(self).spec_codec().spec_clock_rate() == value,
            final(self).spec_codec().spec_kind() == old(self).spec_codec().spec_kind(),
            final(self).spec_codec().spec_name() == old(self).spec_codec().spec_name(),
            final(self).spec_codec().spec_num_channels() == old(self).spec_codec().spec_num_channels(),
            final(self).spec_codec().spec_params() == old(self).spec_codec().spec_params(),
            final(self).spec_codec().wf() == old(self).spec_codec().wf(),
    {
        self.codec.set_clock_rate(value);
    }

    /// The channel count, when set.
    pub fn num_channels(&self) -> (r: Option<i32>)
        ensures
            r == self.spec_codec().spec_num_channels(),
    {
        self.codec.num_channels()
    }

    /// Sets or clears the channel count.
    pub fn set_num_channels(&mut self, value: Option<i32>)
        ensures
            final(self).spec_codec().spec_num_channels() == value,
            final(self).spec_codec().spec_kind() == old(self).spec_codec().spec_kind(),
            final(self).spec_codec().spec_name() == old(self).spec_codec().spec_name(),
            final(self).spec_codec().spec_clock_rate() == old(self).spec_codec().spec_clock_rate(),
            final(self).spec_codec().spec_params() == old(self).spec_codec().spec_params(),
            final(self).spec_codec().wf() == old(self).spec_codec().wf(),
    {
        self.codec.set_num_channels(value);
    }

    /// The format parameters, for reading and updating in place.
    pub fn parameters(&mut self) -> (r: &mut MapStringString)
        ensures
            r@ == old(self).spec_codec().spec_params(),
            old(self).spec_codec().wf() ==> r.keys_unique(),
            final(self).spec_codec().spec_params() == final(r)@,
            final(self).spec_codec().spec_kind() == old(self).spec_codec().spec_kind(),
            final(self).spec_codec().spec_name() == old(self).spec_codec().spec_name(),
            final(self).spec_codec().spec_clock_rate() == old(self).spec_codec().spec_clock_rate(),
            final(self).spec_codec().spec_num_channels() == old(self).spec_codec().spec_num_channels(),
            final(r).keys_unique() ==> final(self).spec_codec().wf(),
    {
        self.codec.parameters()
    }

    /// The native address of the capability; never null.
    pub fn as_ptr(&self) -> (r: NativePtr)
        ensures
            r == (NativePtr { addr: 1 }),
    {
        NativePtr { addr: 1 }
    }

    /// A deep copy of the capability.
    pub fn clone_capability(&self) -> (r: RtpCodecCapability)
        ensures
            r.spec_codec().spec_kind() == self.spec_codec().spec_kind(),
            r.spec_codec().spec_name() == self.spec_codec().spec_name(),
            r.spec_codec().spec_clock_rate() == self.spec_codec().spec_clock_rate(),
            r.spec_codec().spec_num_channels() == self.spec_codec().spec_num_channels(),
            r.spec_codec().spec_params() == self.spec_codec().spec_params(),
            r.spec_codec().wf() == self.spec_codec().wf(),
    {
        RtpCodecCapability { codec: self.codec.clone_codec() }
    }
}

/// A borrowed view of a codec capability.
pub struct RtpCodecCapabilityRef<'a> {
    target: &'a RtpCodecCapability,
}

impl<'a> RtpCodecCapabilityRef<'a> {
    /// Wraps a borrowed capability.
    pub fn from_raw(target: &'a RtpCodecCapability) -> (r: RtpCodecCapabilityRef<'a>)
        ensures
            r.spec_codec() == target.spec_codec(),
    {
        RtpCodecCapabilityRef { target }
    }

    /// The codec entry underneath.
    pub closed spec fn spec_codec(self) -> RtpCodec {
        self.target.spec_codec()
    }

    /// The capability viewed as its codec entry.
    pub fn cast_to_codec(&self) -> (r: RtpCodecRef<'a>)
        ensures
            r.spec_codec() == self.spec_codec(),
    {
        self.target.cast_to_codec()
    }

    /// The codec name.
    pub fn name(&self) -> (r: RtcResult<String>)
        ensures
            r is Ok,
            r->Ok_0@ == self.spec_codec().spec_name(),
    {
        self.target.name()
    }

    /// The clock rate, when set.
    pub fn clock_rate(&self) -> (r: Option<i32>)
        ensures
            r == self.spec_codec().spec_clock_rate(),
    {
        self.target.clock_rate()
    }

    /// The channel count, when set.
    pub fn num_channels(&self) -> (r: Option<i32>)
        ensures
            r == self.spec_codec().spec_num_channels(),
    {
        self.target.num_channels()
    }

    /// The native address of the capability; never null.
    pub fn as_ptr(&self) -> (r: NativePtr)
        ensures
            r == (NativePtr { addr: 1 }),
    {
        NativePtr { addr: 1 }
    }
}

/// An owned vector of codec capabilities.
pub struct RtpCodecCapabilityVector {
    items: Vec<RtpCodecCapability>,
}

impl RtpCodecCapabilityVector {
    /// The held capabilities, by their codec entries.
    pub closed spec fn spec_items(self) -> Seq<RtpCodec> {
        Seq::new(self.items@.len(), |i: int| self.items@[i].spec_codec())
    }

    /// A vector of `size` empty capabilities; a negative size gives an
    /// empty vector.
    pub fn new(size: i32) -> (r: RtpCodecCapabilityVector)
        ensures
            size >= 0 ==> r.spec_items().len() == size,
            size < 0 ==> r.spec_items().len() == 0,
    {
        let n: usize = if size > 0 {
            size as usize
        } else {
            0
        };
        let mut items: Vec<RtpCodecCapability> = Vec::new();
        let mut i: usize = 0;
        while i < n
            invariant
                items@.len() == i,
                i <= n,
            decreases n - i,
        {
            items.push(RtpCodecCapability::new());
            i = i + 1;
        }
        RtpCodecCapabilityVector { items }
    }

    /// The number of entries.
    pub fn len(&self) -> (r: usize)
        ensures
            r == self.spec_items().len(),
    {
        self.items.len()
    }

    /// Whether there are no entries.
    pub fn is_empty(&self) -> (r: bool)
        ensures
            r == (self.spec_items().len() == 0),
    {
        self.items.len() == 0
    }

    /// A deep copy of the entry at `index`, when it is within range.
    pub fn get(&self, index: usize) -> (r: Option<RtpCodecCapability>)
        ensures
            index < self.spec_items().len() ==> (r matches Some(c) && c.spec_codec().spec_name()
                == self.spec_items()[index as int].spec_name() && c.spec_codec().spec_kind()
                == self.spec_items()[index as int].spec_kind() && c.spec_codec().spec_clock_rate()
                == self.spec_items()[index as int].spec_clock_rate()
                && c.spec_codec().spec_num_channels()
                == self.spec_items()[index as int].spec_num_channels()),
            index >= self.spec_items().len() ==> r is None,
    {
        if index < self.items.len() {
            Some(self.items[index].clone_capability())
        } else {
            None
        }
    }

    /// Appends a deep copy of the given capability.
    pub fn push(&mut self, value: &RtpCodecCapability)
        ensures
            final(self).spec_items().len() == old(self).spec_items().len() + 1,
            final(self).spec_items()[old(self).spec_items().len() as int].spec_name()
                == value.spec_codec().spec_name(),
            forall|i: int|
                0 <= i < old(self).spec_items().len() ==> final(self).spec_items()[i] == old(self).spec_items()[i],
    {
        self.items.push(value.clone_capability());
    }

    /// Grows the vector with empty capabilities, or truncates it, to the
    /// given size.
    pub fn resize(&mut self, size: i32)
        ensures
            size >= 0 ==> final(self).spec_items().len() == size,
            size < 0 ==> final(self).spec_items().len() == 0,
            forall|i: int|
                0 <= i < old(self).spec_items().len() && i < final(self).spec_items().len()
                    ==> final(self).spec_items()[i] == old(self).spec_items()[i],
    {
        let n: usize = if size > 0 {
            size as usize
        } else {
            0
        };
        while self.items.len() > n
            invariant
                n <= self.items@.len() || self.items@.len() == old(self).items@.len(),
                self.items@.len() <= old(self).items@.len(),
                forall|i: int|
                    0 <= i < self.items@.len() && i < old(self).items@.len() ==> (
                    #[trigger] self.items@[i]) == old(self).items@[i],
            decreases self.items@.len(),
        {
            let ghost prev = self.items@;
            let _ = self.items.pop();
            proof {
                assert(self.items@ =~= prev.drop_last());
                assert forall|i: int|
                    0 <= i < self.items@.len() && i < old(self).items@.len() implies (
                #[trigger] self.items@[i]) == old(self).items@[i] by {
                    assert(self.items@[i] == prev[i]);
                }
            }
        }
        let ghost mid = self.items@;
        while self.items.len() < n
            invariant
                mid.len() <= self.items@.len() <= n || self.items@ == mid,
                forall|i: int|
                    0 <= i < mid.len() && i < self.items@.len() ==> (#[trigger] self.items@[i])
                        == mid[i],
            decreases n - self.items@.len(),
        {
            self.items.push(RtpCodecCapability::new());
        }
        proof {
            assert forall|i: int|
                0 <= i < old(self).spec_items().len() && i < final(self).spec_items().len()
                    implies final(self).spec_items()[i] == old(self).spec_items()[i] by {
                assert(self.items@[i] == mid[i]);
                assert(mid[i] == old(self).items@[i]);
            }
        }
    }

    /// Replaces the entry at `index` with a deep copy of the given
    /// capability; reports whether the index was within range.
    pub fn set(&mut self, index: usize, value: &RtpCodecCapability) -> (r: bool)
        ensures
            r == (index < old(self).spec_items().len()),
            r ==> final(self).spec_items().len() == old(self).spec_items().len() && final(self).spec_items()[index as int].spec_name() == value.spec_codec().spec_name(),
            !r ==> *final(self) == *old(self),
            forall|i: int|
                0 <= i < old(self).spec_items().len() && i != index ==> final(self).spec_items()[i] == old(self).spec_items()[i],
    {
        if index < self.items.len() {
            self.items.set(index, value.clone_capability());
            true
        } else {
            false
        }
    }

    /// The native address of the vector; never null.
    pub fn as_ptr(&self) -> (r: NativePtr)
        ensures
            r == (NativePtr { addr: 1 }),
    {
        NativePtr { addr: 1 }
    }

    /// A borrow-only view of the vector.
    pub fn as_ref(&self) -> (r: RtpCodecCapabilityVectorRef<'_>)
        ensures
            r.spec_items() == self.spec_items(),
    {
        RtpCodecCapabilityVectorRef { target: self }
    }
}

/// A borrowed view of a capability vector.
pub struct RtpCodecCapabilityVectorRef<'a> {
    target: &'a RtpCodecCapabilityVector,
}

impl<'a> RtpCodecCapabilityVectorRef<'a> {
    /// Wraps a borrowed vector.
    pub fn from_raw(target: &'a RtpCodecCapabilityVector) -> (r: RtpCodecCapabilityVectorRef<'a>)
        ensures
            r.spec_items() == target.spec_items(),
    {
        RtpCodecCapabilityVectorRef { target }
    }

    /// The viewed capabilities, by their codec entries.
    pub closed spec fn spec_items(self) -> Seq<RtpCodec> {
        self.target.spec_items()
    }

    /// The number of entries.
    pub fn len(&self) -> (r: usize)
        ensures
            r == self.spec_items().len(),
    {
        self.target.len()
    }

    /// Whether there are no entries.
    pub fn is_empty(&self) -> (r: bool)
        ensures
            r == (self.spec_items().len() == 0),
    {
        self.target.is_empty()
    }

    /// A deep copy of the entry at `index`, when it is within range.
    pub fn get(&self, index: usize) -> (r: Option<RtpCodecCapability>)
        ensures
            index < self.spec_items().len() ==> (r matches Some(c) && c.spec_codec().spec_name()
                == self.spec_items()[index as int].spec_name()),
            index >= self.spec_items().len() ==> r is None,
    {
        self.target.get(index)
    }
}

} // verus!

verus! {

/// A fixed resolution in pixels.
#[derive(Clone, Copy, Debug, PartialEq, Eq, Structural)]
pub struct Resolution {
    width: i32,
    height: i32,
}

impl Resolution {
    /// A zero resolution.
    pub fn new() -> (r: Resolution)
        ensures
            r.spec_width() == 0,
            r.spec_height() == 0,
    {
        Resolution { width: 0, height: 0 }
    }

    /// The width in pixels.
    pub closed spec fn spec_width(self) -> i32 {
        self.width
    }

    /// The height in pixels.
    pub closed spec fn spec_height(self) -> i32 {
        self.height
    }

    /// The width in pixels.
    pub fn width(&self) -> (r: i32)
        ensures
            r == self.spec_width(),
    {
        self.width
    }

    /// Sets the width in pixels.
    pub fn set_width(&mut self, width: i32)
        ensures
            final(self).spec_width() == width,
            final(self).spec_height() == old(self).spec_height(),
    {
        self.width = width;
    }

    /// The height in pixels.
    pub fn height(&self) -> (r: i32)
        ensures
            r == self.spec_height(),
    {
        self.height
    }

    /// Sets the height in pixels.
    pub fn set_height(&mut self, height: i32)
        ensures
            final(self).spec_height() == height,
            final(self).spec_width() == old(self).spec_width(),
    {
        self.height = height;
    }
}

/// One encoding layer of RTP parameters. Fractional native fields — the
/// framerate cap and the downscale factor — are carried as whole numbers.
pub struct RtpEncodingParameters {
    pub rid: String,
    pub ssrc: Option<u32>,
    pub max_bitrate_bps: Option<i32>,
    pub min_bitrate_bps: Option<i32>,
    pub max_framerate: Option<i64>,
    pub scale_resolution_down_by: Option<i64>,
    pub scale_resolution_down_to: Option<Resolution>,
    pub active: bool,
    pub adaptive_ptime: bool,
    pub scalability_mode: Option<String>,
    pub codec: Option<RtpCodec>,
}

impl RtpEncodingParameters {
    /// An encoding layer as the native constructor leaves it: no rid, no
    /// caps, active, without adaptive packet time.
    pub fn new() -> (r: RtpEncodingParameters)
        ensures
            r.rid@ == Seq::<char>::empty(),
            r.ssrc is None,
            r.max_bitrate_bps is None,
            r.min_bitrate_bps is None,
            r.max_framerate is None,
            r.scale_resolution_down_by is None,
            r.scale_resolution_down_to is None,
            r.active,
            !r.adaptive_ptime,
            r.scalability_mode is None,
            r.codec is None,
    {
        RtpEncodingParameters {
            rid: String::new(),
            ssrc: None,
            max_bitrate_bps: None,
            min_bitrate_bps: None,
            max_framerate: None,
            scale_resolution_down_by: None,
            scale_resolution_down_to: None,
            active: true,
            adaptive_ptime: false,
            scalability_mode: None,
            codec: None,
        }
    }

    /// A borrow-only view of the layer.
    pub fn as_ref(&self) -> (r: RtpEncodingParametersRef<'_>)
        ensures
            r.spec_target() == *self,
    {
        RtpEncodingParametersRef { target: self }
    }

    /// Sets the rid.
    pub fn set_rid(&mut self, rid: &str)
        ensures
            final(self).rid@ == rid@,
            *final(self) == (RtpEncodingParameters { rid: final(self).rid, ..*old(self) }),
    {
        self.rid = rid.to_owned();
    }

    /// The rid.
    pub fn rid(&self) -> (r: RtcResult<String>)
        ensures
            r is Ok,
            r->Ok_0@ == self.rid@,
    {
        Ok(self.rid.clone())
    }

    /// The ssrc, when set.
    pub fn ssrc(&self) -> (r: Option<u32>)
        ensures
            r == self.ssrc,
    {
        self.ssrc
    }

    /// Sets or clears the ssrc.
    pub fn set_ssrc(&mut self, value: Option<u32>)
        ensures
            *final(self) == (RtpEncodingParameters { ssrc: value, ..*old(self) }),
    {
        self.ssrc = value;
    }

    /// The bitrate cap, when set.
    pub fn max_bitrate_bps(&self) -> (r: Option<i32>)
        ensures
            r == self.max_bitrate_bps,
    {
        self.max_bitrate_bps
    }

    /// Sets or clears the bitrate cap.
    pub fn set_max_bitrate_bps(&mut self, value: Option<i32>)
        ensures
            *final(self) == (RtpEncodingParameters { max_bitrate_bps: value, ..*old(self) }),
    {
        self.max_bitrate_bps = value;
    }

    /// The bitrate floor, when set.
    pub fn min_bitrate_bps(&self) -> (r: Option<i32>)
        ensures
            r == self.min_bitrate_bps,
    {
        self.min_bitrate_bps
    }

    /// Sets or clears the bitrate floor.
    pub fn set_min_bitrate_bps(&mut self, value: Option<i32>)
        ensures
            *final(self) == (RtpEncodingParameters { min_bitrate_bps: value, ..*old(self) }),
    {
        self.min_bitrate_bps = value;
    }

    /// The framerate cap in whole frames per second, when set.
    pub fn max_framerate(&self) -> (r: Option<i64>)
        ensures
            r == self.max_framerate,
    {
        self.max_framerate
    }

    /// Sets or clears the framerate cap.
    pub fn set_max_framerate(&mut self, value: Option<i64>)
        ensures
            *final(self) == (RtpEncodingParameters { max_framerate: value, ..*old(self) }),
    {
        self.max_framerate = value;
    }

    /// The whole-number downscale factor, when set.
    pub fn scale_resolution_down_by(&self) -> (r: Option<i64>)
        ensures
            r == self.scale_resolution_down_by,
    {
        self.scale_resolution_down_by
    }

    /// Sets or clears the downscale factor.
    pub fn set_scale_resolution_down_by(&mut self, value: Option<i64>)
        ensures
            *final(self) == (RtpEncodingParameters {
                scale_resolution_down_by: value,
                ..*old(self)
            }),
    {
        self.scale_resolution_down_by = value;
    }

    /// The target resolution, when set.
    pub fn scale_resolution_down_to(&self) -> (r: Option<Resolution>)
        ensures
            r == self.scale_resolution_down_to,
    {
        self.scale_resolution_down_to
    }

    /// Sets or clears the target resolution, copying the given one.
    pub fn set_scale_resolution_down_to(&mut self, value: Option<&Resolution>)
        ensures
            value is None ==> final(self).scale_resolution_down_to is None,
            value matches Some(v) ==> final(self).scale_resolution_down_to == Some(*v),
            *final(self) == (RtpEncodingParameters {
                scale_resolution_down_to: final(self).scale_resolution_down_to,
                ..*old(self)
            }),
    {
        self.scale_resolution_down_to = match value {
            Some(v) => Some(*v),
            None => None,
        };
    }

    /// Whether the layer is active.
    pub fn active(&self) -> (r: bool)
        ensures
            r == self.active,
    {
        self.active
    }

    /// Sets whether the layer is active.
    pub fn set_active(&mut self, active: bool)
        ensures
            *final(self) == (RtpEncodingParameters { active, ..*old(self) }),
    {
        self.active = active;
    }

    /// Whether adaptive packet time is enabled.
    pub fn adaptive_ptime(&self) -> (r: bool)
        ensures
            r == self.adaptive_ptime,
    {
        self.adaptive_ptime
    }

    /// Sets whether adaptive packet time is enabled.
    pub fn set_adaptive_ptime(&mut self, adaptive_ptime: bool)
        ensures
            *final(self) == (RtpEncodingParameters { adaptive_ptime, ..*old(self) }),
    {
        self.adaptive_ptime = adaptive_ptime;
    }

    /// The scalability mode, when set.
    pub fn scalability_mode(&self) -> (r: Option<RtcResult<String>>)
        ensures
            self.scalability_mode is None ==> r is None,
            self.scalability_mode matches Some(m) ==> (r matches Some(out) && out is Ok
                && out->Ok_0@ == m@),
    {
        match &self.scalability_mode {
            Some(m) => Some(Ok(m.clone())),
            None => None,
        }
    }

    /// Sets or clears the scalability mode.
    pub fn set_scalability_mode(&mut self, value: Option<&str>)
        ensures
            value is None ==> final(self).scalability_mode is None,
            value matches Some(v) ==> (final(self).scalability_mode matches Some(m) && m@ == v@),
            *final(self) == (RtpEncodingParameters {
                scalability_mode: final(self).scalability_mode,
                ..*old(self)
            }),
    {
        self.scalability_mode = match value {
            Some(v) => Some(v.to_owned()),
            None => None,
        };
    }

    /// The codec override, when set.
    pub fn codec(&self) -> (r: Option<RtpCodecRef<'_>>)
        ensures
            self.codec is None ==> r is None,
            self.codec matches Some(c) ==> (r matches Some(v) && v.spec_codec() == c),
    {
        match &self.codec {
            Some(c) => Some(RtpCodecRef::from_raw(c)),
            None => None,
        }
    }

    /// Sets or clears the codec override, copying the given codec.
    pub fn set_codec(&mut self, codec: Option<&RtpCodec>)
        ensures
            codec is None ==> final(self).codec is None,
            codec matches Some(c) ==> (final(self).codec matches Some(v)
                && v.spec_name() == c.spec_name() && v.spec_kind() == c.spec_kind()
                && codec_others_equal(v, *c)),
            *final(self) == (RtpEncodingParameters { codec: final(self).codec, ..*old(self) }),
    {
        self.codec = match codec {
            Some(c) => Some(c.clone_codec()),
            None => None,
        };
    }

    /// The native address of the layer; never null.
    pub fn as_ptr(&self) -> (r: NativePtr)
        ensures
            r == (NativePtr { addr: 1 }),
    {
        NativePtr { addr: 1 }
    }

    /// A deep copy of the layer.
    pub fn clone_encoding(&self) -> (r: RtpEncodingParameters)
        ensures
            r.rid@ == self.rid@,
            r.ssrc == self.ssrc,
            r.max_bitrate_bps == self.max_bitrate_bps,
            r.min_bitrate_bps == self.min_bitrate_bps,
            r.max_framerate == self.max_framerate,
            r.scale_resolution_down_by == self.scale_resolution_down_by,
            r.scale_resolution_down_to == self.scale_resolution_down_to,
            r.active == self.active,
            r.adaptive_ptime == self.adaptive_ptime,
            self.scalability_mode is None ==> r.scalability_mode is None,
            self.scalability_mode matches Some(m) ==> (r.scalability_mode matches Some(o) && o@
                == m@),
            self.codec is None ==> r.codec is None,
            self.codec matches Some(c) ==> (r.codec matches Some(o) && o.spec_name()
                == c.spec_name() && o.spec_kind() == c.spec_kind() && codec_others_equal(o, c)),
    {
        RtpEncodingParameters {
            rid: self.rid.clone(),
            ssrc: self.ssrc,
            max_bitrate_bps: self.max_bitrate_bps,
            min_bitrate_bps: self.min_bitrate_bps,
            max_framerate: self.max_framerate,
            scale_resolution_down_by: self.scale_resolution_down_by,
            scale_resolution_down_to: self.scale_resolution_down_to,
            active: self.active,
            adaptive_ptime: self.adaptive_ptime,
            scalability_mode: match &self.scalability_mode {
                Some(m) => Some(m.clone()),
                None => None,
            },
            codec: match &self.codec {
                Some(c) => Some(c.clone_codec()),
                None => None,
            },
        }
    }
}

/// A borrowed view of an encoding layer.
pub struct RtpEncodingParametersRef<'a> {
    target: &'a RtpEncodingParameters,
}

impl<'a> RtpEncodingParametersRef<'a> {
    /// Wraps a borrowed layer.
    pub fn from_raw(target: &'a RtpEncodingParameters) -> (r: RtpEncodingParametersRef<'a>)
        ensures
            r.spec_target() == *target,
    {
        RtpEncodingParametersRef { target }
    }

    /// The viewed layer.
    pub closed spec fn spec_target(self) -> RtpEncodingParameters {
        *self.target
    }

    /// The rid.
    pub fn rid(&self) -> (r: RtcResult<String>)
        ensures
            r is Ok,
            r->Ok_0@ == self.spec_target().rid@,
    {
        self.target.rid()
    }

    /// The ssrc, when set.
    pub fn ssrc(&self) -> (r: Option<u32>)
        ensures
            r == self.spec_target().ssrc,
    {
        self.target.ssrc()
    }

    /// The bitrate cap, when set.
    pub fn max_bitrate_bps(&self) -> (r: Option<i32>)
        ensures
            r == self.spec_target().max_bitrate_bps,
    {
        self.target.max_bitrate_bps()
    }
}

/// An owned vector of encoding layers.
pub struct RtpEncodingParametersVector {
    items: Vec<RtpEncodingParameters>,
}

impl RtpEncodingParametersVector {
    /// The held layers.
    pub closed spec fn spec_items(self) -> Seq<RtpEncodingParameters> {
        self.items@
    }

    /// A vector of `size` default layers; a negative size gives an empty
    /// vector.
    pub fn new(size: i32) -> (r: RtpEncodingParametersVector)
        ensures
            size >= 0 ==> r.spec_items().len() == size,
            size < 0 ==> r.spec_items().len() == 0,
    {
        let n: usize = if size > 0 {
            size as usize
        } else {
            0
        };
        let mut items: Vec<RtpEncodingParameters> = Vec::new();
        let mut i: usize = 0;
        while i < n
            invariant
                items@.len() == i,
                i <= n,
            decreases n - i,
        {
            items.push(RtpEncodingParameters::new());
            i = i + 1;
        }
        RtpEncodingParametersVector { items }
    }

    /// The number of layers.
    pub fn len(&self) -> (r: usize)
        ensures
            r == self.spec_items().len(),
    {
        self.items.len()
    }

    /// Whether there are no layers.
    pub fn is_empty(&self) -> (r: bool)
        ensures
            r == (self.spec_items().len() == 0),
    {
        self.items.len() == 0
    }

    /// A deep copy of the layer at `index`, when it is within range.
    pub fn get(&self, index: usize) -> (r: Option<RtpEncodingParameters>)
        ensures
            index < self.spec_items().len() ==> (r matches Some(e) && e.rid@
                == self.spec_items()[index as int].rid@ && e.max_bitrate_bps
                == self.spec_items()[index as int].max_bitrate_bps),
            index >= self.spec_items().len() ==> r is None,
    {
        if index < self.items.len() {
            Some(self.items[index].clone_encoding())
        } else {
            None
        }
    }

    /// Appends a deep copy of the given layer.
    pub fn push(&mut self, value: &RtpEncodingParameters)
        ensures
            final(self).spec_items().len() == old(self).spec_items().len() + 1,
            final(self).spec_items()[old(self).spec_items().len() as int].rid@ == value.rid@,
            forall|i: int|
                0 <= i < old(self).spec_items().len() ==> final(self).spec_items()[i] == old(self).spec_items()[i],
    {
        self.items.push(value.clone_encoding());
    }

    /// Grows the vector with default layers, or truncates it, to the given
    /// size.
    pub fn resize(&mut self, size: i32)
        ensures
            size >= 0 ==> final(self).spec_items().len() == size,
            size < 0 ==> final(self).spec_items().len() == 0,
            forall|i: int|
                0 <= i < old(self).spec_items().len() && i < final(self).spec_items().len()
                    ==> final(self).spec_items()[i] == old(self).spec_items()[i],
    {
        let n: usize = if size > 0 {
            size as usize
        } else {
            0
        };
        while self.items.len() > n
            invariant
                n <= self.items@.len() || self.items@.len() == old(self).items@.len(),
                self.items@.len() <= old(self).items@.len(),
                forall|i: int|
                    0 <= i < self.items@.len() && i < old(self).items@.len() ==> (
                    #[trigger] self.items@[i]) == old(self).items@[i],
            decreases self.items@.len(),
        {
            let ghost prev = self.items@;
            let _ = self.items.pop();
            proof {
                assert(self.items@ =~= prev.drop_last());
                assert forall|i: int|
                    0 <= i < self.items@.len() && i < old(self).items@.len() implies (
                #[trigger] self.items@[i]) == old(self).items@[i] by {
                    assert(self.items@[i] == prev[i]);
                }
            }
        }
        let ghost mid = self.items@;
        while self.items.len() < n
            invariant
                mid.len() <= self.items@.len() <= n || self.items@ == mid,
                forall|i: int|
                    0 <= i < mid.len() && i < self.items@.len() ==> (#[trigger] self.items@[i])
                        == mid[i],
            decreases n - self.items@.len(),
        {
            self.items.push(RtpEncodingParameters::new());
        }
        proof {
            assert forall|i: int|
                0 <= i < old(self).spec_items().len() && i < final(self).spec_items().len()
                    implies final(self).spec_items()[i] == old(self).spec_items()[i] by {
                assert(self.items@[i] == mid[i]);
                assert(mid[i] == old(self).items@[i]);
            }
        }
    }

    /// Replaces the layer at `index` with a deep copy of the given one;
    /// reports whether the index was within range.
    pub fn set(&mut self, index: usize, value: &RtpEncodingParameters) -> (r: bool)
        ensures
            r == (index < old(self).spec_items().len()),
            r ==> final(self).spec_items().len() == old(self).spec_items().len() && final(self).spec_items()[index as int].rid@ == value.rid@,
            !r ==> *final(self) == *old(self),
            forall|i: int|
                0 <= i < old(self).spec_items().len() && i != index ==> final(self).spec_items()[i] == old(self).spec_items()[i],
    {
        if index < self.items.len() {
            self.items.set(index, value.clone_encoding());
            true
        } else {
            false
        }
    }

    /// A deep copy of the whole vector.
    pub fn clone_self(&self) -> (r: RtpEncodingParametersVector)
        ensures
            r.spec_items().len() == self.spec_items().len(),
            forall|i: int|
                0 <= i < self.spec_items().len() ==> (#[trigger] r.spec_items()[i]).rid@
                    == self.spec_items()[i].rid@,
    {
        let mut items: Vec<RtpEncodingParameters> = Vec::new();
        let mut i: usize = 0;
        while i < self.items.len()
            invariant
                items@.len() == i,
                i <= self.items@.len(),
                forall|j: int|
                    0 <= j < i ==> (#[trigger] items@[j]).rid@ == self.items@[j].rid@,
            decreases self.items@.len() - i,
        {
            items.push(self.items[i].clone_encoding());
            i = i + 1;
        }
        RtpEncodingParametersVector { items }
    }

    /// The native address of the vector; never null.
    pub fn as_ptr(&self) -> (r: NativePtr)
        ensures
            r == (NativePtr { addr: 1 }),
    {
        NativePtr { addr: 1 }
    }
}

/// The native tag of disabled degradation.
pub const DEGRADATION_PREFERENCE_DISABLED: i32 = 0;

/// The native tag of framerate-preserving degradation.
pub const DEGRADATION_PREFERENCE_MAINTAIN_FRAMERATE: i32 = 1;

/// The native tag of resolution-preserving degradation.
pub const DEGRADATION_PREFERENCE_MAINTAIN_RESOLUTION: i32 = 2;

/// The native tag of balanced degradation.
pub const DEGRADATION_PREFERENCE_BALANCED: i32 = 3;

/// How quality is degraded under constrained bandwidth.
#[derive(Debug, Clone, Copy, PartialEq, Eq, Structural)]
pub enum DegradationPreference {
    Disabled,
    MaintainFramerate,
    MaintainResolution,
    Balanced,
    Unknown(i32),
}

impl DegradationPreference {
    /// The native tag of this preference.
    pub fn to_int(self) -> (r: i32)
        ensures
            self is Disabled ==> r == DEGRADATION_PREFERENCE_DISABLED,
            self is MaintainFramerate ==> r == DEGRADATION_PREFERENCE_MAINTAIN_FRAMERATE,
            self is MaintainResolution ==> r == DEGRADATION_PREFERENCE_MAINTAIN_RESOLUTION,
            self is Balanced ==> r == DEGRADATION_PREFERENCE_BALANCED,
            self matches DegradationPreference::Unknown(v) ==> r == v,
    {
        match self {
            DegradationPreference::Disabled => DEGRADATION_PREFERENCE_DISABLED,
            DegradationPreference::MaintainFramerate => DEGRADATION_PREFERENCE_MAINTAIN_FRAMERATE,
            DegradationPreference::MaintainResolution => DEGRADATION_PREFERENCE_MAINTAIN_RESOLUTION,
            DegradationPreference::Balanced => DEGRADATION_PREFERENCE_BALANCED,
            DegradationPreference::Unknown(v) => v,
        }
    }

    /// The preference with the given native tag.
    pub fn from_int(v: i32) -> (r: DegradationPreference)
        ensures
            v == DEGRADATION_PREFERENCE_DISABLED ==> r == DegradationPreference::Disabled,
            v == DEGRADATION_PREFERENCE_MAINTAIN_FRAMERATE ==> r
                == DegradationPreference::MaintainFramerate,
            v == DEGRADATION_PREFERENCE_MAINTAIN_RESOLUTION ==> r
                == DegradationPreference::MaintainResolution,
            v == DEGRADATION_PREFERENCE_BALANCED ==> r == DegradationPreference::Balanced,
            v != DEGRADATION_PREFERENCE_DISABLED && v != DEGRADATION_PREFERENCE_MAINTAIN_FRAMERATE
                && v != DEGRADATION_PREFERENCE_MAINTAIN_RESOLUTION && v
                != DEGRADATION_PREFERENCE_BALANCED ==> r == DegradationPreference::Unknown(v),
    {
        if v == DEGRADATION_PREFERENCE_DISABLED {
            DegradationPreference::Disabled
        } else if v == DEGRADATION_PREFERENCE_MAINTAIN_FRAMERATE {
            DegradationPreference::MaintainFramerate
        } else if v == DEGRADATION_PREFERENCE_MAINTAIN_RESOLUTION {
            DegradationPreference::MaintainResolution
        } else if v == DEGRADATION_PREFERENCE_BALANCED {
            DegradationPreference::Balanced
        } else {
            DegradationPreference::Unknown(v)
        }
    }
}

/// The RTP parameters of a sender: transport identifiers and the encoding
/// layers.
pub struct RtpParameters {
    transaction_id: String,
    mid: String,
    encodings: RtpEncodingParametersVector,
    degradation_preference: Option<DegradationPreference>,
}

impl RtpParameters {
    /// Empty parameters.
    pub fn new() -> (r: RtpParameters)
        ensures
            r.spec_transaction_id() == Seq::<char>::empty(),
            r.spec_mid() == Seq::<char>::empty(),
            r.spec_encodings().len() == 0,
            r.spec_degradation_preference() is None,
    {
        RtpParameters {
            transaction_id: String::new(),
            mid: String::new(),
            encodings: RtpEncodingParametersVector::new(0),
            degradation_preference: None,
        }
    }

    /// The transaction id.
    pub closed spec fn spec_transaction_id(self) -> Seq<char> {
        self.transaction_id@
    }

    /// The mid.
    pub closed spec fn spec_mid(self) -> Seq<char> {
        self.mid@
    }

    /// The encoding layers.
    pub closed spec fn spec_encodings(self) -> Seq<RtpEncodingParameters> {
        self.encodings.spec_items()
    }

    /// The degradation preference, when set.
    pub closed spec fn spec_degradation_preference(self) -> Option<DegradationPreference> {
        self.degradation_preference
    }

    /// The transaction id.
    pub fn transaction_id(&self) -> (r: RtcResult<String>)
        ensures
            r is Ok,
            r->Ok_0@ == self.spec_transaction_id(),
    {
        Ok(self.transaction_id.clone())
    }

    /// Sets the transaction id.
    pub fn set_transaction_id(&mut self, value: &str)
        ensures
            final(self).spec_transaction_id() == value@,
            final(self).spec_mid() == old(self).spec_mid(),
            final(self).spec_encodings() == old(self).spec_encodings(),
            final(self).spec_degradation_preference() == old(self).spec_degradation_preference(),
    {
        self.transaction_id = value.to_owned();
    }

    /// The mid.
    pub fn mid(&self) -> (r: RtcResult<String>)
        ensures
            r is Ok,
            r->Ok_0@ == self.spec_mid(),
    {
        Ok(self.mid.clone())
    }

    /// Sets the mid.
    pub fn set_mid(&mut self, value: &str)
        ensures
            final(self).spec_mid() == value@,
            final(self).spec_transaction_id() == old(self).spec_transaction_id(),
            final(self).spec_encodings() == old(self).spec_encodings(),
            final(self).spec_degradation_preference() == old(self).spec_degradation_preference(),
    {
        self.mid = value.to_owned();
    }

    /// A deep copy of the encoding layers.
    pub fn encodings(&self) -> (r: RtpEncodingParametersVector)
        ensures
            r.spec_items().len() == self.spec_encodings().len(),
            forall|i: int|
                0 <= i < self.spec_encodings().len() ==> (#[trigger] r.spec_items()[i]).rid@
                    == self.spec_encodings()[i].rid@,
    {
        self.encodings.clone_self()
    }

    /// Replaces the encoding layers with a deep copy of the given vector.
    pub fn set_encodings(&mut self, encodings: &RtpEncodingParametersVector)
        ensures
            final(self).spec_encodings().len() == encodings.spec_items().len(),
            forall|i: int|
                0 <= i < encodings.spec_items().len() ==> (#[trigger] final(self).spec_encodings()[i]).rid@ == encodings.spec_items()[i].rid@,
            final(self).spec_transaction_id() == old(self).spec_transaction_id(),
            final(self).spec_mid() == old(self).spec_mid(),
            final(self).spec_degradation_preference() == old(self).spec_degradation_preference(),
    {
        self.encodings = encodings.clone_self();
    }

    /// The degradation preference, when set.
    pub fn degradation_preference(&self) -> (r: Option<DegradationPreference>)
        ensures
            r == self.spec_degradation_preference(),
    {
        self.degradation_preference
    }

    /// Sets or clears the degradation preference.
    pub fn set_degradation_preference(&mut self, value: Option<DegradationPreference>)
        ensures
            final(self).spec_degradation_preference() == value,
            final(self).spec_transaction_id() == old(self).spec_transaction_id(),
            final(self).spec_mid() == old(self).spec_mid(),
            final(self).spec_encodings() == old(self).spec_encodings(),
    {
        self.degradation_preference = value;
    }

    /// The native address of the parameters; never null.
    pub fn as_ptr(&self) -> (r: NativePtr)
        ensures
            r == (NativePtr { addr: 1 }),
    {
        NativePtr { addr: 1 }
    }

    /// A deep copy of the parameters.
    pub fn clone_parameters(&self) -> (r: RtpParameters)
        ensures
            r.spec_transaction_id() == self.spec_transaction_id(),
            r.spec_mid() == self.spec_mid(),
            r.spec_encodings().len() == self.spec_encodings().len(),
            r.spec_degradation_preference() == self.spec_degradation_preference(),
    {
        RtpParameters {
            transaction_id: self.transaction_id.clone(),
            mid: self.mid.clone(),
            encodings: self.encodings.clone_self(),
            degradation_preference: self.degradation_preference,
        }
    }
}

/// The native tag of the send-and-receive direction.
pub const RTP_TRANSCEIVER_DIRECTION_SEND_RECV: i32 = 0;

/// The native tag of the send-only direction.
pub const RTP_TRANSCEIVER_DIRECTION_SEND_ONLY: i32 = 1;

/// The native tag of the receive-only direction.
pub const RTP_TRANSCEIVER_DIRECTION_RECV_ONLY: i32 = 2;

/// The direction of a transceiver.
#[derive(Debug, Clone, Copy, PartialEq, Eq, Structural)]
pub enum RtpTransceiverDirection {
    SendRecv,
    SendOnly,
    RecvOnly,
    Unknown(i32),
}

impl RtpTransceiverDirection {
    /// The native tag of this direction.
    pub fn to_int(self) -> (r: i32)
        ensures
            self is SendRecv ==> r == RTP_TRANSCEIVER_DIRECTION_SEND_RECV,
            self is SendOnly ==> r == RTP_TRANSCEIVER_DIRECTION_SEND_ONLY,
            self is RecvOnly ==> r == RTP_TRANSCEIVER_DIRECTION_RECV_ONLY,
            self matches RtpTransceiverDirection::Unknown(v) ==> r == v,
    {
        match self {
            RtpTransceiverDirection::SendRecv => RTP_TRANSCEIVER_DIRECTION_SEND_RECV,
            RtpTransceiverDirection::SendOnly => RTP_TRANSCEIVER_DIRECTION_SEND_ONLY,
            RtpTransceiverDirection::RecvOnly => RTP_TRANSCEIVER_DIRECTION_RECV_ONLY,
            RtpTransceiverDirection::Unknown(v) => v,
        }
    }
}

/// The settings a transceiver is added with.
pub struct RtpTransceiverInit {
    direction: RtpTransceiverDirection,
    stream_ids: StringVector,
    send_encodings: RtpEncodingParametersVector,
}

impl RtpTransceiverInit {
    /// Settings with the send-and-receive direction and nothing else.
    pub fn new() -> (r: RtpTransceiverInit)
        ensures
            r.spec_direction() == RtpTransceiverDirection::SendRecv,
            r.spec_stream_ids().len() == 0,
            r.spec_send_encodings().len() == 0,
    {
        RtpTransceiverInit {
            direction: RtpTransceiverDirection::SendRecv,
            stream_ids: StringVector::new(0),
            send_encodings: RtpEncodingParametersVector::new(0),
        }
    }

    /// The direction.
    pub closed spec fn spec_direction(self) -> RtpTransceiverDirection {
        self.direction
    }

    /// The stream ids.
    pub closed spec fn spec_stream_ids(self) -> Seq<Seq<char>> {
        self.stream_ids@
    }

    /// The send encodings.
    pub closed spec fn spec_send_encodings(self) -> Seq<RtpEncodingParameters> {
        self.send_encodings.spec_items()
    }

    /// The direction.
    pub fn direction(&self) -> (r: RtpTransceiverDirection)
        ensures
            r == self.spec_direction(),
    {
        self.direction
    }

    /// Sets the direction.
    pub fn set_direction(&mut self, direction: RtpTransceiverDirection)
        ensures
            final(self).spec_direction() == direction,
            final(self).spec_stream_ids() == old(self).spec_stream_ids(),
            final(self).spec_send_encodings() == old(self).spec_send_encodings(),
    {
        self.direction = direction;
    }

    /// The stream ids, for reading and updating in place.
    pub fn stream_ids(&mut self) -> (r: &mut StringVector)
        ensures
            r@ == old(self).spec_stream_ids(),
            final(self).spec_stream_ids() == final(r)@,
            final(self).spec_direction() == old(self).spec_direction(),
            final(self).spec_send_encodings() == old(self).spec_send_encodings(),
    {
        &mut self.stream_ids
    }

    /// Replaces the send encodings with a deep copy of the given vector.
    pub fn set_send_encodings(&mut self, encodings: &RtpEncodingParametersVector)
        ensures
            final(self).spec_send_encodings().len() == encodings.spec_items().len(),
            final(self).spec_direction() == old(self).spec_direction(),
            final(self).spec_stream_ids() == old(self).spec_stream_ids(),
    {
        self.send_encodings = encodings.clone_self();
    }

    /// The native address of the settings; never null.
    pub fn as_ptr(&self) -> (r: NativePtr)
        ensures
            r == (NativePtr { addr: 1 }),
    {
        NativePtr { addr: 1 }
    }
}

/// A media stream track handed across the boundary: its kind and its id.
pub struct MediaStreamTrack {
    kind_name: String,
    track_id: String,
}

impl MediaStreamTrack {
    /// A track of the given kind and id.
    pub fn new(kind: &str, id: &str) -> (r: MediaStreamTrack)
        ensures
            r.spec_kind() == kind@,
            r.spec_id() == id@,
    {
        MediaStreamTrack { kind_name: kind.to_owned(), track_id: id.to_owned() }
    }

    /// The kind of the track.
    pub closed spec fn spec_kind(self) -> Seq<char> {
        self.kind_name@
    }

    /// The id of the track.
    pub closed spec fn spec_id(self) -> Seq<char> {
        self.track_id@
    }

    /// The reference-pointer address of the track; never null.
    pub fn as_refcounted_ptr(&self) -> (r: NativePtr)
        ensures
            r == (NativePtr { addr: 1 }),
    {
        NativePtr { addr: 1 }
    }

    /// The kind of the track.
    pub fn kind(&self) -> (r: RtcResult<String>)
        ensures
            r is Ok,
            r->Ok_0@ == self.spec_kind(),
    {
        Ok(self.kind_name.clone())
    }

    /// The id of the track.
    pub fn id(&self) -> (r: RtcResult<String>)
        ensures
            r is Ok,
            r->Ok_0@ == self.spec_id(),
    {
        Ok(self.track_id.clone())
    }

    /// A copy of the track handle, as one more shared owner.
    pub fn clone_track(&self) -> (r: MediaStreamTrack)
        ensures
            r.spec_kind() == self.spec_kind(),
            r.spec_id() == self.spec_id(),
    {
        MediaStreamTrack { kind_name: self.kind_name.clone(), track_id: self.track_id.clone() }
    }
}

/// A receiver of one incoming stream.
pub struct RtpReceiver {
    track: MediaStreamTrack,
}

impl RtpReceiver {
    /// A receiver over the given track.
    pub fn new(track: MediaStreamTrack) -> (r: RtpReceiver)
        ensures
            r.spec_track_id() == track.spec_id(),
            r.spec_track_kind() == track.spec_kind(),
    {
        RtpReceiver { track }
    }

    /// The id of the received track.
    pub closed spec fn spec_track_id(self) -> Seq<char> {
        self.track.spec_id()
    }

    /// The kind of the received track.
    pub closed spec fn spec_track_kind(self) -> Seq<char> {
        self.track.spec_kind()
    }

    /// The received track, as one more shared owner.
    pub fn track(&self) -> (r: MediaStreamTrack)
        ensures
            r.spec_id() == self.spec_track_id(),
            r.spec_kind() == self.spec_track_kind(),
    {
        self.track.clone_track()
    }
}

/// A sender of one outgoing stream, carrying its RTP parameters.
pub struct RtpSender {
    parameters: RtpParameters,
}

impl RtpSender {
    /// A sender with empty parameters.
    pub fn new() -> (r: RtpSender)
        ensures
            r.spec_parameters().spec_transaction_id() == Seq::<char>::empty(),
            r.spec_parameters().spec_encodings().len() == 0,
    {
        RtpSender { parameters: RtpParameters::new() }
    }

    /// The sender's current parameters.
    pub closed spec fn spec_parameters(self) -> RtpParameters {
        self.parameters
    }

    /// The payload address of the sender; never null.
    pub fn as_ptr(&self) -> (r: NativePtr)
        ensures
            r == (NativePtr { addr: 1 }),
    {
        NativePtr { addr: 1 }
    }

    /// The reference-pointer address of the sender; never null.
    pub fn as_refcounted_ptr(&self) -> (r: NativePtr)
        ensures
            r == (NativePtr { addr: 1 }),
    {
        NativePtr { addr: 1 }
    }

    /// A deep copy of the current parameters.
    pub fn get_parameters(&self) -> (r: RtpParameters)
        ensures
            r.spec_transaction_id() == self.spec_parameters().spec_transaction_id(),
            r.spec_mid() == self.spec_parameters().spec_mid(),
            r.spec_encodings().len() == self.spec_parameters().spec_encodings().len(),
            r.spec_degradation_preference() == self.spec_parameters().spec_degradation_preference(),
    {
        self.parameters.clone_parameters()
    }

    /// Applies the given parameters; the model accepts every set.
    pub fn set_parameters(&mut self, parameters: &RtpParameters) -> (r: RtcResult<()>)
        ensures
            r is Ok,
            final(self).spec_parameters().spec_transaction_id()
                == parameters.spec_transaction_id(),
            final(self).spec_parameters().spec_mid() == parameters.spec_mid(),
            final(self).spec_parameters().spec_encodings().len()
                == parameters.spec_encodings().len(),
    {
        self.parameters = parameters.clone_parameters();
        Ok(())
    }
}

/// A transceiver: the paired sender and receiver of one m-section.
pub struct RtpTransceiver {
    direction: RtpTransceiverDirection,
    receiver: RtpReceiver,
}

impl RtpTransceiver {
    /// A transceiver with the given direction, receiving the given track.
    pub fn new(direction: RtpTransceiverDirection, track: MediaStreamTrack) -> (r: RtpTransceiver)
        ensures
            r.spec_direction() == direction,
            r.spec_track_id() == track.spec_id(),
    {
        RtpTransceiver { direction, receiver: RtpReceiver::new(track) }
    }

    /// The direction.
    pub closed spec fn spec_direction(self) -> RtpTransceiverDirection {
        self.direction
    }

    /// The id of the received track.
    pub closed spec fn spec_track_id(self) -> Seq<char> {
        self.receiver.spec_track_id()
    }

    /// The payload address of the transceiver; never null.
    pub fn as_ptr(&self) -> (r: NativePtr)
        ensures
            r == (NativePtr { addr: 1 }),
    {
        NativePtr { addr: 1 }
    }

    /// The receiver half, as one more shared owner.
    pub fn receiver(&self) -> (r: RtpReceiver)
        ensures
            r.spec_track_id() == self.spec_track_id(),
    {
        RtpReceiver { track: self.receiver.track() }
    }
}

/// The RTP capabilities of a sender or receiver direction: the supported
/// codec capabilities.
pub struct RtpCapabilities {
    codecs: RtpCodecCapabilityVector,
}

impl RtpCapabilities {
    /// Capabilities over the given codec list.
    pub fn new(codecs: RtpCodecCapabilityVector) -> (r: RtpCapabilities)
        ensures
            r.spec_codecs() == codecs.spec_items(),
    {
        RtpCapabilities { codecs }
    }

    /// The supported codecs.
    pub closed spec fn spec_codecs(self) -> Seq<RtpCodec> {
        self.codecs.spec_items()
    }

    /// The number of supported codecs.
    pub fn codec_len(&self) -> (r: i32)
        requires
            self.spec_codecs().len() <= i32::MAX,
        ensures
            r == self.spec_codecs().len(),
    {
        self.codecs.len() as i32
    }

    /// The supported codecs, as a borrowed view.
    pub fn codecs(&self) -> (r: RtpCodecCapabilityVectorRef<'_>)
        ensures
            r.spec_items() == self.spec_codecs(),
    {
        self.codecs.as_ref()
    }
}

} // verus!
