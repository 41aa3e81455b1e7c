//! Models of the video types shared by encoders and decoders: formats,
//! frames, buffers and encoded images.

use vstd::prelude::*;

use crate::cxxstd::MapStringString;
use crate::error::RtcResult;

verus! {

/// A video format named in SDP: a codec name with its format parameters.
pub struct SdpVideoFormat {
    name: String,
    params: MapStringString,
}

impl SdpVideoFormat {
    /// A format with the given codec name and no parameters.
    pub fn new(name: &str) -> (r: SdpVideoFormat)
        ensures
            r.spec_name() == name@,
            r.spec_params().len() == 0,
            r.wf(),
    {
        SdpVideoFormat { name: name.to_owned(), params: MapStringString::new() }
    }

    /// The codec name.
    pub closed spec fn spec_name(self) -> Seq<char> {
        self.name@
    }

    /// The format parameters, as key/value pairs in insertion order.
    pub closed spec fn spec_params(self) -> Seq<(Seq<char>, Seq<char>)> {
        self.params@
    }

    /// The parameter map keeps its keys unique.
    pub closed spec fn wf(self) -> bool {
        self.params.keys_unique()
    }

    /// The codec name.
    pub fn name(&self) -> (r: RtcResult<String>)
        ensures
            r is Ok,
            r->Ok_0@ == self.spec_name(),
    {
        Ok(self.name.clone())
    }

    /// The format parameters, for reading and updating in place.
    pub fn parameters_mut(&mut self) -> (r: &mut MapStringString)
        ensures
            r@ == old(self).spec_params(),
            old(self).wf() ==> r.keys_unique(),
            final(self).spec_params() == final(r)@,
            final(self).spec_name() == old(self).spec_name(),
            final(r).keys_unique() ==> final(self).wf(),
    {
        &mut self.params
    }

    /// Whether two formats name the same codec with the same parameters,
    /// pair for pair.
    pub fn is_equal(&self, other: &SdpVideoFormat) -> (r: bool)
        requires
            self.wf(),
            other.wf(),
        ensures
            r == (self.spec_name() == other.spec_name() && params_match(
                self.spec_params(),
                other.spec_params(),
            )),
    {
        let names_equal = string_views_equal(&self.name, &other.name);
        if !names_equal {
            return false;
        }
        params_contained(&self.params, &other.params) && params_contained(
            &other.params,
            &self.params,
        )
    }

    /// A borrow-only view of the format.
    pub fn as_ref(&self) -> (r: SdpVideoFormatRef<'_>)
        ensures
            r.spec_name() == self.spec_name(),
            r.spec_params() == self.spec_params(),
            r.wf() == self.wf(),
    {
        SdpVideoFormatRef { target: self }
    }
}

/// Whether two parameter lists hold the same pairs: each pair of one occurs
/// in the other. With unique keys on both sides this is map equality.
pub open spec fn params_match(
    a: Seq<(Seq<char>, Seq<char>)>,
    b: Seq<(Seq<char>, Seq<char>)>,
) -> bool {
    &&& forall|i: int| 0 <= i < a.len() ==> b.contains(#[trigger] a[i])
    &&& forall|i: int| 0 <= i < b.len() ==> a.contains(#[trigger] b[i])
}

/// Whether every pair of `a` occurs in `b`.
fn params_contained(a: &MapStringString, b: &MapStringString) -> (r: bool)
    ensures
        r == forall|i: int| 0 <= i < a@.len() ==> b@.contains(#[trigger] a@[i]),
{
    let mut it = a.iter();
    let ghost whole = a@;
    let ghost mut seen: int = 0;
    loop
        invariant
            whole == a@,
            0 <= seen <= whole.len(),
            it.remaining() == whole.skip(seen),
            forall|i: int| 0 <= i < seen ==> b@.contains(#[trigger] whole[i]),
        decreases whole.len() - seen,
    {
        match it.next() {
            Some(pair) => {
                proof {
                    assert(whole.skip(seen)[0] == whole[seen]);
                }
                if !map_contains_pair(b, &pair.0, &pair.1) {
                    proof {
                        assert(whole[seen] =~= (pair.0@, pair.1@));
                        assert(!b@.contains(whole[seen]));
                        assert(!(forall|i: int|
                            0 <= i < a@.len() ==> b@.contains(#[trigger] a@[i]))) by {
                            assert(0 <= seen < a@.len() && !b@.contains(a@[seen]));
                        }
                    }
                    return false;
                }
                proof {
                    assert(whole[seen] =~= (pair.0@, pair.1@));
                }
                proof {
                    assert(b@.contains(whole[seen]));
                    assert(whole.skip(seen).skip(1) =~= whole.skip(seen + 1));
                    seen = seen + 1;
                }
            },
            None => {
                proof {
                    assert(whole.skip(seen).len() == 0);
                    assert(seen == whole.len());
                    assert forall|i: int| 0 <= i < a@.len() implies b@.contains(
                        #[trigger] a@[i],
                    ) by {
                        assert(b@.contains(whole[i]));
                    }
                }
                return true;
            },
        }
    }
}

/// Whether the map holds exactly this key/value pair.
fn map_contains_pair(m: &MapStringString, key: &String, value: &String) -> (r: bool)
    ensures
        r == m@.contains((key@, value@)),
{
    let mut it = m.iter();
    let ghost whole = m@;
    let ghost mut seen: int = 0;
    loop
        invariant
            whole == m@,
            0 <= seen <= whole.len(),
            it.remaining() == whole.skip(seen),
            forall|i: int| 0 <= i < seen ==> #[trigger] whole[i] != (key@, value@),
        decreases whole.len() - seen,
    {
        match it.next() {
            Some(pair) => {
                proof {
                    assert(whole.skip(seen)[0] == whole[seen]);
                }
                if string_views_equal(&pair.0, key) && string_views_equal(&pair.1, value) {
                    proof {
                        assert(whole[seen] =~= (key@, value@));
                        assert(m@.contains((key@, value@))) by {
                            assert(m@[seen] == (key@, value@));
                        }
                    }
                    return true;
                }
                proof {
                    assert(whole[seen] =~= (whole[seen].0, whole[seen].1));
                    assert(whole[seen] != (key@, value@));
                    assert(whole.skip(seen).skip(1) =~= whole.skip(seen + 1));
                    seen = seen + 1;
                }
            },
            None => {
                proof {
                    assert(whole.skip(seen).len() == 0);
                    assert(seen == whole.len());
                    assert(!m@.contains((key@, value@))) by {
                        if m@.contains((key@, value@)) {
                            let i = choose|i: int|
                                0 <= i < m@.len() && m@[i] == (key@, value@);
                            assert(whole[i] != (key@, value@));
                        }
                    }
                }
                return false;
            },
        }
    }
}

/// Compares two owned strings by their text.
fn string_views_equal(a: &String, b: &String) -> (r: bool)
    ensures
        r == (a@ == b@),
{
    a.eq(b)
}

/// A borrowed view of an SDP video format, the shape in which formats reach
/// factory callbacks.
pub struct SdpVideoFormatRef<'a> {
    target: &'a SdpVideoFormat,
}

impl<'a> SdpVideoFormatRef<'a> {
    /// Wraps a borrowed format.
    pub fn from_raw(target: &'a SdpVideoFormat) -> (r: SdpVideoFormatRef<'a>)
        ensures
            r.spec_name() == target.spec_name(),
            r.spec_params() == target.spec_params(),
            r.wf() == target.wf(),
    {
        SdpVideoFormatRef { target }
    }

    /// The codec name of the viewed format.
    pub closed spec fn spec_name(self) -> Seq<char> {
        self.target.spec_name()
    }

    /// The parameters of the viewed format.
    pub closed spec fn spec_params(self) -> Seq<(Seq<char>, Seq<char>)> {
        self.target.spec_params()
    }

    /// The viewed format keeps its parameter keys unique.
    pub closed spec fn wf(self) -> bool {
        self.target.wf()
    }

    /// The codec name.
    pub fn name(&self) -> (r: RtcResult<String>)
        ensures
            r is Ok,
            r->Ok_0@ == self.spec_name(),
    {
        self.target.name()
    }

    /// Whether the viewed formats name the same codec with the same
    /// parameters.
    pub fn is_equal(&self, other: SdpVideoFormatRef<'_>) -> (r: bool)
        requires
            self.wf(),
            other.wf(),
        ensures
            r == (self.spec_name() == other.spec_name() && params_match(
                self.spec_params(),
                other.spec_params(),
            )),
    {
        self.target.is_equal(other.target)
    }
}

/// An I420 pixel buffer: three planes, with chroma subsampled by two in
/// both directions. Strides equal the plane widths.
pub struct I420Buffer {
    width: i32,
    height: i32,
    y_plane: Vec<u8>,
    u_plane: Vec<u8>,
    v_plane: Vec<u8>,
}

/// The chroma dimension for a luma dimension: half, rounded up.
pub open spec fn chroma_dim(d: int) -> int {
    (d + 1) / 2
}

impl I420Buffer {
    /// The luma width.
    pub closed spec fn spec_width(self) -> i32 {
        self.width
    }

    /// The luma height.
    pub closed spec fn spec_height(self) -> i32 {
        self.height
    }

    /// The luma plane, row-major.
    pub closed spec fn spec_y(self) -> Seq<u8> {
        self.y_plane@
    }

    /// The U plane, row-major.
    pub closed spec fn spec_u(self) -> Seq<u8> {
        self.u_plane@
    }

    /// The V plane, row-major.
    pub closed spec fn spec_v(self) -> Seq<u8> {
        self.v_plane@
    }

    /// Positive dimensions and plane sizes that match them.
    pub open spec fn wf(self) -> bool {
        &&& 0 < self.spec_width()
        &&& 0 < self.spec_height()
        &&& self.spec_y().len() == self.spec_width() * self.spec_height()
        &&& self.spec_u().len() == chroma_dim(self.spec_width() as int) * chroma_dim(
            self.spec_height() as int,
        )
        &&& self.spec_v().len() == self.spec_u().len()
    }

    /// A buffer of the given dimensions, zero-filled.
    pub fn new(width: i32, height: i32) -> (r: I420Buffer)
        requires
            0 < width,
            0 < height,
            width * height <= usize::MAX,
        ensures
            r.spec_width() == width,
            r.spec_height() == height,
            r.wf(),
            forall|i: int| 0 <= i < r.spec_y().len() ==> r.spec_y()[i] == 0,
            forall|i: int| 0 <= i < r.spec_u().len() ==> r.spec_u()[i] == 0,
            forall|i: int| 0 <= i < r.spec_v().len() ==> r.spec_v()[i] == 0,
    {
        let w = width as usize;
        let h = height as usize;
        let cw = (w + 1) / 2;
        let ch = (h + 1) / 2;
        proof {
            assert(w * h <= usize::MAX);
            vstd::arithmetic::mul::lemma_mul_upper_bound(
                cw as int,
                w as int,
                ch as int,
                h as int,
            );
        }
        let y_plane = byte_plane(w * h);
        let u_plane = byte_plane(cw * ch);
        let v_plane = byte_plane(cw * ch);
        let r = I420Buffer { width, height, y_plane, u_plane, v_plane };
        proof {
            assert(r.wf()) by {
                assert(r.spec_y().len() == width * height);
            }
        }
        r
    }

    /// A buffer assembled from its planes.
    pub(crate) fn from_planes(
        width: i32,
        height: i32,
        y_plane: Vec<u8>,
        u_plane: Vec<u8>,
        v_plane: Vec<u8>,
    ) -> (r: I420Buffer)
        requires
            0 < width,
            0 < height,
            y_plane@.len() == width * height,
            u_plane@.len() == chroma_dim(width as int) * chroma_dim(height as int),
            v_plane@.len() == u_plane@.len(),
        ensures
            r.spec_width() == width,
            r.spec_height() == height,
            r.spec_y() == y_plane@,
            r.spec_u() == u_plane@,
            r.spec_v() == v_plane@,
            r.wf(),
    {
        I420Buffer { width, height, y_plane, u_plane, v_plane }
    }

    /// The luma width.
    pub fn width(&self) -> (r: i32)
        ensures
            r == self.spec_width(),
    {
        self.width
    }

    /// The luma height.
    pub fn height(&self) -> (r: i32)
        ensures
            r == self.spec_height(),
    {
        self.height
    }

    /// The luma stride: the width.
    pub fn stride_y(&self) -> (r: i32)
        ensures
            r == self.spec_width(),
    {
        self.width
    }

    /// The U stride: the chroma width.
    pub fn stride_u(&self) -> (r: i32)
        requires
            0 <= self.spec_width() < i32::MAX,
        ensures
            r == chroma_dim(self.spec_width() as int),
    {
        (self.width + 1) / 2
    }

    /// The V stride: the chroma width.
    pub fn stride_v(&self) -> (r: i32)
        requires
            0 <= self.spec_width() < i32::MAX,
        ensures
            r == chroma_dim(self.spec_width() as int),
    {
        (self.width + 1) / 2
    }

    /// Fills the luma plane with one value.
    pub fn fill_y(&mut self, value: u8)
        ensures
            final(self).spec_width() == old(self).spec_width(),
            final(self).spec_height() == old(self).spec_height(),
            final(self).spec_y().len() == old(self).spec_y().len(),
            forall|i: int|
                0 <= i < final(self).spec_y().len() ==> final(self).spec_y()[i] == value,
            final(self).spec_u() == old(self).spec_u(),
            final(self).spec_v() == old(self).spec_v(),
            old(self).wf() ==> final(self).wf(),
    {
        let n = self.y_plane.len();
        self.y_plane = byte_plane_filled(n, value);
    }

    /// Fills the two chroma planes with one value each.
    pub fn fill_uv(&mut self, u: u8, v: u8)
        ensures
            final(self).spec_width() == old(self).spec_width(),
            final(self).spec_height() == old(self).spec_height(),
            final(self).spec_y() == old(self).spec_y(),
            final(self).spec_u().len() == old(self).spec_u().len(),
            final(self).spec_v().len() == old(self).spec_v().len(),
            forall|i: int| 0 <= i < final(self).spec_u().len() ==> final(self).spec_u()[i] == u,
            forall|i: int| 0 <= i < final(self).spec_v().len() ==> final(self).spec_v()[i] == v,
            old(self).wf() ==> final(self).wf(),
    {
        let nu = self.u_plane.len();
        let nv = self.v_plane.len();
        self.u_plane = byte_plane_filled(nu, u);
        self.v_plane = byte_plane_filled(nv, v);
    }

    /// The luma plane.
    pub fn y_data(&self) -> (r: &[u8])
        ensures
            r@ == self.spec_y(),
    {
        self.y_plane.as_slice()
    }

    /// The U plane.
    pub fn u_data(&self) -> (r: &[u8])
        ensures
            r@ == self.spec_u(),
    {
        self.u_plane.as_slice()
    }

    /// The V plane.
    pub fn v_data(&self) -> (r: &[u8])
        ensures
            r@ == self.spec_v(),
    {
        self.v_plane.as_slice()
    }

    /// A deep copy of the buffer.
    pub fn clone_buffer(&self) -> (r: I420Buffer)
        ensures
            r.spec_width() == self.spec_width(),
            r.spec_height() == self.spec_height(),
            r.spec_y() == self.spec_y(),
            r.spec_u() == self.spec_u(),
            r.spec_v() == self.spec_v(),
            self.wf() ==> r.wf(),
    {
        I420Buffer {
            width: self.width,
            height: self.height,
            y_plane: clone_bytes(&self.y_plane),
            u_plane: clone_bytes(&self.u_plane),
            v_plane: clone_bytes(&self.v_plane),
        }
    }
}

/// A zero-filled byte plane of the given size.
fn byte_plane(n: usize) -> (r: Vec<u8>)
    ensures
        r@.len() == n,
        forall|i: int| 0 <= i < n ==> r@[i] == 0,
{
    byte_plane_filled(n, 0)
}

/// A byte plane of the given size, holding one value throughout.
fn byte_plane_filled(n: usize, value: u8) -> (r: Vec<u8>)
    ensures
        r@.len() == n,
        forall|i: int| 0 <= i < n ==> r@[i] == value,
{
    let mut out: Vec<u8> = Vec::new();
    let mut i: usize = 0;
    while i < n
        invariant
            out@.len() == i,
            i <= n,
            forall|j: int| 0 <= j < i ==> out@[j] == value,
        decreases n - i,
    {
        out.push(value);
        i = i + 1;
    }
    out
}

/// A byte-for-byte copy of a plane.
fn clone_bytes(v: &Vec<u8>) -> (r: Vec<u8>)
    ensures
        r@ == v@,
{
    let mut out: Vec<u8> = Vec::new();
    let mut i: usize = 0;
    while i < v.len()
        invariant
            out@.len() == i,
            i <= v@.len(),
            forall|j: int| 0 <= j < i ==> out@[j] == v@[j],
        decreases v@.len() - i,
    {
        out.push(v[i]);
        i = i + 1;
    }
    proof {
        assert(out@ =~= v@);
    }
    out
}

/// A video frame: an I420 buffer with a capture timestamp in microseconds.
pub struct VideoFrame {
    buffer: I420Buffer,
    timestamp_us: i64,
}

impl VideoFrame {
    /// A frame over a copy of the given buffer.
    pub fn from_i420(buffer: &I420Buffer, timestamp_us: i64) -> (r: VideoFrame)
        ensures
            r.spec_buffer().spec_width() == buffer.spec_width(),
            r.spec_buffer().spec_height() == buffer.spec_height(),
            r.spec_buffer().spec_y() == buffer.spec_y(),
            r.spec_buffer().spec_u() == buffer.spec_u(),
            r.spec_buffer().spec_v() == buffer.spec_v(),
            r.spec_timestamp_us() == timestamp_us,
            buffer.wf() ==> r.spec_buffer().wf(),
    {
        VideoFrame { buffer: buffer.clone_buffer(), timestamp_us }
    }

    /// The pixel buffer of the frame.
    pub closed spec fn spec_buffer(self) -> I420Buffer {
        self.buffer
    }

    /// The capture timestamp in microseconds.
    pub closed spec fn spec_timestamp_us(self) -> i64 {
        self.timestamp_us
    }

    /// A buffer assembled from its planes.
    pub(crate) fn from_planes(
        width: i32,
        height: i32,
        y_plane: Vec<u8>,
        u_plane: Vec<u8>,
        v_plane: Vec<u8>,
    ) -> (r: I420Buffer)
        requires
            0 < width,
            0 < height,
            y_plane@.len() == width * height,
            u_plane@.len() == chroma_dim(width as int) * chroma_dim(height as int),
            v_plane@.len() == u_plane@.len(),
        ensures
            r.spec_width() == width,
            r.spec_height() == height,
            r.spec_y() == y_plane@,
            r.spec_u() == u_plane@,
            r.spec_v() == v_plane@,
            r.wf(),
    {
        I420Buffer { width, height, y_plane, u_plane, v_plane }
    }

    /// The luma width.
    pub fn width(&self) -> (r: i32)
        ensures
            r == self.spec_buffer().spec_width(),
    {
        self.buffer.width()
    }

    /// The luma height.
    pub fn height(&self) -> (r: i32)
        ensures
            r == self.spec_buffer().spec_height(),
    {
        self.buffer.height()
    }

    /// The capture timestamp in microseconds.
    pub fn timestamp_us(&self) -> (r: i64)
        ensures
            r == self.spec_timestamp_us(),
    {
        self.timestamp_us
    }

    /// A copy of the pixel buffer.
    pub fn buffer(&self) -> (r: I420Buffer)
        ensures
            r.spec_width() == self.spec_buffer().spec_width(),
            r.spec_height() == self.spec_buffer().spec_height(),
            r.spec_y() == self.spec_buffer().spec_y(),
            r.spec_u() == self.spec_buffer().spec_u(),
            r.spec_v() == self.spec_buffer().spec_v(),
            self.spec_buffer().wf() ==> r.wf(),
    {
        self.buffer.clone_buffer()
    }

    /// A borrow-only view of the frame.
    pub fn as_ref(&self) -> (r: VideoFrameRef<'_>)
        ensures
            r.spec_frame() == *self,
    {
        VideoFrameRef { target: self }
    }
}

/// A borrowed view of a video frame, the shape in which frames reach
/// encoder callbacks.
pub struct VideoFrameRef<'a> {
    target: &'a VideoFrame,
}

impl<'a> VideoFrameRef<'a> {
    /// Wraps a borrowed frame.
    pub fn from_raw(target: &'a VideoFrame) -> (r: VideoFrameRef<'a>)
        ensures
            r.spec_frame() == *target,
    {
        VideoFrameRef { target }
    }

    /// The viewed frame.
    pub closed spec fn spec_frame(self) -> VideoFrame {
        *self.target
    }

    /// A buffer assembled from its planes.
    pub(crate) fn from_planes(
        width: i32,
        height: i32,
        y_plane: Vec<u8>,
        u_plane: Vec<u8>,
        v_plane: Vec<u8>,
    ) -> (r: I420Buffer)
        requires
            0 < width,
            0 < height,
            y_plane@.len() == width * height,
            u_plane@.len() == chroma_dim(width as int) * chroma_dim(height as int),
            v_plane@.len() == u_plane@.len(),
        ensures
            r.spec_width() == width,
            r.spec_height() == height,
            r.spec_y() == y_plane@,
            r.spec_u() == u_plane@,
            r.spec_v() == v_plane@,
            r.wf(),
    {
        I420Buffer { width, height, y_plane, u_plane, v_plane }
    }

    /// The luma width.
    pub fn width(&self) -> (r: i32)
        ensures
            r == self.spec_frame().spec_buffer().spec_width(),
    {
        self.target.width()
    }

    /// The luma height.
    pub fn height(&self) -> (r: i32)
        ensures
            r == self.spec_frame().spec_buffer().spec_height(),
    {
        self.target.height()
    }

    /// The capture timestamp in microseconds.
    pub fn timestamp_us(&self) -> (r: i64)
        ensures
            r == self.spec_frame().spec_timestamp_us(),
    {
        self.target.timestamp_us()
    }

    /// A copy of the pixel buffer.
    pub fn buffer(&self) -> (r: I420Buffer)
        ensures
            r.spec_y() == self.spec_frame().spec_buffer().spec_y(),
            r.spec_u() == self.spec_frame().spec_buffer().spec_u(),
            r.spec_v() == self.spec_frame().spec_buffer().spec_v(),
            r.spec_width() == self.spec_frame().spec_buffer().spec_width(),
            r.spec_height() == self.spec_frame().spec_buffer().spec_height(),
    {
        self.target.buffer()
    }
}

/// The native tag of an empty frame.
pub const VIDEO_FRAME_TYPE_EMPTY: i32 = 0;

/// The native tag of a key frame.
pub const VIDEO_FRAME_TYPE_KEY: i32 = 3;

/// The native tag of a delta frame.
pub const VIDEO_FRAME_TYPE_DELTA: i32 = 4;

/// The kind of a video frame on the wire.
#[derive(Debug, Clone, Copy, PartialEq, Eq, Structural)]
pub enum VideoFrameType {
    Empty,
    Key,
    Delta,
    Unknown(i32),
}

impl VideoFrameType {
    /// The kind with the given native tag.
    pub fn from_raw(value: i32) -> (r: VideoFrameType)
        ensures
            value == VIDEO_FRAME_TYPE_EMPTY ==> r == VideoFrameType::Empty,
            value == VIDEO_FRAME_TYPE_KEY ==> r == VideoFrameType::Key,
            value == VIDEO_FRAME_TYPE_DELTA ==> r == VideoFrameType::Delta,
            value != VIDEO_FRAME_TYPE_EMPTY && value != VIDEO_FRAME_TYPE_KEY && value
                != VIDEO_FRAME_TYPE_DELTA ==> r == VideoFrameType::Unknown(value),
    {
        if value == VIDEO_FRAME_TYPE_EMPTY {
            VideoFrameType::Empty
        } else if value == VIDEO_FRAME_TYPE_KEY {
            VideoFrameType::Key
        } else if value == VIDEO_FRAME_TYPE_DELTA {
            VideoFrameType::Delta
        } else {
            VideoFrameType::Unknown(value)
        }
    }

    /// The native tag of this kind.
    pub fn to_raw(&self) -> (r: i32)
        ensures
            self is Empty ==> r == VIDEO_FRAME_TYPE_EMPTY,
            self is Key ==> r == VIDEO_FRAME_TYPE_KEY,
            self is Delta ==> r == VIDEO_FRAME_TYPE_DELTA,
            self matches VideoFrameType::Unknown(v) ==> r == v,
    {
        match self {
            VideoFrameType::Empty => VIDEO_FRAME_TYPE_EMPTY,
            VideoFrameType::Key => VIDEO_FRAME_TYPE_KEY,
            VideoFrameType::Delta => VIDEO_FRAME_TYPE_DELTA,
            VideoFrameType::Unknown(v) => *v,
        }
    }
}

/// An owned vector of frame types, as passed to an encode call.
pub struct VideoFrameTypeVector {
    items: Vec<VideoFrameType>,
}

impl View for VideoFrameTypeVector {
    type V = Seq<VideoFrameType>;

    closed spec fn view(&self) -> Seq<VideoFrameType> {
        self.items@
    }
}

impl VideoFrameTypeVector {
    /// A vector of `size` empty-frame entries; a negative size gives an
    /// empty vector.
    pub fn new(size: i32) -> (r: VideoFrameTypeVector)
        ensures
            size >= 0 ==> r@.len() == size,
            size < 0 ==> r@.len() == 0,
            forall|i: int| 0 <= i < r@.len() ==> r@[i] == VideoFrameType::Empty,
    {
        let n: usize = if size > 0 {
            size as usize
        } else {
            0
        };
        let mut items: Vec<VideoFrameType> = Vec::new();
        let mut i: usize = 0;
        while i < n
            invariant
                items@.len() == i,
                i <= n,
                forall|j: int| 0 <= j < i ==> items@[j] == VideoFrameType::Empty,
            decreases n - i,
        {
            items.push(VideoFrameType::Empty);
            i = i + 1;
        }
        VideoFrameTypeVector { items }
    }

    /// The number of entries.
    pub fn len(&self) -> (r: usize)
        ensures
            r == self@.len(),
    {
        self.items.len()
    }

    /// Whether there are no entries.
    pub fn is_empty(&self) -> (r: bool)
        ensures
            r == (self@.len() == 0),
    {
        self.items.len() == 0
    }

    /// The entry at `index`, when it is within range.
    pub fn get(&self, index: usize) -> (r: Option<VideoFrameType>)
        ensures
            index < self@.len() ==> r == Some(self@[index as int]),
            index >= self@.len() ==> r is None,
    {
        if index < self.items.len() {
            Some(self.items[index])
        } else {
            None
        }
    }

    /// Appends an entry.
    pub fn push(&mut self, value: VideoFrameType)
        ensures
            final(self)@ == old(self)@.push(value),
    {
        self.items.push(value);
    }

    /// A borrow-only view of the vector.
    pub fn as_ref(&self) -> (r: VideoFrameTypeVectorRef<'_>)
        ensures
            r@ == self@,
    {
        VideoFrameTypeVectorRef { target: self }
    }
}

/// A borrowed view of a frame-type vector.
pub struct VideoFrameTypeVectorRef<'a> {
    target: &'a VideoFrameTypeVector,
}

impl<'a> View for VideoFrameTypeVectorRef<'a> {
    type V = Seq<VideoFrameType>;

    closed spec fn view(&self) -> Seq<VideoFrameType> {
        self.target@
    }
}

impl<'a> VideoFrameTypeVectorRef<'a> {
    /// Wraps a borrowed vector.
    pub fn from_raw(target: &'a VideoFrameTypeVector) -> (r: VideoFrameTypeVectorRef<'a>)
        ensures
            r@ == target@,
    {
        VideoFrameTypeVectorRef { target }
    }

    /// The number of entries.
    pub fn len(&self) -> (r: usize)
        ensures
            r == self@.len(),
    {
        self.target.len()
    }

    /// Whether there are no entries.
    pub fn is_empty(&self) -> (r: bool)
        ensures
            r == (self@.len() == 0),
    {
        self.target.is_empty()
    }

    /// The entry at `index`, when it is within range.
    pub fn get(&self, index: usize) -> (r: Option<VideoFrameType>)
        ensures
            index < self@.len() ==> r == Some(self@[index as int]),
            index >= self@.len() ==> r is None,
    {
        self.target.get(index)
    }
}

/// The native tag of the generic codec type.
pub const VIDEO_CODEC_TYPE_GENERIC: i32 = 0;

/// The native tag of VP8.
pub const VIDEO_CODEC_TYPE_VP8: i32 = 1;

/// The native tag of VP9.
pub const VIDEO_CODEC_TYPE_VP9: i32 = 2;

/// The native tag of AV1.
pub const VIDEO_CODEC_TYPE_AV1: i32 = 3;

/// The native tag of H.264.
pub const VIDEO_CODEC_TYPE_H264: i32 = 4;

/// The native tag of H.265.
pub const VIDEO_CODEC_TYPE_H265: i32 = 6;

/// The codec a stream is encoded with.
#[derive(Debug, Clone, Copy, PartialEq, Eq, Structural)]
pub enum VideoCodecType {
    Generic,
    Vp8,
    Vp9,
    Av1,
    H264,
    H265,
    Unknown(i32),
}

impl VideoCodecType {
    /// The codec type with the given native tag.
    pub fn from_raw(value: i32) -> (r: VideoCodecType)
        ensures
            value == VIDEO_CODEC_TYPE_GENERIC ==> r == VideoCodecType::Generic,
            value == VIDEO_CODEC_TYPE_VP8 ==> r == VideoCodecType::Vp8,
            value == VIDEO_CODEC_TYPE_VP9 ==> r == VideoCodecType::Vp9,
            value == VIDEO_CODEC_TYPE_AV1 ==> r == VideoCodecType::Av1,
            value == VIDEO_CODEC_TYPE_H264 ==> r == VideoCodecType::H264,
            value == VIDEO_CODEC_TYPE_H265 ==> r == VideoCodecType::H265,
            value != VIDEO_CODEC_TYPE_GENERIC && value != VIDEO_CODEC_TYPE_VP8 && value
                != VIDEO_CODEC_TYPE_VP9 && value != VIDEO_CODEC_TYPE_AV1 && value
                != VIDEO_CODEC_TYPE_H264 && value != VIDEO_CODEC_TYPE_H265 ==> r
                == VideoCodecType::Unknown(value),
    {
        if value == VIDEO_CODEC_TYPE_GENERIC {
            VideoCodecType::Generic
        } else if value == VIDEO_CODEC_TYPE_VP8 {
            VideoCodecType::Vp8
        } else if value == VIDEO_CODEC_TYPE_VP9 {
            VideoCodecType::Vp9
        } else if value == VIDEO_CODEC_TYPE_AV1 {
            VideoCodecType::Av1
        } else if value == VIDEO_CODEC_TYPE_H264 {
            VideoCodecType::H264
        } else if value == VIDEO_CODEC_TYPE_H265 {
            VideoCodecType::H265
        } else {
            VideoCodecType::Unknown(value)
        }
    }

    /// The native tag of this codec type.
    pub fn to_raw(&self) -> (r: i32)
        ensures
            self is Generic ==> r == VIDEO_CODEC_TYPE_GENERIC,
            self is Vp8 ==> r == VIDEO_CODEC_TYPE_VP8,
            self is Vp9 ==> r == VIDEO_CODEC_TYPE_VP9,
            self is Av1 ==> r == VIDEO_CODEC_TYPE_AV1,
            self is H264 ==> r == VIDEO_CODEC_TYPE_H264,
            self is H265 ==> r == VIDEO_CODEC_TYPE_H265,
            self matches VideoCodecType::Unknown(v) ==> r == v,
    {
        match self {
            VideoCodecType::Generic => VIDEO_CODEC_TYPE_GENERIC,
            VideoCodecType::Vp8 => VIDEO_CODEC_TYPE_VP8,
            VideoCodecType::Vp9 => VIDEO_CODEC_TYPE_VP9,
            VideoCodecType::Av1 => VIDEO_CODEC_TYPE_AV1,
            VideoCodecType::H264 => VIDEO_CODEC_TYPE_H264,
            VideoCodecType::H265 => VIDEO_CODEC_TYPE_H265,
            VideoCodecType::Unknown(v) => *v,
        }
    }
}

/// The codec settings a video encoder is initialized with.
pub struct VideoCodec {
    pub codec_type: VideoCodecType,
    pub width: i32,
    pub height: i32,
    pub start_bitrate_kbps: u32,
    pub max_bitrate_kbps: u32,
    pub min_bitrate_kbps: u32,
    pub max_framerate: u32,
}

impl VideoCodec {
    /// The settings the native layer passes when none are given: the
    /// generic codec with every numeric field zero.
    pub fn unspecified() -> (r: VideoCodec)
        ensures
            r.codec_type == VideoCodecType::Generic,
            r.width == 0,
            r.height == 0,
            r.start_bitrate_kbps == 0,
            r.max_bitrate_kbps == 0,
            r.min_bitrate_kbps == 0,
            r.max_framerate == 0,
    {
        VideoCodec {
            codec_type: VideoCodecType::Generic,
            width: 0,
            height: 0,
            start_bitrate_kbps: 0,
            max_bitrate_kbps: 0,
            min_bitrate_kbps: 0,
            max_framerate: 0,
        }
    }
}

/// A borrowed view of codec settings, the shape in which they reach
/// encoder callbacks.
pub struct VideoCodecRef<'a> {
    target: &'a VideoCodec,
}

impl<'a> VideoCodecRef<'a> {
    /// Wraps borrowed settings.
    pub fn from_raw(target: &'a VideoCodec) -> (r: VideoCodecRef<'a>)
        ensures
            r.spec_codec() == *target,
    {
        VideoCodecRef { target }
    }

    /// The viewed settings.
    pub closed spec fn spec_codec(self) -> VideoCodec {
        *self.target
    }

    /// The codec type.
    pub fn codec_type(&self) -> (r: VideoCodecType)
        ensures
            r == self.spec_codec().codec_type,
    {
        self.target.codec_type
    }

    /// The frame width.
    pub fn width(&self) -> (r: i32)
        ensures
            r == self.spec_codec().width,
    {
        self.target.width
    }

    /// The frame height.
    pub fn height(&self) -> (r: i32)
        ensures
            r == self.spec_codec().height,
    {
        self.target.height
    }

    /// The starting bitrate.
    pub fn start_bitrate_kbps(&self) -> (r: u32)
        ensures
            r == self.spec_codec().start_bitrate_kbps,
    {
        self.target.start_bitrate_kbps
    }

    /// The maximum bitrate.
    pub fn max_bitrate_kbps(&self) -> (r: u32)
        ensures
            r == self.spec_codec().max_bitrate_kbps,
    {
        self.target.max_bitrate_kbps
    }

    /// The minimum bitrate.
    pub fn min_bitrate_kbps(&self) -> (r: u32)
        ensures
            r == self.spec_codec().min_bitrate_kbps,
    {
        self.target.min_bitrate_kbps
    }

    /// The maximum framerate.
    pub fn max_framerate(&self) -> (r: u32)
        ensures
            r == self.spec_codec().max_framerate,
    {
        self.target.max_framerate
    }
}

/// A refcounted buffer of encoded bytes.
pub struct EncodedImageBuffer {
    data: Vec<u8>,
}

impl EncodedImageBuffer {
    /// A buffer holding a copy of the given bytes.
    pub fn from_bytes(data: &[u8]) -> (r: EncodedImageBuffer)
        ensures
            r@ == data@,
    {
        EncodedImageBuffer { data: slice_to_vec(data) }
    }

    /// The held bytes.
    pub fn data(&self) -> (r: &[u8])
        ensures
            r@ == self@,
    {
        self.data.as_slice()
    }

    /// A copy of the buffer, as handing the refcounted pointer out would
    /// give.
    pub fn clone_buffer(&self) -> (r: EncodedImageBuffer)
        ensures
            r@ == self@,
    {
        EncodedImageBuffer { data: clone_bytes(&self.data) }
    }
}

impl View for EncodedImageBuffer {
    type V = Seq<u8>;

    closed spec fn view(&self) -> Seq<u8> {
        self.data@
    }
}

/// A copy of a byte slice.
fn slice_to_vec(data: &[u8]) -> (r: Vec<u8>)
    ensures
        r@ == data@,
{
    let mut out: Vec<u8> = Vec::new();
    let mut i: usize = 0;
    while i < data.len()
        invariant
            out@.len() == i,
            i <= data@.len(),
            forall|j: int| 0 <= j < i ==> out@[j] == data@[j],
        decreases data@.len() - i,
    {
        out.push(data[i]);
        i = i + 1;
    }
    proof {
        assert(out@ =~= data@);
    }
    out
}

/// An encoded video image: the encoded bytes, when set, and the frame
/// metadata the encoder attached.
pub struct EncodedImage {
    encoded_data: Option<EncodedImageBuffer>,
    rtp_timestamp: u32,
    encoded_width: u32,
    encoded_height: u32,
    frame_type: VideoFrameType,
    qp: i32,
}

impl EncodedImage {
    /// An image with no encoded bytes, zero dimensions, an empty frame
    /// type, and a quantizer of -1, as the native constructor leaves it.
    pub fn new() -> (r: EncodedImage)
        ensures
            r.spec_encoded_data() is None,
            r.spec_rtp_timestamp() == 0,
            r.spec_encoded_width() == 0,
            r.spec_encoded_height() == 0,
            r.spec_frame_type() == VideoFrameType::Empty,
            r.spec_qp() == -1,
    {
        EncodedImage {
            encoded_data: None,
            rtp_timestamp: 0,
            encoded_width: 0,
            encoded_height: 0,
            frame_type: VideoFrameType::Empty,
            qp: -1,
        }
    }

    /// The encoded bytes, when set.
    pub closed spec fn spec_encoded_data(self) -> Option<Seq<u8>> {
        match self.encoded_data {
            Some(b) => Some(b@),
            None => None,
        }
    }

    /// The RTP timestamp.
    pub closed spec fn spec_rtp_timestamp(self) -> u32 {
        self.rtp_timestamp
    }

    /// The encoded width.
    pub closed spec fn spec_encoded_width(self) -> u32 {
        self.encoded_width
    }

    /// The encoded height.
    pub closed spec fn spec_encoded_height(self) -> u32 {
        self.encoded_height
    }

    /// The frame type.
    pub closed spec fn spec_frame_type(self) -> VideoFrameType {
        self.frame_type
    }

    /// The quantizer value.
    pub closed spec fn spec_qp(self) -> i32 {
        self.qp
    }

    /// Stores a copy of the given buffer as the encoded bytes.
    pub fn set_encoded_data(&mut self, encoded_data: &EncodedImageBuffer)
        ensures
            final(self).spec_encoded_data() == Some(encoded_data@),
            unchanged_but_data(*old(self), *final(self)),
    {
        self.encoded_data = Some(encoded_data.clone_buffer());
    }

    /// Sets the RTP timestamp.
    pub fn set_rtp_timestamp(&mut self, rtp_timestamp: u32)
        ensures
            final(self).spec_rtp_timestamp() == rtp_timestamp,
            final(self).spec_encoded_data() == old(self).spec_encoded_data(),
            final(self).spec_encoded_width() == old(self).spec_encoded_width(),
            final(self).spec_encoded_height() == old(self).spec_encoded_height(),
            final(self).spec_frame_type() == old(self).spec_frame_type(),
            final(self).spec_qp() == old(self).spec_qp(),
    {
        self.rtp_timestamp = rtp_timestamp;
    }

    /// Sets the encoded width.
    pub fn set_encoded_width(&mut self, encoded_width: u32)
        ensures
            final(self).spec_encoded_width() == encoded_width,
            final(self).spec_encoded_data() == old(self).spec_encoded_data(),
            final(self).spec_rtp_timestamp() == old(self).spec_rtp_timestamp(),
            final(self).spec_encoded_height() == old(self).spec_encoded_height(),
            final(self).spec_frame_type() == old(self).spec_frame_type(),
            final(self).spec_qp() == old(self).spec_qp(),
    {
        self.encoded_width = encoded_width;
    }

    /// Sets the encoded height.
    pub fn set_encoded_height(&mut self, encoded_height: u32)
        ensures
            final(self).spec_encoded_height() == encoded_height,
            final(self).spec_encoded_data() == old(self).spec_encoded_data(),
            final(self).spec_rtp_timestamp() == old(self).spec_rtp_timestamp(),
            final(self).spec_encoded_width() == old(self).spec_encoded_width(),
            final(self).spec_frame_type() == old(self).spec_frame_type(),
            final(self).spec_qp() == old(self).spec_qp(),
    {
        self.encoded_height = encoded_height;
    }

    /// Sets the frame type.
    pub fn set_frame_type(&mut self, frame_type: VideoFrameType)
        ensures
            final(self).spec_frame_type() == frame_type,
            final(self).spec_encoded_data() == old(self).spec_encoded_data(),
            final(self).spec_rtp_timestamp() == old(self).spec_rtp_timestamp(),
            final(self).spec_encoded_width() == old(self).spec_encoded_width(),
            final(self).spec_encoded_height() == old(self).spec_encoded_height(),
            final(self).spec_qp() == old(self).spec_qp(),
    {
        self.frame_type = frame_type;
    }

    /// Sets the quantizer value.
    pub fn set_qp(&mut self, qp: i32)
        ensures
            final(self).spec_qp() == qp,
            final(self).spec_encoded_data() == old(self).spec_encoded_data(),
            final(self).spec_rtp_timestamp() == old(self).spec_rtp_timestamp(),
            final(self).spec_encoded_width() == old(self).spec_encoded_width(),
            final(self).spec_encoded_height() == old(self).spec_encoded_height(),
            final(self).spec_frame_type() == old(self).spec_frame_type(),
    {
        self.qp = qp;
    }

    /// The encoded bytes, as a fresh buffer, when set.
    pub fn encoded_data(&self) -> (r: Option<EncodedImageBuffer>)
        ensures
            self.spec_encoded_data() is None ==> r is None,
            self.spec_encoded_data() matches Some(b) ==> (r matches Some(out) && out@ == b),
    {
        match &self.encoded_data {
            Some(b) => Some(b.clone_buffer()),
            None => None,
        }
    }

    /// The RTP timestamp.
    pub fn rtp_timestamp(&self) -> (r: u32)
        ensures
            r == self.spec_rtp_timestamp(),
    {
        self.rtp_timestamp
    }

    /// The encoded width.
    pub fn encoded_width(&self) -> (r: u32)
        ensures
            r == self.spec_encoded_width(),
    {
        self.encoded_width
    }

    /// The encoded height.
    pub fn encoded_height(&self) -> (r: u32)
        ensures
            r == self.spec_encoded_height(),
    {
        self.encoded_height
    }

    /// The frame type.
    pub fn frame_type(&self) -> (r: VideoFrameType)
        ensures
            r == self.spec_frame_type(),
    {
        self.frame_type
    }

    /// The quantizer value.
    pub fn qp(&self) -> (r: i32)
        ensures
            r == self.spec_qp(),
    {
        self.qp
    }

    /// A borrow-only view of the image.
    pub fn as_ref(&self) -> (r: EncodedImageRef<'_>)
        ensures
            r.spec_image() == *self,
    {
        EncodedImageRef { target: self }
    }
}

/// Whether two images agree on everything but the encoded bytes.
pub open spec fn unchanged_but_data(a: EncodedImage, b: EncodedImage) -> bool {
    &&& a.spec_rtp_timestamp() == b.spec_rtp_timestamp()
    &&& a.spec_encoded_width() == b.spec_encoded_width()
    &&& a.spec_encoded_height() == b.spec_encoded_height()
    &&& a.spec_frame_type() == b.spec_frame_type()
    &&& a.spec_qp() == b.spec_qp()
}

/// A borrowed view of an encoded image, the shape in which images reach
/// callbacks.
pub struct EncodedImageRef<'a> {
    target: &'a EncodedImage,
}

impl<'a> EncodedImageRef<'a> {
    /// Wraps a borrowed image.
    pub fn from_raw(target: &'a EncodedImage) -> (r: EncodedImageRef<'a>)
        ensures
            r.spec_image() == *target,
    {
        EncodedImageRef { target }
    }

    /// The viewed image.
    pub closed spec fn spec_image(self) -> EncodedImage {
        *self.target
    }

    /// The encoded bytes, as a fresh buffer, when set.
    pub fn encoded_data(&self) -> (r: Option<EncodedImageBuffer>)
        ensures
            self.spec_image().spec_encoded_data() is None ==> r is None,
            self.spec_image().spec_encoded_data() matches Some(b) ==> (r matches Some(out)
                && out@ == b),
    {
        self.target.encoded_data()
    }

    /// The RTP timestamp.
    pub fn rtp_timestamp(&self) -> (r: u32)
        ensures
            r == self.spec_image().spec_rtp_timestamp(),
    {
        self.target.rtp_timestamp()
    }

    /// The encoded width.
    pub fn encoded_width(&self) -> (r: u32)
        ensures
            r == self.spec_image().spec_encoded_width(),
    {
        self.target.encoded_width()
    }

    /// The encoded height.
    pub fn encoded_height(&self) -> (r: u32)
        ensures
            r == self.spec_image().spec_encoded_height(),
    {
        self.target.encoded_height()
    }

    /// The frame type.
    pub fn frame_type(&self) -> (r: VideoFrameType)
        ensures
            r == self.spec_image().spec_frame_type(),
    {
        self.target.frame_type()
    }

    /// The quantizer value.
    pub fn qp(&self) -> (r: i32)
        ensures
            r == self.spec_image().spec_qp(),
    {
        self.target.qp()
    }
}

} // verus!
