//! User views: images and waveforms that patches share with the controller
//! through buffers. Each buffer is a layer of a view; the layers are drawn in
//! the order of their z index. This module reads a layer's header and image
//! bytes, keeps the layers of each view, and keeps the views by index with
//! the one shown; reading the shared memory itself and drawing on the
//! display are left to the caller.
use vstd::prelude::*;
use crate::json::{json_bool, json_bool_at, json_i64, json_i64_at, json_str_at, json_string, json_u64, json_u64_at};
use crate::text::{concat, decimal, decimal_string};
use crate::view::{parse_usize, spec_parse_usize};

verus! {

/// The bytes of a direct-drawing header, before the pixel data.
pub const HEADER_BYTES: usize = 32;

/// The size the display gives an image that names none.
pub const DEFAULT_WIDTH: u32 = 128;
pub const DEFAULT_HEIGHT: u32 = 64;

/// A direct-drawing header: whether new pixel data waits, the image's width
/// and height, and where it goes on the screen.
#[derive(Copy, Clone, Debug, PartialEq, Eq, Structural)]
pub struct LayerHeader {
    pub dirty: bool,
    pub width: u32,
    pub height: u32,
    pub x: i32,
    pub y: i32,
}

/// The little-endian unsigned 32-bit number in bytes `at..at + 4`.
pub open spec fn le_u32(c: Seq<u8>, at: int) -> int {
    c[at] + 256 * c[at + 1] + 65536 * c[at + 2] + 16777216 * c[at + 3]
}

/// The little-endian signed (two's complement) 32-bit number in bytes
/// `at..at + 4`.
pub open spec fn le_i32(c: Seq<u8>, at: int) -> int {
    if le_u32(c, at) < 0x8000_0000 {
        le_u32(c, at)
    } else {
        le_u32(c, at) - 0x1_0000_0000
    }
}

fn read_u32(c: &[u8], at: usize) -> (v: u32)
    requires
        at + 4 <= c@.len(),
    ensures
        v == le_u32(c@, at as int),
{
    c[at] as u32 + 256 * (c[at + 1] as u32) + 65536 * (c[at + 2] as u32) + 16777216 * (c[at + 3] as u32)
}

fn read_i32(c: &[u8], at: usize) -> (v: i32)
    requires
        at + 4 <= c@.len(),
    ensures
        v == le_i32(c@, at as int),
{
    let u = read_u32(c, at);
    if u < 0x8000_0000 {
        u as i32
    } else {
        let low = (u - 0x8000_0000) as i32;
        low + i32::MIN
    }
}

/// The header of a layer's buffer, when the buffer holds more than the
/// header: byte 0 is the dirty flag (1: new data), bytes 4 to 12 the width
/// and height, bytes 12 to 20 the x and y offsets.
pub fn read_layer_header(c: &[u8]) -> (h: Option<LayerHeader>)
    ensures
        h is Some <==> c@.len() > 32,
        h is Some ==> {
            let hh = h->0;
            &&& hh.dirty == (c@[0] == 1)
            &&& hh.width == le_u32(c@, 4)
            &&& hh.height == le_u32(c@, 8)
            &&& hh.x == le_i32(c@, 12)
            &&& hh.y == le_i32(c@, 16)
        },
{
    if c.len() > HEADER_BYTES {
        Some(
            LayerHeader {
                dirty: c[0] == 1,
                width: read_u32(c, 4),
                height: read_u32(c, 8),
                x: read_i32(c, 12),
                y: read_i32(c, 16),
            },
        )
    } else {
        None
    }
}

/// The width an image is drawn at: its own, or the display's when it names
/// none.
pub open spec fn image_width(h: LayerHeader) -> u32 {
    if h.width > 0 {
        h.width
    } else {
        DEFAULT_WIDTH
    }
}

/// The height an image is drawn at.
pub open spec fn image_height(h: LayerHeader) -> u32 {
    if h.height > 0 {
        h.height
    } else {
        DEFAULT_HEIGHT
    }
}

/// The bytes of an image: each row padded to whole bytes.
pub open spec fn image_len(h: LayerHeader) -> int {
    (image_width(h) as int + 7) / 8 * image_height(h)
}

/// The image of a layer: its width and height, and the first `image_len`
/// bytes after the header (fewer when the buffer ends before).
pub fn layer_image(h: &LayerHeader, c: &[u8]) -> (r: (u32, u32, Vec<u8>))
    requires
        c@.len() >= 32,
    ensures
        r.0 == image_width(*h),
        r.1 == image_height(*h),
        r.2@ == c@.subrange(
            32,
            if 32 + image_len(*h) <= c@.len() {
                32 + image_len(*h)
            } else {
                c@.len() as int
            },
        ),
{
    let w: u32 = if h.width > 0 {
        h.width
    } else {
        DEFAULT_WIDTH
    };
    let ht: u32 = if h.height > 0 {
        h.height
    } else {
        DEFAULT_HEIGHT
    };
    let row: u64 = (w as u64 + 7) / 8;
    assert(row * (ht as u64) <= 0x2000_0000u64 * 0xFFFF_FFFFu64) by (nonlinear_arith)
        requires
            row <= 0x2000_0000u64,
            ht <= 0xFFFF_FFFFu32,
    ;
    let len: u64 = row * (ht as u64);
    let avail: usize = c.len() - HEADER_BYTES;
    let n: usize = if len <= avail as u64 {
        len as usize
    } else {
        avail
    };
    let mut out: Vec<u8> = Vec::new();
    let mut i: usize = 0;
    while i < n
        invariant
            n <= avail,
            avail == c@.len() - 32,
            c@.len() == c.len(),
            c.len() <= usize::MAX,
            i <= n,
            out@ == c@.subrange(32, 32 + i),
        decreases n - i,
    {
        out.push(c[HEADER_BYTES + i]);
        i = i + 1;
        assert(out@ =~= c@.subrange(32, 32 + i));
    }
    (w, ht, out)
}

/// How a layer's buffer is to be read.
#[derive(Copy, Clone, Debug, PartialEq, Eq, Structural)]
pub enum Format {
    /// Direct drawing: a header and one bit per pixel.
    UserImage,
    /// Samples to draw as a waveform.
    Float32Buffer,
    Float64Buffer,
}

/// The format of a buffer, and, for samples, its channels and sample rate.
#[derive(Copy, Clone, Debug, PartialEq, Eq, Structural)]
pub struct FormatInfo {
    pub format: Format,
    pub channels: usize,
    pub samplerate: usize,
}

/// The `-`-separated fields of a name.
pub open spec fn fields(s: Seq<u8>) -> Seq<Seq<u8>>
    decreases s.len(),
{
    if s.len() == 0 {
        seq![Seq::empty()]
    } else {
        let r = fields(s.drop_last());
        if s.last() == 45u8 {
            r.push(Seq::empty())
        } else {
            r.update(r.len() - 1, r.last().push(s.last()))
        }
    }
}

proof fn lemma_fields_nonempty(s: Seq<u8>)
    ensures
        fields(s).len() >= 1,
    decreases s.len(),
{
    if s.len() > 0 {
        lemma_fields_nonempty(s.drop_last());
    }
}

/// The format named by a shared buffer's name `{name}-{type}-{channels}-{rate}`:
/// type `f32` or `f64` for samples (channels and rate read as numbers, 0 when
/// they do not read), anything else, or fewer than four fields, a direct
/// drawing.
pub open spec fn spec_format(name: Seq<u8>) -> FormatInfo {
    let f = fields(name);
    let format = if f.len() >= 4 && f[1] == seq![102u8, 51, 50] {
        Format::Float32Buffer
    } else if f.len() >= 4 && f[1] == seq![102u8, 54, 52] {
        Format::Float64Buffer
    } else {
        Format::UserImage
    };
    if format == Format::UserImage {
        FormatInfo { format, channels: 0, samplerate: 0 }
    } else {
        FormatInfo {
            format,
            channels: match spec_parse_usize(f[2]) {
                Some(v) => v,
                None => 0,
            },
            samplerate: match spec_parse_usize(f[3]) {
                Some(v) => v,
                None => 0,
            },
        }
    }
}

fn split_fields(s: &[u8]) -> (r: Vec<Vec<u8>>)
    ensures
        r@.map_values(|v: Vec<u8>| v@) == fields(s@),
{
    let mut r: Vec<Vec<u8>> = Vec::new();
    r.push(Vec::new());
    let n = s.len();
    let mut i: usize = 0;
    assert(s@.take(0) =~= Seq::<u8>::empty());
    assert(r@.map_values(|v: Vec<u8>| v@) =~= fields(s@.take(0)));
    while i < n
        invariant
            n == s@.len(),
            i <= n,
            r@.len() >= 1,
            r@.map_values(|v: Vec<u8>| v@) == fields(s@.take(i as int)),
        decreases n - i,
    {
        let ghost r0 = r@.map_values(|v: Vec<u8>| v@);
        assert(s@.take(i + 1).drop_last() =~= s@.take(i as int));
        if s[i] == 45u8 {
            r.push(Vec::new());
            assert(r@.map_values(|v: Vec<u8>| v@) =~= r0.push(Seq::empty()));
        } else {
            let last = r.len() - 1;
            let mut cur = r.pop().unwrap();
            cur.push(s[i]);
            r.push(cur);
            assert(r@.map_values(|v: Vec<u8>| v@) =~= r0.update(last as int, r0.last().push(s@[i as int])));
        }
        i = i + 1;
    }
    assert(s@.take(n as int) =~= s@);
    r
}

fn bytes_eq(a: &Vec<u8>, b: &[u8]) -> (r: bool)
    ensures
        r == (a@ == b@),
{
    if a.len() != b.len() {
        return false;
    }
    let mut i: usize = 0;
    while i < a.len()
        invariant
            a@.len() == b@.len(),
            i <= a@.len(),
            forall|j: int| 0 <= j < i ==> a@[j] == b@[j],
        decreases a@.len() - i,
    {
        if a[i] != b[i] {
            return false;
        }
        i = i + 1;
    }
    assert(a@ =~= b@);
    true
}

/// The format a shared buffer's name gives.
pub fn get_format(name: &str) -> (f: FormatInfo)
    ensures
        f == spec_format(vstd::utf8::encode_utf8(name@)),
{
    let b = name.as_bytes();
    let parts = split_fields(b);
    let ghost fs = parts@.map_values(|v: Vec<u8>| v@);
    proof {
        lemma_fields_nonempty(b@);
    }
    let n = parts.len();
    let format = if n >= 4 && bytes_eq(&parts[1], &[102u8, 51, 50]) {
        Format::Float32Buffer
    } else if n >= 4 && bytes_eq(&parts[1], &[102u8, 54, 52]) {
        Format::Float64Buffer
    } else {
        Format::UserImage
    };
    proof {
        if n >= 4 {
            assert(fs[1] == parts@[1]@);
            assert(seq![102u8, 51, 50] =~= [102u8, 51, 50]@);
            assert(seq![102u8, 54, 52] =~= [102u8, 54, 52]@);
        }
    }
    match format {
        Format::UserImage => FormatInfo { format, channels: 0, samplerate: 0 },
        _ => {
            assert(fs[2] == parts@[2]@ && fs[3] == parts@[3]@);
            let channels = match parse_usize(parts[2].as_slice()) {
                Some(v) => v,
                None => 0,
            };
            let samplerate = match parse_usize(parts[3].as_slice()) {
                Some(v) => v,
                None => 0,
            };
            FormatInfo { format, channels, samplerate }
        },
    }
}

/// How a buffer takes part in a view, as its meta data says: the view's
/// index, the parameter view to show with it, the layer's z index, whether
/// it starts hidden, the view's name, the shared memory name, and whether it
/// is drawn by exclusive or over the layers below.
pub struct ViewData {
    pub view_index: usize,
    pub param_view_name: Option<String>,
    pub view_z: Option<i8>,
    pub view_hidden: bool,
    pub view_name: Option<String>,
    pub shm_name: Option<String>,
    pub view_xor: bool,
}

impl ViewData {
    pub fn new(
        view_index: usize,
        param_view_name: Option<String>,
        view_z: Option<i8>,
        view_hidden: bool,
        view_name: Option<String>,
        shm_name: Option<String>,
        view_xor: bool,
    ) -> (v: Self)
        ensures
            v == (ViewData {
                view_index,
                param_view_name,
                view_z,
                view_hidden,
                view_name,
                shm_name,
                view_xor,
            }),
    {
        ViewData { view_index, param_view_name, view_z, view_hidden, view_name, shm_name, view_xor }
    }
}

/// View data as values.
pub struct ViewDataView {
    pub view_index: usize,
    pub param_view_name: Option<Seq<char>>,
    pub view_z: Option<i8>,
    pub view_hidden: bool,
    pub view_name: Option<Seq<char>>,
    pub shm_name: Option<Seq<char>>,
    pub view_xor: bool,
}

impl View for ViewData {
    type V = ViewDataView;

    open spec fn view(&self) -> ViewDataView {
        ViewDataView {
            view_index: self.view_index,
            param_view_name: opt_view(self.param_view_name),
            view_z: self.view_z,
            view_hidden: self.view_hidden,
            view_name: opt_view(self.view_name),
            shm_name: opt_view(self.shm_name),
            view_xor: self.view_xor,
        }
    }
}

/// A z index read from meta data: an integer in the range of z indexes.
pub open spec fn z_of(z: Option<i64>) -> Option<i8> {
    match z {
        Some(v) => if -128 <= v <= 127 {
            Some(v as i8)
        } else {
            None
        },
        None => None,
    }
}

/// The view data that meta data with these readings declares: the "view"
/// index, "paramview", "z", "viewhidden", "viewname" and "viewxor"; a flag
/// that is not a boolean reads as false, and there is no shared memory name.
/// There is none without a view index (or with one beyond `usize`).
pub open spec fn spec_view_data(
    view: Option<u64>,
    paramview: Option<Seq<char>>,
    z: Option<i64>,
    hidden: Option<bool>,
    name: Option<Seq<char>>,
    xor: Option<bool>,
) -> Option<ViewDataView> {
    match view {
        Some(v) => if v <= usize::MAX {
            Some(
                ViewDataView {
                    view_index: v as usize,
                    param_view_name: paramview,
                    view_z: z_of(z),
                    view_hidden: hidden == Some(true),
                    view_name: name,
                    shm_name: None,
                    view_xor: xor == Some(true),
                },
            )
        } else {
            None
        },
        None => None,
    }
}

/// The view data that a buffer's meta data text declares.
pub open spec fn meta_view_data(meta: Seq<char>) -> Option<ViewDataView> {
    spec_view_data(
        json_u64_at(meta, "view"@),
        json_str_at(meta, "paramview"@),
        json_i64_at(meta, "z"@),
        json_bool_at(meta, "viewhidden"@),
        json_str_at(meta, "viewname"@),
        json_bool_at(meta, "viewxor"@),
    )
}

/// Some view data as values.
pub open spec fn opt_vd(r: Option<ViewData>) -> Option<ViewDataView> {
    match r {
        Some(vd) => Some(vd@),
        None => None,
    }
}

/// The view data that meta data declares, given its readings (see
/// `spec_view_data`).
pub fn view_data_of(
    view: Option<u64>,
    paramview: Option<String>,
    z: Option<i64>,
    hidden: Option<bool>,
    name: Option<String>,
    xor: Option<bool>,
) -> (r: Option<ViewData>)
    ensures
        opt_vd(r) == spec_view_data(view, opt_view(paramview), z, hidden, opt_view(name), xor),
{
    let v = match view {
        Some(v) => v,
        None => return None,
    };
    if v > usize::MAX as u64 {
        return None;
    }
    let view_z = match z {
        Some(z) => if -128 <= z && z <= 127 {
            Some(z as i8)
        } else {
            None
        },
        None => None,
    };
    let view_hidden = match hidden {
        Some(b) => b,
        None => false,
    };
    let view_xor = match xor {
        Some(b) => b,
        None => false,
    };
    Some(ViewData::new(v as usize, paramview, view_z, view_hidden, name, None, view_xor))
}

/// The view data that a buffer's meta data text declares (see
/// `meta_view_data`).
pub fn view_data(meta: &str) -> (r: Option<ViewData>)
    ensures
        opt_vd(r) == meta_view_data(meta@),
{
    let view = json_u64(meta, "view");
    let paramview = json_string(meta, "paramview");
    let z = json_i64(meta, "z");
    let hidden = json_bool(meta, "viewhidden");
    let name = json_string(meta, "viewname");
    let xor = json_bool(meta, "viewxor");
    view_data_of(view, paramview, z, hidden, name, xor)
}

/// One layer of a view: the buffer it shows, how to read it, where it sits,
/// and what was last read from it.
pub struct UserViewLayer {
    pub buffer: String,
    pub shm_name: Option<String>,
    pub format: FormatInfo,
    pub z: i8,
    /// The buffer is to be read again.
    pub dirty: bool,
    pub hidden: bool,
    pub do_xor: bool,
    pub param_view_name: Option<String>,
    /// The image last read, rows of `width` bits, with its size and where
    /// it goes on the screen.
    pub rendering: Vec<u8>,
    pub width: u32,
    pub height: u32,
    pub x: i32,
    pub y: i32,
}

/// A layer as values.
pub struct LayerView {
    pub buffer: Seq<char>,
    pub shm_name: Option<Seq<char>>,
    pub format: FormatInfo,
    pub z: i8,
    pub dirty: bool,
    pub hidden: bool,
    pub do_xor: bool,
    pub param_view_name: Option<Seq<char>>,
    pub rendering: Seq<u8>,
    pub width: u32,
    pub height: u32,
    pub x: i32,
    pub y: i32,
}

pub open spec fn opt_view(o: Option<String>) -> Option<Seq<char>> {
    match o {
        Some(s) => Some(s@),
        None => None,
    }
}

impl View for UserViewLayer {
    type V = LayerView;

    open spec fn view(&self) -> LayerView {
        LayerView {
            buffer: self.buffer@,
            shm_name: opt_view(self.shm_name),
            format: self.format,
            z: self.z,
            dirty: self.dirty,
            hidden: self.hidden,
            do_xor: self.do_xor,
            param_view_name: opt_view(self.param_view_name),
            rendering: self.rendering@,
            width: self.width,
            height: self.height,
            x: self.x,
            y: self.y,
        }
    }
}

/// The format of a layer with this shared memory name (a direct drawing
/// when it has none).
pub open spec fn format_for(shm: Option<Seq<char>>) -> FormatInfo {
    match shm {
        Some(n) => spec_format(vstd::utf8::encode_utf8(n)),
        None => FormatInfo { format: Format::UserImage, channels: 0, samplerate: 0 },
    }
}

/// A new layer for `buffer`: it is read at the next draw.
pub open spec fn layer_from(buffer: Seq<char>, vd: ViewDataView) -> LayerView {
    LayerView {
        buffer,
        shm_name: vd.shm_name,
        format: format_for(vd.shm_name),
        z: match vd.view_z {
            Some(z) => z,
            None => 0,
        },
        dirty: true,
        hidden: vd.view_hidden,
        do_xor: vd.view_xor,
        param_view_name: vd.param_view_name,
        rendering: Seq::empty(),
        width: 0,
        height: 0,
        x: 0,
        y: 0,
    }
}

/// A layer after new view data: a new shared memory name drops what was read
/// and reads again.
pub open spec fn layer_updated(l: LayerView, vd: ViewDataView) -> LayerView {
    let renamed = l.shm_name != vd.shm_name;
    LayerView {
        buffer: l.buffer,
        shm_name: vd.shm_name,
        format: format_for(vd.shm_name),
        z: match vd.view_z {
            Some(z) => z,
            None => 0,
        },
        dirty: if renamed {
            true
        } else {
            l.dirty
        },
        hidden: vd.view_hidden,
        do_xor: vd.view_xor,
        param_view_name: vd.param_view_name,
        rendering: if renamed {
            Seq::empty()
        } else {
            l.rendering
        },
        width: l.width,
        height: l.height,
        x: l.x,
        y: l.y,
    }
}

/// Position of the first layer showing `buffer`.
pub open spec fn buffer_pos(ls: Seq<LayerView>, buffer: Seq<char>) -> Option<int>
    decreases ls.len(),
{
    if ls.len() == 0 {
        None
    } else {
        match buffer_pos(ls.drop_last(), buffer) {
            Some(p) => Some(p),
            None => if ls.last().buffer == buffer {
                Some(ls.len() - 1)
            } else {
                None
            },
        }
    }
}

/// Where a layer with index `z` goes: after every layer whose z is not above
/// it.
pub open spec fn z_pos(ls: Seq<LayerView>, z: i8) -> int
    decreases ls.len(),
{
    if ls.len() == 0 {
        0
    } else if ls.last().z > z {
        z_pos(ls.drop_last(), z)
    } else {
        ls.len() as int
    }
}

/// `l` put into `ls` after every layer whose z is not above its own.
pub open spec fn insert_z(ls: Seq<LayerView>, l: LayerView) -> Seq<LayerView> {
    ls.insert(z_pos(ls, l.z), l)
}

/// The layers stably sorted by z, lowest first: each layer in turn is put
/// after every layer already placed whose z is not above its own, so layers
/// with the same z keep their order.
pub open spec fn sort_z(s: Seq<LayerView>) -> Seq<LayerView>
    decreases s.len(),
{
    if s.len() == 0 {
        s
    } else {
        insert_z(sort_z(s.drop_last()), s.last())
    }
}

/// Layers ordered by z, lowest first.
pub open spec fn z_sorted(ls: Seq<LayerView>) -> bool {
    forall|i: int, j: int| 0 <= i < j < ls.len() ==> (#[trigger] ls[i]).z <= (#[trigger] ls[j]).z
}

/// No two layers show the same buffer.
pub open spec fn buffers_unique(ls: Seq<LayerView>) -> bool {
    forall|i: int, j: int| 0 <= i < j < ls.len() ==> (#[trigger] ls[i]).buffer != (#[trigger] ls[j]).buffer
}

/// The name of the first layer, in z order, that names a parameter view.
pub open spec fn first_param_view(ls: Seq<LayerView>) -> Option<Seq<char>>
    decreases ls.len(),
{
    if ls.len() == 0 {
        None
    } else {
        match ls[0].param_view_name {
            Some(n) => Some(n),
            None => first_param_view(ls.drop_first()),
        }
    }
}

/// Position of the first layer with index `z`.
pub open spec fn z_layer(ls: Seq<LayerView>, z: i8) -> Option<int>
    decreases ls.len(),
{
    if ls.len() == 0 {
        None
    } else {
        match z_layer(ls.drop_last(), z) {
            Some(p) => Some(p),
            None => if ls.last().z == z {
                Some(ls.len() - 1)
            } else {
                None
            },
        }
    }
}

proof fn lemma_z_layer(ls: Seq<LayerView>, z: i8)
    ensures
        match z_layer(ls, z) {
            Some(p) => 0 <= p < ls.len() && ls[p].z == z && forall|i: int| 0 <= i < p ==> (#[trigger] ls[i]).z != z,
            None => forall|i: int| 0 <= i < ls.len() ==> (#[trigger] ls[i]).z != z,
        },
    decreases ls.len(),
{
    if ls.len() > 0 {
        lemma_z_layer(ls.drop_last(), z);
        assert forall|i: int| 0 <= i < ls.len() - 1 implies ls.drop_last()[i] == #[trigger] ls[i] by {}
    }
}

/// A user view: its name, the parameter view shown with it, and its layers.
pub struct UserView {
    pub name: Option<String>,
    pub param_view_name: Option<String>,
    pub layers: Vec<UserViewLayer>,
}

/// In a list in z order, the layers before the place `z_pos` gives have a z
/// not above `z`, and those from it on a z above.
pub proof fn lemma_z_pos_bounds(ls: Seq<LayerView>, z: i8)
    requires
        z_sorted(ls),
    ensures
        0 <= z_pos(ls, z) <= ls.len(),
        forall|i: int| 0 <= i < z_pos(ls, z) ==> (#[trigger] ls[i]).z <= z,
        forall|i: int| z_pos(ls, z) <= i < ls.len() ==> (#[trigger] ls[i]).z > z,
    decreases ls.len(),
{
    if ls.len() > 0 {
        let d = ls.drop_last();
        assert forall|i: int, j: int| 0 <= i < j < d.len() implies (#[trigger] d[i]).z <= (#[trigger] d[j]).z by {
            assert(d[i] == ls[i] && d[j] == ls[j]);
        }
        lemma_z_pos_bounds(d, z);
        if ls.last().z > z {
            assert forall|i: int| 0 <= i < z_pos(ls, z) implies (#[trigger] ls[i]).z <= z by {
                assert(ls[i] == d[i]);
            }
            assert forall|i: int| z_pos(ls, z) <= i < ls.len() implies (#[trigger] ls[i]).z > z by {
                if i < ls.len() - 1 {
                    assert(ls[i] == d[i]);
                }
            }
        } else {
            assert forall|i: int| 0 <= i < z_pos(ls, z) implies (#[trigger] ls[i]).z <= z by {
                assert(ls[i].z <= ls[ls.len() - 1].z);
            }
        }
    }
}

/// Where `buffer_pos` finds a buffer: a layer showing it.
pub proof fn lemma_buffer_pos(ls: Seq<LayerView>, b: Seq<char>)
    ensures
        match buffer_pos(ls, b) {
            Some(p) => 0 <= p < ls.len() && ls[p].buffer == b,
            None => forall|i: int| 0 <= i < ls.len() ==> (#[trigger] ls[i]).buffer != b,
        },
    decreases ls.len(),
{
    if ls.len() > 0 {
        lemma_buffer_pos(ls.drop_last(), b);
        assert forall|i: int| 0 <= i < ls.len() - 1 implies ls.drop_last()[i] == #[trigger] ls[i] by {}
    }
}

proof fn lemma_buffer_pos_first(ls: Seq<LayerView>, b: Seq<char>, j: int)
    requires
        0 <= j < ls.len(),
        ls[j].buffer == b,
        forall|i: int| 0 <= i < j ==> (#[trigger] ls[i]).buffer != b,
    ensures
        buffer_pos(ls, b) == Some(j),
    decreases ls.len(),
{
    let d = ls.drop_last();
    if j == ls.len() - 1 {
        lemma_buffer_pos(d, b);
        if let Some(p) = buffer_pos(d, b) {
            assert(d[p] == ls[p]);
        }
    } else {
        assert forall|i: int| 0 <= i < j implies (#[trigger] d[i]).buffer != b by {
            assert(d[i] == ls[i]);
        }
        assert(d[j] == ls[j]);
        lemma_buffer_pos_first(d, b, j);
    }
}

proof fn lemma_remove_keeps_wf(ls: Seq<LayerView>, p: int)
    requires
        0 <= p < ls.len(),
        z_sorted(ls),
        buffers_unique(ls),
    ensures
        z_sorted(ls.remove(p)),
        buffers_unique(ls.remove(p)),
        forall|i: int| 0 <= i < ls.len() - 1 ==> (#[trigger] ls.remove(p)[i]).buffer != ls[p].buffer,
{
    let r = ls.remove(p);
    assert forall|i: int| 0 <= i < r.len() implies #[trigger] r[i] == ls[if i < p { i } else { i + 1 }] by {}
    assert forall|i: int, j: int| 0 <= i < j < r.len() implies (#[trigger] r[i]).z <= (#[trigger] r[j]).z by {
        assert(r[i] == ls[if i < p { i } else { i + 1 }]);
        assert(r[j] == ls[if j < p { j } else { j + 1 }]);
    }
    assert forall|i: int, j: int| 0 <= i < j < r.len() implies (#[trigger] r[i]).buffer != (#[trigger] r[j]).buffer by {
        assert(r[i] == ls[if i < p { i } else { i + 1 }]);
        assert(r[j] == ls[if j < p { j } else { j + 1 }]);
    }
    assert forall|i: int| 0 <= i < ls.len() - 1 implies (#[trigger] r[i]).buffer != ls[p].buffer by {
        assert(r[i] == ls[if i < p { i } else { i + 1 }]);
    }
}

proof fn lemma_insert_keeps_wf(rest: Seq<LayerView>, k: int, nl: LayerView)
    requires
        0 <= k <= rest.len(),
        z_sorted(rest),
        buffers_unique(rest),
        forall|i: int| 0 <= i < k ==> (#[trigger] rest[i]).z <= nl.z,
        forall|i: int| k <= i < rest.len() ==> (#[trigger] rest[i]).z > nl.z,
        forall|i: int| 0 <= i < rest.len() ==> (#[trigger] rest[i]).buffer != nl.buffer,
    ensures
        z_sorted(rest.insert(k, nl)),
        buffers_unique(rest.insert(k, nl)),
{
    let fl = rest.insert(k, nl);
    assert forall|i: int| 0 <= i < fl.len() && i != k implies #[trigger] fl[i] == rest[if i < k { i } else { i - 1 }] by {}
    assert(fl[k] == nl);
    assert forall|i: int, j: int| 0 <= i < j < fl.len() implies (#[trigger] fl[i]).z <= (#[trigger] fl[j]).z by {
        if i != k {
            assert(fl[i] == rest[if i < k { i } else { i - 1 }]);
        }
        if j != k {
            assert(fl[j] == rest[if j < k { j } else { j - 1 }]);
        }
    }
    assert forall|i: int, j: int| 0 <= i < j < fl.len() implies (#[trigger] fl[i]).buffer != (#[trigger] fl[j]).buffer by {
        if i != k {
            assert(fl[i] == rest[if i < k { i } else { i - 1 }]);
        }
        if j != k {
            assert(fl[j] == rest[if j < k { j } else { j - 1 }]);
        }
    }
}

/// Sorting by z orders the layers, keeps their number and their buffers
/// apart, and only moves layers.
pub proof fn lemma_sort_z(s: Seq<LayerView>)
    requires
        buffers_unique(s),
    ensures
        sort_z(s).len() == s.len(),
        z_sorted(sort_z(s)),
        buffers_unique(sort_z(s)),
        forall|m: int| 0 <= m < s.len() ==> exists|j: int| 0 <= j < s.len() && #[trigger] sort_z(s)[m] == s[j],
    decreases s.len(),
{
    if s.len() > 0 {
        let d = s.drop_last();
        let x = s.last();
        assert forall|i: int, j: int| 0 <= i < j < d.len() implies (#[trigger] d[i]).buffer != (#[trigger] d[j]).buffer by {
            assert(d[i] == s[i] && d[j] == s[j]);
        }
        lemma_sort_z(d);
        let r = sort_z(d);
        let k = z_pos(r, x.z);
        lemma_z_pos_bounds(r, x.z);
        assert forall|i: int| 0 <= i < r.len() implies (#[trigger] r[i]).buffer != x.buffer by {
            let j = choose|j: int| 0 <= j < d.len() && r[i] == d[j];
            assert(d[j] == s[j]);
        }
        lemma_insert_keeps_wf(r, k, x);
        let f = r.insert(k, x);
        assert(sort_z(s) == f);
        assert forall|m: int| 0 <= m < s.len() implies exists|j: int| 0 <= j < s.len() && #[trigger] sort_z(s)[m] == s[j] by {
            if m == k {
                assert(f[m] == s[s.len() - 1]);
            } else {
                let i = if m < k { m } else { m - 1 };
                assert(f[m] == r[i]);
                let j = choose|j: int| 0 <= j < d.len() && r[i] == d[j];
                assert(d[j] == s[j]);
            }
        }
    }
}

/// A list already in z order is its own sort.
pub proof fn lemma_sort_z_sorted(s: Seq<LayerView>)
    requires
        z_sorted(s),
    ensures
        sort_z(s) == s,
    decreases s.len(),
{
    if s.len() > 0 {
        let d = s.drop_last();
        assert forall|i: int, j: int| 0 <= i < j < d.len() implies (#[trigger] d[i]).z <= (#[trigger] d[j]).z by {
            assert(d[i] == s[i] && d[j] == s[j]);
        }
        lemma_sort_z_sorted(d);
        if d.len() > 0 {
            assert(d.last() == s[d.len() - 1]);
        }
        assert(z_pos(d, s.last().z) == d.len());
        assert(d.insert(d.len() as int, s.last()) =~= s);
    }
}

/// The layers after the first one with index `z` is set to be read again.
pub open spec fn dirty_set(ls: Seq<LayerView>, z: i8) -> Seq<LayerView> {
    match z_layer(ls, z) {
        Some(p) => ls.update(p, LayerView { dirty: true, ..ls[p] }),
        None => ls,
    }
}

/// The layers after the first one with index `z` is hidden or shown.
pub open spec fn hidden_set(ls: Seq<LayerView>, z: i8, hidden: bool) -> Seq<LayerView> {
    match z_layer(ls, z) {
        Some(p) => ls.update(p, LayerView { hidden, ..ls[p] }),
        None => ls,
    }
}

/// The layers after the first one with index `z` is set to be drawn by
/// exclusive or, or over the layers below.
pub open spec fn xor_set(ls: Seq<LayerView>, z: i8, xor: bool) -> Seq<LayerView> {
    match z_layer(ls, z) {
        Some(p) => ls.update(p, LayerView { do_xor: xor, ..ls[p] }),
        None => ls,
    }
}

/// `post` is a view with layers `ls` and name `name` after it took the view
/// data `vd` of `buffer`: the buffer's layer is updated where it stands, or
/// a new one is added at the end when there is none; then the layers are
/// stably sorted by z. The first name given is kept, and the parameter view
/// shown is the one the first layer in z order names.
pub open spec fn view_updated(
    ls: Seq<LayerView>,
    name: Option<Seq<char>>,
    post: UserView,
    buffer: Seq<char>,
    vd: ViewDataView,
) -> bool {
    &&& post.wf()
    &&& post.layer_views() == sort_z(
        match buffer_pos(ls, buffer) {
            Some(p) => ls.update(p, layer_updated(ls[p], vd)),
            None => ls.push(layer_from(buffer, vd)),
        },
    )
    &&& opt_view(post.name) == match name {
        Some(n) => Some(n),
        None => vd.view_name,
    }
    &&& opt_view(post.param_view_name) == first_param_view(post.layer_views())
}

/// One step of drawing a view: the layer at `pos` is drawn, after its
/// shared memory is read when `read`, by exclusive or over the layers below
/// when `xor`, else summed with them.
#[derive(Copy, Clone, Debug, PartialEq, Eq, Structural)]
pub struct DrawStep {
    pub pos: usize,
    pub read: bool,
    pub xor: bool,
}

/// How to draw layers: in their order (z order, lowest first, so higher
/// layers cover lower ones), hidden ones left out; a layer is read first
/// when it is dirty, and drawn by exclusive or when it is set to.
pub open spec fn spec_draw_plan(ls: Seq<LayerView>) -> Seq<DrawStep>
    decreases ls.len(),
{
    if ls.len() == 0 {
        Seq::empty()
    } else {
        let r = spec_draw_plan(ls.drop_last());
        let l = ls.last();
        if l.hidden {
            r
        } else {
            r.push(DrawStep { pos: (ls.len() - 1) as usize, read: l.dirty, xor: l.do_xor })
        }
    }
}

/// The header that a direct-drawing buffer's bytes hold.
pub open spec fn spec_header(c: Seq<u8>) -> LayerHeader {
    LayerHeader {
        dirty: c[0] == 1,
        width: le_u32(c, 4) as u32,
        height: le_u32(c, 8) as u32,
        x: le_i32(c, 12) as i32,
        y: le_i32(c, 16) as i32,
    }
}

/// The image bytes of a direct-drawing buffer with header `h`.
pub open spec fn image_bytes(h: LayerHeader, c: Seq<u8>) -> Seq<u8> {
    c.subrange(
        32,
        if 32 + image_len(h) <= c.len() {
            32 + image_len(h)
        } else {
            c.len() as int
        },
    )
}

/// A layer that took the image of a direct-drawing buffer with bytes `c`.
pub open spec fn with_image(l: LayerView, c: Seq<u8>) -> LayerView {
    let h = spec_header(c);
    LayerView {
        rendering: image_bytes(h, c),
        width: image_width(h),
        height: image_height(h),
        x: h.x,
        y: h.y,
        ..l
    }
}

impl UserView {
    /// The layers as values.
    pub open spec fn layer_views(&self) -> Seq<LayerView> {
        self.layers@.map_values(|l: UserViewLayer| l@)
    }

    /// The layers are in z order and show different buffers.
    pub open spec fn wf(&self) -> bool {
        z_sorted(self.layer_views()) && buffers_unique(self.layer_views())
    }

    pub fn new(name: Option<String>, param_view_name: Option<String>) -> (v: Self)
        ensures
            v.name == name,
            v.param_view_name == param_view_name,
            v.layers@.len() == 0,
            v.wf(),
    {
        UserView { name, param_view_name, layers: Vec::new() }
    }

    /// The view's name, or "view" and its index when it has none.
    pub fn name_or_default(&self, index: usize) -> (r: String)
        ensures
            r@ == match self.name {
                Some(n) => n@,
                None => "view "@ + decimal(index as nat),
            },
    {
        match &self.name {
            Some(n) => n.clone(),
            None => {
                let d = decimal_string(index);
                concat("view ", d.as_str())
            },
        }
    }

    pub fn set_name(&mut self, name: Option<String>)
        ensures
            final(self).name == name,
            final(self).param_view_name == old(self).param_view_name,
            final(self).layers == old(self).layers,
    {
        self.name = name;
    }

    pub fn set_param_view_name(&mut self, name: Option<String>)
        ensures
            final(self).param_view_name == name,
            final(self).name == old(self).name,
            final(self).layers == old(self).layers,
    {
        self.param_view_name = name;
    }

    /// The view has no layers.
    pub fn empty(&self) -> (b: bool)
        ensures
            b == (self.layers@.len() == 0),
    {
        self.layers.len() == 0
    }

    /// Takes out every layer.
    pub fn clear_layers(&mut self)
        ensures
            final(self).wf(),
            final(self).layers@.len() == 0,
            final(self).name == old(self).name,
            final(self).param_view_name == old(self).param_view_name,
    {
        self.layers.clear();
        assert(self.layer_views() =~= Seq::<LayerView>::empty());
    }

    /// Takes the view data of `buffer`: its layer is updated where it stands,
    /// or a new one is added at the end when the view has none for it; then
    /// the layers are stably sorted by z, so layers with the same z keep
    /// their order. The view keeps the first name it was given, and shows
    /// the parameter view the first layer in z order names.
    pub fn update_layers(&mut self, buffer: String, vd: &ViewData)
        requires
            old(self).wf(),
        ensures
            view_updated(old(self).layer_views(), opt_view(old(self).name), *final(self), buffer@, vd@),
    {
        let ghost ls = self.layer_views();
        proof {
            lemma_buffer_pos(ls, buffer@);
        }
        match self.find_buffer(&buffer) {
            Some(p) => {
                let old_layer = self.layers.remove(p);
                let layer = updated_layer(old_layer, vd);
                let ghost nl = layer@;
                self.layers.insert(p, layer);
                assert(self.layer_views() =~= ls.update(p as int, nl));
                let ghost s = self.layer_views();
                assert forall|i: int, j: int| 0 <= i < j < s.len() implies (#[trigger] s[i]).buffer != (#[trigger] s[j]).buffer by {
                    assert(s[i].buffer == ls[i].buffer && s[j].buffer == ls[j].buffer);
                }
            },
            None => {
                let layer = fresh_layer(buffer, vd);
                let ghost nl = layer@;
                self.layers.push(layer);
                assert(self.layer_views() =~= ls.push(nl));
                let ghost s = self.layer_views();
                assert forall|i: int, j: int| 0 <= i < j < s.len() implies (#[trigger] s[i]).buffer != (#[trigger] s[j]).buffer by {
                    if j < ls.len() {
                        assert(s[i] == ls[i] && s[j] == ls[j]);
                    } else {
                        assert(s[i] == ls[i]);
                    }
                }
            },
        }
        let ghost s = self.layer_views();
        proof {
            lemma_sort_z(s);
        }
        self.sort_layers();
        if self.name.is_none() {
            self.name = vd.view_name.clone();
        }
        self.param_view_name = self.first_param_view_name();
    }

    /// Sorts the layers stably by z: each layer in turn is put after every
    /// layer already placed whose z is not above its own.
    fn sort_layers(&mut self)
        ensures
            final(self).layer_views() == sort_z(old(self).layer_views()),
            final(self).name == old(self).name,
            final(self).param_view_name == old(self).param_view_name,
    {
        let ghost s = self.layer_views();
        let mut src: Vec<UserViewLayer> = Vec::new();
        std::mem::swap(&mut src, &mut self.layers);
        let mut out: Vec<UserViewLayer> = Vec::new();
        let n = src.len();
        let mut i: usize = 0;
        assert(out@.map_values(|l: UserViewLayer| l@) =~= sort_z(s.take(0)));
        while i < n
            invariant
                i <= n,
                n == s.len(),
                src@.len() == n - i,
                forall|j: int| 0 <= j < src@.len() ==> (#[trigger] src@[j])@ == s[i + j],
                out@.map_values(|l: UserViewLayer| l@) == sort_z(s.take(i as int)),
            decreases n - i,
        {
            let ghost before = src@;
            let layer = src.remove(0);
            assert(layer@ == s[i as int]);
            assert forall|j: int| 0 <= j < src@.len() implies (#[trigger] src@[j])@ == s[i + 1 + j] by {
                assert(src@[j] == before[j + 1]);
            }
            let z = layer.z;
            let ghost ov = out@.map_values(|l: UserViewLayer| l@);
            let mut k = out.len();
            assert(ov.take(k as int) =~= ov);
            while k > 0 && out[k - 1].z > z
                invariant
                    k <= out@.len(),
                    ov == out@.map_values(|l: UserViewLayer| l@),
                    z_pos(ov, z) == z_pos(ov.take(k as int), z),
                decreases k,
            {
                assert(ov.take(k as int).drop_last() =~= ov.take(k - 1));
                assert(ov.take(k as int).last() == out@[k - 1]@);
                k = k - 1;
            }
            proof {
                if k > 0 {
                    assert(ov.take(k as int).last() == out@[k - 1]@);
                } else {
                    assert(ov.take(0).len() == 0);
                }
                assert(z_pos(ov, z) == k);
            }
            let ghost lv = layer@;
            out.insert(k, layer);
            proof {
                let t = s.take(i + 1);
                assert(t.drop_last() =~= s.take(i as int));
                assert(t.last() == s[i as int]);
                assert(out@.map_values(|l: UserViewLayer| l@) =~= ov.insert(k as int, lv));
            }
            i = i + 1;
        }
        assert(s.take(n as int) =~= s);
        self.layers = out;
    }

    /// How to draw the view (see `spec_draw_plan`).
    pub fn draw_plan(&self) -> (p: Vec<DrawStep>)
        ensures
            p@ == spec_draw_plan(self.layer_views()),
    {
        let ghost ls = self.layer_views();
        let mut p: Vec<DrawStep> = Vec::new();
        let n = self.layers.len();
        let mut j: usize = 0;
        while j < n
            invariant
                ls == self.layer_views(),
                n == ls.len(),
                j <= n,
                p@ == spec_draw_plan(ls.take(j as int)),
            decreases n - j,
        {
            assert(ls.take(j + 1).drop_last() =~= ls.take(j as int));
            assert(ls.take(j + 1).last() == self.layers@[j as int]@);
            let l = &self.layers[j];
            if !l.hidden {
                p.push(DrawStep { pos: j, read: l.dirty, xor: l.do_xor });
            }
            j = j + 1;
        }
        assert(ls.take(n as int) =~= ls);
        p
    }

    /// Takes the bytes `c` of the direct-drawing buffer of the layer at
    /// `pos`. When they hold more than the header and its dirty flag is set,
    /// the image, its size and its offset become what the layer draws, and
    /// the result is true: the caller then clears the flag in the buffer.
    /// Otherwise nothing changes.
    pub fn take_image(&mut self, pos: usize, c: &[u8]) -> (ack: bool)
        requires
            old(self).wf(),
            pos < old(self).layers@.len(),
        ensures
            final(self).wf(),
            ack == (c@.len() > 32 && c@[0] == 1),
            final(self).layer_views() == if ack {
                old(self).layer_views().update(pos as int, with_image(old(self).layer_views()[pos as int], c@))
            } else {
                old(self).layer_views()
            },
            final(self).name == old(self).name,
            final(self).param_view_name == old(self).param_view_name,
    {
        let h = match read_layer_header(c) {
            Some(h) => h,
            None => return false,
        };
        if !h.dirty {
            return false;
        }
        let (w, ht, img) = layer_image(&h, c);
        let ghost ls = self.layer_views();
        let mut l = self.layers.remove(pos);
        l.rendering = img;
        l.width = w;
        l.height = ht;
        l.x = h.x;
        l.y = h.y;
        let ghost lv = l@;
        assert(h == spec_header(c@));
        assert(lv == with_image(ls[pos as int], c@));
        self.layers.insert(pos, l);
        assert(self.layers@[pos as int]@ == lv);
        proof {
            self.settle(ls, pos as int);
        }
        true
    }

    /// Takes a waveform drawn from the shared memory of the layer at `pos`:
    /// the image of `width` by `height` pixels becomes what the layer draws,
    /// and the layer is no longer dirty.
    pub fn take_waveform(&mut self, pos: usize, width: u32, height: u32, rendering: Vec<u8>)
        requires
            old(self).wf(),
            pos < old(self).layers@.len(),
        ensures
            final(self).wf(),
            final(self).layer_views() == old(self).layer_views().update(
                pos as int,
                LayerView { rendering: rendering@, width, height, dirty: false, ..old(self).layer_views()[pos as int] },
            ),
            final(self).name == old(self).name,
            final(self).param_view_name == old(self).param_view_name,
    {
        let ghost ls = self.layer_views();
        let mut l = self.layers.remove(pos);
        l.rendering = rendering;
        l.width = width;
        l.height = height;
        l.dirty = false;
        let ghost lv = l@;
        assert(lv == LayerView { rendering: rendering@, width, height, dirty: false, ..ls[pos as int] });
        self.layers.insert(pos, l);
        assert(self.layers@[pos as int]@ == lv);
        proof {
            self.settle(ls, pos as int);
        }
    }

    /// Whether the layer at `pos` has an image to draw.
    pub fn drawable(&self, pos: usize) -> (b: bool)
        requires
            pos < self.layers@.len(),
        ensures
            b == (self.layer_views()[pos as int].rendering.len() > 0 && self.layer_views()[pos as int].width > 0),
    {
        self.layers[pos].rendering.len() > 0 && self.layers[pos].width > 0
    }

    /// The first layer with index `z` is read again at the next draw.
    pub fn set_layer_dirty(&mut self, z: i8)
        requires
            old(self).wf(),
        ensures
            final(self).wf(),
            final(self).layer_views() == dirty_set(old(self).layer_views(), z),
            final(self).name == old(self).name,
            final(self).param_view_name == old(self).param_view_name,
    {
        if let Some(p) = self.find_z(z) {
            let ghost ls = self.layer_views();
            let mut l = self.layers.remove(p);
            l.dirty = true;
            let ghost lv = l@;
            assert(lv == LayerView { dirty: true, ..ls[p as int] });
            self.layers.insert(p, l);
            assert(self.layers@[p as int]@ == lv);
            proof {
                self.settle(ls, p as int);
            }
        }
    }

    /// The first layer with index `z` is hidden or shown.
    pub fn set_layer_hidden(&mut self, z: i8, hidden: bool)
        requires
            old(self).wf(),
        ensures
            final(self).wf(),
            final(self).layer_views() == hidden_set(old(self).layer_views(), z, hidden),
            final(self).name == old(self).name,
            final(self).param_view_name == old(self).param_view_name,
    {
        if let Some(p) = self.find_z(z) {
            let ghost ls = self.layer_views();
            let mut l = self.layers.remove(p);
            l.hidden = hidden;
            let ghost lv = l@;
            assert(lv == LayerView { hidden: hidden, ..ls[p as int] });
            self.layers.insert(p, l);
            assert(self.layers@[p as int]@ == lv);
            proof {
                self.settle(ls, p as int);
            }
        }
    }

    /// The first layer with index `z` is drawn by exclusive or, or over the
    /// layers below.
    pub fn set_layer_xor(&mut self, z: i8, xor: bool)
        requires
            old(self).wf(),
        ensures
            final(self).wf(),
            final(self).layer_views() == xor_set(old(self).layer_views(), z, xor),
            final(self).name == old(self).name,
            final(self).param_view_name == old(self).param_view_name,
    {
        if let Some(p) = self.find_z(z) {
            let ghost ls = self.layer_views();
            let mut l = self.layers.remove(p);
            l.do_xor = xor;
            let ghost lv = l@;
            assert(lv == LayerView { do_xor: xor, ..ls[p as int] });
            self.layers.insert(p, l);
            assert(self.layers@[p as int]@ == lv);
            proof {
                self.settle(ls, p as int);
            }
        }
    }

    /// After the layer at `p` was taken out and put back changed but for its
    /// buffer and z, the layers are its update and still well formed.
    proof fn settle(&self, ls: Seq<LayerView>, p: int)
        requires
            0 <= p < ls.len(),
            z_sorted(ls),
            buffers_unique(ls),
            self.layers@.len() == ls.len(),
            forall|i: int| 0 <= i < ls.len() && i != p ==> (#[trigger] self.layers@[i])@ == ls[i],
            self.layers@[p]@.z == ls[p].z,
            self.layers@[p]@.buffer == ls[p].buffer,
        ensures
            self.layer_views() == ls.update(p, self.layers@[p]@),
            self.wf(),
    {
        let fl = self.layer_views();
        assert(fl =~= ls.update(p, self.layers@[p]@));
        assert forall|i: int, j: int| 0 <= i < j < fl.len() implies (#[trigger] fl[i]).z <= (#[trigger] fl[j]).z by {
            assert(fl[i].z == ls[i].z && fl[j].z == ls[j].z);
        }
        assert forall|i: int, j: int| 0 <= i < j < fl.len() implies (#[trigger] fl[i]).buffer != (#[trigger] fl[j]).buffer by {
            assert(fl[i].buffer == ls[i].buffer && fl[j].buffer == ls[j].buffer);
        }
    }

    /// The position of the first layer with index `z`.
    fn find_z(&self, z: i8) -> (r: Option<usize>)
        ensures
            match r {
                Some(p) => z_layer(self.layer_views(), z) == Some(p as int) && p < self.layers@.len(),
                None => z_layer(self.layer_views(), z) is None,
            },
    {
        let ghost ls = self.layer_views();
        proof {
            lemma_z_layer(ls, z);
        }
        let n = self.layers.len();
        let mut j: usize = 0;
        while j < n
            invariant
                ls == self.layer_views(),
                n == self.layers@.len(),
                j <= n,
                forall|i: int| 0 <= i < j ==> (#[trigger] ls[i]).z != z,
                ls.len() == n,
                match z_layer(ls, z) {
                    Some(p) => 0 <= p < ls.len() && ls[p].z == z && forall|i: int| 0 <= i < p ==> (#[trigger] ls[i]).z != z,
                    None => forall|i: int| 0 <= i < ls.len() ==> (#[trigger] ls[i]).z != z,
                },
            decreases n - j,
        {
            assert(ls[j as int] == self.layers@[j as int]@);
            if self.layers[j].z == z {
                proof {
                    if let Some(q) = z_layer(ls, z) {
                        if q > j {
                        } else if q < j {
                            assert(ls[q].z != z);
                        }
                    }
                }
                return Some(j);
            }
            j = j + 1;
        }
        proof {
            if let Some(q) = z_layer(ls, z) {
                assert(ls[q].z != z);
            }
        }
        None
    }

    /// Takes out the layer showing `buffer`; returns whether the view has no
    /// layer left.
    pub fn remove_layer(&mut self, buffer: &String) -> (empty: bool)
        requires
            old(self).wf(),
        ensures
            final(self).wf(),
            final(self).layer_views() == match buffer_pos(old(self).layer_views(), buffer@) {
                Some(p) => old(self).layer_views().remove(p),
                None => old(self).layer_views(),
            },
            empty == (final(self).layers@.len() == 0),
            final(self).name == old(self).name,
            final(self).param_view_name == old(self).param_view_name,
    {
        let ghost ls = self.layer_views();
        if let Some(p) = self.find_buffer(buffer) {
            proof {
                lemma_buffer_pos(ls, buffer@);
                lemma_remove_keeps_wf(ls, p as int);
            }
            self.layers.remove(p);
            assert(self.layer_views() =~= ls.remove(p as int));
        }
        self.layers.len() == 0
    }

    /// The position of the first layer showing `buffer`.
    fn find_buffer(&self, buffer: &String) -> (r: Option<usize>)
        ensures
            match r {
                Some(p) => buffer_pos(self.layer_views(), buffer@) == Some(p as int),
                None => buffer_pos(self.layer_views(), buffer@) is None,
            },
    {
        let ghost ls = self.layer_views();
        let n = self.layers.len();
        let mut j: usize = 0;
        while j < n && !(self.layers[j].buffer == *buffer)
            invariant
                ls == self.layer_views(),
                n == self.layers@.len(),
                j <= n,
                forall|i: int| 0 <= i < j ==> (#[trigger] ls[i]).buffer != buffer@,
            decreases n - j,
        {
            assert(ls[j as int] == self.layers@[j as int]@);
            j = j + 1;
        }
        proof {
            lemma_buffer_pos(ls, buffer@);
            if j < n {
                assert(ls[j as int] == self.layers@[j as int]@);
                lemma_buffer_pos_first(ls, buffer@, j as int);
            } else if let Some(q) = buffer_pos(ls, buffer@) {
                assert(ls[q].buffer != buffer@);
            }
        }
        if j < n {
            Some(j)
        } else {
            None
        }
    }

    /// The parameter view named by the first layer, in z order, that names
    /// one.
    fn first_param_view_name(&self) -> (r: Option<String>)
        ensures
            opt_view(r) == first_param_view(self.layer_views()),
    {
        let ghost ls = self.layer_views();
        let mut j: usize = 0;
        assert(ls.skip(0) =~= ls);
        while j < self.layers.len()
            invariant
                ls == self.layer_views(),
                j <= ls.len(),
                first_param_view(ls) == first_param_view(ls.skip(j as int)),
            decreases ls.len() - j,
        {
            assert(ls.skip(j as int)[0] == self.layers@[j as int]@);
            assert(ls.skip(j as int).drop_first() =~= ls.skip(j + 1));
            if self.layers[j].param_view_name.is_some() {
                return self.layers[j].param_view_name.clone();
            }
            j = j + 1;
        }
        assert(ls.skip(j as int) =~= Seq::<LayerView>::empty());
        None
    }
}

fn clone_opt(o: &Option<String>) -> (r: Option<String>)
    ensures
        opt_view(r) == opt_view(*o),
{
    match o {
        Some(s) => Some(s.clone()),
        None => None,
    }
}

fn format_of(shm: &Option<String>) -> (f: FormatInfo)
    ensures
        f == format_for(opt_view(*shm)),
{
    match shm {
        Some(n) => get_format(n.as_str()),
        None => FormatInfo { format: Format::UserImage, channels: 0, samplerate: 0 },
    }
}

/// A new layer for `buffer`.
fn fresh_layer(buffer: String, vd: &ViewData) -> (l: UserViewLayer)
    ensures
        l@ == layer_from(buffer@, vd@),
{
    let shm = clone_opt(&vd.shm_name);
    UserViewLayer {
        buffer,
        format: format_of(&shm),
        shm_name: shm,
        z: match vd.view_z {
            Some(z) => z,
            None => 0,
        },
        dirty: true,
        hidden: vd.view_hidden,
        do_xor: vd.view_xor,
        param_view_name: clone_opt(&vd.param_view_name),
        rendering: Vec::new(),
        width: 0,
        height: 0,
        x: 0,
        y: 0,
    }
}

/// A layer after new view data.
fn updated_layer(l: UserViewLayer, vd: &ViewData) -> (r: UserViewLayer)
    ensures
        r@ == layer_updated(l@, vd@),
{
    let shm = clone_opt(&vd.shm_name);
    let renamed = !same_name(&l.shm_name, &shm);
    UserViewLayer {
        buffer: l.buffer,
        format: format_of(&shm),
        shm_name: shm,
        z: match vd.view_z {
            Some(z) => z,
            None => 0,
        },
        dirty: if renamed {
            true
        } else {
            l.dirty
        },
        hidden: vd.view_hidden,
        do_xor: vd.view_xor,
        param_view_name: clone_opt(&vd.param_view_name),
        rendering: if renamed {
            Vec::new()
        } else {
            l.rendering
        },
        width: l.width,
        height: l.height,
        x: l.x,
        y: l.y,
    }
}

fn same_name(a: &Option<String>, b: &Option<String>) -> (r: bool)
    ensures
        r == (opt_view(*a) == opt_view(*b)),
{
    match (a, b) {
        (Some(x), Some(y)) => *x == *y,
        (None, None) => true,
        _ => false,
    }
}

/// Position of the first view with index `index`.
pub open spec fn view_pos(vs: Seq<(usize, UserView)>, index: usize) -> Option<int>
    decreases vs.len(),
{
    if vs.len() == 0 {
        None
    } else {
        match view_pos(vs.drop_last(), index) {
            Some(p) => Some(p),
            None => if vs.last().0 == index {
                Some(vs.len() - 1)
            } else {
                None
            },
        }
    }
}

proof fn lemma_view_pos(vs: Seq<(usize, UserView)>, index: usize)
    ensures
        match view_pos(vs, index) {
            Some(p) => 0 <= p < vs.len() && vs[p].0 == index && forall|i: int| 0 <= i < p ==> (#[trigger] vs[i]).0 != index,
            None => forall|i: int| 0 <= i < vs.len() ==> (#[trigger] vs[i]).0 != index,
        },
    decreases vs.len(),
{
    if vs.len() > 0 {
        lemma_view_pos(vs.drop_last(), index);
        assert forall|i: int| 0 <= i < vs.len() - 1 implies vs.drop_last()[i] == #[trigger] vs[i] by {}
    }
}

/// The user views, each with the index that selects it, and the index of
/// the one shown, if any.
pub struct UserViews {
    pub views: Vec<(usize, UserView)>,
    pub shown: Option<usize>,
}

/// `post` is `pre` after the view data `vd` of `buffer`: the view it names
/// gets the buffer's layer (see `view_updated`), or, when there is none, a
/// view with that index, no name and only this layer is added at the end.
/// The view shown stays.
pub open spec fn views_updated(pre: UserViews, post: UserViews, buffer: Seq<char>, vd: ViewDataView) -> bool {
    &&& post.wf()
    &&& post.shown == pre.shown
    &&& match view_pos(pre.views@, vd.view_index) {
        Some(k) => {
            &&& post.views@.len() == pre.views@.len()
            &&& forall|j: int| 0 <= j < pre.views@.len() && j != k ==> post.views@[j] == pre.views@[j]
            &&& post.views@[k].0 == vd.view_index
            &&& view_updated(pre.views@[k].1.layer_views(), opt_view(pre.views@[k].1.name), post.views@[k].1, buffer, vd)
        },
        None => {
            &&& post.views@.len() == pre.views@.len() + 1
            &&& forall|j: int| 0 <= j < pre.views@.len() ==> post.views@[j] == pre.views@[j]
            &&& post.views@.last().0 == vd.view_index
            &&& view_updated(Seq::empty(), None, post.views@.last().1, buffer, vd)
        },
    }
}

/// `post` is `pre` after a request to show the view with index `index`: it
/// is shown when there is such a view; nothing else changes.
pub open spec fn views_displayed(pre: UserViews, post: UserViews, index: usize) -> bool {
    &&& post.views == pre.views
    &&& post.shown == if view_pos(pre.views@, index) is Some {
        Some(index)
    } else {
        pre.shown
    }
}

/// `post` is `pre` with the layers of the view with index `index`, if
/// there is one, changed by `f`; its index, name and parameter view stay,
/// and so do the other views and the one shown.
pub open spec fn views_relayered(
    pre: UserViews,
    post: UserViews,
    index: usize,
    f: spec_fn(Seq<LayerView>) -> Seq<LayerView>,
) -> bool {
    &&& post.wf()
    &&& post.shown == pre.shown
    &&& post.views@.len() == pre.views@.len()
    &&& forall|j: int| 0 <= j < pre.views@.len() && Some(j) != view_pos(pre.views@, index) ==> post.views@[j]
        == pre.views@[j]
    &&& view_pos(pre.views@, index) matches Some(k) ==> {
        let (o, n) = (pre.views@[k], post.views@[k]);
        &&& n.0 == o.0
        &&& n.1.layer_views() == f(o.1.layer_views())
        &&& n.1.name == o.1.name
        &&& n.1.param_view_name == o.1.param_view_name
    }
}

impl UserViews {
    /// Every view's layers are in z order and show different buffers.
    pub open spec fn wf(&self) -> bool {
        forall|k: int| 0 <= k < self.views@.len() ==> (#[trigger] self.views@[k]).1.wf()
    }

    /// No views, none shown.
    pub fn new() -> (u: Self)
        ensures
            u.wf(),
            u.views@.len() == 0,
            u.shown is None,
    {
        UserViews { views: Vec::new(), shown: None }
    }

    /// The position of the view with index `index`.
    fn find(&self, index: usize) -> (r: Option<usize>)
        ensures
            match r {
                Some(k) => view_pos(self.views@, index) == Some(k as int) && k < self.views@.len()
                    && self.views@[k as int].0 == index,
                None => view_pos(self.views@, index) is None,
            },
    {
        proof {
            lemma_view_pos(self.views@, index);
        }
        let n = self.views.len();
        let mut j: usize = 0;
        while j < n
            invariant
                n == self.views@.len(),
                j <= n,
                forall|i: int| 0 <= i < j ==> (#[trigger] self.views@[i]).0 != index,
                match view_pos(self.views@, index) {
                    Some(p) => 0 <= p < n && self.views@[p].0 == index && forall|i: int| 0 <= i < p ==> (#[trigger] self.views@[i]).0 != index,
                    None => forall|i: int| 0 <= i < n ==> (#[trigger] self.views@[i]).0 != index,
                },
            decreases n - j,
        {
            if self.views[j].0 == index {
                proof {
                    if let Some(q) = view_pos(self.views@, index) {
                        if q < j {
                            assert(self.views@[q].0 != index);
                        }
                    }
                }
                return Some(j);
            }
            j = j + 1;
        }
        proof {
            if let Some(q) = view_pos(self.views@, index) {
                assert(self.views@[q].0 != index);
            }
        }
        None
    }

    /// Takes the view data of `buffer`: the view it names gets the buffer's
    /// layer (see `UserView::update_layers`); a view not seen before is
    /// added at the end, with no name and no layers before this one.
    pub fn update(&mut self, buffer: String, vd: ViewData)
        requires
            old(self).wf(),
        ensures
            views_updated(*old(self), *final(self), buffer@, vd@),
    {
        let ghost vs = self.views@;
        match self.find(vd.view_index) {
            Some(k) => {
                let (index, mut v) = self.views.remove(k);
                assert(v == vs[k as int].1);
                v.update_layers(buffer, &vd);
                let ghost nv = (index, v);
                self.views.insert(k, (index, v));
                assert(self.views@ =~= vs.update(k as int, nv));
                assert forall|j: int| 0 <= j < self.views@.len() implies (#[trigger] self.views@[j]).1.wf() by {
                    if j != k {
                        assert(self.views@[j] == vs[j]);
                    }
                }
            },
            None => {
                let mut v = UserView::new(None, None);
                assert(v.layer_views() =~= Seq::<LayerView>::empty());
                v.update_layers(buffer, &vd);
                let ghost nv = (vd.view_index, v);
                self.views.push((vd.view_index, v));
                assert(self.views@ =~= vs.push(nv));
                assert forall|j: int| 0 <= j < self.views@.len() implies (#[trigger] self.views@[j]).1.wf() by {
                    if j < vs.len() {
                        assert(self.views@[j] == vs[j]);
                    }
                }
            },
        }
    }

    /// The position of the view shown, if any and if it exists.
    pub fn shown_pos(&self) -> (r: Option<usize>)
        ensures
            match r {
                Some(k) => k < self.views@.len() && self.shown == Some(self.views@[k as int].0) && view_pos(
                    self.views@,
                    self.views@[k as int].0,
                ) == Some(k as int),
                None => match self.shown {
                    Some(i) => view_pos(self.views@, i) is None,
                    None => true,
                },
            },
    {
        match self.shown {
            Some(i) => self.find(i),
            None => None,
        }
    }

    /// Shows the view with index `index`, when there is one; returns
    /// whether there is.
    pub fn display(&mut self, index: usize) -> (found: bool)
        ensures
            found == view_pos(old(self).views@, index) is Some,
            views_displayed(*old(self), *final(self), index),
    {
        match self.find(index) {
            Some(_) => {
                self.shown = Some(index);
                true
            },
            None => false,
        }
    }

    /// In the view with index `index`, the first layer with index `z` is
    /// hidden or shown.
    pub fn set_layer_hidden(&mut self, index: usize, z: i8, hidden: bool)
        requires
            old(self).wf(),
        ensures
            views_relayered(*old(self), *final(self), index, |ls: Seq<LayerView>| hidden_set(ls, z, hidden)),
    {
        let ghost vs = self.views@;
        if let Some(k) = self.find(index) {
            let (i, mut v) = self.views.remove(k);
            assert(v == vs[k as int].1);
            v.set_layer_hidden(z, hidden);
            self.views.insert(k, (i, v));
            assert forall|j: int| 0 <= j < self.views@.len() implies (#[trigger] self.views@[j]).1.wf() by {
                if j != k {
                    assert(self.views@[j] == vs[j]);
                }
            }
        }
    }

    /// In the view with index `index`, the first layer with index `z` is
    /// drawn by exclusive or, or over the layers below.
    pub fn set_layer_xor(&mut self, index: usize, z: i8, xor: bool)
        requires
            old(self).wf(),
        ensures
            views_relayered(*old(self), *final(self), index, |ls: Seq<LayerView>| xor_set(ls, z, xor)),
    {
        let ghost vs = self.views@;
        if let Some(k) = self.find(index) {
            let (i, mut v) = self.views.remove(k);
            assert(v == vs[k as int].1);
            v.set_layer_xor(z, xor);
            self.views.insert(k, (i, v));
            assert forall|j: int| 0 <= j < self.views@.len() implies (#[trigger] self.views@[j]).1.wf() by {
                if j != k {
                    assert(self.views@[j] == vs[j]);
                }
            }
        }
    }

    /// In the view with index `index`, the first layer with index `z` is
    /// read again at the next draw.
    pub fn set_layer_dirty(&mut self, index: usize, z: i8)
        requires
            old(self).wf(),
        ensures
            views_relayered(*old(self), *final(self), index, |ls: Seq<LayerView>| dirty_set(ls, z)),
    {
        let ghost vs = self.views@;
        if let Some(k) = self.find(index) {
            let (i, mut v) = self.views.remove(k);
            assert(v == vs[k as int].1);
            v.set_layer_dirty(z);
            self.views.insert(k, (i, v));
            assert forall|j: int| 0 <= j < self.views@.len() implies (#[trigger] self.views@[j]).1.wf() by {
                if j != k {
                    assert(self.views@[j] == vs[j]);
                }
            }
        }
    }
}

} // verus!
