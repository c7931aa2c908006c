use std::io::Write;
use vstd::prelude::*;

use crate::errors::VolumeError;
use crate::metadata::{build_header, header_bytes};
use crate::transpose::{transpose_slice, volume_bytes};

verus! {

/// An open zstd compression stream writing into an in-memory buffer.
/// Declaring zstd's own `Encoder` type to Verus fails on its writer bound
/// (an outside trait), so the stream lives behind this opaque struct.
#[verifier::external_body]
pub struct VolumeCompressor {
    inner: zstd::stream::write::Encoder<'static, Vec<u8>>,
}

// Ghost names for the state of an open zstd stream: the bytes fed into
// the compressor so far, the compressed bytes already drained out of its
// buffer, and the configuration it was opened with (level, worker
// threads, pledged input size).
pub uninterp spec fn comp_fed(c: VolumeCompressor) -> Seq<u8>;

pub uninterp spec fn comp_emitted(c: VolumeCompressor) -> Seq<u8>;

pub uninterp spec fn comp_config(c: VolumeCompressor) -> (int, int, int);

// The compressed stream that the zstd format assigns to `payload` at the
// given level and worker count, with long-distance matching on and the
// payload's length pledged up front. zstd is deterministic for a fixed
// configuration, so this is a function of the arguments alone.
pub uninterp spec fn zstd_frame(payload: Seq<u8>, level: int, threads: int) -> Seq<u8>;

/// Relies on zstd::stream::write::Encoder::new, multithread,
/// set_pledged_src_size and long_distance_matching: opens a compressor over
/// an in-memory buffer, configured exactly as recorded by `comp_config`,
/// with nothing yet written. An all-ones pledge is refused: zstd reads
/// that value as its unknown-size marker and would not enforce it at the
/// end of the stream.
#[verifier::external_body]
fn compressor_new(level: i32, threads: u32, pledged: u64) -> (r: Result<
    VolumeCompressor,
    VolumeError,
>)
    requires
        pledged < u64::MAX,
    ensures
        r matches Ok(c) ==> comp_fed(c) == Seq::<u8>::empty(),
        r matches Ok(c) ==> comp_emitted(c) == Seq::<u8>::empty(),
        r matches Ok(c) ==> comp_config(c) == (level as int, threads as int, pledged as int),
        r matches Err(e) ==> e is Io,
{
    let map_err = |e: std::io::Error| VolumeError::Io { msg: e.to_string() };
    let mut enc = zstd::stream::write::Encoder::new(Vec::new(), level).map_err(map_err)?;
    enc.multithread(threads).map_err(map_err)?;
    enc.set_pledged_src_size(Some(pledged)).map_err(map_err)?;
    enc.long_distance_matching(true).map_err(map_err)?;
    Ok(VolumeCompressor { inner: enc })
}

/// Relies on std::io::Write::write_all on zstd's Encoder: on success the
/// whole buffer has entered the compressed stream, and the configuration is
/// unchanged.
#[verifier::external_body]
fn compressor_write(c: &mut VolumeCompressor, buf: &Vec<u8>) -> (r: Result<(), VolumeError>)
    ensures
        r is Ok ==> comp_fed(*final(c)) == comp_fed(*old(c)) + buf@ && comp_emitted(*final(c))
            == comp_emitted(*old(c)) && comp_config(*final(c)) == comp_config(*old(c)),
        r matches Err(e) ==> e is Io,
{
    c.inner.write_all(buf.as_slice()).map_err(|e| VolumeError::Io { msg: e.to_string() })
}

/// Relies on zstd::stream::write::Encoder::get_mut: drains the compressed
/// bytes the stream has pushed into its in-memory buffer so far, leaving
/// the buffer empty; what was fed and how the stream is configured do not
/// change. Draining is sound because the stream only ever appends to its
/// writer and never reads it back, so later output lands after what was
/// taken.
#[verifier::external_body]
fn compressor_take(c: &mut VolumeCompressor) -> (r: Vec<u8>)
    ensures
        comp_emitted(*final(c)) == comp_emitted(*old(c)) + r@,
        comp_fed(*final(c)) == comp_fed(*old(c)),
        comp_config(*final(c)) == comp_config(*old(c)),
{
    std::mem::take(c.inner.get_mut())
}

/// Relies on zstd::stream::write::Encoder::finish: ends the stream and
/// hands back its buffer, holding whatever of the compressed frame was
/// not drained earlier — so the drained bytes followed by this remainder
/// are the complete frame. zstd errors here if the pledged size differs
/// from what was written, so a successful finish also says the pledge was
/// met.
#[verifier::external_body]
fn compressor_finish(c: VolumeCompressor) -> (r: Result<Vec<u8>, VolumeError>)
    ensures
        r matches Ok(v) ==> comp_emitted(c) + v@ == zstd_frame(
            comp_fed(c),
            comp_config(c).0,
            comp_config(c).1,
        ) && comp_fed(c).len() == comp_config(c).2,
        r matches Err(e) ==> e is Io,
{
    c.inner.finish().map_err(|e| VolumeError::Io { msg: e.to_string() })
}

/// Relies on image::open and DynamicImage::to_luma8: fully decodes the
/// file at `path` into 8-bit single-channel samples, row-major, one byte
/// per pixel, so the buffer holds exactly width times height bytes.
#[verifier::external_body]
fn read_luma_slice(path: &str) -> (r: Result<(u32, u32, Vec<u8>), VolumeError>)
    ensures
        r matches Ok(t) ==> t.2@.len() == (t.0 as int) * (t.1 as int),
        r matches Err(e) ==> e is Decode,
{
    match image::open(std::path::Path::new(path)) {
        Ok(img) => {
            let gray = img.to_luma8();
            let (w, h) = gray.dimensions();
            Ok((w, h, gray.into_raw()))
        },
        Err(e) => Err(VolumeError::Decode { path: path.to_owned(), msg: e.to_string() }),
    }
}

/// The complete output for a slice stack: the metadata frame, then the
/// compressed column-major voxel stream.
pub open spec fn encoded_output(
    slices: Seq<Seq<u8>>,
    xs: nat,
    ys: nat,
    level: int,
    threads: int,
) -> Seq<u8> {
    header_bytes(xs, ys, slices.len()) + zstd_frame(volume_bytes(slices, xs, ys), level, threads)
}

/// The output is a function of the slice data, the dimensions and the
/// compression parameters alone: two runs over the same stack agree byte
/// for byte.
pub proof fn lemma_encode_deterministic(
    slices: Seq<Seq<u8>>,
    xs: nat,
    ys: nat,
    level: int,
    threads: int,
    out1: Seq<u8>,
    out2: Seq<u8>,
)
    requires
        out1 == encoded_output(slices, xs, ys, level, threads),
        out2 == encoded_output(slices, xs, ys, level, threads),
    ensures
        out1 == out2,
{
}

/// The total sample count `x*y*z` that is pledged to the compressor, or
/// the configuration error when it cannot be represented in the 64-bit
/// pledge field. The all-ones value is excluded too: zstd reads it as the
/// unknown-size marker, under which no pledge would be enforced.
pub fn pledged_size(x_size: u32, y_size: u32, z_size: u64) -> (r: Result<u64, VolumeError>)
    ensures
        r matches Ok(s) ==> s == (x_size as int) * (y_size as int) * (z_size as int),
        r is Ok <==> (x_size as int) * (y_size as int) * (z_size as int) < u64::MAX,
        r matches Err(e) ==> e is Config,
{
    proof {
        assert((x_size as int) * (y_size as int) <= u64::MAX) by (nonlinear_arith)
            requires
                x_size <= u32::MAX,
                y_size <= u32::MAX,
        ;
    }
    let xy: u64 = (x_size as u64) * (y_size as u64);
    if xy == 0 {
        proof {
            assert((x_size as int) * (y_size as int) * (z_size as int) == 0) by (nonlinear_arith)
                requires
                    (x_size as int) * (y_size as int) == 0,
            ;
        }
        return Ok(0);
    }
    let limit = u64::MAX - 1;
    let q = limit / xy;
    proof {
        vstd::arithmetic::div_mod::lemma_fundamental_div_mod(limit as int, xy as int);
        vstd::arithmetic::div_mod::lemma_mod_division_less_than_divisor(
            limit as int,
            xy as int,
        );
    }
    if z_size > q {
        proof {
            assert((xy as int) * (z_size as int) > limit) by (nonlinear_arith)
                requires
                    z_size as int >= (q as int) + 1,
                    limit as int == (xy as int) * (q as int) + (limit as int) % (xy as int),
                    0 <= (limit as int) % (xy as int) < xy as int,
                    xy as int > 0,
            ;
            assert((x_size as int) * (y_size as int) * (z_size as int) == (xy as int) * (
            z_size as int)) by (nonlinear_arith)
                requires
                    xy as int == (x_size as int) * (y_size as int),
            ;
        }
        return Err(
            VolumeError::Config {
                msg: "volume size does not fit the 64-bit sample count".to_owned(),
            },
        );
    }
    proof {
        assert((xy as int) * (z_size as int) <= limit) by (nonlinear_arith)
            requires
                0 <= z_size as int <= q as int,
                limit as int == (xy as int) * (q as int) + (limit as int) % (xy as int),
                0 <= (limit as int) % (xy as int),
                xy as int > 0,
        ;
        assert((x_size as int) * (y_size as int) * (z_size as int) == (xy as int) * (
        z_size as int)) by (nonlinear_arith)
            requires
                xy as int == (x_size as int) * (y_size as int),
        ;
    }
    Ok(xy * z_size)
}

/// An encode in progress. `begin` opens the run and yields the metadata
/// frame, each `step_*` call consumes one slice and yields whatever
/// compressed bytes became available, and `finish` yields the rest: the
/// chunks a caller writes out, in order, are exactly `encoded_output` of
/// the slices it stepped. The run owns the single reusable transpose
/// buffer, so one decoded slice at a time is held in memory.
pub struct VolumeEncoder {
    comp: VolumeCompressor,
    buffer: Vec<u8>,
    x_size: u32,
    y_size: u32,
    level: i32,
    threads: u32,
    pledged: u64,
    slices: Ghost<Seq<Seq<u8>>>,
}

impl VolumeEncoder {
    /// The slice data consumed so far, in order.
    pub closed spec fn slices(self) -> Seq<Seq<u8>> {
        self.slices@
    }

    /// The compressed bytes already handed out by `step_*` calls.
    pub closed spec fn emitted(self) -> Seq<u8> {
        comp_emitted(self.comp)
    }

    pub closed spec fn width(self) -> int {
        self.x_size as int
    }

    pub closed spec fn height(self) -> int {
        self.y_size as int
    }

    pub closed spec fn compression_level(self) -> int {
        self.level as int
    }

    pub closed spec fn worker_threads(self) -> int {
        self.threads as int
    }

    /// The total sample count pledged to the compressor when the run began.
    pub closed spec fn pledged_total(self) -> int {
        self.pledged as int
    }

    /// The run's invariant: the compressor has been fed exactly the
    /// column-major bytes of the slices consumed so far.
    pub closed spec fn wf(self) -> bool {
        &&& 1 <= self.level <= 22
        &&& (self.x_size as int) * (self.y_size as int) <= usize::MAX
        &&& self.buffer@.len() == (self.x_size as int) * (self.y_size as int)
        &&& comp_fed(self.comp) == volume_bytes(
            self.slices@,
            self.x_size as nat,
            self.y_size as nat,
        )
        &&& comp_config(self.comp) == (self.level as int, self.threads as int, self.pledged as int)
        &&& forall|k: int|
            0 <= k < self.slices@.len() ==> (#[trigger] self.slices@[k]).len() == (
            self.x_size as int) * (self.y_size as int)
    }

    /// Opens a run for `z_size` slices of `x_size` by `y_size` samples and
    /// yields the metadata frame, which precedes every compressed byte.
    pub fn begin(x_size: u32, y_size: u32, z_size: u64, level: i32, threads: u32) -> (r: Result<
        (Vec<u8>, VolumeEncoder),
        VolumeError,
    >)
        requires
            1 <= level <= 22,
            (x_size as int) * (y_size as int) <= usize::MAX,
        ensures
            r matches Ok(p) ==> {
                &&& p.0@ == header_bytes(x_size as nat, y_size as nat, z_size as nat)
                &&& p.1.wf()
                &&& p.1.slices() == Seq::<Seq<u8>>::empty()
                &&& p.1.emitted() == Seq::<u8>::empty()
                &&& p.1.width() == x_size as int
                &&& p.1.height() == y_size as int
                &&& p.1.compression_level() == level as int
                &&& p.1.worker_threads() == threads as int
                &&& p.1.pledged_total() == (x_size as int) * (y_size as int) * (z_size as int)
            },
            ((x_size as int) * (y_size as int) * (z_size as int) >= u64::MAX) <==> (r matches Err(
                e,
            ) && e is Config),
            r matches Err(e) ==> e is Io || e is Config,
    {
        let src_size = match pledged_size(x_size, y_size, z_size) {
            Ok(s) => s,
            Err(e) => return Err(e),
        };
        let header = build_header(x_size, y_size, z_size);
        let comp = match compressor_new(level, threads, src_size) {
            Ok(c) => c,
            Err(e) => return Err(e),
        };
        let buffer = vec![0u8; (x_size as usize) * (y_size as usize)];
        let enc = VolumeEncoder {
            comp,
            buffer,
            x_size,
            y_size,
            level,
            threads,
            pledged: src_size,
            slices: Ghost(Seq::empty()),
        };
        Ok((header, enc))
    }

    /// Consumes one already-decoded slice, given as its row-major sample
    /// buffer, and yields the compressed bytes that became available.
    pub fn step_data(&mut self, data: &Vec<u8>) -> (r: Result<Vec<u8>, VolumeError>)
        requires
            old(self).wf(),
            data@.len() == old(self).width() * old(self).height(),
        ensures
            final(self).width() == old(self).width(),
            final(self).height() == old(self).height(),
            final(self).compression_level() == old(self).compression_level(),
            final(self).worker_threads() == old(self).worker_threads(),
            final(self).pledged_total() == old(self).pledged_total(),
            r matches Ok(chunk) ==> {
                &&& final(self).wf()
                &&& final(self).slices() == old(self).slices().push(data@)
                &&& final(self).emitted() == old(self).emitted() + chunk@
            },
            r matches Err(e) ==> e is Io,
    {
        transpose_slice(data, self.x_size as usize, self.y_size as usize, &mut self.buffer);
        match compressor_write(&mut self.comp, &self.buffer) {
            Ok(()) => {},
            Err(e) => return Err(e),
        }
        proof {
            let r2 = self.slices@.push(data@);
            assert(r2.drop_last() =~= self.slices@);
            assert(r2.last() == data@);
            self.slices@ = r2;
        }
        Ok(compressor_take(&mut self.comp))
    }

    /// Decodes one slice from disk, checks its dimensions against the
    /// run's, and consumes it as `step_data` does.
    pub fn step_slice(&mut self, path: &str) -> (r: Result<Vec<u8>, VolumeError>)
        requires
            old(self).wf(),
        ensures
            final(self).width() == old(self).width(),
            final(self).height() == old(self).height(),
            final(self).compression_level() == old(self).compression_level(),
            final(self).worker_threads() == old(self).worker_threads(),
            final(self).pledged_total() == old(self).pledged_total(),
            r matches Ok(chunk) ==> exists|raw: Seq<u8>|
                {
                    &&& raw.len() == old(self).width() * old(self).height()
                    &&& final(self).wf()
                    &&& final(self).slices() == old(self).slices().push(raw)
                    &&& final(self).emitted() == old(self).emitted() + chunk@
                },
            r matches Err(e) ==> e is Io || e is Decode || e is DimensionMismatch,
            r matches Err(e) ==> (e matches VolumeError::DimensionMismatch {
                expected_x: ex,
                expected_y: ey,
                ..
            } ==> ex as int == old(self).width() && ey as int == old(self).height()),
    {
        let (w, h, data) = match read_luma_slice(path) {
            Ok(t) => t,
            Err(e) => return Err(e),
        };
        match crate::discovery::check_slice_dims(self.x_size, self.y_size, w, h, path) {
            Ok(()) => {},
            Err(e) => return Err(e),
        }
        match self.step_data(&data) {
            Ok(chunk) => Ok(chunk),
            Err(e) => Err(e),
        }
    }

    /// Ends the run and yields the remaining compressed bytes: everything
    /// emitted so far followed by this tail is the complete compressed
    /// frame of the stepped slices, and the pledge was met.
    pub fn finish(self) -> (r: Result<Vec<u8>, VolumeError>)
        requires
            self.wf(),
        ensures
            r matches Ok(tail) ==> {
                &&& self.emitted() + tail@ == zstd_frame(
                    volume_bytes(self.slices(), self.width() as nat, self.height() as nat),
                    self.compression_level(),
                    self.worker_threads(),
                )
                &&& self.slices().len() * (self.width() * self.height()) == self.pledged_total()
            },
            r matches Err(e) ==> e is Io,
    {
        proof {
            crate::transpose::lemma_volume_len(
                self.slices@,
                self.x_size as nat,
                self.y_size as nat,
            );
        }
        match compressor_finish(self.comp) {
            Ok(v) => Ok(v),
            Err(e) => Err(e),
        }
    }
}

/// Encodes a stack of already-decoded slices, each given as its row-major
/// sample buffer. On success the output is exactly the metadata frame
/// followed by the compressed column-major volume; the only failures are
/// the compressor's own and the pledged-size overflow, the latter exactly
/// when the sample count overflows 64 bits.
pub fn encode_volume(
    slices: &Vec<Vec<u8>>,
    x_size: u32,
    y_size: u32,
    level: i32,
    threads: u32,
) -> (r: Result<Vec<u8>, VolumeError>)
    requires
        1 <= level <= 22,
        (x_size as int) * (y_size as int) <= usize::MAX,
        forall|i: int|
            0 <= i < slices@.len() ==> (#[trigger] slices@[i])@.len() == (x_size as int) * (
            y_size as int),
    ensures
        r matches Ok(out) ==> out@ == encoded_output(
            slices.deep_view(),
            x_size as nat,
            y_size as nat,
            level as int,
            threads as int,
        ),
        r matches Err(e) ==> e is Io || e is Config,
        ((x_size as int) * (y_size as int) * (slices@.len() as int) >= u64::MAX) <==> (r matches Err(
            e,
        ) && e is Config),
{
    let z_size = slices.len() as u64;
    let (header, mut enc) = match VolumeEncoder::begin(x_size, y_size, z_size, level, threads) {
        Ok(p) => p,
        Err(e) => return Err(e),
    };
    let mut out = header;
    let ghost dv = slices.deep_view();
    proof {
        assert(dv.take(0) =~= Seq::<Seq<u8>>::empty());
    }
    let mut i: usize = 0;
    while i < slices.len()
        invariant
            i <= slices@.len(),
            dv == slices.deep_view(),
            dv.len() == slices@.len(),
            enc.wf(),
            enc.slices() == dv.take(i as int),
            enc.width() == x_size as int,
            enc.height() == y_size as int,
            enc.compression_level() == level as int,
            enc.worker_threads() == threads as int,
            enc.pledged_total() == (x_size as int) * (y_size as int) * (slices@.len() as int),
            (x_size as int) * (y_size as int) * (slices@.len() as int) < u64::MAX,
            out@ == header_bytes(x_size as nat, y_size as nat, slices@.len() as nat)
                + enc.emitted(),
            forall|k: int|
                0 <= k < slices@.len() ==> (#[trigger] slices@[k])@.len() == (x_size as int) * (
                y_size as int),
        decreases slices@.len() - i,
    {
        let mut chunk = match enc.step_data(&slices[i]) {
            Ok(c) => c,
            Err(e) => return Err(e),
        };
        out.append(&mut chunk);
        proof {
            assert(dv.take(i as int + 1) =~= dv.take(i as int).push(dv[i as int]));
            assert(dv[i as int] == slices@[i as int]@);
        }
        i += 1;
    }
    proof {
        assert(dv.take(dv.len() as int) =~= dv);
    }
    let ghost eg = enc;
    let mut tail = match enc.finish() {
        Ok(t) => t,
        Err(e) => return Err(e),
    };
    out.append(&mut tail);
    proof {
        assert(out@ =~= encoded_output(dv, x_size as nat, y_size as nat, level as int,
            threads as int));
    }
    Ok(out)
}

/// Encodes the stack by decoding one slice at a time from disk, holding a
/// single decoded slice (plus the compressed stream) in memory. Whatever
/// the files held, a successful run returns the metadata frame followed
/// by the compressed column-major volume of the slice data that was read.
pub fn encode_stack(
    paths: &Vec<String>,
    x_size: u32,
    y_size: u32,
    level: i32,
    threads: u32,
) -> (r: Result<Vec<u8>, VolumeError>)
    requires
        1 <= level <= 22,
        (x_size as int) * (y_size as int) <= usize::MAX,
    ensures
        r matches Ok(out) ==> exists|raws: Seq<Seq<u8>>|
            {
                &&& raws.len() == paths@.len()
                &&& (forall|i: int|
                    0 <= i < raws.len() ==> (#[trigger] raws[i]).len() == (x_size as int) * (
                    y_size as int))
                &&& out@ == encoded_output(
                    raws,
                    x_size as nat,
                    y_size as nat,
                    level as int,
                    threads as int,
                )
            },
        r matches Err(e) ==> e is Io || e is Config || e is Decode || e is DimensionMismatch,
        r matches Err(e) ==> (e matches VolumeError::DimensionMismatch {
            expected_x: ex,
            expected_y: ey,
            ..
        } ==> ex == x_size && ey == y_size),
        ((x_size as int) * (y_size as int) * (paths@.len() as int) >= u64::MAX) <==> (r matches Err(
            e,
        ) && e is Config),
{
    let z_size = paths.len() as u64;
    let (header, mut enc) = match VolumeEncoder::begin(x_size, y_size, z_size, level, threads) {
        Ok(p) => p,
        Err(e) => return Err(e),
    };
    let mut out = header;
    let mut i: usize = 0;
    while i < paths.len()
        invariant
            i <= paths@.len(),
            enc.wf(),
            enc.slices().len() == i as int,
            enc.width() == x_size as int,
            enc.height() == y_size as int,
            enc.compression_level() == level as int,
            enc.worker_threads() == threads as int,
            enc.pledged_total() == (x_size as int) * (y_size as int) * (paths@.len() as int),
            (x_size as int) * (y_size as int) * (paths@.len() as int) < u64::MAX,
            out@ == header_bytes(x_size as nat, y_size as nat, paths@.len() as nat)
                + enc.emitted(),
        decreases paths@.len() - i,
    {
        let mut chunk = match enc.step_slice(paths[i].as_str()) {
            Ok(c) => c,
            Err(e) => return Err(e),
        };
        out.append(&mut chunk);
        i += 1;
    }
    let ghost raws = enc.slices();
    let mut tail = match enc.finish() {
        Ok(t) => t,
        Err(e) => return Err(e),
    };
    out.append(&mut tail);
    proof {
        assert(raws.len() == paths@.len());
        assert(out@ =~= encoded_output(raws, x_size as nat, y_size as nat, level as int,
            threads as int));
    }
    Ok(out)
}

} // verus!
