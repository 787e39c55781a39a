use vstd::prelude::*;
use crate::config::{valid_fps, valid_side, MAX_QUALITY};
use crate::error::CaptureError;
use vstd::arithmetic::div_mod::{lemma_div_is_ordered, lemma_div_multiples_vanish, lemma_fundamental_div_mod};
use vstd::arithmetic::mul::lemma_mul_inequality;

verus! {

/// Clock rate of the container's time base (1 / 90 kHz).
pub const CONTAINER_CLOCK: u64 = 90000;
/// Most frames one stream accepts; keeps every timestamp within `u64`.
pub const MAX_FRAMES: u64 = 0x100_0000_0000;

/// Presentation time of a codec timestamp (in units of 1/fps) rescaled into
/// the container time base, rounded to the nearest tick.
pub open spec fn spec_rescale(pts: int, fps: int) -> int
    recommends
        fps > 0,
{
    (pts * CONTAINER_CLOCK * 2 + fps) / (2 * fps)
}

/// Duration in milliseconds of `frames` frames at `fps`, rounded down.
pub open spec fn spec_duration_ms(frames: int, fps: int) -> int
    recommends
        fps > 0,
{
    frames * 1000 / fps
}

/// Target bitrate in bits per second for a quality of 0 to 100: about
/// `(quality + 20) / 1200` bits per pixel and frame.
pub open spec fn spec_target_bitrate(quality: int, width: int, height: int, fps: int) -> int {
    width * height * fps * (quality + 20) / 1200
}

/// The container timestamps of codec timestamps at `fps`.
pub open spec fn spec_rescaled(codec_pts: Seq<u64>, fps: int) -> Seq<u64> {
    codec_pts.map_values(|p: u64| spec_rescale(p as int, fps) as u64)
}

/// Whether an open stream accepts, one after another, packets with these
/// codec timestamps: each belongs to an accepted frame, packets do not
/// outnumber frames, and the timestamps written stay in order.
pub open spec fn spec_drain_ok(e: EncoderView, codec_pts: Seq<u64>) -> bool {
    &&& forall|k: int| 0 <= k < codec_pts.len() ==> #[trigger] codec_pts[k] < e.frames
    &&& e.packets.len() + codec_pts.len() <= e.frames
    &&& non_decreasing(e.packets + spec_rescaled(codec_pts, e.fps as int))
}

/// A sequence of timestamps in non-decreasing order.
pub open spec fn non_decreasing(s: Seq<u64>) -> bool {
    forall|i: int, j: int| 0 <= i <= j < s.len() ==> s[i] <= s[j]
}

/// What a result of the image decoder is: width, height and RGB bytes, or
/// nothing where the bytes do not decode.
pub uninterp spec fn decoded_rgb(bytes: Seq<u8>) -> Option<(u32, u32, Seq<u8>)>;

/// The pixels of a decoded image, or nothing.
pub open spec fn decoded_pixels(bytes: Seq<u8>) -> Seq<u8> {
    match decoded_rgb(bytes) {
        Some((_, _, p)) => p,
        None => Seq::empty(),
    }
}

#[verifier::external_type_specification]
#[verifier::external_body]
pub struct ExImageError(image::ImageError);

/// Relies on `image::load_from_memory` and `DynamicImage::to_rgb8`: the
/// image's dimensions and its pixels as 8-bit RGB, which depend on the bytes
/// alone.
#[verifier::external_body]
fn decode_rgb(bytes: &[u8]) -> (r: Result<(u32, u32, Vec<u8>), image::ImageError>)
    ensures
        r is Ok <==> decoded_rgb(bytes@) is Some,
        r matches Ok((w, h, p)) ==> decoded_rgb(bytes@) == Some((w, h, p@)),
{
    let img = image::load_from_memory(bytes)?.to_rgb8();
    Ok((img.width(), img.height(), img.into_raw()))
}

/// The abstract state of an encoder: its fixed geometry, how many frames it
/// accepted (frame `i` had sequence number `i`), the container timestamps of
/// the packets written, and whether the trailer was written.
pub struct EncoderView {
    pub width: u32,
    pub height: u32,
    pub fps: u32,
    pub frames: nat,
    pub packets: Seq<u64>,
    pub finished: bool,
    pub failed: bool,
}

/// Turns a live, ordered frame stream into the packet sequence of one
/// container stream. The codec itself runs outside; this type decides which
/// frames and packets are accepted, their timestamps, and when the container
/// may be finalized.
pub struct VideoEncoder {
    width: u32,
    height: u32,
    fps: u32,
    frames: u64,
    packets: Vec<u64>,
    finished: bool,
    failed: bool,
}

impl View for VideoEncoder {
    type V = EncoderView;

    closed spec fn view(&self) -> EncoderView {
        EncoderView {
            width: self.width,
            height: self.height,
            fps: self.fps,
            frames: self.frames as nat,
            packets: self.packets@,
            finished: self.finished,
            failed: self.failed,
        }
    }
}

impl VideoEncoder {
    /// The encoder's invariant: a supported geometry, packets never outnumber
    /// frames and are in timestamp order, and a finalized stream holds one
    /// packet per frame.
    pub closed spec fn wf(&self) -> bool {
        &&& valid_side(self.width)
        &&& valid_side(self.height)
        &&& valid_fps(self.fps)
        &&& self.frames <= MAX_FRAMES
        &&& self.packets@.len() <= self.frames
        &&& non_decreasing(self.packets@)
        &&& self.finished ==> self.frames > 0 && self.packets@.len() == self.frames
        &&& !(self.finished && self.failed)
    }

    /// Whether a frame geometry and rate can be encoded.
    pub open spec fn spec_supported(width: u32, height: u32, fps: u32) -> bool {
        valid_side(width) && valid_side(height) && valid_fps(fps)
    }

    /// A fresh encoder for one stream; an unsupported geometry or rate is a
    /// configuration error.
    pub fn new(width: u32, height: u32, fps: u32) -> (r: Result<VideoEncoder, CaptureError>)
        ensures
            r is Ok <==> Self::spec_supported(width, height, fps),
            r matches Ok(enc) ==> enc.wf(),
            r matches Err(e) ==> e is Configuration,
            r matches Ok(enc) ==> enc@ == (EncoderView {
                width,
                height,
                fps,
                frames: 0,
                packets: Seq::empty(),
                finished: false,
                failed: false,
            }),
    {
        if width < 2 || width > crate::config::MAX_SIDE || width % 2 != 0 || height < 2
            || height > crate::config::MAX_SIDE || height % 2 != 0 {
            return Err(CaptureError::Configuration(String::from_str("unsupported resolution")));
        }
        if fps < crate::config::MIN_FPS || fps > crate::config::MAX_FPS {
            return Err(CaptureError::Configuration(String::from_str("unsupported frame rate")));
        }
        Ok(VideoEncoder {
            width,
            height,
            fps,
            frames: 0,
            packets: Vec::new(),
            finished: false,
            failed: false,
        })
    }

    /// Facts that hold of every well-formed encoder.
    pub proof fn lemma_wf(&self)
        requires
            self.wf(),
        ensures
            Self::spec_supported(self@.width, self@.height, self@.fps),
            self@.frames <= MAX_FRAMES,
            self@.packets.len() <= self@.frames,
            non_decreasing(self@.packets),
            self@.finished ==> self@.frames > 0 && self@.packets.len() == self@.frames,
    {
    }

    /// A finalized stream holds exactly one packet per accepted frame, and
    /// its packets are in non-decreasing timestamp order.
    pub proof fn lemma_finalized_stream(&self)
        requires
            self.wf(),
            self@.finished,
        ensures
            self@.packets.len() == self@.frames,
            self@.frames > 0,
            non_decreasing(self@.packets),
    {
    }

    pub fn width(&self) -> (r: u32)
        ensures
            r == self@.width,
    {
        self.width
    }

    pub fn height(&self) -> (r: u32)
        ensures
            r == self@.height,
    {
        self.height
    }

    pub fn fps(&self) -> (r: u32)
        ensures
            r == self@.fps,
    {
        self.fps
    }

    /// Whether the container trailer was written.
    pub fn is_finished(&self) -> (r: bool)
        ensures
            r == self@.finished,
    {
        self.finished
    }

    /// Number of frames accepted so far.
    pub fn frame_count(&self) -> (r: u64)
        ensures
            r == self@.frames,
    {
        self.frames
    }

    /// Number of packets written so far.
    pub fn packet_count(&self) -> (r: usize)
        ensures
            r == self@.packets.len(),
    {
        self.packets.len()
    }

    /// Whether the stream is still open for frames and packets.
    pub open spec fn spec_open(self) -> bool {
        !self@.finished && !self@.failed
    }

    /// Accepts the next frame. Frames must arrive in sequence order with no
    /// gap (the frame with sequence number `n` is the `n`-th one) and with
    /// the stream's dimensions; the result is the frame's presentation time
    /// in the codec time base (1/fps), which is its sequence number. Any
    /// refusal fails the stream.
    pub fn submit_frame(&mut self, seq: u64, width: u32, height: u32) -> (r: Result<u64, CaptureError>)
        requires
            old(self).wf(),
        ensures
            final(self).wf(),
            !old(self).spec_open() ==> r is Err && final(self)@ == old(self)@,
            old(self).spec_open() ==> {
                let ok = width == old(self)@.width && height == old(self)@.height
                    && seq == old(self)@.frames && old(self)@.frames < MAX_FRAMES;
                &&& (r is Ok <==> ok)
                &&& ok ==> r == Ok::<u64, CaptureError>(seq) && final(self)@ == (EncoderView {
                    frames: old(self)@.frames + 1,
                    ..old(self)@
                })
                &&& !ok ==> final(self)@ == (EncoderView { failed: true, ..old(self)@ })
                &&& (width != old(self)@.width || height != old(self)@.height)
                    ==> r is Err && r->Err_0 is Configuration
                &&& (width == old(self)@.width && height == old(self)@.height && !ok)
                    ==> r is Err && r->Err_0 is Encoding
            },
    {
        if self.finished || self.failed {
            return Err(CaptureError::Encoding(String::from_str("stream is closed")));
        }
        if width != self.width || height != self.height {
            self.failed = true;
            return Err(CaptureError::Configuration(String::from_str("frame dimensions changed")));
        }
        if seq != self.frames || self.frames >= MAX_FRAMES {
            self.failed = true;
            return Err(CaptureError::Encoding(String::from_str("frame out of sequence")));
        }
        self.frames = self.frames + 1;
        Ok(seq)
    }

    /// Writes a packet that the codec released, with the codec timestamp it
    /// carries. The packet must belong to an accepted frame, no more packets
    /// than frames may be written, and its rescaled timestamp must not be
    /// earlier than the last one written. The result is the timestamp in the
    /// container time base. Any refusal fails the stream.
    pub fn write_packet(&mut self, codec_pts: u64) -> (r: Result<u64, CaptureError>)
        requires
            old(self).wf(),
        ensures
            final(self).wf(),
            !old(self).spec_open() ==> r is Err && final(self)@ == old(self)@,
            old(self).spec_open() ==> {
                let ts = spec_rescale(codec_pts as int, old(self)@.fps as int);
                let ok = codec_pts < old(self)@.frames && old(self)@.packets.len() < old(self)@.frames
                    && (old(self)@.packets.len() == 0 || old(self)@.packets.last() <= ts);
                &&& (r is Ok <==> ok)
                &&& ok ==> r == Ok::<u64, CaptureError>(ts as u64) && final(self)@ == (EncoderView {
                    packets: old(self)@.packets.push(ts as u64),
                    ..old(self)@
                })
                &&& !ok ==> r is Err && r->Err_0 is Encoding && final(self)@ == (EncoderView {
                    failed: true,
                    ..old(self)@
                })
            },
    {
        if self.finished || self.failed {
            return Err(CaptureError::Encoding(String::from_str("stream is closed")));
        }
        if codec_pts >= self.frames || self.packets.len() as u64 >= self.frames {
            self.failed = true;
            return Err(CaptureError::Encoding(String::from_str("packet without a frame")));
        }
        let ts = rescale(codec_pts, self.fps);
        let n = self.packets.len();
        if n > 0 && self.packets[n - 1] > ts {
            self.failed = true;
            return Err(CaptureError::Encoding(String::from_str("packet out of timestamp order")));
        }
        self.packets.push(ts);
        proof {
            assert forall|i: int, j: int| 0 <= i <= j < self.packets@.len() implies
                self.packets@[i] <= self.packets@[j] by {
                if j == n as int && i < j {
                    assert(old(self).packets@[i] <= old(self).packets@[n - 1]);
                }
            }
        }
        Ok(ts)
    }

    /// Writes, in order, the packets that the codec released after the end
    /// of the stream was signalled, stopping at the first refusal.
    pub fn drain(&mut self, codec_pts: &Vec<u64>) -> (r: Result<(), CaptureError>)
        requires
            old(self).wf(),
        ensures
            final(self).wf(),
            final(self)@.frames == old(self)@.frames,
            final(self)@.finished == old(self)@.finished,
            final(self)@.fps == old(self)@.fps,
            final(self)@.width == old(self)@.width,
            final(self)@.height == old(self)@.height,
            r is Ok <==> old(self).spec_open() && spec_drain_ok(old(self)@, codec_pts@),
            r is Ok ==> final(self)@ == (EncoderView {
                packets: old(self)@.packets + spec_rescaled(codec_pts@, old(self)@.fps as int),
                ..old(self)@
            }),
            r is Err ==> r->Err_0 is Encoding,
            r is Err && old(self).spec_open() ==> final(self)@.failed && final(self)@.frames
                == old(self)@.frames,
            !old(self).spec_open() ==> r is Err && final(self)@ == old(self)@,
    {
        if self.finished || self.failed {
            return Err(CaptureError::Encoding(String::from_str("stream is closed")));
        }
        let ghost fps = self.fps as int;
        let ghost e0 = self@;
        let mut i: usize = 0;
        while i < codec_pts.len()
            invariant
                self.wf(),
                0 <= i <= codec_pts@.len(),
                e0 == old(self)@,
                self@ == (EncoderView {
                    packets: e0.packets + spec_rescaled(codec_pts@.subrange(0, i as int), fps),
                    ..e0
                }),
                self.spec_open(),
                fps == e0.fps as int,
                forall|k: int| 0 <= k < i ==> #[trigger] codec_pts@[k] < e0.frames,
            decreases codec_pts@.len() - i,
        {
            let ghost prev = self@.packets;
            let ghost f = |p: u64| spec_rescale(p as int, fps) as u64;
            let ghost all = e0.packets + spec_rescaled(codec_pts@, fps);
            proof {
                assert(prev.len() == e0.packets.len() + i);
                assert forall|k: int| 0 <= k < prev.len() implies all[k] == prev[k] by {
                    if k >= e0.packets.len() {
                        assert(codec_pts@.subrange(0, i as int)[k - e0.packets.len()] == codec_pts@[k - e0.packets.len()]);
                    }
                }
                assert(all[prev.len() as int] == f(codec_pts@[i as int]));
            }
            let res = self.write_packet(codec_pts[i]);
            if res.is_err() {
                proof {
                    if codec_pts@[i as int] < e0.frames && prev.len() < e0.frames && prev.len() > 0 {
                        assert(all[prev.len() - 1] > all[prev.len() as int]);
                    }
                }
                return Err(CaptureError::Encoding(String::from_str("packet refused while draining")));
            }
            proof {
                assert(codec_pts@.subrange(0, i + 1) =~= codec_pts@.subrange(0, i as int).push(codec_pts@[i as int]));
                assert(spec_rescaled(codec_pts@.subrange(0, i + 1), fps) =~= spec_rescaled(codec_pts@.subrange(0, i as int), fps).push(f(codec_pts@[i as int])));
                assert(self@.packets == prev.push(f(codec_pts@[i as int])));
                assert(self@.packets =~= e0.packets + spec_rescaled(codec_pts@.subrange(0, i + 1), fps));
            }
            i = i + 1;
        }
        proof {
            assert(codec_pts@.subrange(0, codec_pts@.len() as int) == codec_pts@);
        }
        Ok(())
    }

    /// Finalizes the container: writes the trailer when every accepted frame
    /// has its packet. With no frame at all the result is `NoFrames` and no
    /// container may be left behind; a missing packet is an encoding error.
    /// A closed stream is never finalized a second time. On success the
    /// result is the packet count and the duration in milliseconds.
    pub fn finish(&mut self) -> (r: Result<(u64, u64), CaptureError>)
        requires
            old(self).wf(),
        ensures
            final(self).wf(),
            !old(self).spec_open() ==> r is Err && r->Err_0 is Encoding && final(self)@ == old(self)@,
            old(self).spec_open() && old(self)@.frames == 0 ==> r == Err::<(u64, u64), CaptureError>(
                CaptureError::NoFrames) && final(self)@ == (EncoderView { failed: true, ..old(self)@ }),
            old(self).spec_open() && old(self)@.frames > 0 && old(self)@.packets.len()
                != old(self)@.frames ==> r is Err && r->Err_0 is Encoding
                && final(self)@ == (EncoderView { failed: true, ..old(self)@ }),
            old(self).spec_open() && old(self)@.frames > 0 && old(self)@.packets.len()
                == old(self)@.frames ==> r == Ok::<(u64, u64), CaptureError>(
                (old(self)@.frames as u64, spec_duration_ms(old(self)@.frames as int, old(self)@.fps as int) as u64))
                && final(self)@ == (EncoderView { finished: true, ..old(self)@ }),
    {
        if self.finished || self.failed {
            return Err(CaptureError::Encoding(String::from_str("stream is already closed")));
        }
        if self.frames == 0 {
            self.failed = true;
            return Err(CaptureError::NoFrames);
        }
        if self.packets.len() as u64 != self.frames {
            self.failed = true;
            return Err(CaptureError::Encoding(String::from_str("frames without packets at end of stream")));
        }
        self.finished = true;
        let d = self.calculate_duration(self.frames);
        Ok((self.frames, d))
    }

    /// Duration in milliseconds of `frame_count` frames at this stream's rate.
    pub fn calculate_duration(&self, frame_count: u64) -> (r: u64)
        requires
            self.wf(),
            frame_count <= MAX_FRAMES,
        ensures
            r == spec_duration_ms(frame_count as int, self@.fps as int),
    {
        duration_ms(frame_count, self.fps)
    }

    /// Bitrate the codec is configured with for a quality of 0 to 100.
    pub fn target_bitrate(&self, quality: u32) -> (r: u64)
        requires
            self.wf(),
            quality <= MAX_QUALITY,
        ensures
            r == spec_target_bitrate(quality as int, self@.width as int, self@.height as int, self@.fps as int),
    {
        let w = self.width as u64;
        let h = self.height as u64;
        let f = self.fps as u64;
        let q = quality as u64 + 20;
        proof {
            assert(w * h <= 8192 * 8192) by (nonlinear_arith)
                requires w <= 8192, h <= 8192;
            assert(w * h * f <= 8192 * 8192 * 240) by (nonlinear_arith)
                requires w * h <= 8192 * 8192, f <= 240;
            assert(w * h * f * q <= 8192 * 8192 * 240 * 120) by (nonlinear_arith)
                requires w * h * f <= 8192 * 8192 * 240, q <= 120;
        }
        w * h * f * q / 1200
    }

    /// Whether encoded bytes decode to an RGB image of this stream's size.
    pub open spec fn spec_decodes_to_stream(&self, bytes: Seq<u8>) -> bool {
        match decoded_rgb(bytes) {
            Some((w, h, p)) => w == self@.width && h == self@.height && p.len() == w as int * h as int * 3,
            None => false,
        }
    }

    /// Decodes encoded still frames to packed RGB rows of the stream's size.
    /// A frame that does not decode is an encoding error; one of another
    /// size is a configuration error.
    pub fn decode_frames(&self, frames: &Vec<Vec<u8>>) -> (r: Result<Vec<Vec<u8>>, CaptureError>)
        requires
            self.wf(),
        ensures
            r is Ok <==> forall|i: int| 0 <= i < frames@.len() ==> self.spec_decodes_to_stream(
                #[trigger] frames@[i]@),
            r matches Ok(v) ==> v@.len() == frames@.len() && forall|i: int| 0 <= i < v@.len()
                ==> #[trigger] v@[i]@ == decoded_pixels(frames@[i]@),
    {
        let mut out: Vec<Vec<u8>> = Vec::new();
        let mut i: usize = 0;
        while i < frames.len()
            invariant
                self.wf(),
                0 <= i <= frames@.len(),
                out@.len() == i,
                forall|k: int| 0 <= k < i ==> self.spec_decodes_to_stream(#[trigger] frames@[k]@),
                forall|k: int| 0 <= k < i ==> #[trigger] out@[k]@ == decoded_pixels(frames@[k]@),
            decreases frames@.len() - i,
        {
            match decode_rgb(frames[i].as_slice()) {
                Err(_) => {
                    return Err(CaptureError::Encoding(String::from_str("frame does not decode")));
                },
                Ok((w, h, pixels)) => {
                    if w != self.width || h != self.height {
                        return Err(CaptureError::Configuration(String::from_str("frame size differs from the stream")));
                    }
                    let w64 = w as u64;
                    let h64 = h as u64;
                    proof {
                        assert(w64 * h64 <= 8192 * 8192) by (nonlinear_arith)
                            requires w64 <= 8192, h64 <= 8192;
                    }
                    let expected: u64 = w64 * h64 * 3;
                    if pixels.len() as u64 != expected {
                        return Err(CaptureError::Encoding(String::from_str("decoded frame is truncated")));
                    }
                    out.push(pixels);
                },
            }
            i = i + 1;
        }
        Ok(out)
    }
}

/// Rescales a codec timestamp (1/fps) into the container time base,
/// rounding to the nearest tick.
pub fn rescale(pts: u64, fps: u32) -> (r: u64)
    requires
        valid_fps(fps),
        pts < MAX_FRAMES,
    ensures
        r == spec_rescale(pts as int, fps as int),
{
    let p = pts as u128;
    proof {
        assert(p * 180000 < 0x100_0000_0000 * 180000) by (nonlinear_arith)
            requires p < 0x100_0000_0000;
    }
    let num: u128 = p * (2 * CONTAINER_CLOCK as u128) + fps as u128;
    let den: u128 = 2 * fps as u128;
    proof {
        assert(num / den <= num) by (nonlinear_arith)
            requires den >= 2, num >= 0;
    }
    (num / den) as u64
}

/// Duration in milliseconds of `frames` frames at `fps`.
pub fn duration_ms(frames: u64, fps: u32) -> (r: u64)
    requires
        valid_fps(fps),
        frames <= MAX_FRAMES,
    ensures
        r == spec_duration_ms(frames as int, fps as int),
{
    let total: u64 = frames * 1000;
    total / fps as u64
}

/// Quality maps monotonically to bitrate: for a fixed size and rate, a
/// higher quality never gives a lower target bitrate.
pub proof fn lemma_bitrate_monotone(q1: int, q2: int, width: int, height: int, fps: int)
    requires
        0 <= q1 <= q2,
        width >= 0,
        height >= 0,
        fps >= 0,
    ensures
        spec_target_bitrate(q1, width, height, fps) <= spec_target_bitrate(q2, width, height, fps),
{
    let p = width * height * fps;
    assert(p >= 0) by (nonlinear_arith)
        requires width >= 0, height >= 0, fps >= 0, p == width * height * fps;
    lemma_mul_inequality(q1 + 20, q2 + 20, p);
    assert(p * (q1 + 20) <= p * (q2 + 20)) by (nonlinear_arith)
        requires (q1 + 20) * p <= (q2 + 20) * p;
    lemma_div_is_ordered(p * (q1 + 20), p * (q2 + 20), 1200);
}

/// The reported duration is the frames' duration rounded down to the
/// millisecond: it is never later, and less than a millisecond earlier,
/// than the exact one, so always within one frame interval of it.
pub proof fn lemma_duration_rounding(frames: int, fps: int)
    requires
        frames >= 0,
        fps > 0,
    ensures
        spec_duration_ms(frames, fps) * fps <= frames * 1000 < (spec_duration_ms(frames, fps) + 1) * fps,
{
    lemma_fundamental_div_mod(frames * 1000, fps);
    let d = spec_duration_ms(frames, fps);
    assert(d * fps == fps * d) by (nonlinear_arith);
    assert((d + 1) * fps == fps * d + fps) by (nonlinear_arith);
}

/// Frames fed at the stream's rate for `secs` whole seconds report exactly
/// `secs` seconds.
pub proof fn lemma_duration_whole_seconds(fps: int, secs: int)
    requires
        fps > 0,
        secs >= 0,
    ensures
        spec_duration_ms(fps * secs, fps) == 1000 * secs,
{
    assert(fps * secs * 1000 == fps * (1000 * secs)) by (nonlinear_arith);
    lemma_div_multiples_vanish(1000 * secs, fps);
}

} // verus!
