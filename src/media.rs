use vstd::arithmetic::div_mod::lemma_fundamental_div_mod_converse;
use vstd::prelude::*;

verus! {

/// The pixel rows of an image whose rows are `stride` bytes apart, each
/// cut to its first `row_bytes` bytes and laid end to end.
pub open spec fn packed_rows(src: Seq<u8>, row_bytes: nat, rows: nat, stride: nat) -> Seq<u8> {
    Seq::new(
        row_bytes * rows,
        |k: int| src[(k / row_bytes as int) * stride + k % row_bytes as int],
    )
}

/// Copies the `height` rows of a BGRA image, whose rows lie
/// `bytes_per_row` bytes apart in `src`, into a buffer without row padding.
pub fn pack_bgra_rows(src: &[u8], width: usize, height: usize, bytes_per_row: usize) -> (r: Vec<u8>)
    requires
        4 * width <= bytes_per_row,
        height * bytes_per_row <= src@.len(),
    ensures
        r@ == packed_rows(src@, (4 * width) as nat, height as nat, bytes_per_row as nat),
{
    let row_bytes = 4 * width;
    let len = src.len();
    let mut out: Vec<u8> = Vec::new();
    let mut y: usize = 0;
    while y < height
        invariant
            row_bytes == 4 * width,
            row_bytes <= bytes_per_row,
            height * bytes_per_row <= src@.len(),
            len == src@.len(),
            y <= height,
            out@.len() == y * row_bytes,
            forall|k: int|
                0 <= k < out@.len() ==> #[trigger] out@[k] == src@[(k / row_bytes as int)
                    * bytes_per_row + k % row_bytes as int],
        decreases height - y,
    {
        assert(y * bytes_per_row + bytes_per_row <= height * bytes_per_row) by (nonlinear_arith)
            requires
                y < height,
        ;
        let base = y * bytes_per_row;
        let mut x: usize = 0;
        while x < row_bytes
            invariant
                row_bytes == 4 * width,
                row_bytes <= bytes_per_row,
                height * bytes_per_row <= src@.len(),
                y < height,
                base == y * bytes_per_row,
                base + bytes_per_row <= src@.len(),
                len == src@.len(),
                x <= row_bytes,
                out@.len() == y * row_bytes + x,
                forall|k: int|
                    0 <= k < out@.len() ==> #[trigger] out@[k] == src@[(k / row_bytes as int)
                        * bytes_per_row + k % row_bytes as int],
            decreases row_bytes - x,
        {
            proof {
                let k = (y * row_bytes + x) as int;
                lemma_fundamental_div_mod_converse(k, row_bytes as int, y as int, x as int);
            }
            out.push(src[base + x]);
            x += 1;
        }
        assert((y + 1) * row_bytes == y * row_bytes + row_bytes) by (nonlinear_arith);
        y += 1;
    }
    assert(out@.len() == row_bytes * height) by (nonlinear_arith)
        requires
            out@.len() == height * row_bytes,
    ;
    assert(out@ =~= packed_rows(src@, row_bytes as nat, height as nat, bytes_per_row as nat));
    out
}

/// Two channels of 4-byte samples interleaved: left sample, right sample,
/// and so on, over the whole samples of `left`.
pub open spec fn interleaved(left: Seq<u8>, right: Seq<u8>) -> Seq<u8> {
    Seq::new(
        8 * (left.len() / 4),
        |k: int|
            if k % 8 < 4 {
                left[(k / 8) * 4 + k % 8]
            } else {
                right[(k / 8) * 4 + k % 8 - 4]
            },
    )
}

/// Interleaves two planar buffers of 32-bit samples into one stereo buffer.
pub fn interleave_stereo(left: &[u8], right: &[u8]) -> (r: Vec<u8>)
    requires
        4 * (left@.len() / 4) <= right@.len(),
    ensures
        r@ == interleaved(left@, right@),
{
    let samples = left.len() / 4;
    let right_len = right.len();
    let mut out: Vec<u8> = Vec::new();
    let mut i: usize = 0;
    while i < samples
        invariant
            samples == left@.len() / 4,
            4 * samples <= right@.len(),
            right_len == right@.len(),
            i <= samples,
            out@.len() == 8 * i,
            forall|k: int|
                0 <= k < out@.len() ==> #[trigger] out@[k] == if k % 8 < 4 {
                    left@[(k / 8) * 4 + k % 8]
                } else {
                    right@[(k / 8) * 4 + k % 8 - 4]
                },
        decreases samples - i,
    {
        let offset = 4 * i;
        let mut b: usize = 0;
        while b < 8
            invariant
                samples == left@.len() / 4,
                4 * samples <= right@.len(),
                right_len == right@.len(),
                i < samples,
                offset == 4 * i,
                b <= 8,
                out@.len() == 8 * i + b,
                forall|k: int|
                    0 <= k < out@.len() ==> #[trigger] out@[k] == if k % 8 < 4 {
                        left@[(k / 8) * 4 + k % 8]
                    } else {
                        right@[(k / 8) * 4 + k % 8 - 4]
                    },
            decreases 8 - b,
        {
            proof {
                lemma_fundamental_div_mod_converse((8 * i + b) as int, 8, i as int, b as int);
            }
            if b < 4 {
                out.push(left[offset + b]);
            } else {
                out.push(right[offset + b - 4]);
            }
            b += 1;
        }
        i += 1;
    }
    assert(out@ =~= interleaved(left@, right@));
    out
}

/// The bytes of one capture callback that go to the audio encoder: a
/// single buffer as it is, the first two of several planar buffers
/// interleaved, and nothing when there is nothing usable.
pub open spec fn audio_payload_of(buffers: Seq<Seq<u8>>) -> Option<Seq<u8>> {
    if buffers.len() == 0 {
        None
    } else if buffers.len() == 1 {
        if buffers[0].len() > 0 {
            Some(buffers[0])
        } else {
            None
        }
    } else if buffers[0].len() > 0 && buffers[0].len() == buffers[1].len() {
        Some(interleaved(buffers[0], buffers[1]))
    } else {
        None
    }
}

fn copy_bytes(src: &[u8]) -> (r: Vec<u8>)
    ensures
        r@ == src@,
{
    let mut out: Vec<u8> = Vec::new();
    let mut i: usize = 0;
    while i < src.len()
        invariant
            i <= src@.len(),
            out@ == src@.subrange(0, i as int),
        decreases src@.len() - i,
    {
        out.push(src[i]);
        i += 1;
        assert(out@ =~= src@.subrange(0, i as int));
    }
    assert(out@ =~= src@);
    out
}

/// Prepares the audio of one capture callback for the encoder.
pub fn audio_payload(buffers: &Vec<Vec<u8>>) -> (r: Option<Vec<u8>>)
    ensures
        match audio_payload_of(buffers@.map_values(|b: Vec<u8>| b@)) {
            Some(p) => r is Some && r->Some_0@ == p,
            None => r is None,
        },
{
    let ghost views = buffers@.map_values(|b: Vec<u8>| b@);
    if buffers.len() == 0 {
        return None;
    }
    assert(views[0] == buffers@[0]@);
    if buffers.len() == 1 {
        if buffers[0].len() > 0 {
            return Some(copy_bytes(buffers[0].as_slice()));
        }
        return None;
    }
    assert(views[1] == buffers@[1]@);
    let left = &buffers[0];
    let right = &buffers[1];
    if left.len() > 0 && left.len() == right.len() {
        Some(interleave_stereo(left.as_slice(), right.as_slice()))
    } else {
        None
    }
}

/// The number of bytes of a captured frame the encoder takes: the frame
/// is encoded only when it has the dimensions the encoder was opened with
/// and holds a whole `width` x `height` BGRA image.
pub open spec fn encodable_len(
    data_len: nat,
    captured_width: nat,
    captured_height: nat,
    width: nat,
    height: nat,
) -> Option<nat> {
    if captured_width == width && captured_height == height && 4 * width * height <= data_len {
        Some(4 * width * height)
    } else {
        None
    }
}

/// Decides whether a captured frame goes to the encoder, and how many of
/// its leading bytes.
pub fn encodable_frame_len(
    data_len: usize,
    captured_width: u32,
    captured_height: u32,
    width: u32,
    height: u32,
) -> (r: Option<usize>)
    ensures
        match encodable_len(
            data_len as nat,
            captured_width as nat,
            captured_height as nat,
            width as nat,
            height as nat,
        ) {
            Some(n) => r == Some(n as usize),
            None => r is None,
        },
{
    if captured_width != width || captured_height != height {
        return None;
    }
    let w = width as u128;
    let h = height as u128;
    assert(4 * w * h <= 4 * 0xffff_ffffu128 * 0xffff_ffffu128) by (nonlinear_arith)
        requires
            w <= 0xffff_ffffu128,
            h <= 0xffff_ffffu128,
    ;
    let size = 4 * w * h;
    if size <= data_len as u128 {
        Some(size as usize)
    } else {
        None
    }
}

} // verus!
