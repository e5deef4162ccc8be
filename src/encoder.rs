use crate::naming::{decimal, decimal_text};
use vstd::prelude::*;
use vstd::string::StringExecFns;

verus! {

/// The text views of a list of strings.
pub open spec fn texts(v: Seq<String>) -> Seq<Seq<char>> {
    v.map_values(|s: String| s@)
}

/// Arguments of the encoder process that turns raw BGRA frames read from
/// its standard input into an H.264 MP4 file at `output`.
pub open spec fn video_encoder_args(width: nat, height: nat, fps: nat, output: Seq<char>) -> Seq<
    Seq<char>,
> {
    seq![
        "-y"@,
        "-f"@,
        "rawvideo"@,
        "-pixel_format"@,
        "bgra"@,
        "-video_size"@,
        decimal(width) + "x"@ + decimal(height),
        "-framerate"@,
        decimal(fps),
        "-i"@,
        "-"@,
        "-c:v"@,
        "libx264"@,
        "-preset"@,
        "veryfast"@,
        "-pix_fmt"@,
        "yuv420p"@,
        "-crf"@,
        "18"@,
        "-g"@,
        decimal(2 * fps),
        "-movflags"@,
        "+faststart"@,
        output,
    ]
}

/// Arguments of the encoder process that turns interleaved 32-bit float
/// PCM read from its standard input into an AAC track at `output`.
pub open spec fn audio_encoder_args(sample_rate: nat, channels: nat, output: Seq<char>) -> Seq<
    Seq<char>,
> {
    seq![
        "-y"@,
        "-f"@,
        "f32le"@,
        "-ar"@,
        decimal(sample_rate),
        "-ac"@,
        decimal(channels),
        "-i"@,
        "-"@,
        "-c:a"@,
        "aac"@,
        "-b:a"@,
        "192k"@,
        "-movflags"@,
        "+faststart"@,
        output,
    ]
}

fn push_text(v: &mut Vec<String>, s: &str)
    ensures
        texts(final(v)@) == texts(old(v)@).push(s@),
{
    v.push(String::from_str(s));
    assert(texts(v@) =~= texts(old(v)@).push(s@));
}

fn push_string(v: &mut Vec<String>, s: String)
    ensures
        texts(final(v)@) == texts(old(v)@).push(s@),
{
    let ghost sv = s@;
    v.push(s);
    assert(texts(v@) =~= texts(old(v)@).push(sv));
}

/// The video encoder's command-line arguments for frames of
/// `width` x `height` pixels at `fps` frames per second, with a key frame
/// every two seconds.
pub fn video_encoder_arguments(width: u32, height: u32, fps: u32, output: &str) -> (r: Vec<String>)
    ensures
        texts(r@) == video_encoder_args(width as nat, height as nat, fps as nat, output@),
{
    let mut size = decimal_text(width as u64);
    size.append("x");
    size.append(decimal_text(height as u64).as_str());
    let mut v: Vec<String> = Vec::new();
    push_text(&mut v, "-y");
    push_text(&mut v, "-f");
    push_text(&mut v, "rawvideo");
    push_text(&mut v, "-pixel_format");
    push_text(&mut v, "bgra");
    push_text(&mut v, "-video_size");
    push_string(&mut v, size);
    push_text(&mut v, "-framerate");
    push_string(&mut v, decimal_text(fps as u64));
    push_text(&mut v, "-i");
    push_text(&mut v, "-");
    push_text(&mut v, "-c:v");
    push_text(&mut v, "libx264");
    push_text(&mut v, "-preset");
    push_text(&mut v, "veryfast");
    push_text(&mut v, "-pix_fmt");
    push_text(&mut v, "yuv420p");
    push_text(&mut v, "-crf");
    push_text(&mut v, "18");
    push_text(&mut v, "-g");
    push_string(&mut v, decimal_text(2 * (fps as u64)));
    push_text(&mut v, "-movflags");
    push_text(&mut v, "+faststart");
    push_text(&mut v, output);
    assert(texts(v@) =~= video_encoder_args(width as nat, height as nat, fps as nat, output@));
    v
}

/// The audio encoder's command-line arguments for `channels` interleaved
/// channels sampled at `sample_rate` Hz.
pub fn audio_encoder_arguments(sample_rate: u32, channels: u16, output: &str) -> (r: Vec<String>)
    ensures
        texts(r@) == audio_encoder_args(sample_rate as nat, channels as nat, output@),
{
    let mut v: Vec<String> = Vec::new();
    push_text(&mut v, "-y");
    push_text(&mut v, "-f");
    push_text(&mut v, "f32le");
    push_text(&mut v, "-ar");
    push_string(&mut v, decimal_text(sample_rate as u64));
    push_text(&mut v, "-ac");
    push_string(&mut v, decimal_text(channels as u64));
    push_text(&mut v, "-i");
    push_text(&mut v, "-");
    push_text(&mut v, "-c:a");
    push_text(&mut v, "aac");
    push_text(&mut v, "-b:a");
    push_text(&mut v, "192k");
    push_text(&mut v, "-movflags");
    push_text(&mut v, "+faststart");
    push_text(&mut v, output);
    assert(texts(v@) =~= audio_encoder_args(sample_rate as nat, channels as nat, output@));
    v
}

} // verus!
