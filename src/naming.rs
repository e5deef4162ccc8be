use vstd::prelude::*;
use vstd::string::StringExecFns;

verus! {

/// The character of a decimal or hexadecimal digit (lowercase).
pub open spec fn digit_char(d: nat) -> char {
    if d == 0 {
        '0'
    } else if d == 1 {
        '1'
    } else if d == 2 {
        '2'
    } else if d == 3 {
        '3'
    } else if d == 4 {
        '4'
    } else if d == 5 {
        '5'
    } else if d == 6 {
        '6'
    } else if d == 7 {
        '7'
    } else if d == 8 {
        '8'
    } else if d == 9 {
        '9'
    } else if d == 10 {
        'a'
    } else if d == 11 {
        'b'
    } else if d == 12 {
        'c'
    } else if d == 13 {
        'd'
    } else if d == 14 {
        'e'
    } else {
        'f'
    }
}

/// `n` written in decimal, without leading zeros.
pub open spec fn decimal(n: nat) -> Seq<char>
    decreases n,
{
    if n < 10 {
        seq![digit_char(n)]
    } else {
        decimal(n / 10).push(digit_char(n % 10))
    }
}

/// The last `width` hexadecimal digits of `v`, zero-padded.
pub open spec fn hex_digits(v: nat, width: nat) -> Seq<char>
    decreases width,
{
    if width == 0 {
        Seq::empty()
    } else {
        hex_digits(v / 16, (width - 1) as nat).push(digit_char(v % 16))
    }
}

fn digit_text(d: u64) -> (r: &'static str)
    requires
        d < 16,
    ensures
        r@ == seq![digit_char(d as nat)],
{
    proof {
        reveal_strlit("0");
        reveal_strlit("1");
        reveal_strlit("2");
        reveal_strlit("3");
        reveal_strlit("4");
        reveal_strlit("5");
        reveal_strlit("6");
        reveal_strlit("7");
        reveal_strlit("8");
        reveal_strlit("9");
        reveal_strlit("a");
        reveal_strlit("b");
        reveal_strlit("c");
        reveal_strlit("d");
        reveal_strlit("e");
        reveal_strlit("f");
    }
    let r = if d == 0 {
        "0"
    } else if d == 1 {
        "1"
    } else if d == 2 {
        "2"
    } else if d == 3 {
        "3"
    } else if d == 4 {
        "4"
    } else if d == 5 {
        "5"
    } else if d == 6 {
        "6"
    } else if d == 7 {
        "7"
    } else if d == 8 {
        "8"
    } else if d == 9 {
        "9"
    } else if d == 10 {
        "a"
    } else if d == 11 {
        "b"
    } else if d == 12 {
        "c"
    } else if d == 13 {
        "d"
    } else if d == 14 {
        "e"
    } else {
        "f"
    };
    assert(r@ =~= seq![digit_char(d as nat)]);
    r
}

fn append_decimal(s: &mut String, n: u64)
    ensures
        final(s)@ == old(s)@ + decimal(n as nat),
    decreases n,
{
    if n >= 10 {
        append_decimal(s, n / 10);
    }
    s.append(digit_text(n % 10));
    assert(decimal(n as nat) =~= if n < 10 {
        seq![digit_char(n as nat)]
    } else {
        decimal((n / 10) as nat).push(digit_char((n % 10) as nat))
    });
}

fn append_hex(s: &mut String, v: u64, width: u64)
    ensures
        final(s)@ == old(s)@ + hex_digits(v as nat, width as nat),
    decreases width,
{
    if width == 0 {
        assert(old(s)@ + hex_digits(v as nat, 0) =~= old(s)@);
        return;
    }
    append_hex(s, v / 16, width - 1);
    s.append(digit_text(v % 16));
    assert(hex_digits(v as nat, width as nat) =~= hex_digits(
        (v / 16) as nat,
        (width - 1) as nat,
    ).push(digit_char((v % 16) as nat)));
}

/// `n` in decimal, as a string.
pub fn decimal_text(n: u64) -> (r: String)
    ensures
        r@ == decimal(n as nat),
{
    let mut r = String::new();
    append_decimal(&mut r, n);
    assert(r@ =~= decimal(n as nat));
    r
}

/// Whether `c` is one of the ten decimal digits.
pub open spec fn is_decimal_digit(c: char) -> bool {
    '0' <= c && c <= '9'
}

/// The files and directories a channel produces for one segment.
#[derive(Debug, Clone, Copy, PartialEq, Eq, Structural)]
pub enum SegmentArtifact {
    /// The display recording.
    Video,
    /// The microphone track.
    MicrophoneAudio,
    /// The system audio track.
    SystemAudio,
    /// Pointer positions.
    MouseMoves,
    /// Button presses and releases.
    MouseClicks,
    /// Metadata of the cursor images seen.
    CursorTable,
    /// Directory of cursor images.
    CursorImages,
}

/// Name shared by every file of segment `k`.
pub open spec fn segment_basename(k: nat) -> Seq<char> {
    "recording-"@ + decimal(k)
}

/// What follows the segment's basename in an artifact's name.
pub open spec fn artifact_tail(a: SegmentArtifact) -> Seq<char> {
    match a {
        SegmentArtifact::Video => ".mp4"@,
        SegmentArtifact::MicrophoneAudio => "-mic.m4a"@,
        SegmentArtifact::SystemAudio => "-system.m4a"@,
        SegmentArtifact::MouseMoves => "-mouse-moves.json"@,
        SegmentArtifact::MouseClicks => "-mouse-clicks.json"@,
        SegmentArtifact::CursorTable => "-cursors.json"@,
        SegmentArtifact::CursorImages => "-cursors"@,
    }
}

/// The name of artifact `a` of segment `k`.
pub open spec fn artifact_name(k: nat, a: SegmentArtifact) -> Seq<char> {
    segment_basename(k) + artifact_tail(a)
}

/// The basename of segment `k`'s files: `recording-<k>`.
pub fn segment_file_basename(k: usize) -> (r: String)
    ensures
        r@ == segment_basename(k as nat),
{
    let mut r = String::from_str("recording-");
    append_decimal(&mut r, k as u64);
    r
}

fn artifact_tail_text(a: SegmentArtifact) -> (r: &'static str)
    ensures
        r@ == artifact_tail(a),
{
    match a {
        SegmentArtifact::Video => ".mp4",
        SegmentArtifact::MicrophoneAudio => "-mic.m4a",
        SegmentArtifact::SystemAudio => "-system.m4a",
        SegmentArtifact::MouseMoves => "-mouse-moves.json",
        SegmentArtifact::MouseClicks => "-mouse-clicks.json",
        SegmentArtifact::CursorTable => "-cursors.json",
        SegmentArtifact::CursorImages => "-cursors",
    }
}

/// The file (or directory) name of artifact `a` of segment `k`, such as
/// `recording-3.mp4` or `recording-3-mic.m4a`.
pub fn artifact_file_name(k: usize, a: SegmentArtifact) -> (r: String)
    ensures
        r@ == artifact_name(k as nat, a),
{
    let mut r = segment_file_basename(k);
    r.append(artifact_tail_text(a));
    r
}

/// Identifier of the channel that captures display `display_id`.
pub fn display_channel_id(display_id: u32) -> (r: String)
    ensures
        r@ == "display-"@ + decimal(display_id as nat),
{
    let mut r = String::from_str("display-");
    append_decimal(&mut r, display_id as u64);
    r
}

/// Identifier of a cursor image whose content hashes to `hash`:
/// `cursor_` and sixteen lowercase hexadecimal digits.
pub fn cursor_id_for_hash(hash: u64) -> (r: String)
    ensures
        r@ == "cursor_"@ + hex_digits(hash as nat, 16),
{
    let mut r = String::from_str("cursor_");
    append_hex(&mut r, hash, 16);
    r
}

/// File name of the image of cursor `cursor_id`.
pub fn cursor_image_file_name(cursor_id: &str) -> (r: String)
    ensures
        r@ == cursor_id@ + ".png"@,
{
    let mut r = String::from_str(cursor_id);
    r.append(".png");
    r
}

proof fn lemma_decimal_digits(n: nat)
    ensures
        decimal(n).len() >= 1,
        n >= 10 ==> decimal(n).len() >= 2,
        forall|i: int| 0 <= i < decimal(n).len() ==> is_decimal_digit(#[trigger] decimal(n)[i]),
    decreases n,
{
    if n >= 10 {
        lemma_decimal_digits(n / 10);
        assert forall|i: int| 0 <= i < decimal(n).len() implies is_decimal_digit(
            #[trigger] decimal(n)[i],
        ) by {
            if i < decimal(n / 10).len() {
                assert(decimal(n)[i] == decimal(n / 10)[i]);
            }
        }
    }
}

proof fn lemma_digit_char_injective(x: nat, y: nat)
    requires
        x < 16,
        y < 16,
        digit_char(x) == digit_char(y),
    ensures
        x == y,
{
}

proof fn lemma_decimal_injective(a: nat, b: nat)
    requires
        decimal(a) == decimal(b),
    ensures
        a == b,
    decreases a,
{
    lemma_decimal_digits(a);
    lemma_decimal_digits(b);
    if a >= 10 && b >= 10 {
        let da = decimal(a / 10);
        let db = decimal(b / 10);
        assert(decimal(a).last() == digit_char(a % 10));
        assert(decimal(b).last() == digit_char(b % 10));
        assert(da =~= decimal(a).drop_last());
        assert(db =~= decimal(b).drop_last());
        lemma_decimal_injective(a / 10, b / 10);
        lemma_digit_char_injective(a % 10, b % 10);
    } else if a < 10 && b < 10 {
        assert(decimal(a)[0] == digit_char(a));
        assert(decimal(b)[0] == digit_char(b));
        lemma_digit_char_injective(a, b);
    }
}

proof fn lemma_tail_starts_with_separator(a: SegmentArtifact)
    ensures
        artifact_tail(a).len() >= 1,
        !is_decimal_digit(artifact_tail(a)[0]),
{
    reveal_strlit(".mp4");
    reveal_strlit("-mic.m4a");
    reveal_strlit("-system.m4a");
    reveal_strlit("-mouse-moves.json");
    reveal_strlit("-mouse-clicks.json");
    reveal_strlit("-cursors.json");
    reveal_strlit("-cursors");
}

/// Files of different segments never share a name: whatever the two
/// artifacts, a file of segment `k1` and a file of segment `k2 != k1`
/// are named differently, so resuming into a new segment never
/// overwrites an earlier one.
pub proof fn lemma_segment_names_distinct(
    k1: nat,
    a1: SegmentArtifact,
    k2: nat,
    a2: SegmentArtifact,
)
    requires
        k1 != k2,
    ensures
        artifact_name(k1, a1) != artifact_name(k2, a2),
{
    let p = "recording-"@;
    let d1 = decimal(k1);
    let d2 = decimal(k2);
    let t1 = artifact_tail(a1);
    let t2 = artifact_tail(a2);
    let n1 = artifact_name(k1, a1);
    let n2 = artifact_name(k2, a2);
    lemma_decimal_digits(k1);
    lemma_decimal_digits(k2);
    lemma_tail_starts_with_separator(a1);
    lemma_tail_starts_with_separator(a2);
    if n1 == n2 {
        assert(n1 =~= p + d1 + t1);
        assert(n2 =~= p + d2 + t2);
        if d1.len() < d2.len() {
            let i: int = (p.len() + d1.len()) as int;
            assert(n1[i] == t1[0]);
            assert(n2[i] == d2[d1.len() as int]);
        } else if d2.len() < d1.len() {
            let i: int = (p.len() + d2.len()) as int;
            assert(n2[i] == t2[0]);
            assert(n1[i] == d1[d2.len() as int]);
        } else {
            assert(d1 =~= n1.subrange(p.len() as int, (p.len() + d1.len()) as int));
            assert(d2 =~= n2.subrange(p.len() as int, (p.len() + d2.len()) as int));
            lemma_decimal_injective(k1, k2);
        }
    }
}

} // verus!
