use vstd::prelude::*;

verus! {

/// The character of a decimal digit.
pub open spec fn digit_char(d: nat) -> char
    recommends
        d < 10,
{
    (48 + d) as char
}

/// The decimal representation of a number, without leading zeros.
pub open spec fn decimal(n: nat) -> Seq<char>
    decreases n,
{
    if n < 10 {
        seq![digit_char(n)]
    } else {
        decimal(n / 10).push(digit_char(n % 10))
    }
}

fn digit_str(d: u64) -> (s: &'static str)
    requires
        d < 10,
    ensures
        s@ == seq![digit_char(d as nat)],
{
    proof {
        reveal_strlit("0");
        reveal_strlit("1");
        reveal_strlit("2");
        reveal_strlit("3");
        reveal_strlit("4");
        reveal_strlit("5");
        reveal_strlit("6");
        reveal_strlit("7");
        reveal_strlit("8");
        reveal_strlit("9");
    }
    let s: &'static str = match d {
        0 => "0",
        1 => "1",
        2 => "2",
        3 => "3",
        4 => "4",
        5 => "5",
        6 => "6",
        7 => "7",
        8 => "8",
        _ => "9",
    };
    assert(s@ =~= seq![digit_char(d as nat)]);
    s
}

/// Writes a number in decimal.
pub fn decimal_string(n: u64) -> (r: String)
    ensures
        r@ == decimal(n as nat),
    decreases n,
{
    if n < 10 {
        String::from_str(digit_str(n))
    } else {
        let head = decimal_string(n / 10);
        let r = head.concat(digit_str(n % 10));
        assert(r@ =~= decimal(n as nat));
        r
    }
}

/// Whether every character is a decimal digit.
pub open spec fn all_digits(s: Seq<char>) -> bool {
    forall|i: int| 0 <= i < s.len() ==> '0' <= #[trigger] s[i] <= '9'
}

/// The number that a string of decimal digits reads as.
pub open spec fn digits_value(s: Seq<char>) -> int
    decreases s.len(),
{
    if s.len() == 0 {
        0
    } else {
        digits_value(s.drop_last()) * 10 + (s.last() as int - 48)
    }
}

/// A decimal text is a non-empty run of digits that reads back as the number.
pub proof fn law_decimal_reads_back(n: nat)
    ensures
        decimal(n).len() > 0,
        all_digits(decimal(n)),
        digits_value(decimal(n)) == n,
    decreases n,
{
    if n < 10 {
        assert(decimal(n).drop_last() =~= Seq::<char>::empty());
        assert(digit_char(n) as int == 48 + n);
        assert(digits_value(Seq::<char>::empty()) == 0);
        assert(digits_value(decimal(n)) == digits_value(decimal(n).drop_last()) * 10 + (
        decimal(n).last() as int - 48));
        assert(all_digits(decimal(n)));
    }
    if n >= 10 {
        law_decimal_reads_back(n / 10);
        let d = decimal(n / 10);
        assert(decimal(n).drop_last() =~= d);
        assert(decimal(n).last() == digit_char(n % 10));
        assert(digit_char(n % 10) as int == 48 + n % 10);
        assert(n == (n / 10) * 10 + n % 10);
        assert(decimal(n) == d.push(digit_char(n % 10)));
        assert(decimal(n).len() > 0);
        assert(digits_value(decimal(n)) == digits_value(d) * 10 + (decimal(n).last() as int - 48));
        assert(digits_value(d) == n / 10);
        assert(decimal(n).last() as int - 48 == n % 10);
        assert(digits_value(decimal(n)) == (n / 10) * 10 + n % 10);
        assert forall|i: int| 0 <= i < decimal(n).len() implies '0' <= #[trigger] decimal(n)[i] <= '9' by {
            if i < d.len() {
                assert(decimal(n)[i] == d[i]);
            }
        }
    }
}

/// The texts of a list of strings.
pub open spec fn texts(v: Seq<String>) -> Seq<Seq<char>> {
    v.map_values(|s: String| s@)
}

fn push_text(v: &mut Vec<String>, s: &str)
    ensures
        texts(final(v)@) == texts(old(v)@).push(s@),
{
    v.push(String::from_str(s));
    assert(texts(v@) =~= texts(old(v)@).push(s@));
}

fn push_string(v: &mut Vec<String>, s: String)
    ensures
        texts(final(v)@) == texts(old(v)@).push(s@),
{
    let ghost t = s@;
    v.push(s);
    assert(texts(v@) =~= texts(old(v)@).push(t));
}

/// The `-s` value of a raw frame: `<width>x<height>`.
pub open spec fn frame_size_arg(width: nat, height: nat) -> Seq<char> {
    decimal(width) + "x"@ + decimal(height)
}

/// The ffmpeg arguments that encode one raw BGRA frame read from standard
/// input with `codec`, writing H.264 to standard output.
pub open spec fn encode_args(width: nat, height: nat, codec: Seq<char>) -> Seq<Seq<char>> {
    seq![
        "-hide_banner"@,
        "-loglevel"@,
        "error"@,
        "-f"@,
        "rawvideo"@,
        "-pix_fmt"@,
        "bgra"@,
        "-s"@,
        frame_size_arg(width, height),
        "-r"@,
        "60"@,
        "-i"@,
        "pipe:0"@,
        "-frames:v"@,
        "1"@,
        "-an"@,
        "-c:v"@,
        codec,
        "-f"@,
        "h264"@,
        "pipe:1"@,
    ]
}

/// The ffmpeg arguments that capture the desktop with `ddagrab` at a frame
/// rate, writing raw BGRA frames to standard output.
pub open spec fn capture_args(target_fps: nat) -> Seq<Seq<char>> {
    seq![
        "-hide_banner"@,
        "-loglevel"@,
        "error"@,
        "-f"@,
        "lavfi"@,
        "-i"@,
        "ddagrab=framerate="@ + decimal(target_fps),
        "-pix_fmt"@,
        "bgra"@,
        "-f"@,
        "rawvideo"@,
        "pipe:1"@,
    ]
}

/// The `-s` value of a raw frame of `width` by `height` pixels.
pub fn frame_size_text(width: u64, height: u64) -> (r: String)
    ensures
        r@ == frame_size_arg(width as nat, height as nat),
{
    decimal_string(width).concat("x").concat(decimal_string(height).as_str())
}

/// The arguments of the ffmpeg run that encodes one frame.
pub fn ffmpeg_encode_args(width: u64, height: u64, codec: &str) -> (r: Vec<String>)
    ensures
        texts(r@) == encode_args(width as nat, height as nat, codec@),
{
    let mut v: Vec<String> = Vec::new();
    push_text(&mut v, "-hide_banner");
    push_text(&mut v, "-loglevel");
    push_text(&mut v, "error");
    push_text(&mut v, "-f");
    push_text(&mut v, "rawvideo");
    push_text(&mut v, "-pix_fmt");
    push_text(&mut v, "bgra");
    push_text(&mut v, "-s");
    push_string(&mut v, frame_size_text(width, height));
    push_text(&mut v, "-r");
    push_text(&mut v, "60");
    push_text(&mut v, "-i");
    push_text(&mut v, "pipe:0");
    push_text(&mut v, "-frames:v");
    push_text(&mut v, "1");
    push_text(&mut v, "-an");
    push_text(&mut v, "-c:v");
    push_text(&mut v, codec);
    push_text(&mut v, "-f");
    push_text(&mut v, "h264");
    push_text(&mut v, "pipe:1");
    assert(texts(v@) =~= encode_args(width as nat, height as nat, codec@));
    v
}

/// The arguments of the ffmpeg run that captures the desktop.
pub fn ffmpeg_capture_args(target_fps: u32) -> (r: Vec<String>)
    ensures
        texts(r@) == capture_args(target_fps as nat),
        texts(r@)[6].take(18) == "ddagrab=framerate="@,
        digits_value(texts(r@)[6].skip(18)) == target_fps,
{
    proof {
        law_capture_input_uses_target_fps(target_fps as nat);
    }
    let mut v: Vec<String> = Vec::new();
    push_text(&mut v, "-hide_banner");
    push_text(&mut v, "-loglevel");
    push_text(&mut v, "error");
    push_text(&mut v, "-f");
    push_text(&mut v, "lavfi");
    push_text(&mut v, "-i");
    push_string(&mut v, String::from_str("ddagrab=framerate=").concat(decimal_string(target_fps as u64).as_str()));
    push_text(&mut v, "-pix_fmt");
    push_text(&mut v, "bgra");
    push_text(&mut v, "-f");
    push_text(&mut v, "rawvideo");
    push_text(&mut v, "pipe:1");
    assert(texts(v@) =~= capture_args(target_fps as nat));
    v
}

/// The capture command line reads from `ddagrab` at exactly the requested
/// frame rate: its input argument is `ddagrab=framerate=` followed by digits
/// that read back as the rate.
pub proof fn law_capture_input_uses_target_fps(target_fps: nat)
    ensures
        capture_args(target_fps).len() == 12,
        capture_args(target_fps)[5] == "-i"@,
        capture_args(target_fps)[6].take(18) == "ddagrab=framerate="@,
        capture_args(target_fps)[6].len() > 18,
        all_digits(capture_args(target_fps)[6].skip(18)),
        digits_value(capture_args(target_fps)[6].skip(18)) == target_fps,
{
    reveal_strlit("ddagrab=framerate=");
    law_decimal_reads_back(target_fps);
    let a = capture_args(target_fps)[6];
    assert(a.take(18) =~= "ddagrab=framerate="@);
    assert(a.skip(18) =~= decimal(target_fps));
}

/// The encode command line gives ffmpeg the frame size as `<width>x<height>`
/// in decimal digits that read back as the width and the height.
pub proof fn law_encode_size_uses_dimensions(width: nat, height: nat, codec: Seq<char>)
    ensures
        encode_args(width, height, codec).len() == 21,
        encode_args(width, height, codec)[7] == "-s"@,
        encode_args(width, height, codec)[17] == codec,
        ({
            let arg = encode_args(width, height, codec)[8];
            let w = decimal(width).len() as int;
            &&& arg[w] == 'x'
            &&& all_digits(arg.take(w))
            &&& digits_value(arg.take(w)) == width
            &&& all_digits(arg.skip(w + 1))
            &&& digits_value(arg.skip(w + 1)) == height
        }),
{
    reveal_strlit("x");
    law_decimal_reads_back(width);
    law_decimal_reads_back(height);
    let arg = encode_args(width, height, codec)[8];
    let w = decimal(width).len() as int;
    assert(arg.take(w) =~= decimal(width));
    assert(arg.skip(w + 1) =~= decimal(height));
}

} // verus!
