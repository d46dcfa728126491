use vstd::prelude::*;
use vstd::string::StringExecFns;

verus! {

/// The decimal digit `d`.
pub open spec fn digit(d: nat) -> char {
    seq!['0', '1', '2', '3', '4', '5', '6', '7', '8', '9'][d as int]
}

/// `n` written in decimal, with no leading zero.
pub open spec fn decimal(n: nat) -> Seq<char>
    decreases n,
{
    if n < 10 {
        seq![digit(n)]
    } else {
        decimal(n / 10) + seq![digit(n % 10)]
    }
}

/// The escape sequence that sets the terminal's foreground to the true
/// color `(r, g, b)`: `ESC [ 38;2;r;g;b m`.
pub open spec fn fg_escape(r: u8, g: u8, b: u8) -> Seq<char> {
    seq!['\u{1b}', '[', '3', '8', ';', '2', ';'] + decimal(r as nat) + seq![';'] + decimal(
        g as nat,
    ) + seq![';'] + decimal(b as nat) + seq!['m']
}

/// The text of pixel `k` of a frame `width` pixels wide: a colored square,
/// then a line break after the first pixel of each row.
pub open spec fn pixel_text(bytes: Seq<u8>, k: int, width: int) -> Seq<char> {
    fg_escape(bytes[3 * k + 2], bytes[3 * k + 1], bytes[3 * k]) + seq!['■'] + if k % width == 0 {
        seq!['\n']
    } else {
        Seq::<char>::empty()
    }
}

/// The text of the first `n` pixels of a frame.
pub open spec fn frame_text_prefix(bytes: Seq<u8>, width: int, n: nat) -> Seq<char>
    decreases n,
{
    if n == 0 {
        Seq::<char>::empty()
    } else {
        frame_text_prefix(bytes, width, (n - 1) as nat) + pixel_text(bytes, n - 1, width)
    }
}

/// The text of a whole frame of blue, green, red bytes.
pub open spec fn frame_text(bytes: Seq<u8>, width: int) -> Seq<char> {
    frame_text_prefix(bytes, width, bytes.len() / 3)
}

/// Relies on termion::color::Rgb::fg_string: the true-color foreground
/// escape sequence, each channel written in decimal.
#[verifier::external_body]
fn fg_string(r: u8, g: u8, b: u8) -> (s: String)
    ensures
        s@ == fg_escape(r, g, b),
{
    termion::color::Rgb(r, g, b).fg_string()
}

/// Renders a frame of blue, green, red bytes as terminal text: one colored
/// square per pixel.
pub fn frame_to_ansi(frame_bytes: &Vec<u8>, width: usize) -> (image: String)
    requires
        frame_bytes@.len() % 3 == 0,
        width > 0,
    ensures
        image@ == frame_text(frame_bytes@, width as int),
{
    let mut image = String::new();
    let len = frame_bytes.len();
    let n = len / 3;
    let mut k: usize = 0;
    while k < n
        invariant
            len == frame_bytes@.len(),
            n == len / 3,
            frame_bytes@.len() % 3 == 0,
            width > 0,
            k <= n,
            image@ == frame_text_prefix(frame_bytes@, width as int, k as nat),
        decreases n - k,
    {
        let i = 3 * k;
        let b = frame_bytes[i];
        let g = frame_bytes[i + 1];
        let r = frame_bytes[i + 2];
        let color = fg_string(r, g, b);
        image.append(color.as_str());
        proof {
            reveal_strlit("■");
            reveal_strlit("\n");
        }
        image.append("■");
        if k % width == 0 {
            image.append("\n");
        }
        proof {
            assert(image@ =~= frame_text_prefix(frame_bytes@, width as int, (k + 1) as nat));
        }
        k = k + 1;
    }
    image
}

} // verus!
