//! Colour parsing for the procedural background.
use vstd::prelude::*;
use vstd::string::StringSliceAdditionalSpecFns;
use vstd::utf8::is_char_boundary;

verus! {

/// The value of an ASCII hexadecimal digit (either case), if `c` is one.
pub open spec fn hex_digit(c: u8) -> Option<u8> {
    if 48 <= c <= 57 {
        Some((c - 48) as u8)
    } else if 65 <= c <= 70 {
        Some((c - 55) as u8)
    } else if 97 <= c <= 102 {
        Some((c - 87) as u8)
    } else {
        None
    }
}

/// A two-character base-16 field read as `u8::from_str_radix` reads it: two
/// digits, or `+` and one digit; anything else reads as 0.
pub open spec fn parse_pair(a: u8, b: u8) -> u8 {
    match (hex_digit(a), hex_digit(b)) {
        (Some(x), Some(y)) => (16 * x + y) as u8,
        (None, Some(y)) => if a == 43 { y } else { 0 },
        _ => 0,
    }
}

/// The index of the first byte at or after `i` that is not `#`.
pub open spec fn skip_hashes(b: Seq<u8>, i: int) -> int
    decreases b.len() - i,
{
    if i < 0 || i >= b.len() || b[i] != 35 {
        i
    } else {
        skip_hashes(b, i + 1)
    }
}

/// The colour a string names: after any leading `#`s, three two-character
/// base-16 fields for red, green and blue; black when fewer than six bytes remain.
pub open spec fn rgb_of(b: Seq<u8>) -> (u8, u8, u8) {
    let k = skip_hashes(b, 0);
    if b.len() - k < 6 {
        (0, 0, 0)
    } else {
        (parse_pair(b[k], b[k + 1]), parse_pair(b[k + 2], b[k + 3]), parse_pair(b[k + 4], b[k + 5]))
    }
}

/// The three two-byte fields start and end on character boundaries (the fields
/// are sliced out of the string, which is only possible there).
pub open spec fn fields_on_boundaries(b: Seq<u8>) -> bool {
    let k = skip_hashes(b, 0);
    b.len() - k >= 6 ==> {
        &&& is_char_boundary(b, k + 2)
        &&& is_char_boundary(b, k + 4)
        &&& is_char_boundary(b, k + 6)
    }
}

proof fn lemma_skip_hashes_range(b: Seq<u8>, i: int)
    requires
        0 <= i <= b.len(),
    ensures
        i <= skip_hashes(b, i) <= b.len(),
        forall|j: int| i <= j < skip_hashes(b, i) ==> b[j] == 35,
    decreases b.len() - i,
{
    if i < b.len() && b[i] == 35 {
        lemma_skip_hashes_range(b, i + 1);
    }
}

fn hex_digit_exec(c: u8) -> (r: Option<u8>)
    ensures
        r == hex_digit(c),
{
    if 48 <= c && c <= 57 {
        Some(c - 48)
    } else if 65 <= c && c <= 70 {
        Some(c - 55)
    } else if 97 <= c && c <= 102 {
        Some(c - 87)
    } else {
        None
    }
}

fn parse_pair_exec(a: u8, b: u8) -> (r: u8)
    ensures
        r == parse_pair(a, b),
{
    match (hex_digit_exec(a), hex_digit_exec(b)) {
        (Some(x), Some(y)) => 16 * x + y,
        (None, Some(y)) => if a == 43 { y } else { 0 },
        _ => 0,
    }
}

/// Converts a hex colour string such as `#FFD300` to an RGB triple.
pub fn hex_to_rgb(hex: &str) -> (r: (u8, u8, u8))
    requires
        fields_on_boundaries(hex.spec_bytes()),
    ensures
        r == rgb_of(hex.spec_bytes()),
{
    let b: &[u8] = hex.as_bytes();
    let n = b.len();
    let mut k: usize = 0;
    while k < n && b[k] == 35
        invariant
            0 <= k <= n,
            n == b@.len(),
            skip_hashes(b@, k as int) == skip_hashes(b@, 0),
        decreases n - k,
    {
        k += 1;
    }
    if n - k < 6 {
        return (0, 0, 0);
    }
    (parse_pair_exec(b[k], b[k + 1]), parse_pair_exec(b[k + 2], b[k + 3]), parse_pair_exec(b[k + 4], b[k + 5]))
}

/// Byte `j` of an opaque RGBA pixel of colour `rgb`.
pub open spec fn rgba_byte(rgb: (u8, u8, u8), j: int) -> u8 {
    if j == 0 {
        rgb.0
    } else if j == 1 {
        rgb.1
    } else if j == 2 {
        rgb.2
    } else {
        255
    }
}

/// Fills row `y` of a `width`-pixel-wide RGBA8 image with an opaque colour;
/// every other byte is left as it was.
pub fn fill_row(buffer: &mut [u8], width: u32, y: u32, rgb: (u8, u8, u8))
    requires
        (y as int + 1) * width * 4 <= u32::MAX,
        (y as int + 1) * width * 4 <= old(buffer)@.len(),
    ensures
        final(buffer)@.len() == old(buffer)@.len(),
        forall|i: int|
            0 <= i < final(buffer)@.len() ==> #[trigger] final(buffer)@[i] == if y * width * 4 <= i
                < (y + 1) * width * 4 {
                rgba_byte(rgb, (i - y * width * 4) % 4)
            } else {
                old(buffer)@[i]
            },
{
    let ghost row_start = y * width * 4;
    assert(y * width * 4 + width * 4 == (y as int + 1) * width * 4) by (nonlinear_arith);
    assert(0 <= y * width * 4) by (nonlinear_arith);
    let mut x: u32 = 0;
    while x < width
        invariant
            x <= width,
            row_start == y * width * 4,
            row_start + width * 4 == (y as int + 1) * width * 4,
            (y as int + 1) * width * 4 <= u32::MAX,
            (y as int + 1) * width * 4 <= buffer@.len(),
            0 <= row_start,
            buffer@.len() == old(buffer)@.len(),
            forall|i: int|
                0 <= i < buffer@.len() ==> #[trigger] buffer@[i] == if row_start <= i < row_start + x
                    * 4 {
                    rgba_byte(rgb, (i - row_start) % 4)
                } else {
                    old(buffer)@[i]
                },
        decreases width - x,
    {
        assert((y * width + x) * 4 == row_start + x * 4) by (nonlinear_arith)
            requires
                row_start == y * width * 4,
        ;
        assert(row_start + x * 4 + 4 <= row_start + width * 4) by (nonlinear_arith)
            requires
                x < width,
        ;
        let idx = ((y * width + x) * 4) as usize;
        buffer[idx] = rgb.0;
        buffer[idx + 1] = rgb.1;
        buffer[idx + 2] = rgb.2;
        buffer[idx + 3] = 255;
        assert forall|i: int| 0 <= i < buffer@.len() implies #[trigger] buffer@[i] == if row_start
            <= i < row_start + (x + 1) * 4 {
            rgba_byte(rgb, (i - row_start) % 4)
        } else {
            old(buffer)@[i]
        } by {
            if idx <= i < idx + 4 {
                assert((i - row_start) % 4 == i - idx) by {
                    vstd::arithmetic::div_mod::lemma_fundamental_div_mod_converse(
                        i - row_start,
                        4,
                        x as int,
                        i - idx,
                    );
                }
            }
        }
        x += 1;
    }
}

} // verus!
