//! Byte-level readers for module data and the note/period tables shared by
//! the loaders and the players.
use vstd::prelude::*;
use vstd::slice::slice_index_get;
use vstd::slice::slice_subrange;
use crate::Error;

verus! {

/// Amiga period values, one row of 36 notes (three octaves) for each of the
/// 16 finetune steps: finetunes 0..=7 first, then -8..=-1.
pub const PERIOD_TABLE: [u16; 576] = [
    856, 808, 762, 720, 678, 640, 604, 570, 538, 508, 480, 453,
    428, 404, 381, 360, 339, 320, 302, 285, 269, 254, 240, 226,
    214, 202, 190, 180, 170, 160, 151, 143, 135, 127, 120, 113,
    850, 802, 757, 715, 674, 637, 601, 567, 535, 505, 477, 450,
    425, 401, 379, 357, 337, 318, 300, 284, 268, 253, 239, 225,
    213, 201, 189, 179, 169, 159, 150, 142, 134, 126, 119, 113,
    844, 796, 752, 709, 670, 632, 597, 563, 532, 502, 474, 447,
    422, 398, 376, 355, 335, 316, 298, 282, 266, 251, 237, 224,
    211, 199, 188, 177, 167, 158, 149, 141, 133, 125, 118, 111,
    838, 791, 746, 704, 665, 628, 592, 559, 528, 498, 470, 444,
    419, 395, 373, 352, 332, 314, 296, 280, 264, 249, 235, 222,
    209, 198, 187, 176, 166, 157, 148, 140, 132, 125, 118, 111,
    832, 785, 741, 699, 660, 623, 588, 555, 524, 495, 467, 441,
    416, 392, 370, 350, 330, 312, 294, 278, 262, 247, 233, 220,
    208, 196, 185, 175, 165, 156, 147, 139, 131, 124, 117, 110,
    826, 779, 736, 694, 655, 619, 584, 551, 520, 491, 463, 437,
    413, 390, 368, 347, 328, 309, 292, 276, 260, 245, 232, 219,
    206, 195, 184, 174, 164, 155, 146, 138, 130, 123, 116, 109,
    820, 774, 730, 689, 651, 614, 580, 547, 516, 487, 460, 434,
    410, 387, 365, 345, 325, 307, 290, 274, 258, 244, 230, 217,
    205, 193, 183, 172, 163, 154, 145, 137, 129, 122, 115, 109,
    814, 768, 725, 684, 646, 610, 575, 543, 513, 484, 457, 431,
    407, 384, 363, 342, 323, 305, 288, 272, 256, 242, 228, 216,
    204, 192, 181, 171, 161, 152, 144, 136, 128, 121, 114, 108,
    907, 856, 808, 762, 720, 678, 640, 604, 570, 538, 508, 480,
    453, 428, 404, 381, 360, 339, 320, 302, 285, 269, 254, 240,
    226, 214, 202, 190, 180, 170, 160, 151, 143, 135, 127, 120,
    900, 850, 802, 757, 715, 675, 636, 601, 567, 535, 505, 477,
    450, 425, 401, 379, 357, 337, 318, 300, 284, 268, 253, 238,
    225, 212, 200, 189, 179, 169, 159, 150, 142, 134, 126, 119,
    894, 844, 796, 752, 709, 670, 632, 597, 563, 532, 502, 474,
    447, 422, 398, 376, 355, 335, 316, 298, 282, 266, 251, 237,
    223, 211, 199, 188, 177, 167, 158, 149, 141, 133, 125, 118,
    887, 838, 791, 746, 704, 665, 628, 592, 559, 528, 498, 470,
    444, 419, 395, 373, 352, 332, 314, 296, 280, 264, 249, 235,
    222, 209, 198, 187, 176, 166, 157, 148, 140, 132, 125, 118,
    881, 832, 785, 741, 699, 660, 623, 588, 555, 524, 494, 467,
    441, 416, 392, 370, 350, 330, 312, 294, 278, 262, 247, 233,
    220, 208, 196, 185, 175, 165, 156, 147, 139, 131, 123, 117,
    875, 826, 779, 736, 694, 655, 619, 584, 551, 520, 491, 463,
    437, 413, 390, 368, 347, 328, 309, 292, 276, 260, 245, 232,
    219, 206, 195, 184, 174, 164, 155, 146, 138, 130, 123, 116,
    868, 820, 774, 730, 689, 651, 614, 580, 547, 516, 487, 460,
    434, 410, 387, 365, 345, 325, 307, 290, 274, 258, 244, 230,
    217, 205, 193, 183, 172, 163, 154, 145, 137, 129, 122, 115,
    862, 814, 768, 725, 684, 646, 610, 575, 543, 513, 484, 457,
    431, 407, 384, 363, 342, 323, 305, 288, 272, 256, 242, 228,
    216, 203, 191, 181, 171, 161, 152, 143, 135, 128, 121, 114,
];

/// Period of `note` (0-based, 36 notes) at finetune row `finetune` (0..16).
#[verifier::opaque]
pub open spec fn spec_period(finetune: int, note: int) -> int {
    PERIOD_TABLE[finetune * 36 + note] as int
}

/// Table lookup of the period for a note under a finetune row. Every
/// entry lies between the lowest and highest period of the table.
#[verifier::rlimit(100)]
pub fn period_of_note(finetune: usize, note: usize) -> (r: u16)
    requires
        finetune < 16,
        note < 36,
    ensures
        r == spec_period(finetune as int, note as int),
        108 <= r <= 907,
{
    proof {
        reveal(spec_period);
    }
    PERIOD_TABLE[finetune * 36 + note]
}

/// Smallest note index whose finetune-0 period does not exceed `period`,
/// or 36 when the period lies below the whole table.
pub open spec fn spec_note_index(period: int) -> int {
    spec_note_index_from(period, 0)
}

pub open spec fn spec_note_index_from(period: int, i: int) -> int
    decreases 36 - i,
{
    if i >= 36 {
        36
    } else if spec_period(0, i) <= period {
        i
    } else {
        spec_note_index_from(period, i + 1)
    }
}

/// The note search from `i` stays within the table bounds.
pub proof fn lemma_note_index_range(period: int, i: int)
    requires
        0 <= i <= 36,
    ensures
        i <= spec_note_index_from(period, i) <= 36,
    decreases 36 - i,
{
    if i < 36 && !(spec_period(0, i) <= period) {
        lemma_note_index_range(period, i + 1);
    }
}

/// Map a raw Amiga period to a 1-based note number; 0 means no note.
/// The nearest table entry at or below the period decides the note.
pub open spec fn spec_period_to_note(period: int) -> int {
    if period <= 0 {
        0
    } else if spec_note_index(period) >= 36 {
        0
    } else {
        spec_note_index(period) + 1
    }
}

pub fn period_to_note(period: u32) -> (r: usize)
    ensures
        r == spec_period_to_note(period as int),
{
    if period == 0 {
        return 0;
    }
    let mut i: usize = 0;
    while i < 36 && period_of_note(0, i) as u32 > period
        invariant
            i <= 36,
            spec_note_index(period as int) == spec_note_index_from(period as int, i as int),
        decreases 36 - i,
    {
        i = i + 1;
    }
    if i >= 36 {
        0
    } else {
        i + 1
    }
}

/// One byte of the input, or a load error past the end.
pub fn read8(b: &[u8], ofs: usize) -> (r: Result<u8, Error>)
    ensures
        r is Ok <==> ofs < b@.len(),
        r matches Ok(v) ==> v == b@[ofs as int],
        r matches Err(e) ==> e is Load,
{
    if ofs < b.len() {
        Ok(*slice_index_get(b, ofs))
    } else {
        Err(Error::Load(String::from_str("read past end of data")))
    }
}

/// One byte read as a signed value.
pub fn read8i(b: &[u8], ofs: usize) -> (r: Result<i8, Error>)
    ensures
        r is Ok <==> ofs < b@.len(),
        r matches Ok(v) ==> v == b@[ofs as int] as i8,
        r matches Err(e) ==> e is Load,
{
    match read8(b, ofs) {
        Ok(v) => Ok(v as i8),
        Err(e) => Err(e),
    }
}

/// Big-endian 16-bit word at `ofs`.
pub fn read16b(b: &[u8], ofs: usize) -> (r: Result<u16, Error>)
    ensures
        r is Ok <==> ofs + 2 <= b@.len(),
        r matches Ok(v) ==> v == 256 * b@[ofs as int] + b@[ofs + 1],
        r matches Err(e) ==> e is Load,
{
    if ofs < b.len() && b.len() - ofs >= 2 {
        let hi = *slice_index_get(b, ofs);
        let lo = *slice_index_get(b, ofs + 1);
        Ok(256 * (hi as u16) + lo as u16)
    } else {
        Err(Error::Load(String::from_str("read past end of data")))
    }
}

/// Little-endian 16-bit word at `ofs`.
pub fn read16l(b: &[u8], ofs: usize) -> (r: Result<u16, Error>)
    ensures
        r is Ok <==> ofs + 2 <= b@.len(),
        r matches Ok(v) ==> v == 256 * b@[ofs + 1] + b@[ofs as int],
        r matches Err(e) ==> e is Load,
{
    if ofs < b.len() && b.len() - ofs >= 2 {
        let lo = *slice_index_get(b, ofs);
        let hi = *slice_index_get(b, ofs + 1);
        Ok(256 * (hi as u16) + lo as u16)
    } else {
        Err(Error::Load(String::from_str("read past end of data")))
    }
}

/// Big-endian 32-bit word at `ofs`.
pub fn read32b(b: &[u8], ofs: usize) -> (r: Result<u32, Error>)
    ensures
        r is Ok <==> ofs + 4 <= b@.len(),
        r matches Ok(v) ==> v == 0x1000000 * b@[ofs as int] + 0x10000 * b@[ofs + 1]
            + 256 * b@[ofs + 2] + b@[ofs + 3],
        r matches Err(e) ==> e is Load,
{
    if ofs < b.len() && b.len() - ofs >= 4 {
        let b0 = *slice_index_get(b, ofs);
        let b1 = *slice_index_get(b, ofs + 1);
        let b2 = *slice_index_get(b, ofs + 2);
        let b3 = *slice_index_get(b, ofs + 3);
        Ok(0x1000000 * (b0 as u32) + 0x10000 * (b1 as u32) + 256 * (b2 as u32) + b3 as u32)
    } else {
        Err(Error::Load(String::from_str("read past end of data")))
    }
}

/// Little-endian 32-bit word at `ofs`.
pub fn read32l(b: &[u8], ofs: usize) -> (r: Result<u32, Error>)
    ensures
        r is Ok <==> ofs + 4 <= b@.len(),
        r matches Ok(v) ==> v == 0x1000000 * b@[ofs + 3] + 0x10000 * b@[ofs + 2]
            + 256 * b@[ofs + 1] + b@[ofs as int],
        r matches Err(e) ==> e is Load,
{
    if ofs < b.len() && b.len() - ofs >= 4 {
        let b0 = *slice_index_get(b, ofs);
        let b1 = *slice_index_get(b, ofs + 1);
        let b2 = *slice_index_get(b, ofs + 2);
        let b3 = *slice_index_get(b, ofs + 3);
        Ok(0x1000000 * (b3 as u32) + 0x10000 * (b2 as u32) + 256 * (b1 as u32) + b0 as u32)
    } else {
        Err(Error::Load(String::from_str("read past end of data")))
    }
}

/// A view of `n` bytes starting at `ofs`, or a load error.
pub fn slice_at<'a>(b: &'a [u8], ofs: usize, n: usize) -> (r: Result<&'a [u8], Error>)
    ensures
        r is Ok <==> ofs + n <= b@.len(),
        r matches Ok(s) ==> s@ == b@.subrange(ofs as int, ofs + n),
        r matches Err(e) ==> e is Load,
{
    if ofs <= b.len() && b.len() - ofs >= n {
        Ok(slice_subrange(b, ofs, ofs + n))
    } else {
        Err(Error::Load(String::from_str("read past end of data")))
    }
}

/// The text `n` stored bytes at `ofs` decode to.
pub open spec fn spec_text(b: Seq<u8>, ofs: int, n: int) -> Seq<char> {
    Seq::new(n as nat, |i: int| spec_shown_byte(b[ofs + i]) as char)
}

/// The character shown for a stored byte: printable ASCII stands for itself,
/// anything else becomes a dot.
pub open spec fn spec_shown_byte(v: u8) -> u8 {
    if 32 <= v < 127 {
        v
    } else {
        46
    }
}

/// Relies on String::from_utf8_lossy: ASCII bytes decode one-to-one to their
/// own characters.
#[verifier::external_body]
fn ascii_to_string(b: &Vec<u8>) -> (r: String)
    requires
        forall|i: int| 0 <= i < b@.len() ==> b@[i] < 128,
    ensures
        r@.len() == b@.len(),
        forall|i: int| 0 <= i < b@.len() ==> r@[i] == b@[i] as char,
{
    String::from_utf8_lossy(b).into_owned()
}

/// The text stored in `n` bytes at `ofs`: printable ASCII kept, the rest
/// shown as dots.
pub fn read_string(b: &[u8], ofs: usize, n: usize) -> (r: Result<String, Error>)
    ensures
        r is Ok <==> ofs + n <= b@.len(),
        r matches Ok(s) ==> s@.len() == n && forall|i: int|
            0 <= i < n ==> s@[i] == spec_shown_byte(b@[ofs + i]) as char,
        r matches Err(e) ==> e is Load,
{
    if !(ofs <= b.len() && b.len() - ofs >= n) {
        return Err(Error::Load(String::from_str("read past end of data")));
    }
    let mut shown: Vec<u8> = Vec::new();
    let mut i: usize = 0;
    while i < n
        invariant
            i <= n,
            ofs + n <= b@.len(),
            b@.len() <= usize::MAX,
            shown@.len() == i,
            forall|j: int| 0 <= j < i ==> shown@[j] == spec_shown_byte(b@[ofs + j]),
            forall|j: int| 0 <= j < i ==> shown@[j] < 128,
        decreases n - i,
    {
        let v = *slice_index_get(b, ofs + i);
        let c = if 32 <= v && v < 127 {
            v
        } else {
            46
        };
        shown.push(c);
        i = i + 1;
    }
    Ok(ascii_to_string(&shown))
}

} // verus!
