//! Recognition of a byte-buffer class the outside loader must not be
//! handed: a buffer that announces the ImageDisk text header but carries
//! fewer than five bytes after it, so that not one track header can be
//! read. On such a buffer the outside ImageDisk parser reaches its
//! geometry computation with a head count of zero and divides by it
//! instead of returning. The shell refuses these buffers before calling
//! the outside loader and answers with a parse error of its own; this
//! refusal works even where no unwinding can be caught.
//!
//! The recognition mirrors what the outside reader does with the header:
//! it scans bytes up to the first terminator, keeps only the printable
//! ones as the header text, and looks for the ImageDisk signature
//! anywhere in that text.

use vstd::prelude::*;

verus! {

/// A byte the header reader keeps: printable ASCII.
pub open spec fn is_printable(b: u8) -> bool {
    32 <= b <= 127
}

/// A byte that ends the header scan.
pub open spec fn is_header_terminator(b: u8) -> bool {
    b == 0x1A || b == 0x00
}

/// An ASCII decimal digit.
pub open spec fn is_ascii_digit(b: u8) -> bool {
    48 <= b <= 57
}

/// Where the header scan stops: at the first terminator byte, or at the
/// end of the buffer.
pub open spec fn header_scan_end(bytes: Seq<u8>) -> int
    decreases bytes.len(),
{
    if bytes.len() == 0 {
        0
    } else if is_header_terminator(bytes[0]) {
        0
    } else {
        1 + header_scan_end(bytes.drop_first())
    }
}

/// The printable-ASCII subsequence of a byte sequence, in order.
pub open spec fn printable_of(s: Seq<u8>) -> Seq<u8>
    decreases s.len(),
{
    if s.len() == 0 {
        Seq::<u8>::empty()
    } else if is_printable(s.last()) {
        printable_of(s.drop_last()).push(s.last())
    } else {
        printable_of(s.drop_last())
    }
}

/// The header text the reader builds: the printable bytes before the end
/// of the scan.
pub open spec fn header_text(bytes: Seq<u8>) -> Seq<u8> {
    printable_of(bytes.take(header_scan_end(bytes)))
}

/// Where track data would begin: one past the terminator, or the end of
/// the buffer when no terminator exists.
pub open spec fn track_data_start(bytes: Seq<u8>) -> int {
    if header_scan_end(bytes) < bytes.len() {
        header_scan_end(bytes) + 1
    } else {
        bytes.len() as int
    }
}

/// The 29-byte ImageDisk signature at one offset of the header text:
/// the letters "IMD", a space, a version such as 1.00, and a date and
/// time with their punctuation, every digit an ASCII digit.
pub open spec fn imd_signature_at(s: Seq<u8>, i: int) -> bool {
    &&& 0 <= i
    &&& i + 29 <= s.len()
    &&& s[i] == 73  // 'I'
    &&& s[i + 1] == 77  // 'M'
    &&& s[i + 2] == 68  // 'D'
    &&& s[i + 3] == 32  // ' '
    &&& is_ascii_digit(s[i + 4])
    &&& s[i + 5] == 46  // '.'
    &&& is_ascii_digit(s[i + 6])
    &&& is_ascii_digit(s[i + 7])
    &&& s[i + 8] == 58  // ':'
    &&& s[i + 9] == 32  // ' '
    &&& is_ascii_digit(s[i + 10])
    &&& is_ascii_digit(s[i + 11])
    &&& s[i + 12] == 47  // '/'
    &&& is_ascii_digit(s[i + 13])
    &&& is_ascii_digit(s[i + 14])
    &&& s[i + 15] == 47  // '/'
    &&& is_ascii_digit(s[i + 16])
    &&& is_ascii_digit(s[i + 17])
    &&& is_ascii_digit(s[i + 18])
    &&& is_ascii_digit(s[i + 19])
    &&& s[i + 20] == 32  // ' '
    &&& is_ascii_digit(s[i + 21])
    &&& is_ascii_digit(s[i + 22])
    &&& s[i + 23] == 58  // ':'
    &&& is_ascii_digit(s[i + 24])
    &&& is_ascii_digit(s[i + 25])
    &&& s[i + 26] == 58  // ':'
    &&& is_ascii_digit(s[i + 27])
    &&& is_ascii_digit(s[i + 28])
}

/// The header text announces ImageDisk somewhere.
pub open spec fn has_imd_signature(s: Seq<u8>) -> bool {
    exists|i: int| imd_signature_at(s, i)
}

/// The guarded class: the header text announces ImageDisk and fewer than
/// five bytes follow the header, not even one track header.
pub open spec fn headerless_imd(bytes: Seq<u8>) -> bool {
    has_imd_signature(header_text(bytes)) && bytes.len() - track_data_start(bytes) < 5
}

/// Whether one byte is an ASCII decimal digit.
fn byte_is_digit(b: u8) -> (r: bool)
    ensures
        r == is_ascii_digit(b),
{
    48 <= b && b <= 57
}

/// Whether the ImageDisk signature stands at one offset of the header.
fn signature_at(header: &Vec<u8>, i: usize) -> (r: bool)
    ensures
        r == imd_signature_at(header@, i as int),
{
    let n = header.len();
    if i >= n || n - i < 29 {
        return false;
    }
    header[i] == 73 && header[i + 1] == 77 && header[i + 2] == 68 && header[i + 3] == 32
        && byte_is_digit(header[i + 4]) && header[i + 5] == 46 && byte_is_digit(header[i + 6])
        && byte_is_digit(header[i + 7]) && header[i + 8] == 58 && header[i + 9] == 32
        && byte_is_digit(header[i + 10]) && byte_is_digit(header[i + 11]) && header[i + 12] == 47
        && byte_is_digit(header[i + 13]) && byte_is_digit(header[i + 14]) && header[i + 15] == 47
        && byte_is_digit(header[i + 16]) && byte_is_digit(header[i + 17])
        && byte_is_digit(header[i + 18]) && byte_is_digit(header[i + 19]) && header[i + 20] == 32
        && byte_is_digit(header[i + 21]) && byte_is_digit(header[i + 22]) && header[i + 23] == 58
        && byte_is_digit(header[i + 24]) && byte_is_digit(header[i + 25]) && header[i + 26] == 58
        && byte_is_digit(header[i + 27]) && byte_is_digit(header[i + 28])
}

/// Whether the ImageDisk signature stands anywhere in the header.
fn has_signature(header: &Vec<u8>) -> (r: bool)
    ensures
        r == has_imd_signature(header@),
{
    if header.len() < 29 {
        return false;
    }
    let last = header.len() - 29;
    let mut i: usize = 0;
    while i <= last
        invariant
            header@.len() >= 29,
            last == header@.len() - 29,
            last <= usize::MAX - 29,
            i <= last + 1,
            forall|j: int| 0 <= j < i ==> !imd_signature_at(header@, j),
        decreases last + 1 - i,
    {
        if signature_at(header, i) {
            return true;
        }
        i = i + 1;
    }
    proof {
        assert forall|j: int| !imd_signature_at(header@, j) by {
            if 0 <= j <= last as int {
                assert(!imd_signature_at(header@, j));
            }
        }
    }
    false
}

/// Decide, for one byte buffer, membership of the guarded class: an
/// ImageDisk header with no room for even one track header behind it.
pub fn is_headerless_imd(bytes: &Vec<u8>) -> (r: bool)
    ensures
        r == headerless_imd(bytes@),
{
    let n = bytes.len();
    let mut header: Vec<u8> = Vec::new();
    let mut i: usize = 0;
    proof {
        assert(bytes@.skip(0) =~= bytes@);
        assert(bytes@.take(0) =~= Seq::<u8>::empty());
    }
    loop
        invariant
            i <= n,
            n == bytes@.len(),
            header_scan_end(bytes@) == i + header_scan_end(bytes@.skip(i as int)),
            header@ == printable_of(bytes@.take(i as int)),
        ensures
            i <= n,
            n == bytes@.len(),
            header_scan_end(bytes@) == i as int,
            header@ == header_text(bytes@),
        decreases n - i,
    {
        if i == n {
            proof {
                assert(bytes@.skip(i as int) =~= Seq::<u8>::empty());
                assert(bytes@.take(i as int) =~= bytes@.take(header_scan_end(bytes@)));
            }
            break;
        }
        let b = bytes[i];
        proof {
            assert(bytes@.skip(i as int)[0] == bytes@[i as int]);
        }
        if b == 0x1A || b == 0x00 {
            proof {
                assert(header_scan_end(bytes@.skip(i as int)) == 0);
                assert(bytes@.take(i as int) =~= bytes@.take(header_scan_end(bytes@)));
            }
            break;
        }
        proof {
            assert(bytes@.skip(i as int).drop_first() =~= bytes@.skip(i + 1));
            assert(bytes@.take(i + 1).drop_last() =~= bytes@.take(i as int));
            assert(bytes@.take(i + 1).last() == bytes@[i as int]);
        }
        if b >= 32 && b <= 127 {
            header.push(b);
        }
        i = i + 1;
    }
    let remaining = if i < n {
        n - (i + 1)
    } else {
        0
    };
    let sig = has_signature(&header);
    sig && remaining < 5
}

} // verus!
