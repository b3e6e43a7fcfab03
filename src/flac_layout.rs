use vstd::prelude::*;

verus! {

/// Big-endian 24-bit number at `i`.
pub open spec fn be_u24(d: Seq<u8>, i: int) -> int {
    (d[i] as int) * 65536 + (d[i + 1] as int) * 256 + (d[i + 2] as int)
}

/// Big-endian 32-bit number at `i`.
pub open spec fn be_u32(d: Seq<u8>, i: int) -> int {
    (d[i] as int) * 16777216 + (d[i + 1] as int) * 65536 + (d[i + 2] as int) * 256 + (d[i + 3] as int)
}

/// Little-endian 32-bit number at `i`.
pub open spec fn le_u32(d: Seq<u8>, i: int) -> int {
    (d[i] as int) + (d[i + 1] as int) * 256 + (d[i + 2] as int) * 65536 + (d[i + 3] as int) * 16777216
}

/// Whether an `=` byte lies in `d[a..b]`.
pub open spec fn has_equals(d: Seq<u8>, a: int, b: int) -> bool {
    exists|j: int| a <= j < b && d[j] == 61
}

/// The `n` Vorbis comments from `p` on fit before `e`, and each has a key and a value.
pub open spec fn comments_fit(d: Seq<u8>, p: int, e: int, n: int) -> bool
    decreases n,
{
    if n <= 0 {
        true
    } else {
        p + 4 <= e && p + 4 + le_u32(d, p) <= e && has_equals(d, p + 4, p + 4 + le_u32(d, p))
            && comments_fit(d, p + 4 + le_u32(d, p), e, n - 1)
    }
}

/// A Vorbis comment block in `d[s..e]`: vendor string, count, then the comments.
pub open spec fn vorbis_fits(d: Seq<u8>, s: int, e: int) -> bool {
    s + 4 <= e && s + 8 + le_u32(d, s) <= e && comments_fit(
        d,
        s + 8 + le_u32(d, s),
        e,
        le_u32(d, s + 4 + le_u32(d, s)),
    )
}

/// A picture block in `d[s..e]`: type, MIME type, description, four numbers, data.
pub open spec fn picture_fits(d: Seq<u8>, s: int, e: int) -> bool {
    s + 8 <= e && {
        let p1 = s + 8 + be_u32(d, s + 4);
        p1 + 4 <= e && {
            let p2 = p1 + 4 + be_u32(d, p1) + 16;
            p2 + 4 <= e && p2 + 4 + be_u32(d, p2) <= e
        }
    }
}

/// The `n` cue sheet tracks from `p` on: 36 bytes each, then their 12-byte
/// indices, of which the last needs only its first 9 bytes.
pub open spec fn tracks_fit(d: Seq<u8>, p: int, e: int, n: int) -> bool
    decreases n,
{
    if n <= 0 {
        true
    } else {
        p + 36 <= e && (d[p + 35] == 0 || p + 36 + 12 * ((d[p + 35] as int) - 1) + 9 <= e)
            && tracks_fit(d, p + 36 + 12 * (d[p + 35] as int), e, n - 1)
    }
}

/// A cue sheet block in `d[s..e]`: 395 header bytes, the track count, the tracks.
pub open spec fn cuesheet_fits(d: Seq<u8>, s: int, e: int) -> bool {
    s + 396 <= e && tracks_fit(d, s + 396, e, d[s + 395] as int)
}

/// The content `d[s..e]` of a block of type `kind` holds every field that the
/// block's reader takes from it.
pub open spec fn block_fits(kind: int, d: Seq<u8>, s: int, e: int) -> bool {
    if kind == 0 {
        s + 34 <= e
    } else if kind == 2 {
        s + 4 <= e
    } else if kind == 4 {
        vorbis_fits(d, s, e)
    } else if kind == 5 {
        cuesheet_fits(d, s, e)
    } else if kind == 6 {
        picture_fits(d, s, e)
    } else {
        true
    }
}

/// End of the content of the block whose header is at `pos`: its declared
/// length, cut short by the end of the data.
pub open spec fn block_end(d: Seq<u8>, pos: int) -> int {
    if pos + 4 + be_u24(d, pos + 1) <= d.len() {
        pos + 4 + be_u24(d, pos + 1)
    } else {
        d.len() as int
    }
}

/// Every block from `pos` on, up to the one marked last or the end of the data,
/// holds what its reader takes from it.
pub open spec fn blocks_fit(d: Seq<u8>, pos: int) -> bool
    decreases d.len() - pos,
{
    if pos < 0 || pos + 4 > d.len() {
        true
    } else {
        block_fits((d[pos] % 128) as int, d, pos + 4, block_end(d, pos)) && (d[pos] >= 128
            || blocks_fit(d, block_end(d, pos)))
    }
}

/// Whether the data begins with an ID3v2 header (versions 2 to 4).
pub open spec fn has_id3_prefix(d: Seq<u8>) -> bool {
    d.len() >= 10 && d[0] == 0x49 && d[1] == 0x44 && d[2] == 0x33 && (d[3] == 2 || d[3] == 3
        || d[3] == 4)
}

/// Where the first metadata block starts: after `fLaC`, and after an ID3v2 tag
/// (with its footer, if flagged) placed before it.
pub open spec fn first_block(d: Seq<u8>) -> int {
    if has_id3_prefix(d) {
        10 + (d[6] % 128) as int * 2097152 + (d[7] % 128) as int * 16384 + (d[8] % 128) as int
            * 128 + (d[9] % 128) as int + if (d[5] / 16) % 2 == 1 {
            10int
        } else {
            0int
        } + 4
    } else {
        4
    }
}

/// Whether every metadata block of a FLAC stream holds the fields that its
/// reader takes from it, so that reading the blocks cannot index out of bounds.
pub open spec fn flac_layout_sound(d: Seq<u8>) -> bool {
    blocks_fit(d, first_block(d))
}

fn read_be_u24(d: &[u8], i: usize) -> (r: usize)
    requires
        i + 3 <= d@.len(),
    ensures
        r as int == be_u24(d@, i as int),
{
    (d[i] as usize) * 65536 + (d[i + 1] as usize) * 256 + (d[i + 2] as usize)
}

fn read_be_u32(d: &[u8], i: usize) -> (r: usize)
    requires
        i + 4 <= d@.len(),
    ensures
        r as int == be_u32(d@, i as int),
{
    let v: u32 = (d[i] as u32) * 16777216 + (d[i + 1] as u32) * 65536 + (d[i + 2] as u32) * 256
        + (d[i + 3] as u32);
    v as usize
}

fn read_le_u32(d: &[u8], i: usize) -> (r: usize)
    requires
        i + 4 <= d@.len(),
    ensures
        r as int == le_u32(d@, i as int),
{
    let v: u32 = (d[i] as u32) + (d[i + 1] as u32) * 256 + (d[i + 2] as u32) * 65536
        + (d[i + 3] as u32) * 16777216;
    v as usize
}

fn find_equals(d: &[u8], a: usize, b: usize) -> (r: bool)
    requires
        a <= b <= d@.len(),
    ensures
        r == has_equals(d@, a as int, b as int),
{
    let mut j = a;
    while j < b
        invariant
            a <= j <= b,
            b <= d@.len(),
            forall|k: int| a <= k < j ==> d@[k] != 61,
        decreases b - j,
    {
        if d[j] == 61 {
            return true;
        }
        j = j + 1;
    }
    false
}

fn check_comments(d: &[u8], start: usize, e: usize, n: usize) -> (r: bool)
    requires
        start <= e <= d@.len(),
    ensures
        r == comments_fit(d@, start as int, e as int, n as int),
{
    let mut p = start;
    let mut k = n;
    while k > 0
        invariant
            p <= e <= d@.len(),
            comments_fit(d@, start as int, e as int, n as int) == comments_fit(d@, p as int, e as int, k as int),
        decreases k,
    {
        if e - p < 4 {
            return false;
        }
        let len = read_le_u32(d, p);
        if len > e - p - 4 {
            return false;
        }
        if !find_equals(d, p + 4, p + 4 + len) {
            return false;
        }
        p = p + 4 + len;
        k = k - 1;
    }
    true
}

fn check_tracks(d: &[u8], start: usize, e: usize, n: usize) -> (r: bool)
    requires
        start <= e <= d@.len(),
    ensures
        r == tracks_fit(d@, start as int, e as int, n as int),
{
    let mut p = start;
    let mut k = n;
    while k > 0
        invariant
            p <= e <= d@.len(),
            tracks_fit(d@, start as int, e as int, n as int) == tracks_fit(d@, p as int, e as int, k as int),
        decreases k,
    {
        if e - p < 36 {
            return false;
        }
        let ni = d[p + 35] as usize;
        if ni > 0 && 12 * (ni - 1) + 9 > e - p - 36 {
            return false;
        }
        if 12 * ni > e - p - 36 {
            // The next track starts past the end: it cannot fit, nor can any after it.
            proof {
                reveal_with_fuel(tracks_fit, 2);
            }
            return k == 1;
        }
        p = p + 36 + 12 * ni;
        k = k - 1;
    }
    true
}

fn check_vorbis(d: &[u8], s: usize, e: usize) -> (r: bool)
    requires
        s <= e <= d@.len(),
    ensures
        r == vorbis_fits(d@, s as int, e as int),
{
    if e - s < 4 {
        return false;
    }
    let vendor = read_le_u32(d, s);
    if e - s < 8 || vendor > e - s - 8 {
        return false;
    }
    let count = read_le_u32(d, s + 4 + vendor);
    check_comments(d, s + 8 + vendor, e, count)
}

fn check_picture(d: &[u8], s: usize, e: usize) -> (r: bool)
    requires
        s <= e <= d@.len(),
    ensures
        r == picture_fits(d@, s as int, e as int),
{
    if e - s < 8 {
        return false;
    }
    let mime = read_be_u32(d, s + 4);
    if mime > e - s - 8 || e - s - 8 - mime < 4 {
        return false;
    }
    let p1 = s + 8 + mime;
    let desc = read_be_u32(d, p1);
    if desc > e - p1 - 4 || e - p1 - 4 - desc < 20 {
        return false;
    }
    let p2 = p1 + 4 + desc + 16;
    let len = read_be_u32(d, p2);
    len <= e - p2 - 4
}

fn check_block(kind: u8, d: &[u8], s: usize, e: usize) -> (r: bool)
    requires
        s <= e <= d@.len(),
    ensures
        r == block_fits(kind as int, d@, s as int, e as int),
{
    if kind == 0 {
        e - s >= 34
    } else if kind == 2 {
        e - s >= 4
    } else if kind == 4 {
        check_vorbis(d, s, e)
    } else if kind == 5 {
        e - s >= 396 && check_tracks(d, s + 396, e, d[s + 395] as usize)
    } else if kind == 6 {
        check_picture(d, s, e)
    } else {
        true
    }
}

/// Whether the metadata blocks of a FLAC stream hold every field that their
/// readers take from them.
pub fn flac_layout_ok(d: &[u8]) -> (r: bool)
    ensures
        r == flac_layout_sound(d@),
{
    let n = d.len();
    let mut pos: usize;
    if n >= 10 && d[0] == 0x49 && d[1] == 0x44 && d[2] == 0x33 && (d[3] == 2 || d[3] == 3 || d[3] == 4) {
        let size: usize = (d[6] % 128) as usize * 2097152 + (d[7] % 128) as usize * 16384 + (d[8] % 128) as usize * 128 + (d[9] % 128) as usize;
        let footer: usize = if (d[5] / 16) % 2 == 1 { 10 } else { 0 };
        pos = 10 + size + footer + 4;
    } else {
        pos = 4;
    }
    assert(pos as int == first_block(d@));
    if pos > n {
        return true;
    }
    while n - pos >= 4
        invariant
            n == d@.len(),
            pos <= n,
            flac_layout_sound(d@) == blocks_fit(d@, pos as int),
        decreases n - pos,
    {
        let header = d[pos];
        let declared = read_be_u24(d, pos + 1);
        let end: usize = if declared <= n - pos - 4 { pos + 4 + declared } else { n };
        assert(end as int == block_end(d@, pos as int));
        if !check_block(header % 128, d, pos + 4, end) {
            return false;
        }
        if header >= 128 {
            return true;
        }
        pos = end;
    }
    true
}

} // verus!
