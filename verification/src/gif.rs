use vstd::prelude::*;
use vstd::arithmetic::power2::{pow2, lemma2_to64};

use crate::error::{GifPart, SoundGifError};

verus! {

/// Where a SoundGIF application extension lies: `start` is its `0x21` introducer,
/// `end` is one past its zero-length terminator sub-block.
#[derive(Clone, Copy, Debug, PartialEq, Eq, Structural)]
pub struct ExtensionRange {
    pub start: usize,
    pub end: usize,
}

/// The parts of a GIF that embedding and stripping need.
#[derive(Debug)]
pub struct GifLayout {
    /// Position of the `0x3b` trailer.
    pub trailer: usize,
    /// Every SoundGIF application extension, in file order.
    pub sound_extensions: Vec<ExtensionRange>,
}

/// The mathematical content of a [`GifLayout`].
pub struct LayoutModel {
    pub trailer: int,
    pub sounds: Seq<(int, int)>,
}

impl View for ExtensionRange {
    type V = (int, int);

    open spec fn view(&self) -> (int, int) {
        (self.start as int, self.end as int)
    }
}

impl View for GifLayout {
    type V = LayoutModel;

    open spec fn view(&self) -> LayoutModel {
        LayoutModel {
            trailer: self.trailer as int,
            sounds: self.sound_extensions@.map_values(|r: ExtensionRange| r@),
        }
    }
}

/// Shorthand for a truncation error.
pub open spec fn truncated(part: GifPart, at: int) -> SoundGifError {
    SoundGifError::Truncated { part, at: at as usize }
}

/// The application identifier `SNDGIF01` followed by the authentication code `001`.
pub open spec fn sound_app_header() -> Seq<u8> {
    seq![0x53u8, 0x4eu8, 0x44u8, 0x47u8, 0x49u8, 0x46u8, 0x30u8, 0x31u8, 0x30u8, 0x30u8, 0x31u8]
}

/// Whether `b` starts with the GIF87a or GIF89a signature.
pub open spec fn has_gif_signature(b: Seq<u8>) -> bool {
    &&& b.len() >= 6
    &&& b[0] == 0x47 && b[1] == 0x49 && b[2] == 0x46 && b[3] == 0x38
    &&& (b[4] == 0x37 || b[4] == 0x39)
    &&& b[5] == 0x61
}

/// Size in bytes of the color table announced by a packed-fields byte: none unless the
/// high bit is set, else `3 * 2^(n + 1)` where `n` is the low three bits.
pub open spec fn color_table_len(packed: u8) -> int {
    if packed >= 0x80 {
        3 * pow2((packed % 8) as nat + 1) as int
    } else {
        0
    }
}

/// Whether the application extension whose block-size byte is at `c` is a SoundGIF one.
pub open spec fn is_sound_header(b: Seq<u8>, c: int) -> bool {
    b[c] == 11 && b.subrange(c + 1, c + 12) == sound_app_header()
}

/// Position just past the data sub-blocks starting at `c` (past the zero terminator).
pub open spec fn sub_blocks_end(b: Seq<u8>, c: int) -> Result<int, SoundGifError>
    decreases b.len() - c,
{
    if c < 0 || c >= b.len() {
        Err(truncated(GifPart::SubBlockSize, c))
    } else if b[c] == 0 {
        Ok(c + 1)
    } else if c + 1 + b[c] > b.len() {
        Err(truncated(GifPart::SubBlock, c + 1))
    } else {
        sub_blocks_end(b, c + 1 + b[c])
    }
}

/// The bytes carried by the data sub-blocks starting at `c`.
pub open spec fn sub_blocks_data(b: Seq<u8>, c: int) -> Seq<u8>
    decreases b.len() - c,
{
    if c < 0 || c >= b.len() || b[c] == 0 || c + 1 + b[c] > b.len() {
        Seq::empty()
    } else {
        b.subrange(c + 1, c + 1 + b[c]) + sub_blocks_data(b, c + 1 + b[c])
    }
}

/// End of the image descriptor or extension block at `c`, and whether it is a SoundGIF
/// extension. Meant for `b[c]` being `0x2c` or `0x21`.
pub open spec fn block_end(b: Seq<u8>, c: int) -> Result<(int, bool), SoundGifError> {
    if b[c] == 0x2c {
        if c + 10 > b.len() {
            Err(truncated(GifPart::ImageDescriptor, c))
        } else if c + 10 + color_table_len(b[c + 9]) > b.len() {
            Err(truncated(GifPart::LocalColorTable, c + 10))
        } else if c + 11 + color_table_len(b[c + 9]) > b.len() {
            Err(truncated(GifPart::LzwMinimumCodeSize, c + 10 + color_table_len(b[c + 9])))
        } else {
            match sub_blocks_end(b, c + 11 + color_table_len(b[c + 9])) {
                Ok(e) => Ok((e, false)),
                Err(x) => Err(x),
            }
        }
    } else if c + 2 > b.len() {
        Err(truncated(GifPart::ExtensionIntroducer, c))
    } else if b[c + 1] == 0xff {
        if c + 3 > b.len() {
            Err(truncated(GifPart::ApplicationExtensionSize, c + 2))
        } else if c + 3 + b[c + 2] > b.len() {
            Err(truncated(GifPart::ApplicationExtensionHeader, c + 3))
        } else {
            match sub_blocks_end(b, c + 3 + b[c + 2]) {
                Ok(e) => Ok((e, is_sound_header(b, c + 2))),
                Err(x) => Err(x),
            }
        }
    } else {
        match sub_blocks_end(b, c + 2) {
            Ok(e) => Ok((e, false)),
            Err(x) => Err(x),
        }
    }
}

pub proof fn lemma_sub_blocks_end_bounds(b: Seq<u8>, c: int)
    ensures
        sub_blocks_end(b, c) matches Ok(e) ==> c < e <= b.len(),
    decreases b.len() - c,
{
    if 0 <= c < b.len() && b[c] != 0 && c + 1 + b[c] <= b.len() {
        lemma_sub_blocks_end_bounds(b, c + 1 + b[c]);
    }
}

pub proof fn lemma_block_end_bounds(b: Seq<u8>, c: int)
    requires
        0 <= c < b.len(),
    ensures
        block_end(b, c) matches Ok((e, _)) ==> c < e <= b.len(),
{
    if b[c] == 0x2c {
        lemma_sub_blocks_end_bounds(b, c + 11 + color_table_len(b[c + 9]));
    } else if c + 2 <= b.len() && b[c + 1] == 0xff {
        lemma_sub_blocks_end_bounds(b, c + 3 + b[c + 2]);
    } else {
        lemma_sub_blocks_end_bounds(b, c + 2);
    }
}

/// The blocks from `c` up to and including the trailer.
pub open spec fn parse_blocks(b: Seq<u8>, c: int) -> Result<LayoutModel, SoundGifError>
    decreases b.len() - c,
{
    if c < 0 || c >= b.len() {
        Err(truncated(GifPart::Block, c))
    } else if b[c] == 0x3b {
        Ok(LayoutModel { trailer: c, sounds: Seq::empty() })
    } else if b[c] == 0x2c || b[c] == 0x21 {
        match block_end(b, c) {
            Err(x) => Err(x),
            Ok((e, sound)) => {
                proof {
                    lemma_block_end_bounds(b, c);
                }
                match parse_blocks(b, e) {
                    Err(x) => Err(x),
                    Ok(rest) => Ok(
                        LayoutModel {
                            trailer: rest.trailer,
                            sounds: if sound {
                                seq![(c, e)] + rest.sounds
                            } else {
                                rest.sounds
                            },
                        },
                    ),
                }
            },
        }
    } else {
        Err(SoundGifError::InvalidBlockMarker { marker: b[c], at: c as usize })
    }
}

/// Position of the first block: after the 13-byte header and the global color table.
pub open spec fn first_block(b: Seq<u8>) -> int {
    13 + color_table_len(b[10])
}

/// The layout of a GIF, or why it cannot be read.
pub open spec fn spec_parse_gif(b: Seq<u8>) -> Result<LayoutModel, SoundGifError> {
    if b.len() < 14 || !has_gif_signature(b) {
        Err(SoundGifError::NotGif)
    } else if first_block(b) + 1 > b.len() {
        Err(truncated(GifPart::GlobalColorTable, first_block(b)))
    } else {
        parse_blocks(b, first_block(b))
    }
}

/// `acc` followed by the extensions of `r`.
pub open spec fn prepend_sounds(acc: Seq<(int, int)>, r: Result<LayoutModel, SoundGifError>) -> Result<
    LayoutModel,
    SoundGifError,
> {
    match r {
        Err(x) => Err(x),
        Ok(l) => Ok(LayoutModel { trailer: l.trailer, sounds: acc + l.sounds }),
    }
}

/// A packed-fields byte without its high bit announces no colour table; with it, the table
/// holds `2^(n+1)` RGB entries of 3 bytes, where `n` is the byte's low three bits: 6, 12, 24,
/// 48, 96, 192, 384 or 768 bytes.
pub proof fn law_color_table_size(packed: u8)
    ensures
        packed < 0x80 ==> color_table_len(packed) == 0,
        packed >= 0x80 && packed % 8 == 0 ==> color_table_len(packed) == 6,
        packed >= 0x80 && packed % 8 == 1 ==> color_table_len(packed) == 12,
        packed >= 0x80 && packed % 8 == 2 ==> color_table_len(packed) == 24,
        packed >= 0x80 && packed % 8 == 3 ==> color_table_len(packed) == 48,
        packed >= 0x80 && packed % 8 == 4 ==> color_table_len(packed) == 96,
        packed >= 0x80 && packed % 8 == 5 ==> color_table_len(packed) == 192,
        packed >= 0x80 && packed % 8 == 6 ==> color_table_len(packed) == 384,
        packed >= 0x80 && packed % 8 == 7 ==> color_table_len(packed) == 768,
{
    lemma2_to64();
}

/// The first block of a GIF follows its 13-byte header and the whole global colour table:
/// for a 256-colour palette (packed byte `0x87` or any other ending in the bits `111` with the
/// high bit set) that is byte 781.
pub proof fn law_first_block_after_palette(b: Seq<u8>)
    requires
        b.len() > 10,
    ensures
        b[10] < 0x80 ==> first_block(b) == 13,
        b[10] >= 0x80 && b[10] % 8 == 7 ==> first_block(b) == 781,
        b[10] >= 0x80 ==> first_block(b) == 13 + 6 * pow2((b[10] % 8) as nat),
{
    lemma2_to64();
    vstd::arithmetic::power2::lemma_pow2_unfold((b[10] % 8) as nat + 1);
}

/// Checks that `len` bytes are present from `start` on.
pub fn require_len(bytes: &[u8], start: usize, len: usize, part: GifPart) -> (r: Result<
    (),
    SoundGifError,
>)
    ensures
        start + len <= bytes.len() ==> r is Ok,
        start + len > bytes.len() ==> r == Err::<(), SoundGifError>(truncated(part, start as int)),
{
    match start.checked_add(len) {
        Some(end) => {
            if end > bytes.len() {
                Err(SoundGifError::Truncated { part, at: start })
            } else {
                Ok(())
            }
        },
        None => Err(SoundGifError::Truncated { part, at: start }),
    }
}

/// Skips the data sub-blocks starting at `cursor`; returns the position past the terminator.
pub fn skip_sub_blocks(bytes: &[u8], start: usize) -> (r: Result<usize, SoundGifError>)
    ensures
        match sub_blocks_end(bytes@, start as int) {
            Ok(e) => r == Ok::<usize, SoundGifError>(e as usize),
            Err(x) => r == Err::<usize, SoundGifError>(x),
        },
{
    let mut cursor = start;
    loop
        invariant
            sub_blocks_end(bytes@, start as int) == sub_blocks_end(bytes@, cursor as int),
        decreases bytes.len() - cursor,
    {
        require_len(bytes, cursor, 1, GifPart::SubBlockSize)?;
        let len = bytes[cursor] as usize;
        cursor = cursor + 1;
        if len == 0 {
            return Ok(cursor);
        }
        require_len(bytes, cursor, len, GifPart::SubBlock)?;
        cursor = cursor + len;
    }
}

/// `3 << (n + 1)` for the low three bits `n` of a packed-fields byte with the high bit set.
fn table_len(packed: u8) -> (r: usize)
    ensures
        r == color_table_len(packed),
        r <= 768,
{
    if packed & 0x80 != 0 {
        let k = (packed & 0x07) as usize;
        proof {
            assert(packed & 0x80 != 0 ==> packed >= 0x80) by (bit_vector);
            assert(packed & 0x07 == packed % 8) by (bit_vector);
            lemma2_to64();
        }
        assert(k < 8 ==> (3usize << (k + 1)) == 3 * (if k == 0 {
            2usize
        } else if k == 1 {
            4usize
        } else if k == 2 {
            8usize
        } else if k == 3 {
            16usize
        } else if k == 4 {
            32usize
        } else if k == 5 {
            64usize
        } else if k == 6 {
            128usize
        } else {
            256usize
        })) by (bit_vector);
        3usize << (k + 1)
    } else {
        proof {
            assert(packed & 0x80 == 0 ==> packed < 0x80) by (bit_vector);
        }
        0
    }
}

/// End of the image descriptor or extension block at `cursor` and whether it is a SoundGIF
/// extension.
fn skip_block(bytes: &[u8], cursor: usize) -> (r: Result<(usize, bool), SoundGifError>)
    requires
        cursor < bytes.len(),
        bytes[cursor as int] == 0x2c || bytes[cursor as int] == 0x21,
    ensures
        match block_end(bytes@, cursor as int) {
            Ok((e, s)) => r == Ok::<(usize, bool), SoundGifError>((e as usize, s)),
            Err(x) => r == Err::<(usize, bool), SoundGifError>(x),
        },
{
    let b = bytes;
    if b[cursor] == 0x2c {
        require_len(b, cursor, 10, GifPart::ImageDescriptor)?;
        let image_packed = b[cursor + 9];
        let mut c = cursor + 10;
        if image_packed & 0x80 != 0 {
            let t = table_len(image_packed);
            require_len(b, c, t, GifPart::LocalColorTable)?;
            c = c + t;
        } else {
            proof {
                assert(image_packed & 0x80 == 0 ==> image_packed < 0x80) by (bit_vector);
            }
        }
        require_len(b, c, 1, GifPart::LzwMinimumCodeSize)?;
        let e = skip_sub_blocks(b, c + 1)?;
        Ok((e, false))
    } else {
        require_len(b, cursor, 2, GifPart::ExtensionIntroducer)?;
        let label = b[cursor + 1];
        let c = cursor + 2;
        if label == 0xff {
            require_len(b, c, 1, GifPart::ApplicationExtensionSize)?;
            let header_len = b[c] as usize;
            require_len(b, c + 1, header_len, GifPart::ApplicationExtensionHeader)?;
            let sound = header_len == 11 && matches_sound_header(b, c + 1);
            let e = skip_sub_blocks(b, c + 1 + header_len)?;
            Ok((e, sound))
        } else {
            let e = skip_sub_blocks(b, c)?;
            Ok((e, false))
        }
    }
}

/// Whether the 11 bytes at `at` are `SNDGIF01` followed by `001`.
fn matches_sound_header(b: &[u8], at: usize) -> (r: bool)
    requires
        at + 11 <= b.len(),
    ensures
        r == (b@.subrange(at as int, at + 11) == sound_app_header()),
{
    let expected: [u8; 11] = [0x53, 0x4e, 0x44, 0x47, 0x49, 0x46, 0x30, 0x31, 0x30, 0x30, 0x31];
    assert(expected@ =~= sound_app_header());
    let mut i: usize = 0;
    while i < 11
        invariant
            i <= 11,
            at + 11 <= b.len(),
            expected@ == sound_app_header(),
            forall|j: int| 0 <= j < i ==> b@[at + j] == expected@[j],
        decreases 11 - i,
    {
        if b[at + i] != expected[i] {
            assert(b@.subrange(at as int, at + 11)[i as int] != sound_app_header()[i as int]);
            return false;
        }
        i = i + 1;
    }
    assert(b@.subrange(at as int, at + 11) =~= sound_app_header());
    true
}

/// Finds the trailer and every SoundGIF extension of a GIF87a/GIF89a file.
pub fn parse_gif(bytes: &[u8]) -> (r: Result<GifLayout, SoundGifError>)
    ensures
        match spec_parse_gif(bytes@) {
            Ok(l) => r matches Ok(v) && v@ == l,
            Err(x) => r matches Err(y) && y == x,
        },
{
    if bytes.len() < 14 || !(bytes[0] == 0x47 && bytes[1] == 0x49 && bytes[2] == 0x46
        && bytes[3] == 0x38 && (bytes[4] == 0x37 || bytes[4] == 0x39) && bytes[5] == 0x61) {
        return Err(SoundGifError::NotGif);
    }
    let global_color_table_len = table_len(bytes[10]);
    let mut cursor = 13 + global_color_table_len;
    require_len(bytes, cursor, 1, GifPart::GlobalColorTable)?;
    let mut sound_extensions: Vec<ExtensionRange> = Vec::new();
    loop
        invariant
            cursor <= bytes.len(),
            spec_parse_gif(bytes@) == prepend_sounds(
                sound_extensions@.map_values(|r: ExtensionRange| r@),
                parse_blocks(bytes@, cursor as int),
            ),
        decreases bytes.len() - cursor,
    {
        let ghost acc = sound_extensions@.map_values(|r: ExtensionRange| r@);
        require_len(bytes, cursor, 1, GifPart::Block)?;
        let marker = bytes[cursor];
        if marker == 0x3b {
            let layout = GifLayout { trailer: cursor, sound_extensions };
            assert(layout@.sounds =~= acc + Seq::<(int, int)>::empty());
            return Ok(layout);
        } else if marker == 0x2c || marker == 0x21 {
            let start = cursor;
            let (end, sound) = skip_block(bytes, cursor)?;
            proof {
                lemma_block_end_bounds(bytes@, start as int);
            }
            if sound {
                sound_extensions.push(ExtensionRange { start, end });
                assert(sound_extensions@.map_values(|r: ExtensionRange| r@) =~= acc.push(
                    (start as int, end as int),
                ));
                assert(forall|s: Seq<(int, int)>|
                    acc + (seq![(start as int, end as int)] + s) =~= acc.push(
                        (start as int, end as int),
                    ) + s);
            }
            cursor = end;
        } else {
            return Err(SoundGifError::InvalidBlockMarker { marker, at: cursor });
        }
    }
}

} // verus!
