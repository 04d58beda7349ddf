use vstd::prelude::*;

use crate::buf::{append_all, append_range};
use crate::error::SoundGifError;
use crate::gif::{
    is_sound_header, parse_gif, sound_app_header, spec_parse_gif, sub_blocks_data, sub_blocks_end,
    lemma_sub_blocks_end_bounds, ExtensionRange, GifLayout, LayoutModel,
};
use crate::payload::{
    decode_payload, encode_payload, spec_decode_payload, spec_encode_payload, SoundPayload,
    PayloadModel,
};

verus! {

/// Longest data sub-block a GIF allows.
pub const MAX_SUB_BLOCK: usize = 255;

/// Extension introducer, application label, block size 11, `SNDGIF01`, `001`.
pub open spec fn extension_header() -> Seq<u8> {
    seq![0x21u8, 0xffu8, 0x0bu8] + sound_app_header()
}

/// `data` split into sub-blocks of at most 255 bytes, each preceded by its length.
pub open spec fn sub_block_frames(data: Seq<u8>) -> Seq<u8>
    decreases data.len(),
{
    if data.len() == 0 {
        Seq::empty()
    } else {
        let n = if data.len() < 255 {
            data.len() as int
        } else {
            255
        };
        seq![n as u8] + data.subrange(0, n) + sub_block_frames(data.subrange(n, data.len() as int))
    }
}

/// A complete SoundGIF application extension carrying `data`.
pub open spec fn extension_bytes(data: Seq<u8>) -> Seq<u8> {
    extension_header() + sub_block_frames(data) + seq![0u8]
}

/// What encoding a payload as an application extension gives.
pub open spec fn spec_encode_extension(p: PayloadModel) -> Result<Seq<u8>, SoundGifError> {
    match spec_encode_payload(p) {
        Ok(d) => Ok(extension_bytes(d)),
        Err(e) => Err(e),
    }
}

/// `[start, end)` is a SoundGIF application extension of `b`.
pub open spec fn is_sound_extension(b: Seq<u8>, start: int, end: int) -> bool {
    &&& 0 <= start
    &&& start + 14 <= b.len()
    &&& b[start] == 0x21
    &&& b[start + 1] == 0xff
    &&& is_sound_header(b, start + 2)
    &&& sub_blocks_end(b, start + 14) == Ok::<int, SoundGifError>(end)
}

/// The bytes of `b` from `from` to `to` with every range of `sounds` cut out.
pub open spec fn strip_between(b: Seq<u8>, sounds: Seq<(int, int)>, from: int, to: int) -> Seq<u8>
    decreases sounds.len(),
{
    if sounds.len() == 0 {
        b.subrange(from, to)
    } else {
        b.subrange(from, sounds[0].0) + strip_between(b, sounds.drop_first(), sounds[0].1, to)
    }
}

/// The ranges lie in order, without overlap, between `lo` and `hi`.
pub open spec fn ranges_ordered(sounds: Seq<(int, int)>, lo: int, hi: int) -> bool {
    &&& forall|i: int| 0 <= i < sounds.len() ==> lo <= #[trigger] sounds[i].0 <= sounds[i].1 <= hi
    &&& forall|i: int, j: int|
        0 <= i < j < sounds.len() ==> #[trigger] sounds[i].1 <= #[trigger] sounds[j].0
}

/// `l` describes positions inside `b` in the order `replace_sound_extension` walks them.
pub open spec fn layout_fits(b: Seq<u8>, l: LayoutModel) -> bool {
    0 <= l.trailer <= b.len() && ranges_ordered(l.sounds, 0, l.trailer)
}

/// `b` without its SoundGIF extensions and with `replacement` just before the trailer.
pub open spec fn spec_replace(b: Seq<u8>, l: LayoutModel, replacement: Option<Seq<u8>>) -> Seq<u8> {
    strip_between(b, l.sounds, 0, l.trailer) + match replacement {
        Some(r) => r,
        None => Seq::empty(),
    } + b.subrange(l.trailer, b.len() as int)
}

/// What reading the first SoundGIF payload of `b` gives.
pub open spec fn spec_find_payload(b: Seq<u8>) -> Result<PayloadModel, SoundGifError> {
    match spec_parse_gif(b) {
        Err(e) => Err(e),
        Ok(l) => if l.sounds.len() == 0 {
            Err(SoundGifError::NoAudio)
        } else {
            spec_decode_payload(sub_blocks_data(b, l.sounds[0].0 + 14))
        },
    }
}

/// Encodes a payload as a SoundGIF application extension.
pub fn encode_extension(payload: &SoundPayload) -> (r: Result<Vec<u8>, SoundGifError>)
    ensures
        match spec_encode_extension(payload@) {
            Ok(bytes) => r matches Ok(v) && v@ == bytes,
            Err(e) => r == Err::<Vec<u8>, SoundGifError>(e),
        },
{
    let data = encode_payload(payload)?;
    let mut extension: Vec<u8> = Vec::new();
    extension.push(0x21);
    extension.push(0xff);
    extension.push(0x0b);
    extension.push(0x53);
    extension.push(0x4e);
    extension.push(0x44);
    extension.push(0x47);
    extension.push(0x49);
    extension.push(0x46);
    extension.push(0x30);
    extension.push(0x31);
    extension.push(0x30);
    extension.push(0x30);
    extension.push(0x31);
    assert(extension@ =~= extension_header());
    assert(data@.subrange(0, data@.len() as int) =~= data@);
    let mut offset: usize = 0;
    while offset < data.len()
        invariant
            offset <= data.len(),
            extension_header() + sub_block_frames(data@) == extension@ + sub_block_frames(
                data@.subrange(offset as int, data@.len() as int),
            ),
        decreases data.len() - offset,
    {
        let remaining = data.len() - offset;
        let n = if remaining < MAX_SUB_BLOCK {
            remaining
        } else {
            MAX_SUB_BLOCK
        };
        let ghost rest = data@.subrange(offset as int, data@.len() as int);
        let ghost before = extension@;
        extension.push(n as u8);
        append_range(&mut extension, data.as_slice(), offset, offset + n);
        assert(rest.subrange(0, n as int) =~= data@.subrange(offset as int, offset + n));
        assert(rest.subrange(n as int, rest.len() as int) =~= data@.subrange(
            offset + n,
            data@.len() as int,
        ));
        assert(before + sub_block_frames(rest) =~= extension@ + sub_block_frames(
            data@.subrange(offset + n, data@.len() as int),
        ));
        offset = offset + n;
    }
    assert(sub_block_frames(data@.subrange(data@.len() as int, data@.len() as int)) =~= Seq::<
        u8,
    >::empty());
    extension.push(0);
    assert(extension@ =~= extension_bytes(data@));
    Ok(extension)
}

/// Gathers the data sub-blocks of the SoundGIF extension `range` and decodes them.
pub fn decode_extension(bytes: &[u8], range: ExtensionRange) -> (r: Result<
    SoundPayload,
    SoundGifError,
>)
    requires
        is_sound_extension(bytes@, range.start as int, range.end as int),
    ensures
        match spec_decode_payload(sub_blocks_data(bytes@, range.start + 14)) {
            Ok(p) => r matches Ok(v) && v@ == p,
            Err(e) => r == Err::<SoundPayload, SoundGifError>(e),
        },
{
    let ghost full = sub_blocks_data(bytes@, range.start + 14);
    assert(range.start + 14 <= bytes.len());
    let mut cursor = range.start + 14;
    let mut data: Vec<u8> = Vec::new();
    loop
        invariant_except_break
            sub_blocks_end(bytes@, cursor as int) == Ok::<int, SoundGifError>(range.end as int),
            data@ + sub_blocks_data(bytes@, cursor as int) == full,
        ensures
            data@ == full,
        decreases range.end - cursor,
    {
        proof {
            lemma_sub_blocks_end_bounds(bytes@, cursor as int);
        }
        let len = bytes[cursor] as usize;
        cursor = cursor + 1;
        if len == 0 {
            assert(data@ =~= full);
            break;
        }
        let ghost before = data@;
        append_range(&mut data, bytes, cursor, cursor + len);
        assert(before + sub_blocks_data(bytes@, cursor - 1) =~= data@ + sub_blocks_data(
            bytes@,
            (cursor + len) as int,
        ));
        cursor = cursor + len;
        proof {
            lemma_sub_blocks_end_bounds(bytes@, cursor as int);
        }
    }
    decode_payload(data.as_slice())
}

/// Every range of a layout that `parse_gif` returned is a SoundGIF extension, and the
/// ranges lie in order before the trailer.
pub proof fn lemma_layout_extensions(b: Seq<u8>)
    requires
        spec_parse_gif(b) is Ok,
    ensures
        layout_fits(b, spec_parse_gif(b)->Ok_0),
        forall|i: int|
            0 <= i < spec_parse_gif(b)->Ok_0.sounds.len() ==> is_sound_extension(
                b,
                #[trigger] spec_parse_gif(b)->Ok_0.sounds[i].0,
                spec_parse_gif(b)->Ok_0.sounds[i].1,
            ),
{
    crate::embed::lemma_parse_gif_shape(b);
}

/// Reads the first SoundGIF payload of a GIF.
pub fn find_payload(bytes: &[u8]) -> (r: Result<SoundPayload, SoundGifError>)
    ensures
        match spec_find_payload(bytes@) {
            Ok(p) => r matches Ok(v) && v@ == p,
            Err(e) => r == Err::<SoundPayload, SoundGifError>(e),
        },
{
    let layout = parse_gif(bytes)?;
    if layout.sound_extensions.len() == 0 {
        return Err(SoundGifError::NoAudio);
    }
    let range = layout.sound_extensions[0];
    proof {
        lemma_layout_extensions(bytes@);
        assert(layout@.sounds[0] == range@);
    }
    decode_extension(bytes, range)
}

/// Copies `bytes` without its SoundGIF extensions and, when given, puts `replacement`
/// just before the trailer.
pub fn replace_sound_extension(
    bytes: &[u8],
    layout: &GifLayout,
    replacement: Option<&[u8]>,
) -> (r: Vec<u8>)
    requires
        layout_fits(bytes@, layout@),
    ensures
        r@ == spec_replace(
            bytes@,
            layout@,
            match replacement {
                Some(x) => Some(x@),
                None => None,
            },
        ),
{
    let ghost sounds = layout@.sounds;
    let ghost trailer = layout.trailer as int;
    let mut output: Vec<u8> = Vec::new();
    assert(sounds.subrange(0, sounds.len() as int) =~= sounds);
    assert(output@ + strip_between(bytes@, sounds, 0, trailer) =~= strip_between(
        bytes@,
        sounds,
        0,
        trailer,
    ));
    let mut cursor: usize = 0;
    let mut i: usize = 0;
    let n = layout.sound_extensions.len();
    while i < n
        invariant
            n == layout.sound_extensions.len(),
            sounds == layout@.sounds,
            trailer == layout.trailer,
            layout_fits(bytes@, layout@),
            i <= n,
            cursor <= trailer,
            i < n ==> cursor <= sounds[i as int].0,
            output@ + strip_between(bytes@, sounds.subrange(i as int, n as int), cursor as int, trailer)
                == strip_between(bytes@, sounds, 0, trailer),
        decreases n - i,
    {
        let range = layout.sound_extensions[i];
        assert(sounds[i as int] == range@);
        let ghost rest = sounds.subrange(i as int, n as int);
        let ghost before = output@;
        append_range(&mut output, bytes, cursor, range.start);
        assert(rest.drop_first() =~= sounds.subrange(i + 1, n as int));
        assert(rest[0] == range@);
        assert(before + strip_between(bytes@, rest, cursor as int, trailer) =~= output@
            + strip_between(bytes@, sounds.subrange(i + 1, n as int), range.end as int, trailer));
        cursor = range.end;
        i = i + 1;
        if i < n {
            assert(sounds[i - 1].1 <= sounds[i as int].0);
        }
    }
    assert(sounds.subrange(n as int, n as int) =~= Seq::<(int, int)>::empty());
    append_range(&mut output, bytes, cursor, layout.trailer);
    if let Some(extension) = replacement {
        append_all(&mut output, extension);
    }
    append_range(&mut output, bytes, layout.trailer, bytes.len());
    output
}

} // verus!
