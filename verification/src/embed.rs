use vstd::prelude::*;

use crate::error::SoundGifError;
use crate::extension::{
    extension_bytes, extension_header, is_sound_extension, ranges_ordered, spec_encode_extension,
    spec_find_payload, spec_replace, strip_between, sub_block_frames,
};
use crate::gif::{
    block_end, color_table_len, first_block, has_gif_signature, is_sound_header,
    lemma_block_end_bounds, lemma_sub_blocks_end_bounds, parse_blocks, sound_app_header,
    spec_parse_gif, sub_blocks_data, sub_blocks_end, LayoutModel,
};
use crate::payload::{lemma_payload_roundtrip, spec_encode_payload, PayloadModel};

verus! {

/// What `parse_blocks` finds: a trailer at or after `c`, and SoundGIF extensions in order
/// between `c` and the trailer.
pub open spec fn blocks_shape(b: Seq<u8>, c: int, l: LayoutModel) -> bool {
    &&& c <= l.trailer < b.len()
    &&& b[l.trailer] == 0x3b
    &&& ranges_ordered(l.sounds, c, l.trailer)
    &&& forall|i: int|
        0 <= i < l.sounds.len() ==> is_sound_extension(b, #[trigger] l.sounds[i].0, l.sounds[i].1)
}

pub proof fn lemma_parse_blocks_shape(b: Seq<u8>, c: int)
    requires
        parse_blocks(b, c) is Ok,
    ensures
        blocks_shape(b, c, parse_blocks(b, c)->Ok_0),
    decreases b.len() - c,
{
    let l = parse_blocks(b, c)->Ok_0;
    if b[c] != 0x3b {
        lemma_block_end_bounds(b, c);
        let (e, s) = block_end(b, c)->Ok_0;
        lemma_parse_blocks_shape(b, e);
        let rest = parse_blocks(b, e)->Ok_0;
        if s {
            assert(l.sounds == seq![(c, e)] + rest.sounds);
            assert(is_sound_extension(b, c, e));
            assert forall|i: int| 0 <= i < l.sounds.len() implies is_sound_extension(
                b,
                #[trigger] l.sounds[i].0,
                l.sounds[i].1,
            ) by {
                if i > 0 {
                    assert(l.sounds[i] == rest.sounds[i - 1]);
                }
            }
            assert forall|i: int, j: int| 0 <= i < j < l.sounds.len() implies #[trigger] l.sounds[i].1
                <= #[trigger] l.sounds[j].0 by {
                assert(l.sounds[j] == rest.sounds[j - 1]);
                if i > 0 {
                    assert(l.sounds[i] == rest.sounds[i - 1]);
                }
            }
            assert forall|i: int| 0 <= i < l.sounds.len() implies c <= #[trigger] l.sounds[i].0
                <= l.sounds[i].1 <= l.trailer by {
                if i > 0 {
                    assert(l.sounds[i] == rest.sounds[i - 1]);
                }
            }
        } else {
            assert(l.sounds == rest.sounds);
        }
    }
}

pub proof fn lemma_parse_gif_shape(b: Seq<u8>)
    requires
        spec_parse_gif(b) is Ok,
    ensures
        13 <= first_block(b),
        blocks_shape(b, first_block(b), spec_parse_gif(b)->Ok_0),
        ranges_ordered(spec_parse_gif(b)->Ok_0.sounds, 0, spec_parse_gif(b)->Ok_0.trailer),
        0 <= spec_parse_gif(b)->Ok_0.trailer <= b.len(),
{
    lemma_parse_blocks_shape(b, first_block(b));
}

/// `len` bytes of `b2` from `c2` equal those of `b1` from `c1`.
pub open spec fn bytes_agree(b1: Seq<u8>, c1: int, b2: Seq<u8>, c2: int, len: int) -> bool {
    &&& 0 <= c1
    &&& c1 + len <= b1.len()
    &&& 0 <= c2
    &&& c2 + len <= b2.len()
    &&& forall|i: int| c2 <= i < c2 + len ==> #[trigger] b2[i] == b1[c1 + (i - c2)]
}

/// A sub-block chain reads the same wherever its bytes are copied.
pub proof fn lemma_sub_blocks_local(b1: Seq<u8>, c1: int, b2: Seq<u8>, c2: int)
    requires
        sub_blocks_end(b1, c1) is Ok,
        bytes_agree(b1, c1, b2, c2, sub_blocks_end(b1, c1)->Ok_0 - c1),
    ensures
        sub_blocks_end(b2, c2) == Ok::<int, SoundGifError>(
            c2 + (sub_blocks_end(b1, c1)->Ok_0 - c1),
        ),
        sub_blocks_data(b2, c2) == sub_blocks_data(b1, c1),
    decreases b1.len() - c1,
{
    let e1 = sub_blocks_end(b1, c1)->Ok_0;
    lemma_sub_blocks_end_bounds(b1, c1);
    assert(b2[c2] == b1[c1]);
    if b1[c1] != 0 {
        let n = b1[c1] as int;
        lemma_sub_blocks_end_bounds(b1, c1 + 1 + n);
        lemma_sub_blocks_local(b1, c1 + 1 + n, b2, c2 + 1 + n);
        assert(b2.subrange(c2 + 1, c2 + 1 + n) =~= b1.subrange(c1 + 1, c1 + 1 + n));
    }
}

/// An image or extension block reads the same wherever its bytes are copied.
pub proof fn lemma_block_local(b1: Seq<u8>, c1: int, b2: Seq<u8>, c2: int)
    requires
        0 <= c1 < b1.len(),
        b1[c1] == 0x2c || b1[c1] == 0x21,
        block_end(b1, c1) is Ok,
        bytes_agree(b1, c1, b2, c2, block_end(b1, c1)->Ok_0.0 - c1),
    ensures
        b2[c2] == b1[c1],
        block_end(b2, c2) == Ok::<(int, bool), SoundGifError>(
            (c2 + (block_end(b1, c1)->Ok_0.0 - c1), block_end(b1, c1)->Ok_0.1),
        ),
{
    let e1 = block_end(b1, c1)->Ok_0.0;
    lemma_block_end_bounds(b1, c1);
    assert(b2[c2] == b1[c1]);
    if b1[c1] == 0x2c {
        let t = color_table_len(b1[c1 + 9]);
        lemma_sub_blocks_end_bounds(b1, c1 + 11 + t);
        assert(b2[c2 + 9] == b1[c1 + 9]);
        lemma_sub_blocks_local(b1, c1 + 11 + t, b2, c2 + 11 + t);
    } else {
        if b1[c1 + 1] == 0xff {
            let h = b1[c1 + 2] as int;
            lemma_sub_blocks_end_bounds(b1, c1 + 3 + h);
            assert(b2[c2 + 1] == b1[c1 + 1]);
            assert(b2[c2 + 2] == b1[c1 + 2]);
            lemma_sub_blocks_local(b1, c1 + 3 + h, b2, c2 + 3 + h);
            if h == 11 {
                assert(b2.subrange(c2 + 3, c2 + 14) =~= b1.subrange(c1 + 3, c1 + 14));
            }
            assert(is_sound_header(b2, c2 + 2) == is_sound_header(b1, c1 + 2));
        } else {
            lemma_sub_blocks_end_bounds(b1, c1 + 2);
            assert(b2[c2 + 1] == b1[c1 + 1]);
            lemma_sub_blocks_local(b1, c1 + 2, b2, c2 + 2);
        }
    }
}

/// The framed sub-blocks of `data`, followed by the terminator, read back as `data`.
pub proof fn lemma_frames_read_back(b: Seq<u8>, c: int, data: Seq<u8>)
    requires
        0 <= c,
        c + sub_block_frames(data).len() + 1 <= b.len(),
        b.subrange(c, c + sub_block_frames(data).len() + 1) == sub_block_frames(data) + seq![0u8],
    ensures
        sub_blocks_end(b, c) == Ok::<int, SoundGifError>(c + sub_block_frames(data).len() + 1),
        sub_blocks_data(b, c) == data,
    decreases data.len(),
{
    let f = sub_block_frames(data) + seq![0u8];
    assert(b[c] == f[0]);
    if data.len() > 0 {
        let n: int = if data.len() < 255 {
            data.len() as int
        } else {
            255
        };
        let rest = data.subrange(n, data.len() as int);
        let fr = sub_block_frames(rest);
        assert(sub_block_frames(data) == seq![n as u8] + data.subrange(0, n) + fr);
        assert(b.subrange(c + 1 + n, c + 1 + n + fr.len() + 1) =~= fr + seq![0u8]) by {
            assert forall|k: int| 0 <= k < fr.len() + 1 implies b.subrange(
                c + 1 + n,
                c + 1 + n + fr.len() + 1,
            )[k] == (fr + seq![0u8])[k] by {
                assert(b.subrange(c, c + sub_block_frames(data).len() + 1)[1 + n + k] == f[1 + n
                    + k]);
            }
        }
        lemma_frames_read_back(b, c + 1 + n, rest);
        assert(b.subrange(c + 1, c + 1 + n) =~= data.subrange(0, n)) by {
            assert forall|k: int| 0 <= k < n implies b.subrange(c + 1, c + 1 + n)[k] == data[k] by {
                assert(b.subrange(c, c + sub_block_frames(data).len() + 1)[1 + k] == f[1 + k]);
            }
        }
        assert(data =~= data.subrange(0, n) + rest);
    }
}

/// An encoded SoundGIF extension, wherever it lies, reads as one extension block that
/// carries `data`.
pub proof fn lemma_extension_reads_back(b: Seq<u8>, c: int, data: Seq<u8>)
    requires
        0 <= c,
        c + extension_bytes(data).len() <= b.len(),
        b.subrange(c, c + extension_bytes(data).len()) == extension_bytes(data),
    ensures
        b[c] == 0x21,
        block_end(b, c) == Ok::<(int, bool), SoundGifError>(
            (c + extension_bytes(data).len(), true),
        ),
        is_sound_extension(b, c, c + extension_bytes(data).len()),
        sub_blocks_data(b, c + 14) == data,
{
    let e = extension_bytes(data);
    let fl = sub_block_frames(data).len() as int;
    assert(e.len() == 14 + fl + 1);
    assert(extension_header() =~= seq![
        0x21u8, 0xffu8, 0x0bu8, 0x53u8, 0x4eu8, 0x44u8, 0x47u8, 0x49u8, 0x46u8, 0x30u8, 0x31u8,
        0x30u8, 0x30u8, 0x31u8,
    ]);
    assert forall|k: int| 0 <= k < 14 implies b[c + k] == extension_header()[k] by {
        assert(b.subrange(c, c + e.len())[k] == e[k]);
    }
    assert(b.subrange(c + 3, c + 14) =~= sound_app_header()) by {
        assert forall|k: int| 0 <= k < 11 implies b.subrange(c + 3, c + 14)[k]
            == sound_app_header()[k] by {
            assert(b[c + 3 + k] == extension_header()[3 + k]);
        }
    }
    assert(b.subrange(c + 14, c + 14 + fl + 1) =~= sub_block_frames(data) + seq![0u8]) by {
        assert forall|k: int| 0 <= k < fl + 1 implies b.subrange(c + 14, c + 14 + fl + 1)[k]
            == (sub_block_frames(data) + seq![0u8])[k] by {
            assert(b.subrange(c, c + e.len())[14 + k] == e[14 + k]);
        }
    }
    lemma_frames_read_back(b, c + 14, data);
}

/// Cutting out ranges that all start at or after `e` leaves `b[c..e]` in front.
pub proof fn lemma_strip_split(b: Seq<u8>, sounds: Seq<(int, int)>, c: int, e: int, t: int)
    requires
        0 <= c <= e <= t <= b.len(),
        ranges_ordered(sounds, e, t),
    ensures
        strip_between(b, sounds, c, t) == b.subrange(c, e) + strip_between(b, sounds, e, t),
{
    if sounds.len() == 0 {
        assert(b.subrange(c, t) =~= b.subrange(c, e) + b.subrange(e, t));
    } else {
        assert(sounds[0].0 >= e);
        assert(b.subrange(c, sounds[0].0) =~= b.subrange(c, e) + b.subrange(e, sounds[0].0));
    }
}

/// An extension copied just before a trailer reads as the only extension of what is left.
proof fn lemma_embed_at_trailer(o: Seq<u8>, m: int, data: Seq<u8>, tail: Seq<u8>)
    requires
        0 <= m <= o.len(),
        tail.len() > 0,
        tail[0] == 0x3b,
        o.subrange(m, o.len() as int) == extension_bytes(data) + tail,
    ensures
        ({
            let x = extension_bytes(data).len() as int;
            parse_blocks(o, m) == Ok::<LayoutModel, SoundGifError>(
                LayoutModel { trailer: m + x, sounds: seq![(m, m + x)] },
            )
        }),
{
    let ext = extension_bytes(data);
    let x = ext.len() as int;
    assert(o.subrange(m, o.len() as int).len() == o.len() - m);
    assert(o.len() - m == x + tail.len());
    assert(o.subrange(m, m + x) =~= ext) by {
        assert forall|k: int| 0 <= k < x implies o.subrange(m, m + x)[k] == ext[k] by {
            assert(o.subrange(m, o.len() as int)[k] == o[m + k]);
        }
    }
    lemma_extension_reads_back(o, m, data);
    assert(o[m + x] == 0x3b) by {
        assert(o.subrange(m, o.len() as int)[x] == o[m + x]);
        assert((ext + tail)[x] == tail[0]);
    }
    assert(parse_blocks(o, m + x) == Ok::<LayoutModel, SoundGifError>(
        LayoutModel { trailer: m + x, sounds: Seq::empty() },
    ));
    assert(seq![(m, m + x)] + Seq::<(int, int)>::empty() =~= seq![(m, m + x)]);
}

/// A block that stays in place reads the same in the copy, and the copy goes on after it.
proof fn lemma_embed_keep_block(
    g: Seq<u8>,
    c: int,
    e: int,
    o: Seq<u8>,
    m: int,
    after: Seq<u8>,
)
    requires
        0 <= c < g.len(),
        g[c] == 0x2c || g[c] == 0x21,
        block_end(g, c) == Ok::<(int, bool), SoundGifError>((e, false)),
        0 <= m <= o.len(),
        o.subrange(m, o.len() as int) == g.subrange(c, e) + after,
    ensures
        o[m] == g[c],
        block_end(o, m) == Ok::<(int, bool), SoundGifError>((m + (e - c), false)),
        o.subrange(m + (e - c), o.len() as int) == after,
{
    lemma_block_end_bounds(g, c);
    let whole = o.subrange(m, o.len() as int);
    assert(whole.len() == o.len() - m);
    assert(g.subrange(c, e).len() == e - c);
    assert(bytes_agree(g, c, o, m, e - c)) by {
        assert forall|i: int| m <= i < m + (e - c) implies #[trigger] o[i] == g[c + (i - m)] by {
            assert(whole[i - m] == o[i]);
            assert((g.subrange(c, e) + after)[i - m] == g.subrange(c, e)[i - m]);
        }
    }
    lemma_block_local(g, c, o, m);
    let m2 = m + (e - c);
    assert(o.subrange(m2, o.len() as int) =~= after) by {
        assert forall|k: int| 0 <= k < o.len() - m2 implies o.subrange(m2, o.len() as int)[k]
            == after[k] by {
            assert(whole[(e - c) + k] == o[m2 + k]);
            assert((g.subrange(c, e) + after)[(e - c) + k] == after[k]);
        }
    }
}

/// Cutting out the ranges of a layout and putting an extension just before the trailer
/// leaves a block sequence whose only SoundGIF extension is the new one.
pub proof fn lemma_embed_blocks(g: Seq<u8>, c: int, o: Seq<u8>, m: int, data: Seq<u8>)
    requires
        0 <= c,
        0 <= m <= o.len(),
        parse_blocks(g, c) is Ok,
        o.subrange(m, o.len() as int) == strip_between(
            g,
            parse_blocks(g, c)->Ok_0.sounds,
            c,
            parse_blocks(g, c)->Ok_0.trailer,
        ) + extension_bytes(data) + g.subrange(parse_blocks(g, c)->Ok_0.trailer, g.len() as int),
    ensures
        ({
            let l = parse_blocks(g, c)->Ok_0;
            let s = strip_between(g, l.sounds, c, l.trailer).len() as int;
            let x = extension_bytes(data).len() as int;
            parse_blocks(o, m) == Ok::<LayoutModel, SoundGifError>(
                LayoutModel { trailer: m + s + x, sounds: seq![(m + s, m + s + x)] },
            )
        }),
    decreases g.len() - c,
{
    let l = parse_blocks(g, c)->Ok_0;
    let t = l.trailer;
    let ext = extension_bytes(data);
    let tail = g.subrange(t, g.len() as int);
    lemma_parse_blocks_shape(g, c);
    if g[c] == 0x3b {
        assert(strip_between(g, l.sounds, c, t) =~= Seq::<u8>::empty());
        assert(Seq::<u8>::empty() + ext + tail =~= ext + tail);
        lemma_embed_at_trailer(o, m, data, tail);
    } else {
        lemma_block_end_bounds(g, c);
        let (e, sound) = block_end(g, c)->Ok_0;
        let rest = parse_blocks(g, e)->Ok_0;
        lemma_parse_blocks_shape(g, e);
        if sound {
            assert(l.sounds == seq![(c, e)] + rest.sounds);
            assert(l.sounds.drop_first() =~= rest.sounds);
            assert(strip_between(g, l.sounds, c, t) =~= strip_between(g, rest.sounds, e, t));
            lemma_embed_blocks(g, e, o, m, data);
        } else {
            assert(l.sounds == rest.sounds);
            lemma_strip_split(g, rest.sounds, c, e, t);
            let s2 = strip_between(g, rest.sounds, e, t);
            assert(g.subrange(c, e) + s2 + ext + tail =~= g.subrange(c, e) + (s2 + ext + tail));
            lemma_embed_keep_block(g, c, e, o, m, s2 + ext + tail);
            lemma_embed_blocks(g, e, o, m + (e - c), data);
        }
    }
}

/// Embedding the extension that carries `data` into a readable GIF gives a readable GIF whose
/// only SoundGIF extension is the new one, placed just before the trailer, and that extension
/// carries `data`.
pub proof fn law_embed_layout(g: Seq<u8>, data: Seq<u8>)
    requires
        spec_parse_gif(g) is Ok,
    ensures
        ({
            let l = spec_parse_gif(g)->Ok_0;
            let s = strip_between(g, l.sounds, 0, l.trailer).len() as int;
            let x = extension_bytes(data).len() as int;
            let o = spec_replace(g, l, Some(extension_bytes(data)));
            &&& spec_parse_gif(o) == Ok::<LayoutModel, SoundGifError>(
                LayoutModel { trailer: s + x, sounds: seq![(s, s + x)] },
            )
            &&& sub_blocks_data(o, s + 14) == data
        }),
{
    let l = spec_parse_gif(g)->Ok_0;
    let t = l.trailer;
    let c0 = first_block(g);
    let ext = extension_bytes(data);
    let x = ext.len() as int;
    let tail = g.subrange(t, g.len() as int);
    lemma_parse_gif_shape(g);
    lemma_strip_split(g, l.sounds, 0, c0, t);
    let s1 = strip_between(g, l.sounds, c0, t);
    let o = spec_replace(g, l, Some(ext));
    assert(o =~= g.subrange(0, c0) + (s1 + ext + tail));
    let s = strip_between(g, l.sounds, 0, t).len() as int;
    assert(s == c0 + s1.len());
    assert forall|k: int| 0 <= k < c0 implies o[k] == g[k] by {
        assert((g.subrange(0, c0) + (s1 + ext + tail))[k] == g.subrange(0, c0)[k]);
    }
    assert(o[0] == g[0] && o[1] == g[1] && o[2] == g[2] && o[3] == g[3]);
    assert(o[4] == g[4] && o[5] == g[5] && o[10] == g[10]);
    assert(has_gif_signature(o));
    assert(first_block(o) == c0);
    assert(o.subrange(c0, o.len() as int) =~= s1 + ext + tail);
    lemma_embed_blocks(g, c0, o, c0, data);
    assert(o.subrange(s, s + x) =~= ext) by {
        assert forall|k: int| 0 <= k < x implies o.subrange(s, s + x)[k] == ext[k] by {
            assert(o[s + k] == (g.subrange(0, c0) + (s1 + ext + tail))[s + k]);
        }
    }
    lemma_extension_reads_back(o, s, data);
}

/// Reading the SoundGIF payload back out of a GIF it was just embedded in gives that payload,
/// and the result holds exactly one SoundGIF extension, whatever the GIF held before.
pub proof fn law_read_after_embed(g: Seq<u8>, p: PayloadModel)
    requires
        spec_parse_gif(g) is Ok,
        spec_encode_extension(p) is Ok,
    ensures
        ({
            let o = spec_replace(g, spec_parse_gif(g)->Ok_0, Some(spec_encode_extension(p)->Ok_0));
            &&& spec_find_payload(o) == Ok::<PayloadModel, SoundGifError>(p)
            &&& spec_parse_gif(o) is Ok
            &&& spec_parse_gif(o)->Ok_0.sounds.len() == 1
        }),
{
    let data = spec_encode_payload(p)->Ok_0;
    law_embed_layout(g, data);
    lemma_payload_roundtrip(p);
}

/// Stripping the SoundGIF extensions of a GIF that one was just embedded in gives the same
/// bytes as stripping the original GIF.
pub proof fn law_strip_after_embed(g: Seq<u8>, data: Seq<u8>)
    requires
        spec_parse_gif(g) is Ok,
    ensures
        ({
            let l = spec_parse_gif(g)->Ok_0;
            let o = spec_replace(g, l, Some(extension_bytes(data)));
            &&& spec_parse_gif(o) is Ok
            &&& spec_replace(o, spec_parse_gif(o)->Ok_0, None) == spec_replace(g, l, None)
        }),
{
    let l = spec_parse_gif(g)->Ok_0;
    let t = l.trailer;
    let ext = extension_bytes(data);
    let x = ext.len() as int;
    let tail = g.subrange(t, g.len() as int);
    let st = strip_between(g, l.sounds, 0, t);
    let s = st.len() as int;
    law_embed_layout(g, data);
    lemma_parse_gif_shape(g);
    let o = spec_replace(g, l, Some(ext));
    assert(o =~= st + ext + tail);
    let l2 = spec_parse_gif(o)->Ok_0;
    assert(l2.sounds.drop_first() =~= Seq::<(int, int)>::empty());
    assert(o.subrange(0, s) =~= st);
    assert(o.subrange(s + x, s + x) =~= Seq::<u8>::empty());
    assert(l2.sounds[0] == (s, s + x));
    assert(strip_between(o, l2.sounds.drop_first(), s + x, s + x) == o.subrange(s + x, s + x));
    assert(strip_between(o, l2.sounds, 0, s + x) == o.subrange(0, s) + strip_between(
        o,
        l2.sounds.drop_first(),
        s + x,
        s + x,
    ));
    assert(strip_between(o, l2.sounds, 0, s + x) =~= st);
    assert(o.subrange(s + x, o.len() as int) =~= tail);
}

/// Stripping a GIF that holds no SoundGIF extension gives back the same bytes.
pub proof fn law_strip_plain_gif(g: Seq<u8>)
    requires
        spec_parse_gif(g) is Ok,
        spec_parse_gif(g)->Ok_0.sounds.len() == 0,
    ensures
        spec_replace(g, spec_parse_gif(g)->Ok_0, None) == g,
{
    let l = spec_parse_gif(g)->Ok_0;
    lemma_parse_gif_shape(g);
    assert(g.subrange(0, l.trailer) + Seq::<u8>::empty() + g.subrange(l.trailer, g.len() as int)
        =~= g);
}

/// Cutting out the ranges of a layout leaves a block sequence with no SoundGIF extension,
/// ending at the same trailer byte.
pub proof fn lemma_strip_blocks(g: Seq<u8>, c: int, o: Seq<u8>, m: int)
    requires
        0 <= c,
        0 <= m <= o.len(),
        parse_blocks(g, c) is Ok,
        o.subrange(m, o.len() as int) == strip_between(
            g,
            parse_blocks(g, c)->Ok_0.sounds,
            c,
            parse_blocks(g, c)->Ok_0.trailer,
        ) + g.subrange(parse_blocks(g, c)->Ok_0.trailer, g.len() as int),
    ensures
        ({
            let l = parse_blocks(g, c)->Ok_0;
            let s = strip_between(g, l.sounds, c, l.trailer).len() as int;
            parse_blocks(o, m) == Ok::<LayoutModel, SoundGifError>(
                LayoutModel { trailer: m + s, sounds: Seq::empty() },
            )
        }),
    decreases g.len() - c,
{
    let l = parse_blocks(g, c)->Ok_0;
    let t = l.trailer;
    let tail = g.subrange(t, g.len() as int);
    lemma_parse_blocks_shape(g, c);
    if g[c] == 0x3b {
        assert(strip_between(g, l.sounds, c, t) =~= Seq::<u8>::empty());
        assert(o.subrange(m, o.len() as int) =~= tail);
        assert(o[m] == 0x3b) by {
            assert(o.subrange(m, o.len() as int)[0] == o[m]);
        }
    } else {
        lemma_block_end_bounds(g, c);
        let (e, sound) = block_end(g, c)->Ok_0;
        let rest = parse_blocks(g, e)->Ok_0;
        lemma_parse_blocks_shape(g, e);
        if sound {
            assert(l.sounds == seq![(c, e)] + rest.sounds);
            assert(l.sounds.drop_first() =~= rest.sounds);
            assert(strip_between(g, l.sounds, c, t) =~= strip_between(g, rest.sounds, e, t));
            lemma_strip_blocks(g, e, o, m);
        } else {
            assert(l.sounds == rest.sounds);
            lemma_strip_split(g, rest.sounds, c, e, t);
            let s2 = strip_between(g, rest.sounds, e, t);
            assert(g.subrange(c, e) + s2 + tail =~= g.subrange(c, e) + (s2 + tail));
            lemma_embed_keep_block(g, c, e, o, m, s2 + tail);
            lemma_strip_blocks(g, e, o, m + (e - c));
        }
    }
}

/// Stripping a readable GIF gives a readable GIF with no SoundGIF extension, whose trailer
/// comes right after what was kept.
pub proof fn law_strip_layout(g: Seq<u8>)
    requires
        spec_parse_gif(g) is Ok,
    ensures
        ({
            let l = spec_parse_gif(g)->Ok_0;
            let s = strip_between(g, l.sounds, 0, l.trailer).len() as int;
            spec_parse_gif(spec_replace(g, l, None)) == Ok::<LayoutModel, SoundGifError>(
                LayoutModel { trailer: s, sounds: Seq::empty() },
            )
        }),
{
    let l = spec_parse_gif(g)->Ok_0;
    let t = l.trailer;
    let c0 = first_block(g);
    let tail = g.subrange(t, g.len() as int);
    lemma_parse_gif_shape(g);
    lemma_strip_split(g, l.sounds, 0, c0, t);
    let s1 = strip_between(g, l.sounds, c0, t);
    let o = spec_replace(g, l, None);
    assert(o =~= g.subrange(0, c0) + (s1 + tail));
    assert forall|k: int| 0 <= k < c0 implies o[k] == g[k] by {
        assert((g.subrange(0, c0) + (s1 + tail))[k] == g.subrange(0, c0)[k]);
    }
    assert(o[0] == g[0] && o[1] == g[1] && o[2] == g[2] && o[3] == g[3]);
    assert(o[4] == g[4] && o[5] == g[5] && o[10] == g[10]);
    assert(has_gif_signature(o));
    assert(first_block(o) == c0);
    assert(o.subrange(c0, o.len() as int) =~= s1 + tail);
    lemma_strip_blocks(g, c0, o, c0);
}

/// Blocks that read to a trailer read the same with any bytes appended.
pub proof fn lemma_blocks_ignore_extra(g: Seq<u8>, c: int, extra: Seq<u8>)
    requires
        0 <= c,
        parse_blocks(g, c) is Ok,
    ensures
        parse_blocks(g + extra, c) == parse_blocks(g, c),
    decreases g.len() - c,
{
    let b = g + extra;
    assert(b[c] == g[c]);
    if g[c] != 0x3b {
        lemma_block_end_bounds(g, c);
        let (e, sound) = block_end(g, c)->Ok_0;
        assert(bytes_agree(g, c, b, c, e - c)) by {
            assert forall|i: int| c <= i < c + (e - c) implies #[trigger] b[i] == g[c + (i - c)] by {
            }
        }
        lemma_block_local(g, c, b, c);
        lemma_blocks_ignore_extra(g, e, extra);
    }
}

/// Bytes after the trailer are never read: appending anything to a readable GIF leaves its
/// layout unchanged.
pub proof fn law_trailing_bytes_ignored(g: Seq<u8>, extra: Seq<u8>)
    requires
        spec_parse_gif(g) is Ok,
    ensures
        spec_parse_gif(g + extra) == spec_parse_gif(g),
{
    let b = g + extra;
    assert(b[0] == g[0] && b[1] == g[1] && b[2] == g[2] && b[3] == g[3]);
    assert(b[4] == g[4] && b[5] == g[5] && b[10] == g[10]);
    assert(first_block(b) == first_block(g));
    lemma_parse_gif_shape(g);
    lemma_blocks_ignore_extra(g, first_block(g), extra);
}

} // verus!
