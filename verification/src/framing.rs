//! Framing of protocol messages inside one WebSocket message.
//!
//! With JSON, a WebSocket message holds one frame per line.  With Protobuf,
//! it holds frames that are each preceded by their length as a varint.
//! Encoding or decoding a single frame is left to the serializers; this
//! module splits and joins the frames.

use vstd::prelude::*;

verus! {

/// Value of the little-endian base-128 varint that starts at byte `i` of
/// `buf`, as prost decodes it: at most ten bytes are read, the tenth byte
/// may only be 0 or 1, and the varint must end inside the buffer.
pub open spec fn varint_from(buf: Seq<u8>, i: nat) -> Option<nat>
    decreases 10 - i,
{
    if i >= 10 || i >= buf.len() {
        None
    } else if buf[i as int] < 128 {
        if i == 9 && buf[i as int] >= 2 {
            None
        } else {
            Some(buf[i as int] as nat)
        }
    } else {
        match varint_from(buf, i + 1) {
            Some(rest) => Some((buf[i as int] - 128) as nat + 128 * rest),
            None => None,
        }
    }
}

/// The length delimiter at the start of `buf`, if it is a valid varint whose
/// value fits in `usize`.
pub open spec fn length_delimiter(buf: Seq<u8>) -> Option<nat> {
    match varint_from(buf, 0) {
        Some(v) => if v <= usize::MAX { Some(v) } else { None },
        None => None,
    }
}

/// Number of bytes of the varint encoding of `v`.
pub open spec fn varint_size(v: nat) -> nat
    decreases v,
{
    if v < 128 {
        1
    } else {
        1 + varint_size(v / 128)
    }
}

/// `prost::decode_length_delimiter`: reads the varint length that starts the
/// buffer; `None` where prost returns an error (no terminated varint within
/// ten bytes, a tenth byte above 1, or a value above `usize::MAX`).
#[verifier::external_body]
fn decode_length_delimiter(buf: &[u8]) -> (r: Option<usize>)
    ensures
        r matches Some(len) ==> length_delimiter(buf@) == Some(len as nat),
        r is None ==> length_delimiter(buf@) is None,
{
    prost::decode_length_delimiter(buf).ok()
}

/// `prost::length_delimiter_len`: the number of bytes of the varint that
/// encodes `len`.
#[verifier::external_body]
fn length_delimiter_len(len: usize) -> (r: usize)
    ensures
        r == varint_size(len as nat),
{
    prost::length_delimiter_len(len)
}

/// Every varint is at least one byte long.
pub proof fn varint_size_bounds(v: nat)
    ensures
        1 <= varint_size(v),
    decreases v,
{
    if v >= 128 {
        varint_size_bounds(v / 128);
    }
}

/// The frames of a Protobuf message: each frame is a length delimiter
/// followed by that many bytes.  Splitting stops at the first delimiter that
/// cannot be read or whose frame does not fit in what remains.  The size of
/// the delimiter is taken to be that of the shortest encoding of its value.
pub open spec fn protobuf_frames(data: Seq<u8>) -> Seq<Seq<u8>>
    decreases data.len(),
{
    if data.len() == 0 {
        seq![]
    } else {
        match length_delimiter(data) {
            None => seq![],
            Some(len) => {
                let dl = varint_size(len);
                if dl + len > data.len() || dl == 0 {
                    seq![]
                } else {
                    seq![data.subrange(dl as int, (dl + len) as int)] + protobuf_frames(
                        data.skip((dl + len) as int),
                    )
                }
            },
        }
    }
}

/// Copies `data[from..to]` into a new vector.
fn copy_range(data: &[u8], from: usize, to: usize) -> (r: Vec<u8>)
    requires
        from <= to <= data@.len(),
    ensures
        r@ == data@.subrange(from as int, to as int),
{
    let mut r: Vec<u8> = Vec::new();
    let mut i = from;
    while i < to
        invariant
            from <= i <= to <= data@.len(),
            r@ == data@.subrange(from as int, i as int),
        decreases to - i,
    {
        r.push(data[i]);
        i = i + 1;
    }
    r
}

/// Splits a binary WebSocket message into its length-delimited Protobuf
/// frames.
pub fn split_protobuf_frames(data: &[u8]) -> (frames: Vec<Vec<u8>>)
    ensures
        frames.deep_view() == protobuf_frames(data@),
{
    let mut frames: Vec<Vec<u8>> = Vec::new();
    let mut start: usize = 0;
    let n = data.len();
    assert(data@.skip(0) =~= data@);
    while start < n
        invariant
            n == data@.len(),
            start <= n,
            frames.deep_view() + protobuf_frames(data@.skip(start as int)) == protobuf_frames(
                data@,
            ),
        decreases n - start,
    {
        let rest = vstd::slice::slice_subrange(data, start, n);
        let ghost rest_view = data@.skip(start as int);
        assert(rest@ =~= rest_view);
        let delim = decode_length_delimiter(rest);
        match delim {
            None => {
                assert(protobuf_frames(rest_view) =~= seq![]);
                assert(frames.deep_view() + protobuf_frames(rest_view) =~= frames.deep_view());
                return frames;
            },
            Some(len) => {
                let dl = length_delimiter_len(len);
                proof {
                    varint_size_bounds(len as nat);
                }
                if dl > n - start || len > (n - start) - dl {
                    assert(protobuf_frames(rest_view) =~= seq![]);
                    assert(frames.deep_view() + protobuf_frames(rest_view) =~= frames.deep_view());
                    return frames;
                }
                let frame = copy_range(data, start + dl, start + dl + len);
                let ghost old_frames = frames.deep_view();
                let ghost frame_view = frame@;
                assert(frame.deep_view() =~= frame@);
                frames.push(frame);
                proof {
                    assert(frame_view =~= rest_view.subrange(dl as int, (dl + len) as int));
                    assert(rest_view.skip((dl + len) as int) =~= data@.skip((start + dl + len) as int));
                    assert(frames.deep_view() =~= old_frames.push(frame_view));
                    assert(protobuf_frames(rest_view) == seq![rest_view.subrange(dl as int, (dl + len) as int)] + protobuf_frames(rest_view.skip((dl + len) as int)));
                    assert(old_frames.push(frame_view) + protobuf_frames(data@.skip((start + dl + len) as int)) =~= old_frames + protobuf_frames(rest_view));
                }
                start = start + dl + len;
            },
        }
    }
    assert(data@.skip(start as int) =~= seq![]);
    assert(frames.deep_view() + protobuf_frames(data@.skip(start as int)) =~= frames.deep_view());
    frames
}

/// Index of the first newline byte in `data`, or its length if there is none.
pub open spec fn newline_index(data: Seq<u8>) -> nat
    decreases data.len(),
{
    if data.len() == 0 {
        0
    } else if data[0] == 10 {
        0
    } else {
        1 + newline_index(data.drop_first())
    }
}

/// The lines of a JSON text message, as `BufRead::lines` yields them: lines
/// end at a newline byte, which is dropped together with a carriage return
/// just before it; a final line without newline counts too, an empty
/// remainder does not.
pub open spec fn json_lines(data: Seq<u8>) -> Seq<Seq<u8>>
    decreases data.len(),
{
    if data.len() == 0 {
        seq![]
    } else {
        let k = newline_index(data);
        if k < data.len() {
            let line = data.take(k as int);
            let line = if k > 0 && line.last() == 13 {
                line.drop_last()
            } else {
                line
            };
            seq![line] + json_lines(data.skip(k + 1int))
        } else {
            seq![data]
        }
    }
}

proof fn newline_index_facts(data: Seq<u8>)
    ensures
        newline_index(data) <= data.len(),
        newline_index(data) < data.len() ==> data[newline_index(data) as int] == 10,
        forall|j: int| 0 <= j < newline_index(data) ==> data[j] != 10,
    decreases data.len(),
{
    if data.len() > 0 && data[0] != 10 {
        newline_index_facts(data.drop_first());
        assert forall|j: int| 0 <= j < newline_index(data) implies data[j] != 10 by {
            if j > 0 {
                assert(data[j] == data.drop_first()[j - 1]);
            }
        }
    }
}

proof fn newline_index_is_first(data: Seq<u8>, k: nat)
    requires
        k <= data.len(),
        k < data.len() ==> data[k as int] == 10,
        forall|j: int| 0 <= j < k ==> data[j] != 10,
    ensures
        newline_index(data) == k,
    decreases data.len(),
{
    newline_index_facts(data);
    if newline_index(data) < k {
        assert(data[newline_index(data) as int] != 10);
    }
    if k < newline_index(data) {
        assert(data[k as int] != 10);
    }
}

/// Splits a JSON text message into its lines.
pub fn split_json_lines(data: &[u8]) -> (lines: Vec<Vec<u8>>)
    ensures
        lines.deep_view() == json_lines(data@),
{
    let mut lines: Vec<Vec<u8>> = Vec::new();
    let n = data.len();
    let mut start: usize = 0;
    assert(data@.skip(0) =~= data@);
    while start < n
        invariant
            n == data@.len(),
            start <= n,
            lines.deep_view() + json_lines(data@.skip(start as int)) == json_lines(data@),
        decreases n - start,
    {
        let ghost rest = data@.skip(start as int);
        let mut end = start;
        while end < n && data[end] != 10
            invariant
                start <= end <= n,
                n == data@.len(),
                forall|j: int| start <= j < end ==> data@[j] != 10,
            decreases n - end,
        {
            end = end + 1;
        }
        proof {
            assert forall|j: int| 0 <= j < end - start implies rest[j] != 10 by {
                assert(rest[j] == data@[start + j]);
            }
            newline_index_is_first(rest, (end - start) as nat);
        }
        let ghost old_lines = lines.deep_view();
        if end < n {
            let mut stop = end;
            if end > start && data[end - 1] == 13 {
                stop = end - 1;
            }
            let line = copy_range(data, start, stop);
            let ghost line_view = line@;
            assert(line.deep_view() =~= line@);
            lines.push(line);
            proof {
                let l = rest.take((end - start) as int);
                assert(end > start ==> l.last() == data@[end - 1]);
                if end > start && data@[end - 1] == 13 {
                    assert(line_view =~= l.drop_last());
                } else {
                    assert(line_view =~= l);
                }
                assert(rest.skip((end - start) + 1int) =~= data@.skip(end + 1));
                assert(lines.deep_view() =~= old_lines.push(line_view));
                assert(old_lines.push(line_view) + json_lines(data@.skip(end + 1)) =~= old_lines
                    + json_lines(rest));
            }
            start = end + 1;
        } else {
            let line = copy_range(data, start, n);
            let ghost line_view = line@;
            assert(line.deep_view() =~= line@);
            lines.push(line);
            proof {
                assert(line_view =~= rest);
                assert(data@.skip(n as int) =~= seq![]);
                assert(lines.deep_view() =~= old_lines.push(line_view));
                assert(old_lines.push(line_view) + json_lines(data@.skip(n as int)) =~= old_lines
                    + json_lines(rest));
            }
            start = n;
        }
    }
    assert(data@.skip(start as int) =~= seq![]);
    assert(lines.deep_view() + json_lines(data@.skip(start as int)) =~= lines.deep_view());
    lines
}

/// The text `null`, as bytes.
pub open spec fn null_bytes() -> Seq<u8> {
    seq![110u8, 117u8, 108u8, 108u8]
}

/// The bytes to hand to the JSON decoder for a payload: an empty payload is
/// read as `null`, so that a call without data and a call with `null` data
/// are the same.
pub fn json_payload(data: &[u8]) -> (r: Vec<u8>)
    ensures
        r@ == (if data@.len() == 0 { null_bytes() } else { data@ }),
{
    if data.len() == 0 {
        let mut r: Vec<u8> = Vec::new();
        r.push(110u8);
        r.push(117u8);
        r.push(108u8);
        r.push(108u8);
        assert(r@ =~= null_bytes());
        r
    } else {
        copy_range(data, 0, data.len())
    }
}

/// Lines joined with a newline between each two.
pub open spec fn joined_lines(lines: Seq<Seq<char>>) -> Seq<char>
    decreases lines.len(),
{
    if lines.len() == 0 {
        seq![]
    } else if lines.len() == 1 {
        lines[0]
    } else {
        joined_lines(lines.drop_last()) + seq!['\n'] + lines.last()
    }
}

/// The frames that were encoded, in order, leaving out those that failed.
pub open spec fn encoded_frames(items: Seq<Option<Seq<char>>>) -> Seq<Seq<char>>
    decreases items.len(),
{
    if items.len() == 0 {
        seq![]
    } else {
        let rest = encoded_frames(items.drop_last());
        match items.last() {
            Some(t) => rest.push(t),
            None => rest,
        }
    }
}

/// Indices of the frames that failed to encode, in increasing order.
pub open spec fn failed_frames(items: Seq<Option<Seq<char>>>) -> Seq<usize>
    decreases items.len(),
{
    if items.len() == 0 {
        seq![]
    } else {
        let rest = failed_frames(items.drop_last());
        match items.last() {
            Some(_) => rest,
            None => rest.push((items.len() - 1) as usize),
        }
    }
}

/// Views of a batch of encoding results.
pub open spec fn encoding_views(items: Seq<Option<String>>) -> Seq<Option<Seq<char>>> {
    Seq::new(items.len(), |i: int| match items[i] {
        Some(s) => Some(s@),
        None => None,
    })
}

/// A batch of JSON frames put together into one text message.
pub struct JsonBatch {
    /// The message: the encoded frames joined by newlines, or `None` where
    /// no frame could be encoded.
    pub text: Option<String>,
    /// Indices of the frames that could not be encoded.
    pub failed: Vec<usize>,
}

/// Puts a batch of JSON-encoded frames (`None` where encoding failed) into
/// one text message, one frame per line.
pub fn join_json_frames(items: &Vec<Option<String>>) -> (b: JsonBatch)
    ensures
        b.failed@ == failed_frames(encoding_views(items@)),
        encoded_frames(encoding_views(items@)).len() == 0 ==> b.text is None,
        encoded_frames(encoding_views(items@)).len() > 0 ==> (b.text matches Some(t) && t@
            == joined_lines(encoded_frames(encoding_views(items@)))),
{
    let mut text = String::new();
    let mut any = false;
    let mut failed: Vec<usize> = Vec::new();
    let n = items.len();
    let mut i: usize = 0;
    while i < n
        invariant
            n == items@.len(),
            i <= n,
            failed@ == failed_frames(encoding_views(items@).take(i as int)),
            any == (encoded_frames(encoding_views(items@).take(i as int)).len() > 0),
            text@ == joined_lines(encoded_frames(encoding_views(items@).take(i as int))),
        decreases n - i,
    {
        let ghost views = encoding_views(items@);
        let ghost prev = views.take(i as int);
        assert(views.take(i + 1).drop_last() =~= prev);
        assert(views.take(i + 1).last() == views[i as int]);
        match &items[i] {
            Some(t) => {
                if any {
                    text.append("\n");
                }
                text.append(t.as_str());
                proof {
                    reveal_strlit("\n");
                    let frames = encoded_frames(prev);
                    assert(encoded_frames(views.take(i + 1)) == frames.push(t@));
                    if frames.len() > 0 {
                        assert(frames.push(t@).drop_last() =~= frames);
                        assert(text@ =~= joined_lines(frames.push(t@)));
                    } else {
                        assert(text@ =~= joined_lines(frames.push(t@)));
                    }
                }
                any = true;
            },
            None => {
                failed.push(i);
            },
        }
        i = i + 1;
    }
    assert(encoding_views(items@).take(n as int) =~= encoding_views(items@));
    JsonBatch { text: if any { Some(text) } else { None }, failed }
}

/// The frames of a Protobuf batch written one after the other.
pub open spec fn concatenated(frames: Seq<Seq<u8>>) -> Seq<u8>
    decreases frames.len(),
{
    if frames.len() == 0 {
        seq![]
    } else {
        concatenated(frames.drop_last()) + frames.last()
    }
}

/// Puts a batch of length-delimited Protobuf frames into one binary message.
pub fn join_protobuf_frames(frames: &Vec<Vec<u8>>) -> (r: Vec<u8>)
    ensures
        r@ == concatenated(frames.deep_view()),
{
    let mut r: Vec<u8> = Vec::new();
    let n = frames.len();
    let mut i: usize = 0;
    while i < n
        invariant
            n == frames@.len(),
            i <= n,
            r@ == concatenated(frames.deep_view().take(i as int)),
        decreases n - i,
    {
        let f = &frames[i];
        let ghost before = r@;
        let m = f.len();
        let mut j: usize = 0;
        while j < m
            invariant
                m == f@.len(),
                j <= m,
                r@ == before + f@.take(j as int),
            decreases m - j,
        {
            r.push(f[j]);
            j = j + 1;
            assert(r@ =~= before + f@.take(j as int));
        }
        proof {
            let dv = frames.deep_view();
            assert(dv.take(i + 1).drop_last() =~= dv.take(i as int));
            assert(dv[i as int] =~= f@);
            assert(f@.take(m as int) =~= f@);
        }
        i = i + 1;
    }
    assert(frames.deep_view().take(n as int) =~= frames.deep_view());
    r
}

/// The varint encoding of `v`: groups of seven bits, least significant
/// first, each byte but the last with its high bit set.
pub open spec fn varint_bytes(v: nat) -> Seq<u8>
    decreases v,
{
    if v < 128 {
        seq![v as u8]
    } else {
        seq![((v % 128) + 128) as u8] + varint_bytes(v / 128)
    }
}

/// A frame preceded by its length, as a length-delimited encoder writes it.
pub open spec fn delimited(frame: Seq<u8>) -> Seq<u8> {
    varint_bytes(frame.len()) + frame
}

/// `128` to the power `k`.
pub open spec fn pow128(k: nat) -> nat
    decreases k,
{
    if k == 0 {
        1
    } else {
        128 * pow128((k - 1) as nat)
    }
}

proof fn lemma_varint_bytes_len(v: nat)
    ensures
        varint_bytes(v).len() == varint_size(v),
    decreases v,
{
    if v >= 128 {
        lemma_varint_bytes_len(v / 128);
    }
}

proof fn lemma_varint_size_bound(v: nat, k: nat)
    requires
        k >= 1,
        v < pow128(k),
    ensures
        varint_size(v) <= k,
    decreases k,
{
    if v >= 128 {
        assert(k >= 2) by {
            if k == 1 {
                assert(pow128(1) == 128 * pow128(0));
            }
        }
        assert(pow128(k) == 128 * pow128((k - 1) as nat));
        lemma_varint_size_bound(v / 128, (k - 1) as nat);
    }
}

/// Reading a varint back from its encoding, written at byte `i` of `buf`
/// and ending before byte nine.
proof fn lemma_varint_read_back(buf: Seq<u8>, i: nat, v: nat)
    requires
        i + varint_size(v) <= 9,
        i + varint_size(v) <= buf.len(),
        buf.subrange(i as int, (i + varint_size(v)) as int) == varint_bytes(v),
    ensures
        varint_from(buf, i) == Some(v),
    decreases v,
{
    lemma_varint_bytes_len(v);
    assert(buf[i as int] == varint_bytes(v)[0]);
    if v >= 128 {
        let s = varint_size(v / 128);
        varint_size_bounds(v / 128);
        assert(buf.subrange((i + 1) as int, (i + 1 + s) as int) =~= varint_bytes(v / 128)) by {
            assert forall|j: int| 0 <= j < s implies #[trigger] buf.subrange((i + 1) as int, (i + 1 + s) as int)[j]
                == varint_bytes(v / 128)[j] by {
                assert(buf.subrange(i as int, (i + varint_size(v)) as int)[j + 1] == varint_bytes(v)[j + 1]);
            }
            lemma_varint_bytes_len(v / 128);
        }
        lemma_varint_read_back(buf, i + 1, v / 128);
    }
}

/// The concatenation of frames, taken from the front.
proof fn lemma_concatenated_front(frames: Seq<Seq<u8>>)
    requires
        frames.len() > 0,
    ensures
        concatenated(frames) == frames[0] + concatenated(frames.drop_first()),
    decreases frames.len(),
{
    if frames.len() == 1 {
        assert(frames.drop_first() =~= Seq::<Seq<u8>>::empty());
        assert(frames.drop_last() =~= Seq::<Seq<u8>>::empty());
        assert(concatenated(frames.drop_last()) =~= Seq::<u8>::empty());
        assert(concatenated(frames) =~= frames[0]);
        assert(concatenated(frames.drop_first()) =~= Seq::<u8>::empty());
    } else {
        lemma_concatenated_front(frames.drop_last());
        assert(frames.drop_last().drop_first() =~= frames.drop_first().drop_last());
        assert(frames.drop_first().last() == frames.last());
        assert(frames.drop_last()[0] == frames[0]);
        assert(concatenated(frames) =~= frames[0] + concatenated(frames.drop_first()));
    }
}

/// Splitting a Protobuf message made of length-delimited frames gives the
/// frames back (for frames shorter than 2^63 bytes, whose length fits in
/// at most nine varint bytes).
pub proof fn law_protobuf_frames_round_trip(frames: Seq<Seq<u8>>)
    requires
        forall|i: int| 0 <= i < frames.len() ==> (#[trigger] frames[i]).len() < 0x8000_0000_0000_0000
            && frames[i].len() <= usize::MAX,
    ensures
        protobuf_frames(concatenated(frames.map_values(|f: Seq<u8>| delimited(f)))) == frames,
    decreases frames.len(),
{
    let d = frames.map_values(|f: Seq<u8>| delimited(f));
    if frames.len() == 0 {
        assert(d =~= Seq::<Seq<u8>>::empty());
        assert(frames =~= Seq::<Seq<u8>>::empty());
    } else {
        let f0 = frames[0];
        let rest = frames.drop_first();
        assert forall|i: int| 0 <= i < rest.len() implies (#[trigger] rest[i]).len() < 0x8000_0000_0000_0000
            && rest[i].len() <= usize::MAX by {
            assert(rest[i] == frames[i + 1]);
        }
        law_protobuf_frames_round_trip(rest);
        lemma_concatenated_front(d);
        assert(d.drop_first() =~= rest.map_values(|f: Seq<u8>| delimited(f)));
        let tail = concatenated(rest.map_values(|f: Seq<u8>| delimited(f)));
        let data = concatenated(d);
        let len = f0.len();
        assert(data == delimited(f0) + tail);
        assert(pow128(9) == 0x8000_0000_0000_0000) by {
            reveal_with_fuel(pow128, 10);
        }
        lemma_varint_size_bound(len, 9);
        lemma_varint_bytes_len(len);
        varint_size_bounds(len);
        let dl = varint_size(len);
        assert(data.subrange(0, dl as int) =~= varint_bytes(len));
        lemma_varint_read_back(data, 0, len);
        assert(length_delimiter(data) == Some(len));
        assert(data.subrange(dl as int, (dl + len) as int) =~= f0);
        assert(data.skip((dl + len) as int) =~= tail);
        assert(protobuf_frames(data) == seq![f0] + protobuf_frames(tail));
        assert(frames =~= seq![f0] + rest);
    }
}

/// Lines joined with a newline byte between each two.
pub open spec fn joined_byte_lines(lines: Seq<Seq<u8>>) -> Seq<u8>
    decreases lines.len(),
{
    if lines.len() == 0 {
        seq![]
    } else if lines.len() == 1 {
        lines[0]
    } else {
        lines[0] + seq![10u8] + joined_byte_lines(lines.drop_first())
    }
}

/// Splitting a JSON message made of lines joined by newlines gives the
/// lines back, when no line holds a newline or ends with a carriage return
/// and the last line is not empty.
pub proof fn law_json_lines_round_trip(lines: Seq<Seq<u8>>)
    requires
        forall|i: int, j: int| 0 <= i < lines.len() && 0 <= j < lines[i].len() ==> #[trigger] lines[i][j] != 10,
        forall|i: int| 0 <= i < lines.len() && (#[trigger] lines[i]).len() > 0 ==> lines[i].last() != 13,
        lines.len() > 0 ==> lines.last().len() > 0,
    ensures
        json_lines(joined_byte_lines(lines)) == lines,
    decreases lines.len(),
{
    if lines.len() == 0 {
        assert(joined_byte_lines(lines) =~= Seq::<u8>::empty());
    } else {
        let l0 = lines[0];
        let data = joined_byte_lines(lines);
        if lines.len() == 1 {
            newline_index_is_first(data, data.len());
            assert(json_lines(data) == seq![data]);
            assert(lines =~= seq![l0]);
        } else {
            let rest = lines.drop_first();
            assert forall|i: int, j: int| 0 <= i < rest.len() && 0 <= j < rest[i].len() implies #[trigger] rest[i][j] != 10 by {
                assert(rest[i] == lines[i + 1]);
            }
            assert forall|i: int| 0 <= i < rest.len() && (#[trigger] rest[i]).len() > 0 implies rest[i].last() != 13 by {
                assert(rest[i] == lines[i + 1]);
            }
            assert(rest.last() == lines.last());
            law_json_lines_round_trip(rest);
            let tail = joined_byte_lines(rest);
            assert(data == l0 + seq![10u8] + tail);
            assert forall|j: int| 0 <= j < l0.len() implies data[j] != 10 by {
                assert(data[j] == l0[j]);
                assert(lines[0][j] != 10);
            }
            assert(data[l0.len() as int] == 10);
            newline_index_is_first(data, l0.len());
            assert(data.take(l0.len() as int) =~= l0);
            assert(data.skip(l0.len() + 1int) =~= tail);
            if l0.len() > 0 {
                assert(l0.last() != 13);
            }
            assert(json_lines(data) == seq![l0] + json_lines(tail));
            assert(lines =~= seq![l0] + rest);
        }
    }
}

} // verus!
