use vstd::prelude::*;

verus! {

/// The byte that delimits notification records on the wire.
pub const RECORD_DELIMITER: u8 = 10;

/// The segments of a byte sequence split on the record delimiter, every
/// segment kept: a sequence with `k` delimiters yields `k + 1` segments, so
/// an empty input yields one empty segment and a trailing delimiter yields a
/// trailing empty segment.
pub open spec fn spec_split(s: Seq<u8>) -> Seq<Seq<u8>>
    decreases s.len(),
{
    if s.len() == 0 {
        seq![Seq::<u8>::empty()]
    } else {
        let rest = spec_split(s.drop_last());
        if s.last() == RECORD_DELIMITER {
            rest.push(Seq::<u8>::empty())
        } else {
            rest.update(rest.len() - 1, rest.last().push(s.last()))
        }
    }
}

/// Splits one frame buffer into its delimited records.
pub fn split_records(bytes: &Vec<u8>) -> (r: Vec<Vec<u8>>)
    ensures
        r@.len() == spec_split(bytes@).len(),
        forall|j: int| 0 <= j < r@.len() ==> r@[j]@ == spec_split(bytes@)[j],
        r@.len() >= 1,
{
    let mut out: Vec<Vec<u8>> = Vec::new();
    out.push(Vec::new());
    let mut i: usize = 0;
    while i < bytes.len()
        invariant
            i <= bytes@.len(),
            out@.len() == spec_split(bytes@.take(i as int)).len(),
            out@.len() >= 1,
            forall|j: int| 0 <= j < out@.len() ==> out@[j]@ == spec_split(bytes@.take(i as int))[j],
        decreases bytes@.len() - i,
    {
        proof {
            assert(bytes@.take(i + 1 as int).drop_last() =~= bytes@.take(i as int));
            assert(bytes@.take(i + 1 as int).last() == bytes@[i as int]);
        }
        if bytes[i] == RECORD_DELIMITER {
            out.push(Vec::new());
        } else {
            let b: u8 = bytes[i];
            let last: usize = out.len() - 1;
            let mut seg: Vec<u8> = out.pop().unwrap();
            seg.push(b);
            out.push(seg);
            proof {
                assert(out@[last as int]@ == spec_split(bytes@.take(i + 1 as int))[last as int]);
            }
        }
        i = i + 1;
    }
    proof {
        assert(bytes@.take(i as int) =~= bytes@);
    }
    out
}

/// What decoding one record's bytes as text yields: the decoded characters,
/// or nothing when the bytes are not well-formed text. Decoding is a pure
/// function of the bytes, so its outcome is only named here, never restated.
pub uninterp spec fn decoded_text(bytes: Seq<u8>) -> Option<Seq<char>>;

/// Relies on `String::from_utf8`: it returns the UTF-8 decoding of the given
/// bytes, or an error exactly when the bytes are not valid UTF-8, and the
/// outcome depends on the bytes alone.
#[verifier::external_body]
fn decode_record(bytes: &Vec<u8>) -> (r: Option<String>)
    ensures
        r is Some <==> decoded_text(bytes@) is Some,
        r matches Some(t) ==> t@ == decoded_text(bytes@).unwrap(),
{
    String::from_utf8(bytes.clone()).ok()
}

/// The lines a sequence of records decodes to: each record's text in order,
/// records that are not well-formed text silently skipped — one bad record
/// never aborts the whole frame.
pub open spec fn spec_decoded_lines(segs: Seq<Seq<u8>>) -> Seq<Seq<char>>
    decreases segs.len(),
{
    if segs.len() == 0 {
        Seq::empty()
    } else {
        let rest = spec_decoded_lines(segs.drop_last());
        match decoded_text(segs.last()) {
            Option::None => rest,
            Option::Some(t) => rest.push(t),
        }
    }
}

/// The lines one frame buffer carries: its delimited records, decoded, the
/// malformed ones skipped.
pub open spec fn spec_frame_lines(bytes: Seq<u8>) -> Seq<Seq<char>> {
    spec_decoded_lines(spec_split(bytes))
}

/// What one frame read yields to the driver.
#[derive(Debug)]
pub enum FrameEvent {
    /// The frame held no bytes at all: the distinguished empty-stream signal
    /// ("the external process restarted; re-announce as a subscriber"), not a
    /// line-level failure.
    EmptyStream,
    /// The frame's decodable lines, in order.
    Records(Vec<String>),
}

/// Turns one frame buffer into what the driver must handle: a zero-byte
/// frame is the empty-stream signal; anything else is its delimited records
/// decoded to lines, the malformed ones skipped.
pub fn read_frame(bytes: &Vec<u8>) -> (r: FrameEvent)
    ensures
        bytes@.len() == 0 ==> r is EmptyStream,
        bytes@.len() > 0 ==> (r matches FrameEvent::Records(lines) && lines@.len()
            == spec_frame_lines(bytes@).len() && forall|j: int|
            0 <= j < lines@.len() ==> lines@[j]@ == spec_frame_lines(bytes@)[j]),
{
    if bytes.len() == 0 {
        return FrameEvent::EmptyStream;
    }
    let records = split_records(bytes);
    let ghost segs = spec_split(bytes@);
    let mut lines: Vec<String> = Vec::new();
    let mut k: usize = 0;
    while k < records.len()
        invariant
            k <= records@.len(),
            records@.len() == segs.len(),
            forall|j: int| 0 <= j < records@.len() ==> records@[j]@ == segs[j],
            lines@.len() == spec_decoded_lines(segs.take(k as int)).len(),
            forall|j: int|
                0 <= j < lines@.len() ==> lines@[j]@ == spec_decoded_lines(segs.take(k as int))[j],
        decreases records@.len() - k,
    {
        proof {
            assert(segs.take(k + 1 as int).drop_last() =~= segs.take(k as int));
            assert(segs.take(k + 1 as int).last() == segs[k as int]);
        }
        match decode_record(&records[k]) {
            None => {
            },
            Some(t) => {
                lines.push(t);
            },
        }
        k = k + 1;
    }
    proof {
        assert(segs.take(k as int) =~= segs);
    }
    FrameEvent::Records(lines)
}

} // verus!
