//! Raw DRM events: the length-prefixed records read from the card device,
//! walked out of a byte buffer one at a time.
//!
//! Every record starts with an eight-byte header: a type tag and the
//! record's total length, both little-endian 32-bit words. A header whose
//! claimed length cannot fit the header itself, or reaches past the bytes
//! that remain, marks a truncated delivery: the walk ends silently there,
//! because a partial record cannot be recovered.

use vstd::prelude::*;

verus! {

/// The number of bytes in an event header.
pub const DRM_EVENT_HEADER_LEN: usize = 8;

/// Vertical blanking event, sent in answer to a vertical-blank wait with
/// event delivery requested. The body is a [`DrmEventVblank`] layout.
pub const DRM_EVENT_VBLANK: u32 = 0x01;

/// Page-flip completion event, sent in answer to an atomic commit or
/// legacy page-flip with the event flag set. The body is a
/// [`DrmEventVblank`] layout.
pub const DRM_EVENT_FLIP_COMPLETE: u32 = 0x02;

/// CRTC sequence event, sent in answer to a queued sequence wait. The
/// body is a [`DrmEventCrtcSequence`] layout.
pub const DRM_EVENT_CRTC_SEQUENCE: u32 = 0x03;

/// Raw DRM event header: a type tag and the record's total length in
/// bytes, header included.
#[derive(Clone, Copy, Debug, PartialEq, Eq, Structural)]
pub struct DrmEventHeader {
    pub typ: u32,
    pub len: u32,
}

/// One raw DRM event: its header and the body bytes that followed it.
#[derive(Clone, Debug, PartialEq, Eq)]
pub struct DrmEvent {
    pub hdr: DrmEventHeader,
    pub body: Vec<u8>,
}

/// The little-endian 32-bit word at the given offset.
pub open spec fn spec_le_u32(s: Seq<u8>, off: int) -> u32 {
    (s[off] as u32) | (s[off + 1] as u32) << 8 | (s[off + 2] as u32) << 16 | (s[off + 3] as u32)
        << 24
}

/// The events that a byte buffer holds: records are taken from the front
/// while a whole one remains, and the walk ends at the first header whose
/// length is impossible. Each event is given as (type, length, body).
pub open spec fn spec_parse_events(s: Seq<u8>) -> Seq<(u32, u32, Seq<u8>)>
    decreases s.len(),
{
    if s.len() < 8 {
        Seq::empty()
    } else {
        let typ = spec_le_u32(s, 0);
        let len = spec_le_u32(s, 4);
        if len < 8 || len > s.len() {
            Seq::empty()
        } else {
            seq![(typ, len, s.subrange(8, len as int))].add(
                spec_parse_events(s.subrange(len as int, s.len() as int)),
            )
        }
    }
}

/// Read the little-endian 32-bit word at the given offset.
fn read_le_u32(buf: &[u8], off: usize) -> (r: u32)
    requires
        off + 4 <= buf@.len(),
    ensures
        r == spec_le_u32(buf@, off as int),
{
    (buf[off] as u32) | (buf[off + 1] as u32) << 8 | (buf[off + 2] as u32) << 16 | (buf[off
        + 3] as u32) << 24
}

/// Take one event out of the buffer, starting at the given offset.
///
/// Returns the event and the offset just past it, or nothing when fewer
/// than a header's worth of bytes remain or the header's claimed length
/// is impossible.
fn parse_one(buf: &[u8], off: usize) -> (r: Option<(DrmEvent, usize)>)
    requires
        off <= buf@.len(),
    ensures
        match r {
            Some(p) => {
                &&& off < p.1 <= buf@.len()
                &&& spec_parse_events(buf@.skip(off as int)) == seq![
                    (p.0.hdr.typ, p.0.hdr.len, p.0.body@),
                ].add(spec_parse_events(buf@.skip(p.1 as int)))
                &&& p.0.hdr.len == p.1 - off
                &&& p.0.body@.len() + 8 == p.0.hdr.len
            },
            None => spec_parse_events(buf@.skip(off as int)) == Seq::<(u32, u32, Seq<u8>)>::empty(),
        },
{
    let remain = buf.len() - off;
    if remain < 8 {
        return None;
    }
    let typ = read_le_u32(buf, off);
    let len = read_le_u32(buf, off + 4);
    proof {
        let tail = buf@.skip(off as int);
        assert(tail[0] == buf@[off as int]);
        assert(tail[1] == buf@[off as int + 1]);
        assert(tail[2] == buf@[off as int + 2]);
        assert(tail[3] == buf@[off as int + 3]);
        assert(tail[4] == buf@[off as int + 4]);
        assert(tail[5] == buf@[off as int + 5]);
        assert(tail[6] == buf@[off as int + 6]);
        assert(tail[7] == buf@[off as int + 7]);
        assert(spec_le_u32(tail, 0) == typ);
        assert(spec_le_u32(tail, 4) == len);
    }
    if len < 8 {
        return None;
    }
    if (len as usize) > remain {
        return None;
    }
    let end = off + (len as usize);
    let mut body: Vec<u8> = Vec::new();
    let mut i: usize = off + 8;
    while i < end
        invariant
            off + 8 <= i <= end,
            end <= buf@.len(),
            body@ == buf@.subrange(off + 8, i as int),
        decreases end - i,
    {
        body.push(buf[i]);
        assert(body@ =~= buf@.subrange(off + 8, i + 1));
        i += 1;
    }
    proof {
        let tail = buf@.skip(off as int);
        assert(body@ =~= tail.subrange(8, len as int));
        assert(tail.subrange(len as int, tail.len() as int) =~= buf@.skip(end as int));
    }
    Some((DrmEvent { hdr: DrmEventHeader { typ, len }, body }, end))
}

impl DrmEvent {
    /// Take the first event out of a byte buffer, also returning how many
    /// bytes it spanned. Nothing is returned when the buffer cannot hold
    /// one whole event.
    pub fn from_bytes(buf: &[u8]) -> (r: Option<(DrmEvent, usize)>)
        ensures
            match r {
                Some(p) => {
                    &&& 0 < p.1 <= buf@.len()
                    &&& spec_parse_events(buf@) == seq![(p.0.hdr.typ, p.0.hdr.len, p.0.body@)].add(
                        spec_parse_events(buf@.skip(p.1 as int)),
                    )
                    &&& p.0.hdr.len == p.1
                    &&& p.0.body@.len() + 8 == p.0.hdr.len
                },
                None => spec_parse_events(buf@) == Seq::<(u32, u32, Seq<u8>)>::empty(),
            },
    {
        proof {
            assert(buf@.skip(0) =~= buf@);
        }
        parse_one(buf, 0)
    }

    /// The length of the body in bytes.
    pub fn body_len(&self) -> (r: usize)
        ensures
            r == self.body@.len(),
    {
        self.body.len()
    }

    /// The body of the event as a raw byte slice.
    pub fn body_bytes(&self) -> (r: &[u8])
        ensures
            r@ == self.body@,
    {
        self.body.as_slice()
    }
}

/// Walk a byte buffer already filled by a read from the device, taking
/// whole events from the front until none remains. A header that claims
/// more bytes than are left ends the walk silently: the events before it
/// are returned and the rest of the buffer is dropped.
pub fn events_from_bytes(buf: &[u8]) -> (r: Vec<DrmEvent>)
    ensures
        r@.len() == spec_parse_events(buf@).len(),
        forall|i: int|
            0 <= i < r@.len() ==> (r@[i].hdr.typ, r@[i].hdr.len, r@[i].body@)
                == spec_parse_events(buf@)[i],
{
    let ghost whole = spec_parse_events(buf@);
    let mut r: Vec<DrmEvent> = Vec::new();
    let mut off: usize = 0;
    proof {
        assert(buf@.skip(0) =~= buf@);
    }
    loop
        invariant
            off <= buf@.len(),
            whole =~= Seq::new(r@.len(), |i: int| (r@[i].hdr.typ, r@[i].hdr.len, r@[i].body@)).add(
                spec_parse_events(buf@.skip(off as int)),
            ),
        ensures
            spec_parse_events(buf@.skip(off as int)) == Seq::<(u32, u32, Seq<u8>)>::empty(),
        decreases buf@.len() - off,
    {
        match parse_one(buf, off) {
            Some((ev, next)) => {
                r.push(ev);
                off = next;
                proof {
                    assert(whole =~= Seq::new(
                        r@.len(),
                        |i: int| (r@[i].hdr.typ, r@[i].hdr.len, r@[i].body@),
                    ).add(spec_parse_events(buf@.skip(off as int))));
                }
            },
            None => {
                break;
            },
        }
    }
    proof {
        assert(whole =~= Seq::new(r@.len(), |i: int| (r@[i].hdr.typ, r@[i].hdr.len, r@[i].body@)));
    }
    r
}

/// The body layout of a vertical-blank or flip-completion event: the
/// caller's token, a timestamp, a sequence number, and the CRTC id on
/// kernels that report it.
#[derive(Clone, Copy, Debug, PartialEq, Eq, Structural)]
pub struct DrmEventVblank {
    pub user_data: u64,
    pub tv_sec: u32,
    pub tv_usec: u32,
    pub sequence: u32,
    pub crtc_id: u32,
}

/// The body layout of a CRTC sequence event: the caller's token, a
/// nanosecond timestamp, and the sequence counter.
#[derive(Clone, Copy, Debug, PartialEq, Eq, Structural)]
pub struct DrmEventCrtcSequence {
    pub user_data: u64,
    pub time_ns: i64,
    pub sequence: u64,
}

/// The little-endian 64-bit word at the given offset.
pub open spec fn spec_le_u64(s: Seq<u8>, off: int) -> u64 {
    (s[off] as u64) | (s[off + 1] as u64) << 8 | (s[off + 2] as u64) << 16 | (s[off + 3] as u64)
        << 24 | (s[off + 4] as u64) << 32 | (s[off + 5] as u64) << 40 | (s[off + 6] as u64) << 48
        | (s[off + 7] as u64) << 56
}

/// Read the little-endian 64-bit word at the given offset.
fn read_le_u64(buf: &[u8], off: usize) -> (r: u64)
    requires
        off + 8 <= buf@.len(),
    ensures
        r == spec_le_u64(buf@, off as int),
{
    (buf[off] as u64) | (buf[off + 1] as u64) << 8 | (buf[off + 2] as u64) << 16 | (buf[off
        + 3] as u64) << 24 | (buf[off + 4] as u64) << 32 | (buf[off + 5] as u64) << 40 | (buf[off
        + 6] as u64) << 48 | (buf[off + 7] as u64) << 56
}

/// The vertical-blank body that a byte sequence holds.
pub open spec fn spec_vblank_from_body(body: Seq<u8>) -> DrmEventVblank {
    DrmEventVblank {
        user_data: spec_le_u64(body, 0),
        tv_sec: spec_le_u32(body, 8),
        tv_usec: spec_le_u32(body, 12),
        sequence: spec_le_u32(body, 16),
        crtc_id: spec_le_u32(body, 20),
    }
}

/// The CRTC-sequence body that a byte sequence holds.
pub open spec fn spec_crtc_sequence_from_body(body: Seq<u8>) -> DrmEventCrtcSequence {
    DrmEventCrtcSequence {
        user_data: spec_le_u64(body, 0),
        time_ns: spec_le_u64(body, 8) as i64,
        sequence: spec_le_u64(body, 16),
    }
}

/// Unpack a vertical-blank or flip-completion body. Every bit pattern is
/// a valid body, so only the length is checked, by the caller.
pub fn vblank_from_body(body: &[u8]) -> (r: DrmEventVblank)
    requires
        body@.len() >= 24,
    ensures
        r == spec_vblank_from_body(body@),
{
    DrmEventVblank {
        user_data: read_le_u64(body, 0),
        tv_sec: read_le_u32(body, 8),
        tv_usec: read_le_u32(body, 12),
        sequence: read_le_u32(body, 16),
        crtc_id: read_le_u32(body, 20),
    }
}

/// Unpack a CRTC-sequence body. Every bit pattern is a valid body, so
/// only the length is checked, by the caller.
pub fn crtc_sequence_from_body(body: &[u8]) -> (r: DrmEventCrtcSequence)
    requires
        body@.len() >= 24,
    ensures
        r == spec_crtc_sequence_from_body(body@),
{
    DrmEventCrtcSequence {
        user_data: read_le_u64(body, 0),
        time_ns: read_le_u64(body, 8) as i64,
        sequence: read_le_u64(body, 16),
    }
}

} // verus!
