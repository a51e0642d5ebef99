//! Typed DRM events: the raw records of [`raw`] classified into the known
//! generic shapes, driver-specific captures, and an opaque fallback for
//! generic types this crate has no shape for yet.

pub mod raw;

use vstd::prelude::*;

verus! {

/// A decoded DRM event.
#[derive(Debug, Clone, PartialEq, Eq)]
pub enum DrmEvent {
    /// An event of a generic type that is defined for all DRM drivers.
    Generic(GenericDrmEvent),
    /// An event of a driver-specific type, captured opaquely.
    Driver(UnsupportedDrmEvent),
    /// An event that is neither driver-specific nor a recognized generic
    /// type. Kept for error reporting: a future version may decode it, so
    /// callers should not handle events through this variant.
    Unsupported(UnsupportedDrmEvent),
}

/// A decoded event of one of the known generic shapes.
#[derive(Debug, Clone, Copy, PartialEq, Eq, Structural)]
#[non_exhaustive]
pub enum GenericDrmEvent {
    VBlank(DrmVblankEvent),
    FlipComplete(DrmVblankEvent),
    CrtcSequence(DrmCrtcSequenceEvent),
}

/// A vertical-blank or flip-completion event: the caller's token, a
/// timestamp, a sequence number and the target CRTC id.
#[derive(Debug, Clone, Copy, PartialEq, Eq, Structural)]
pub struct DrmVblankEvent {
    pub user_data: u64,
    pub tv_sec: u32,
    pub tv_usec: u32,
    pub sequence: u32,
    pub crtc_id: u32,
}

impl DrmVblankEvent {
    /// Copy the fields out of an unpacked raw body.
    pub fn from_raw(value: &raw::DrmEventVblank) -> (r: Self)
        ensures
            r == (DrmVblankEvent {
                user_data: value.user_data,
                tv_sec: value.tv_sec,
                tv_usec: value.tv_usec,
                sequence: value.sequence,
                crtc_id: value.crtc_id,
            }),
    {
        DrmVblankEvent {
            user_data: value.user_data,
            tv_sec: value.tv_sec,
            tv_usec: value.tv_usec,
            sequence: value.sequence,
            crtc_id: value.crtc_id,
        }
    }
}

/// A CRTC sequence event: the caller's token, a nanosecond timestamp and
/// the sequence counter.
#[derive(Debug, Clone, Copy, PartialEq, Eq, Structural)]
pub struct DrmCrtcSequenceEvent {
    pub user_data: u64,
    pub time_ns: i64,
    pub sequence: u64,
}

impl DrmCrtcSequenceEvent {
    /// Copy the fields out of an unpacked raw body.
    pub fn from_raw(value: &raw::DrmEventCrtcSequence) -> (r: Self)
        ensures
            r == (DrmCrtcSequenceEvent {
                user_data: value.user_data,
                time_ns: value.time_ns,
                sequence: value.sequence,
            }),
    {
        DrmCrtcSequenceEvent {
            user_data: value.user_data,
            time_ns: value.time_ns,
            sequence: value.sequence,
        }
    }
}

/// The generic shape that a (type, body) pair decodes to: a known type
/// tag whose body is long enough for its shape, and nothing otherwise.
/// Every bit pattern of a sufficiently long body is a valid shape.
pub open spec fn spec_generic_decode(typ: u32, body: Seq<u8>) -> Option<GenericDrmEvent> {
    if typ == raw::DRM_EVENT_VBLANK && body.len() >= 24 {
        Some(
            GenericDrmEvent::VBlank(
                DrmVblankEvent {
                    user_data: raw::spec_le_u64(body, 0),
                    tv_sec: raw::spec_le_u32(body, 8),
                    tv_usec: raw::spec_le_u32(body, 12),
                    sequence: raw::spec_le_u32(body, 16),
                    crtc_id: raw::spec_le_u32(body, 20),
                },
            ),
        )
    } else if typ == raw::DRM_EVENT_FLIP_COMPLETE && body.len() >= 24 {
        Some(
            GenericDrmEvent::FlipComplete(
                DrmVblankEvent {
                    user_data: raw::spec_le_u64(body, 0),
                    tv_sec: raw::spec_le_u32(body, 8),
                    tv_usec: raw::spec_le_u32(body, 12),
                    sequence: raw::spec_le_u32(body, 16),
                    crtc_id: raw::spec_le_u32(body, 20),
                },
            ),
        )
    } else if typ == raw::DRM_EVENT_CRTC_SEQUENCE && body.len() >= 24 {
        Some(
            GenericDrmEvent::CrtcSequence(
                DrmCrtcSequenceEvent {
                    user_data: raw::spec_le_u64(body, 0),
                    time_ns: raw::spec_le_u64(body, 8) as i64,
                    sequence: raw::spec_le_u64(body, 16),
                },
            ),
        )
    } else {
        None
    }
}

impl GenericDrmEvent {
    /// Decode a raw event of a recognized generic type, or report that
    /// its type is unknown or its body too short for the type's shape.
    pub fn try_from_raw(raw: &raw::DrmEvent) -> (r: Result<Self, ()>)
        ensures
            match spec_generic_decode(raw.hdr.typ, raw.body@) {
                Some(ev) => r == Result::<GenericDrmEvent, ()>::Ok(ev),
                None => r is Err,
            },
    {
        match raw.hdr.typ {
            raw::DRM_EVENT_VBLANK => {
                if raw.body.len() < 24 {
                    return Err(());
                }
                let body = raw::vblank_from_body(raw.body.as_slice());
                Ok(Self::VBlank(DrmVblankEvent::from_raw(&body)))
            },
            raw::DRM_EVENT_FLIP_COMPLETE => {
                if raw.body.len() < 24 {
                    return Err(());
                }
                let body = raw::vblank_from_body(raw.body.as_slice());
                Ok(Self::FlipComplete(DrmVblankEvent::from_raw(&body)))
            },
            raw::DRM_EVENT_CRTC_SEQUENCE => {
                if raw.body.len() < 24 {
                    return Err(());
                }
                let body = raw::crtc_sequence_from_body(raw.body.as_slice());
                Ok(Self::CrtcSequence(DrmCrtcSequenceEvent::from_raw(&body)))
            },
            _ => Err(()),
        }
    }
}

/// Whether a decoded event is the right reading of a raw (type, body)
/// pair: driver-specific types are captured opaquely, recognized generic
/// types are decoded by their shape, and the rest is captured opaquely as
/// unsupported.
pub open spec fn spec_event_decoded(typ: u32, body: Seq<u8>, r: DrmEvent) -> bool {
    if typ >= 0x80000000 {
        r matches DrmEvent::Driver(u) && u.typ == typ && u.body@ == body
    } else {
        match spec_generic_decode(typ, body) {
            Some(g) => r == DrmEvent::Generic(g),
            None => r matches DrmEvent::Unsupported(u) && u.typ == typ && u.body@ == body,
        }
    }
}

impl DrmEvent {
    /// Classify and decode one raw event.
    pub fn from_raw(raw: &raw::DrmEvent) -> (r: Self)
        ensures
            spec_event_decoded(raw.hdr.typ, raw.body@, r),
    {
        if raw.hdr.typ >= 0x80000000 {
            Self::Driver(UnsupportedDrmEvent::from_raw(raw))
        } else {
            match GenericDrmEvent::try_from_raw(raw) {
                Ok(evt) => Self::Generic(evt),
                Err(_) => Self::Unsupported(UnsupportedDrmEvent::from_raw(raw)),
            }
        }
    }
}

/// Decode every raw event of a walk, in order.
pub fn decode_events(raws: &Vec<raw::DrmEvent>) -> (r: Vec<DrmEvent>)
    ensures
        r@.len() == raws@.len(),
        forall|i: int|
            0 <= i < raws@.len() ==> spec_event_decoded(
                raws@[i].hdr.typ,
                raws@[i].body@,
                r@[i],
            ),
{
    let mut r: Vec<DrmEvent> = Vec::new();
    let mut i: usize = 0;
    while i < raws.len()
        invariant
            0 <= i <= raws@.len(),
            r@.len() == i,
            forall|j: int|
                0 <= j < i ==> spec_event_decoded(raws@[j].hdr.typ, raws@[j].body@, r@[j]),
        decreases raws@.len() - i,
    {
        r.push(DrmEvent::from_raw(&raws[i]));
        i += 1;
    }
    r
}

/// Copy a byte slice into an owned vector.
fn copy_bytes(src: &[u8]) -> (r: Vec<u8>)
    ensures
        r@ == src@,
{
    let mut r: Vec<u8> = Vec::new();
    let mut i: usize = 0;
    while i < src.len()
        invariant
            0 <= i <= src@.len(),
            r@ == src@.take(i as int),
        decreases src@.len() - i,
    {
        r.push(src[i]);
        assert(r@ =~= src@.take(i + 1));
        i += 1;
    }
    proof {
        assert(src@.take(src@.len() as int) =~= src@);
    }
    r
}

/// Raw owned capture of a DRM event of a type that this crate does not
/// decode: the type tag and a copy of the body bytes.
#[derive(Debug, Clone, PartialEq, Eq)]
pub struct UnsupportedDrmEvent {
    pub typ: u32,
    pub body: Vec<u8>,
}

impl UnsupportedDrmEvent {
    /// Capture a raw event opaquely, copying its body.
    pub fn from_raw(raw: &raw::DrmEvent) -> (r: Self)
        ensures
            r.typ == raw.hdr.typ,
            r.body@ == raw.body@,
    {
        let typ = raw.hdr.typ;
        let body = copy_bytes(raw.body.as_slice());
        UnsupportedDrmEvent { typ, body }
    }

    /// The event's type tag.
    pub fn typ(&self) -> (r: u32)
        ensures
            r == self.typ,
    {
        self.typ
    }

    /// The length of the body in bytes.
    pub fn body_len(&self) -> (r: usize)
        ensures
            r == self.body@.len(),
    {
        self.body.len()
    }

    /// The body of the event as a raw byte slice.
    pub fn body_bytes(&self) -> (r: &[u8])
        ensures
            r@ == self.body@,
    {
        self.body.as_slice()
    }
}

} // verus!
