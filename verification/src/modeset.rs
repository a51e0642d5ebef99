//! The modesetting data model: typed object ids, resource and state
//! snapshots, display modes, and the conversions between them and the raw
//! records of [`crate::ioctl`].

mod atomic;
mod buffer;
mod props;

pub use atomic::{AtomicCommitFlags, AtomicRequest, AtomicRequestRawParts, AtomicView, SetCalls,
    lemma_fresh_object_lists, lemma_reset_replay, lemma_reset_replay_serialization,
    lemma_wire_counts, lemma_wire_lens, lemma_wire_round_trip, spec_apply, spec_combine,
    spec_pair_firsts, spec_pair_seconds, spec_pairs_for, spec_parse_wire, spec_reset, spec_set,
    spec_sorted, spec_total_props, spec_view_get, spec_wire_parts};
pub use buffer::{
    BufferCleanupOp, DumbBuffer, DumbBufferRequest, create_dumb_request, creation_unwind,
    dumb_buffer_from_parts, framebuffer_request, lemma_pixel_idx_in_bounds, map_dumb_request,
    spec_buffer_wf, teardown_ops,
};
pub use props::{
    AsRawPropertyValue, BlobHandle, DeferredValue, IntoRawPropertyValue, ModeProp, ObjectPropMeta,
    ObjectPropEnumMember, PropertyType, enum_members_from_raw, name_field_is_ascii,
    object_properties_from_raw, property_meta_from_reply, spec_name_field_is_ascii,
    spec_property_type_from_flags,
};

use vstd::prelude::*;

verus! {

use crate::ioctl;

#[derive(Debug, Clone, Copy, PartialEq, Eq, Structural)]
pub struct FramebufferId(pub u32);

#[derive(Debug, Clone, Copy, PartialEq, Eq, Structural)]
pub struct CrtcId(pub u32);

#[derive(Debug, Clone, Copy, PartialEq, Eq, Structural)]
pub struct ConnectorId(pub u32);

#[derive(Debug, Clone, Copy, PartialEq, Eq, Structural)]
pub struct EncoderId(pub u32);

#[derive(Debug, Clone, Copy, PartialEq, Eq, Structural)]
pub struct PlaneId(pub u32);

#[derive(Debug, Clone, Copy, PartialEq, Eq, Structural)]
pub struct BufferObjectId(pub u32);

#[derive(Debug, Clone, Copy, PartialEq, Eq, Structural)]
pub struct PropertyId(pub u32);

#[derive(Debug, Clone, Copy, PartialEq, Eq, Structural)]
pub struct BlobId(pub u32);

/// A reference to any kernel-managed entity: a raw 32-bit id tagged with
/// the entity kind it belongs to.
#[derive(Debug, Clone, Copy, PartialEq, Eq, Structural)]
#[non_exhaustive]
pub enum ObjectId {
    Crtc(CrtcId),
    Connector(ConnectorId),
    Encoder(EncoderId),
    Mode(u32),
    Property(PropertyId),
    Framebuffer(FramebufferId),
    Blob(BlobId),
    Plane(PlaneId),
}

/// The kind tag that an object id carries on the wire.
pub open spec fn spec_object_kind(id: ObjectId) -> u32 {
    match id {
        ObjectId::Crtc(_) => ioctl::DRM_MODE_OBJECT_CRTC,
        ObjectId::Connector(_) => ioctl::DRM_MODE_OBJECT_CONNECTOR,
        ObjectId::Encoder(_) => ioctl::DRM_MODE_OBJECT_ENCODER,
        ObjectId::Mode(_) => ioctl::DRM_MODE_OBJECT_MODE,
        ObjectId::Property(_) => ioctl::DRM_MODE_OBJECT_PROPERTY,
        ObjectId::Framebuffer(_) => ioctl::DRM_MODE_OBJECT_FB,
        ObjectId::Blob(_) => ioctl::DRM_MODE_OBJECT_BLOB,
        ObjectId::Plane(_) => ioctl::DRM_MODE_OBJECT_PLANE,
    }
}

/// The raw 32-bit id that an object id carries on the wire.
pub open spec fn spec_object_raw_id(id: ObjectId) -> u32 {
    match id {
        ObjectId::Crtc(id) => id.0,
        ObjectId::Connector(id) => id.0,
        ObjectId::Encoder(id) => id.0,
        ObjectId::Mode(id) => id,
        ObjectId::Property(id) => id.0,
        ObjectId::Framebuffer(id) => id.0,
        ObjectId::Blob(id) => id.0,
        ObjectId::Plane(id) => id.0,
    }
}

impl ObjectId {
    /// The (kind tag, raw id) pair that stands for this object on the wire.
    pub fn as_raw_type_and_id(self) -> (r: (u32, u32))
        ensures
            r.0 == spec_object_kind(self),
            r.1 == spec_object_raw_id(self),
    {
        match self {
            ObjectId::Crtc(id) => (ioctl::DRM_MODE_OBJECT_CRTC, id.0),
            ObjectId::Connector(id) => (ioctl::DRM_MODE_OBJECT_CONNECTOR, id.0),
            ObjectId::Encoder(id) => (ioctl::DRM_MODE_OBJECT_ENCODER, id.0),
            ObjectId::Mode(id) => (ioctl::DRM_MODE_OBJECT_MODE, id),
            ObjectId::Property(id) => (ioctl::DRM_MODE_OBJECT_PROPERTY, id.0),
            ObjectId::Framebuffer(id) => (ioctl::DRM_MODE_OBJECT_FB, id.0),
            ObjectId::Blob(id) => (ioctl::DRM_MODE_OBJECT_BLOB, id.0),
            ObjectId::Plane(id) => (ioctl::DRM_MODE_OBJECT_PLANE, id.0),
        }
    }
}

/// A snapshot of every object id the device currently exposes, plus its
/// supported buffer dimension range. Valid only at the instant it was
/// read: a hot-plug event invalidates it immediately.
#[derive(Debug, Clone, PartialEq, Eq)]
pub struct CardResources {
    pub fb_ids: Vec<FramebufferId>,
    pub crtc_ids: Vec<CrtcId>,
    pub connector_ids: Vec<ConnectorId>,
    pub encoder_ids: Vec<EncoderId>,
    pub plane_ids: Vec<PlaneId>,
    pub min_width: u32,
    pub max_width: u32,
    pub min_height: u32,
    pub max_height: u32,
}

/// Assemble a resource snapshot from a consistent reply record and the id
/// arrays that the device filled.
pub fn card_resources_from_raw(
    res: &ioctl::DrmModeCardRes,
    fb_ids: Vec<FramebufferId>,
    crtc_ids: Vec<CrtcId>,
    connector_ids: Vec<ConnectorId>,
    encoder_ids: Vec<EncoderId>,
    plane_ids: Vec<PlaneId>,
) -> (r: CardResources)
    ensures
        r.fb_ids == fb_ids,
        r.crtc_ids == crtc_ids,
        r.connector_ids == connector_ids,
        r.encoder_ids == encoder_ids,
        r.plane_ids == plane_ids,
        r.min_width == res.min_width,
        r.max_width == res.max_width,
        r.min_height == res.min_height,
        r.max_height == res.max_height,
{
    CardResources {
        fb_ids,
        crtc_ids,
        connector_ids,
        encoder_ids,
        plane_ids,
        min_width: res.min_width,
        max_width: res.max_width,
        min_height: res.min_height,
        max_height: res.max_height,
    }
}

/// Whether a mode is marked by the device as the preferred one.
pub open spec fn spec_mode_is_preferred(m: ModeInfo) -> bool {
    m.typ & ioctl::DRM_MODE_TYPE_PREFERRED != 0
}

/// A connector's state, freshly fetched: identity, connection status,
/// physical size, supported modes and current property values.
#[derive(Debug, Clone, PartialEq, Eq)]
pub struct ConnectorState {
    pub id: ConnectorId,
    pub current_encoder_id: EncoderId,
    pub connector_type: ConnectorType,
    pub connector_type_id: u32,
    pub connection_state: ConnectionState,
    pub width_mm: u32,
    pub height_mm: u32,
    pub subpixel_type: SubpixelType,
    pub modes: Vec<ModeInfo>,
    pub props: Vec<ModeProp>,
    pub available_encoder_ids: Vec<u32>,
}

impl ConnectorState {
    /// The first mode the device marks as preferred, if any.
    pub fn preferred_mode(&self) -> (r: Option<&ModeInfo>)
        ensures
            match r {
                Some(m) => exists|i: int|
                    0 <= i < self.modes@.len() && *m == self.modes@[i] && spec_mode_is_preferred(
                        self.modes@[i],
                    ) && (forall|j: int|
                        0 <= j < i ==> !spec_mode_is_preferred(self.modes@[j])),
                None => forall|i: int|
                    0 <= i < self.modes@.len() ==> !spec_mode_is_preferred(self.modes@[i]),
            },
    {
        let mut i: usize = 0;
        while i < self.modes.len()
            invariant
                0 <= i <= self.modes@.len(),
                forall|j: int| 0 <= j < i ==> !spec_mode_is_preferred(self.modes@[j]),
            decreases self.modes@.len() - i,
        {
            if (self.modes[i].typ & ioctl::DRM_MODE_TYPE_PREFERRED) != 0 {
                let m = &self.modes[i];
                assert(spec_mode_is_preferred(self.modes@[i as int]));
                return Some(m);
            }
            i += 1;
        }
        None
    }
}

/// Whether a connector has something attached to it.
#[derive(Debug, PartialEq, Eq, Copy, Clone, Structural)]
pub enum ConnectionState {
    Connected,
    Disconnected,
    Unknown,
}

/// The connection state that a raw status value decodes to.
pub open spec fn spec_connection_state_from_raw(v: u32) -> ConnectionState {
    if v == 1 {
        ConnectionState::Connected
    } else if v == 2 {
        ConnectionState::Disconnected
    } else {
        ConnectionState::Unknown
    }
}

impl ConnectionState {
    /// Decode the raw connection status value.
    pub fn from_raw(v: u32) -> (r: ConnectionState)
        ensures
            r == spec_connection_state_from_raw(v),
    {
        match v {
            1 => ConnectionState::Connected,
            2 => ConnectionState::Disconnected,
            _ => ConnectionState::Unknown,
        }
    }
}

/// The physical or virtual port type of a connector.
#[derive(Debug, PartialEq, Eq, Clone, Copy, Structural)]
pub enum ConnectorType {
    Unknown,
    Vga,
    DviI,
    DviD,
    DviA,
    Composite,
    SVideo,
    Lvds,
    Component,
    NinePinDin,
    DisplayPort,
    HdmiA,
    HdmiB,
    Tv,
    Edp,
    Virtual,
    Dsi,
    Dpi,
    Writeback,
    Spi,
    Usb,
    /// Not used by the kernel: stands for any value this crate has no name
    /// for yet.
    Other,
}

/// The connector type that a raw type value decodes to.
pub open spec fn spec_connector_type_from_raw(v: u32) -> ConnectorType {
    if v == 0 {
        ConnectorType::Unknown
    } else if v == 1 {
        ConnectorType::Vga
    } else if v == 2 {
        ConnectorType::DviI
    } else if v == 3 {
        ConnectorType::DviD
    } else if v == 4 {
        ConnectorType::DviA
    } else if v == 5 {
        ConnectorType::Composite
    } else if v == 6 {
        ConnectorType::SVideo
    } else if v == 7 {
        ConnectorType::Lvds
    } else if v == 8 {
        ConnectorType::Component
    } else if v == 9 {
        ConnectorType::NinePinDin
    } else if v == 10 {
        ConnectorType::DisplayPort
    } else if v == 11 {
        ConnectorType::HdmiA
    } else if v == 12 {
        ConnectorType::HdmiB
    } else if v == 13 {
        ConnectorType::Tv
    } else if v == 14 {
        ConnectorType::Edp
    } else if v == 15 {
        ConnectorType::Virtual
    } else if v == 16 {
        ConnectorType::Dsi
    } else if v == 17 {
        ConnectorType::Dpi
    } else if v == 18 {
        ConnectorType::Writeback
    } else if v == 19 {
        ConnectorType::Spi
    } else if v == 20 {
        ConnectorType::Usb
    } else {
        ConnectorType::Other
    }
}

impl ConnectorType {
    /// Decode the raw connector type value.
    pub fn from_raw(v: u32) -> (r: ConnectorType)
        ensures
            r == spec_connector_type_from_raw(v),
    {
        match v {
            0 => ConnectorType::Unknown,
            1 => ConnectorType::Vga,
            2 => ConnectorType::DviI,
            3 => ConnectorType::DviD,
            4 => ConnectorType::DviA,
            5 => ConnectorType::Composite,
            6 => ConnectorType::SVideo,
            7 => ConnectorType::Lvds,
            8 => ConnectorType::Component,
            9 => ConnectorType::NinePinDin,
            10 => ConnectorType::DisplayPort,
            11 => ConnectorType::HdmiA,
            12 => ConnectorType::HdmiB,
            13 => ConnectorType::Tv,
            14 => ConnectorType::Edp,
            15 => ConnectorType::Virtual,
            16 => ConnectorType::Dsi,
            17 => ConnectorType::Dpi,
            18 => ConnectorType::Writeback,
            19 => ConnectorType::Spi,
            20 => ConnectorType::Usb,
            _ => ConnectorType::Other,
        }
    }
}

/// An encoder's state, freshly fetched: its current CRTC and the CRTCs and
/// sibling encoders it could legally pair with, as bitmasks.
#[derive(Debug, Clone, Copy, PartialEq, Eq, Structural)]
pub struct EncoderState {
    pub encoder_id: EncoderId,
    pub encoder_type: u32,
    pub current_crtc_id: CrtcId,
    pub possible_crtcs: u32,
    pub possible_clones: u32,
}

/// Assemble an encoder snapshot from a reply record.
pub fn encoder_state_from_raw(raw: &ioctl::DrmModeGetEncoder) -> (r: EncoderState)
    ensures
        r == (EncoderState {
            encoder_id: EncoderId(raw.encoder_id),
            encoder_type: raw.encoder_type,
            current_crtc_id: CrtcId(raw.crtc_id),
            possible_crtcs: raw.possible_crtcs,
            possible_clones: raw.possible_clones,
        }),
{
    EncoderState {
        encoder_id: EncoderId(raw.encoder_id),
        encoder_type: raw.encoder_type,
        current_crtc_id: CrtcId(raw.crtc_id),
        possible_crtcs: raw.possible_crtcs,
        possible_clones: raw.possible_clones,
    }
}

/// A CRTC's state, freshly fetched: the framebuffer it scans out, its
/// position in that buffer, and its active mode.
#[derive(Debug, Clone, PartialEq, Eq)]
pub struct CrtcState {
    pub crtc_id: CrtcId,
    pub fb_id: FramebufferId,
    pub x: u32,
    pub y: u32,
    pub gamma_size: u32,
    pub mode_valid: u32,
    pub mode: ModeInfo,
}

impl CrtcState {
    /// Assemble a CRTC snapshot from a reply record.
    pub fn from_raw(raw: &ioctl::DrmModeCrtc) -> (r: CrtcState)
        ensures
            r.crtc_id == CrtcId(raw.crtc_id),
            r.fb_id == FramebufferId(raw.fb_id),
            r.x == raw.x,
            r.y == raw.y,
            r.gamma_size == raw.gamma_size,
            r.mode_valid == raw.mode_valid,
            spec_mode_info_matches_raw(r.mode, raw.mode),
    {
        CrtcState {
            crtc_id: CrtcId(raw.crtc_id),
            fb_id: FramebufferId(raw.fb_id),
            x: raw.x,
            y: raw.y,
            gamma_size: raw.gamma_size,
            mode_valid: raw.mode_valid,
            mode: ModeInfo::from_raw(&raw.mode),
        }
    }
}

/// A plane's state, freshly fetched: its current CRTC and framebuffer
/// association.
#[derive(Debug, Clone, Copy, PartialEq, Eq, Structural)]
pub struct PlaneState {
    pub id: PlaneId,
    pub crtc_id: CrtcId,
    pub fb_id: FramebufferId,
    pub possible_crtcs: u32,
    pub gamma_size: u32,
}

/// Assemble a plane snapshot from a reply record.
pub fn plane_state_from_raw(raw: &ioctl::DrmModeGetPlane) -> (r: PlaneState)
    ensures
        r == (PlaneState {
            id: PlaneId(raw.plane_id),
            crtc_id: CrtcId(raw.crtc_id),
            fb_id: FramebufferId(raw.fb_id),
            possible_crtcs: raw.possible_crtcs,
            gamma_size: raw.gamma_size,
        }),
{
    PlaneState {
        id: PlaneId(raw.plane_id),
        crtc_id: CrtcId(raw.crtc_id),
        fb_id: FramebufferId(raw.fb_id),
        possible_crtcs: raw.possible_crtcs,
        gamma_size: raw.gamma_size,
    }
}

/// A display timing descriptor. The name holds the bytes before the first
/// zero of the fixed-size wire field; packing truncates it silently to the
/// field's capacity.
#[derive(Debug, Clone, PartialEq, Eq)]
pub struct ModeInfo {
    pub name: Vec<u8>,
    pub clock: u32,
    pub hdisplay: u16,
    pub hsync_start: u16,
    pub hsync_end: u16,
    pub htotal: u16,
    pub hskew: u16,
    pub vdisplay: u16,
    pub vsync_start: u16,
    pub vsync_end: u16,
    pub vtotal: u16,
    pub vscan: u16,
    pub vrefresh: u32,
    pub flags: u32,
    pub typ: u32,
}

/// The bytes of a name field before its first zero byte; the whole field
/// if it holds no zero.
pub open spec fn spec_name_prefix(s: Seq<u8>) -> Seq<u8>
    decreases s.len(),
{
    if s.len() == 0 || s[0] == 0 {
        Seq::empty()
    } else {
        seq![s[0]].add(spec_name_prefix(s.subrange(1, s.len() as int)))
    }
}

/// A scan that stopped at position `i`, either on a zero byte or at the
/// field's end, has read exactly the name prefix.
proof fn lemma_name_prefix_take(s: Seq<u8>, i: int)
    requires
        0 <= i <= s.len(),
        forall|j: int| 0 <= j < i ==> s[j] != 0,
        i == s.len() || s[i] == 0,
    ensures
        spec_name_prefix(s) == s.take(i),
    decreases i,
{
    if i == 0 {
        assert(spec_name_prefix(s) =~= s.take(0));
    } else {
        let rest = s.subrange(1, s.len() as int);
        lemma_name_prefix_take(rest, i - 1);
        assert(s.take(i) =~= seq![s[0]].add(rest.take(i - 1)));
    }
}

/// Copy the bytes of a fixed-size name field up to its first zero byte.
pub fn read_name_field(name: &[u8; 32]) -> (r: Vec<u8>)
    ensures
        r@ == spec_name_prefix(name@),
{
    let mut r: Vec<u8> = Vec::new();
    let mut i: usize = 0;
    while i < 32 && name[i] != 0
        invariant
            0 <= i <= 32,
            name@.len() == 32,
            r@ == name@.take(i as int),
            forall|j: int| 0 <= j < i ==> name@[j] != 0,
        decreases 32 - i,
    {
        r.push(name[i]);
        assert(r@ =~= name@.take(i + 1));
        i += 1;
    }
    proof {
        lemma_name_prefix_take(name@, i as int);
    }
    r
}

/// Whether an unpacked mode equals a raw record field for field, with the
/// name unpacked up to its first zero byte.
pub open spec fn spec_mode_info_matches_raw(m: ModeInfo, raw: ioctl::DrmModeInfo) -> bool {
    &&& m.name@ == spec_name_prefix(raw.name@)
    &&& m.clock == raw.clock
    &&& m.hdisplay == raw.hdisplay
    &&& m.hsync_start == raw.hsync_start
    &&& m.hsync_end == raw.hsync_end
    &&& m.htotal == raw.htotal
    &&& m.hskew == raw.hskew
    &&& m.vdisplay == raw.vdisplay
    &&& m.vsync_start == raw.vsync_start
    &&& m.vsync_end == raw.vsync_end
    &&& m.vtotal == raw.vtotal
    &&& m.vscan == raw.vscan
    &&& m.vrefresh == raw.vrefresh
    &&& m.flags == raw.flags
    &&& m.typ == raw.typ
}

/// How many of a mode's name bytes fit in the wire field: all of them, but
/// capped one short of the field size so a zero terminator always fits.
pub open spec fn spec_packed_name_len(name: Seq<u8>) -> int {
    if name.len() <= 31 {
        name.len() as int
    } else {
        31
    }
}

/// Whether a raw record equals an unpacked mode field for field, with the
/// name truncated to the wire field's capacity and zero-padded.
pub open spec fn spec_raw_matches_mode_info(raw: ioctl::DrmModeInfo, m: ModeInfo) -> bool {
    &&& raw.name@.len() == 32
    &&& (forall|k: int| 0 <= k < spec_packed_name_len(m.name@) ==> raw.name@[k] == m.name@[k])
    &&& (forall|k: int| spec_packed_name_len(m.name@) <= k < 32 ==> raw.name@[k] == 0)
    &&& raw.clock == m.clock
    &&& raw.hdisplay == m.hdisplay
    &&& raw.hsync_start == m.hsync_start
    &&& raw.hsync_end == m.hsync_end
    &&& raw.htotal == m.htotal
    &&& raw.hskew == m.hskew
    &&& raw.vdisplay == m.vdisplay
    &&& raw.vsync_start == m.vsync_start
    &&& raw.vsync_end == m.vsync_end
    &&& raw.vtotal == m.vtotal
    &&& raw.vscan == m.vscan
    &&& raw.vrefresh == m.vrefresh
    &&& raw.flags == m.flags
    &&& raw.typ == m.typ
}

impl ModeInfo {
    /// Unpack a raw record, reading the name up to its first zero byte.
    pub fn from_raw(raw: &ioctl::DrmModeInfo) -> (r: ModeInfo)
        ensures
            spec_mode_info_matches_raw(r, *raw),
    {
        let name = read_name_field(&raw.name);
        ModeInfo {
            name,
            clock: raw.clock,
            hdisplay: raw.hdisplay,
            hsync_start: raw.hsync_start,
            hsync_end: raw.hsync_end,
            htotal: raw.htotal,
            hskew: raw.hskew,
            vdisplay: raw.vdisplay,
            vsync_start: raw.vsync_start,
            vsync_end: raw.vsync_end,
            vtotal: raw.vtotal,
            vscan: raw.vscan,
            vrefresh: raw.vrefresh,
            flags: raw.flags,
            typ: raw.typ,
        }
    }

    /// Pack into a raw record, truncating the name silently to what the
    /// wire field can hold beside a zero terminator, and zero-padding the
    /// rest of the field.
    pub fn to_raw(&self) -> (r: ioctl::DrmModeInfo)
        ensures
            spec_raw_matches_mode_info(r, *self),
    {
        let mut name: [u8; 32] = [0u8; 32];
        let name_len: usize = if self.name.len() < 31 {
            self.name.len()
        } else {
            31
        };
        let mut i: usize = 0;
        while i < name_len
            invariant
                0 <= i <= name_len,
                name_len == spec_packed_name_len(self.name@),
                name_len <= self.name@.len(),
                name@.len() == 32,
                forall|k: int| 0 <= k < i ==> name@[k] == self.name@[k],
                forall|k: int| i <= k < 32 ==> name@[k] == 0,
            decreases name_len - i,
        {
            name[i] = self.name[i];
            i += 1;
        }
        ioctl::DrmModeInfo {
            clock: self.clock,
            hdisplay: self.hdisplay,
            hsync_start: self.hsync_start,
            hsync_end: self.hsync_end,
            htotal: self.htotal,
            hskew: self.hskew,
            vdisplay: self.vdisplay,
            vsync_start: self.vsync_start,
            vsync_end: self.vsync_end,
            vtotal: self.vtotal,
            vscan: self.vscan,
            vrefresh: self.vrefresh,
            flags: self.flags,
            typ: self.typ,
            name,
        }
    }
}

/// A mode whose name fits the wire field beside its zero terminator and
/// holds no zero byte itself round-trips through the fixed-size record
/// unchanged: unpacking the packed record recovers the same name and the
/// same timing fields.
pub proof fn lemma_mode_round_trip(raw: ioctl::DrmModeInfo, m: ModeInfo)
    requires
        m.name@.len() <= 31,
        forall|j: int| 0 <= j < m.name@.len() ==> m.name@[j] != 0,
        spec_raw_matches_mode_info(raw, m),
    ensures
        spec_name_prefix(raw.name@) == m.name@,
        forall|m2: ModeInfo|
            spec_mode_info_matches_raw(m2, raw) ==> m2.name@ == m.name@ && m2.clock == m.clock
                && m2.hdisplay == m.hdisplay && m2.hsync_start == m.hsync_start && m2.hsync_end
                == m.hsync_end && m2.htotal == m.htotal && m2.hskew == m.hskew && m2.vdisplay
                == m.vdisplay && m2.vsync_start == m.vsync_start && m2.vsync_end == m.vsync_end
                && m2.vtotal == m.vtotal && m2.vscan == m.vscan && m2.vrefresh == m.vrefresh
                && m2.flags == m.flags && m2.typ == m.typ,
{
    let n = m.name@.len() as int;
    lemma_name_prefix_take(raw.name@, n);
    assert(raw.name@.take(n) =~= m.name@);
}

/// Assemble a connector snapshot from a consistent reply record and the
/// three arrays the device filled. The property ids and values come as the
/// two halves of one parallel pair and are zipped back together here.
pub fn connector_state_from_raw(
    conn: &ioctl::DrmModeGetConnector,
    modes: &Vec<ioctl::DrmModeInfo>,
    encoder_ids: Vec<u32>,
    prop_ids: &Vec<u32>,
    prop_values: &Vec<u64>,
) -> (r: ConnectorState)
    requires
        prop_ids@.len() == prop_values@.len(),
    ensures
        r.id == ConnectorId(conn.connector_id),
        r.current_encoder_id == EncoderId(conn.encoder_id),
        r.connector_type == spec_connector_type_from_raw(conn.connector_type),
        r.connector_type_id == conn.connector_type_id,
        r.connection_state == spec_connection_state_from_raw(conn.connection),
        r.width_mm == conn.mm_width,
        r.height_mm == conn.mm_height,
        r.subpixel_type == spec_subpixel_type_from_raw(conn.subpixel),
        r.modes@.len() == modes@.len(),
        forall|i: int|
            0 <= i < modes@.len() ==> spec_mode_info_matches_raw(r.modes@[i], modes@[i]),
        r.props@.len() == prop_ids@.len(),
        forall|i: int|
            0 <= i < prop_ids@.len() ==> r.props@[i] == (ModeProp {
                prop_id: PropertyId(prop_ids@[i]),
                value: prop_values@[i],
            }),
        r.available_encoder_ids == encoder_ids,
{
    let mut ret_modes: Vec<ModeInfo> = Vec::new();
    let mut i: usize = 0;
    while i < modes.len()
        invariant
            0 <= i <= modes@.len(),
            ret_modes@.len() == i,
            forall|j: int|
                0 <= j < i ==> spec_mode_info_matches_raw(ret_modes@[j], modes@[j]),
        decreases modes@.len() - i,
    {
        ret_modes.push(ModeInfo::from_raw(&modes[i]));
        i += 1;
    }
    let props = object_properties_from_raw(prop_ids, prop_values);
    ConnectorState {
        id: ConnectorId(conn.connector_id),
        current_encoder_id: EncoderId(conn.encoder_id),
        connector_type: ConnectorType::from_raw(conn.connector_type),
        connector_type_id: conn.connector_type_id,
        connection_state: ConnectionState::from_raw(conn.connection),
        width_mm: conn.mm_width,
        height_mm: conn.mm_height,
        subpixel_type: SubpixelType::from_raw(conn.subpixel),
        modes: ret_modes,
        props,
        available_encoder_ids: encoder_ids,
    }
}

/// The physical layout of a connector's subpixels.
#[derive(Debug, Clone, Copy, PartialEq, Eq, Structural)]
pub enum SubpixelType {
    Unknown,
    HorizontalRgb,
    HorizontalBgr,
    VerticalRgb,
    VerticalBgr,
    NoSubpixel,
}

/// The subpixel type that a raw value decodes to.
pub open spec fn spec_subpixel_type_from_raw(v: u32) -> SubpixelType {
    if v == 2 {
        SubpixelType::HorizontalRgb
    } else if v == 3 {
        SubpixelType::HorizontalBgr
    } else if v == 4 {
        SubpixelType::VerticalRgb
    } else if v == 5 {
        SubpixelType::VerticalBgr
    } else {
        SubpixelType::Unknown
    }
}

impl SubpixelType {
    /// Decode the raw subpixel value.
    pub fn from_raw(v: u32) -> (r: SubpixelType)
        ensures
            r == spec_subpixel_type_from_raw(v),
    {
        match v {
            2 => SubpixelType::HorizontalRgb,
            3 => SubpixelType::HorizontalBgr,
            4 => SubpixelType::VerticalRgb,
            5 => SubpixelType::VerticalBgr,
            _ => SubpixelType::Unknown,
        }
    }
}

/// Flags for a legacy page-flip request.
#[derive(Debug, Clone, Copy, PartialEq, Eq, Structural)]
pub struct PageFlipFlags(pub u32);

impl PageFlipFlags {
    /// No flags.
    pub fn none() -> (r: Self)
        ensures
            r.0 == 0,
    {
        PageFlipFlags(0)
    }

    /// Ask for a flip-completion event carrying the request's token.
    pub fn event() -> (r: Self)
        ensures
            r.0 == ioctl::DRM_MODE_PAGE_FLIP_EVENT,
    {
        PageFlipFlags(ioctl::DRM_MODE_PAGE_FLIP_EVENT)
    }

    /// Ask for the flip to happen as soon as possible, without waiting for
    /// the vertical blank.
    pub fn async_flip() -> (r: Self)
        ensures
            r.0 == ioctl::DRM_MODE_PAGE_FLIP_ASYNC,
    {
        PageFlipFlags(ioctl::DRM_MODE_PAGE_FLIP_ASYNC)
    }

    /// The combination of two flag sets.
    pub fn union(self, rhs: Self) -> (r: Self)
        ensures
            r.0 == self.0 | rhs.0,
    {
        PageFlipFlags(self.0 | rhs.0)
    }

    /// The raw flags word sent to the device.
    pub fn to_raw(self) -> (r: u32)
        ensures
            r == self.0,
    {
        self.0
    }
}

} // verus!
