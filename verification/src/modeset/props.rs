//! Property metadata: decoding a property's type and mutability from its
//! raw flags, materialising fetched metadata, enum and bitmask members,
//! raw property values, and kernel-held property blobs.

use vstd::prelude::*;

verus! {

use crate::ioctl;
use crate::modeset::{BlobId, PropertyId, spec_name_prefix, read_name_field};
use crate::result::Error;

/// One (property id, current value) pair of an object.
#[derive(Debug, Clone, Copy, PartialEq, Eq, Structural)]
pub struct ModeProp {
    pub prop_id: PropertyId,
    pub value: u64,
}

/// Zip the two halves of a fetched property list back into pairs.
pub fn object_properties_from_raw(prop_ids: &Vec<u32>, prop_values: &Vec<u64>) -> (r: Vec<
    ModeProp,
>)
    requires
        prop_ids@.len() == prop_values@.len(),
    ensures
        r@.len() == prop_ids@.len(),
        forall|i: int|
            0 <= i < prop_ids@.len() ==> r@[i] == (ModeProp {
                prop_id: PropertyId(prop_ids@[i]),
                value: prop_values@[i],
            }),
{
    let mut r: Vec<ModeProp> = Vec::new();
    let mut i: usize = 0;
    while i < prop_ids.len()
        invariant
            0 <= i <= prop_ids@.len(),
            prop_ids@.len() == prop_values@.len(),
            r@.len() == i,
            forall|j: int|
                0 <= j < i ==> r@[j] == (ModeProp {
                    prop_id: PropertyId(prop_ids@[j]),
                    value: prop_values@[j],
                }),
        decreases prop_ids@.len() - i,
    {
        r.push(ModeProp { prop_id: PropertyId(prop_ids[i]), value: prop_values[i] });
        i += 1;
    }
    r
}

/// The type of values a property carries.
#[derive(Debug, Clone, Copy, PartialEq, Eq, Structural)]
#[non_exhaustive]
pub enum PropertyType {
    Unknown,
    Range,
    Enum,
    Blob,
    Bitmask,
    Object,
    SignedRange,
}

/// The (type, immutable) pair that a raw flags word decodes to.
///
/// The immutable bit is independent of the type. The type is decoded
/// from two mutually exclusive bit groups: the legacy flag group is
/// consulted first and wins if both groups are somehow set; only a flags
/// word with no legacy type bit is read by its extended-type value. A
/// group value that matches no known encoding decodes to `Unknown`.
pub open spec fn spec_property_type_from_flags(flags: u32) -> (PropertyType, bool) {
    let immutable = flags & ioctl::DRM_MODE_PROP_IMMUTABLE != 0;
    let legacy = flags & ioctl::DRM_MODE_PROP_LEGACY_TYPE;
    let extended = flags & ioctl::DRM_MODE_PROP_EXTENDED_TYPE;
    let typ = if legacy == ioctl::DRM_MODE_PROP_RANGE {
        PropertyType::Range
    } else if legacy == ioctl::DRM_MODE_PROP_ENUM {
        PropertyType::Enum
    } else if legacy == ioctl::DRM_MODE_PROP_BLOB {
        PropertyType::Blob
    } else if legacy == ioctl::DRM_MODE_PROP_BITMASK {
        PropertyType::Bitmask
    } else if legacy != 0 {
        PropertyType::Unknown
    } else if extended == ioctl::DRM_MODE_PROP_OBJECT {
        PropertyType::Object
    } else if extended == ioctl::DRM_MODE_PROP_SIGNED_RANGE {
        PropertyType::SignedRange
    } else {
        PropertyType::Unknown
    };
    (typ, immutable)
}

impl PropertyType {
    /// Decode a raw flags word into the property type and immutable flag.
    pub fn from_raw_flags(flags: u32) -> (r: (PropertyType, bool))
        ensures
            r == spec_property_type_from_flags(flags),
    {
        let immutable = (flags & ioctl::DRM_MODE_PROP_IMMUTABLE) != 0;
        let legacy = flags & ioctl::DRM_MODE_PROP_LEGACY_TYPE;
        let extended = flags & ioctl::DRM_MODE_PROP_EXTENDED_TYPE;
        let typ = if legacy == ioctl::DRM_MODE_PROP_RANGE {
            PropertyType::Range
        } else if legacy == ioctl::DRM_MODE_PROP_ENUM {
            PropertyType::Enum
        } else if legacy == ioctl::DRM_MODE_PROP_BLOB {
            PropertyType::Blob
        } else if legacy == ioctl::DRM_MODE_PROP_BITMASK {
            PropertyType::Bitmask
        } else if legacy != 0 {
            PropertyType::Unknown
        } else if extended == ioctl::DRM_MODE_PROP_OBJECT {
            PropertyType::Object
        } else if extended == ioctl::DRM_MODE_PROP_SIGNED_RANGE {
            PropertyType::SignedRange
        } else {
            PropertyType::Unknown
        };
        (typ, immutable)
    }
}

/// Whether every byte of a fixed-size name field is ASCII.
pub open spec fn spec_name_field_is_ascii(name: Seq<u8>) -> bool {
    forall|i: int| 0 <= i < name.len() ==> name[i] < 128
}

/// Check that every byte of a name field is ASCII.
pub fn name_field_is_ascii(name: &[u8; 32]) -> (r: bool)
    ensures
        r <==> spec_name_field_is_ascii(name@),
{
    let mut i: usize = 0;
    while i < 32
        invariant
            0 <= i <= 32,
            name@.len() == 32,
            forall|j: int| 0 <= j < i ==> name@[j] < 128,
        decreases 32 - i,
    {
        if name[i] >= 128 {
            return false;
        }
        i += 1;
    }
    true
}

/// Metadata for one property id: its name, flags and element counts, as
/// fetched from the device.
#[derive(Debug, Clone, Copy, PartialEq, Eq)]
pub struct ObjectPropMeta {
    pub raw: ioctl::DrmModeGetProperty,
}

/// Materialise property metadata from a fetched reply.
///
/// A name holding a non-ASCII byte is rejected at this point, before any
/// caller can treat it as text.
pub fn property_meta_from_reply(reply: &ioctl::DrmModeGetProperty) -> (r: Result<
    ObjectPropMeta,
    Error,
>)
    ensures
        spec_name_field_is_ascii(reply.name@) ==> r == Result::<ObjectPropMeta, Error>::Ok(
            ObjectPropMeta { raw: *reply },
        ),
        !spec_name_field_is_ascii(reply.name@) ==> r == Result::<ObjectPropMeta, Error>::Err(
            Error::NotSupported,
        ),
{
    if !name_field_is_ascii(&reply.name) {
        return Err(Error::NotSupported);
    }
    Ok(ObjectPropMeta::new(*reply))
}

impl ObjectPropMeta {
    /// Wrap a fetched metadata reply.
    pub fn new(raw: ioctl::DrmModeGetProperty) -> (r: Self)
        ensures
            r.raw == raw,
    {
        ObjectPropMeta { raw }
    }

    /// The id this metadata describes.
    pub fn property_id(&self) -> (r: PropertyId)
        ensures
            r == PropertyId(self.raw.prop_id),
    {
        PropertyId(self.raw.prop_id)
    }

    /// The property's name: the bytes of the name field before its first
    /// zero byte.
    pub fn name(&self) -> (r: Vec<u8>)
        ensures
            r@ == spec_name_prefix(self.raw.name@),
    {
        read_name_field(&self.raw.name)
    }

    /// The property's type.
    pub fn property_type(&self) -> (r: PropertyType)
        ensures
            r == spec_property_type_from_flags(self.raw.flags).0,
    {
        let (ret, _) = PropertyType::from_raw_flags(self.raw.flags);
        ret
    }

    /// Whether the property can never be written.
    pub fn is_immutable(&self) -> (r: bool)
        ensures
            r == spec_property_type_from_flags(self.raw.flags).1,
    {
        let (_, immut) = PropertyType::from_raw_flags(self.raw.flags);
        immut
    }

    /// Whether the property can be written.
    pub fn is_mutable(&self) -> (r: bool)
        ensures
            r == !spec_property_type_from_flags(self.raw.flags).1,
    {
        !self.is_immutable()
    }

    /// Whether this property's decoded type is `Range` or `SignedRange`,
    /// making a two-value fetch meaningful.
    pub fn is_range_typed(&self) -> (r: bool)
        ensures
            r <==> (spec_property_type_from_flags(self.raw.flags).0 == PropertyType::Range
                || spec_property_type_from_flags(self.raw.flags).0 == PropertyType::SignedRange),
    {
        let (typ, _) = PropertyType::from_raw_flags(self.raw.flags);
        match typ {
            PropertyType::Range => true,
            PropertyType::SignedRange => true,
            _ => false,
        }
    }

    /// Whether this property's decoded type is `Enum` or `Bitmask`, so
    /// that it has a member list at all.
    pub fn has_enum_members(&self) -> (r: bool)
        ensures
            r <==> (spec_property_type_from_flags(self.raw.flags).0 == PropertyType::Enum
                || spec_property_type_from_flags(self.raw.flags).0 == PropertyType::Bitmask),
    {
        let (typ, _) = PropertyType::from_raw_flags(self.raw.flags);
        match typ {
            PropertyType::Enum => true,
            PropertyType::Bitmask => true,
            _ => false,
        }
    }

    /// Validate this property for a range fetch and build the content
    /// request for its two values.
    ///
    /// A property whose decoded type is neither `Range` nor `SignedRange`
    /// cannot answer, so asking is a contract violation reported as
    /// `NotSupported`; a range property whose value count is not exactly
    /// two is a device-side failure. On success the returned record asks
    /// for exactly two values; the caller attaches a two-element buffer
    /// and issues the exchange.
    pub fn range_request(&self) -> (r: Result<ioctl::DrmModeGetProperty, Error>)
        ensures
            ({
                let typ = spec_property_type_from_flags(self.raw.flags).0;
                let is_range = typ == PropertyType::Range || typ == PropertyType::SignedRange;
                &&& !is_range ==> r == Result::<ioctl::DrmModeGetProperty, Error>::Err(
                    Error::NotSupported,
                )
                &&& is_range && self.raw.count_values != 2 ==> r == Result::<
                    ioctl::DrmModeGetProperty,
                    Error,
                >::Err(Error::RemoteFailure)
                &&& is_range && self.raw.count_values == 2 ==> (r matches Result::Ok(req)
                    && req.prop_id == self.raw.prop_id && req.count_values == 2 && req.values_ptr
                    == 0 && req.enum_blob_ptr == 0 && req.count_enum_blobs == 0)
            }),
    {
        if !self.is_range_typed() {
            return Err(Error::NotSupported);
        }
        if self.raw.count_values != 2 {
            return Err(Error::RemoteFailure);
        }
        let mut req = ioctl::DrmModeGetProperty::zeroed();
        req.prop_id = self.raw.prop_id;
        req.count_values = 2;
        Ok(req)
    }

    /// Read the (minimum, maximum) pair out of a range-fetch reply.
    ///
    /// A reply whose count is no longer two means the device changed its
    /// answer underneath us: a device-side failure.
    pub fn range_from_reply(&self, reply: &ioctl::DrmModeGetProperty, pair: &[u64; 2]) -> (r:
        Result<(u64, u64), Error>)
        ensures
            reply.count_values == 2 ==> r == Result::<(u64, u64), Error>::Ok(
                (pair@[0], pair@[1]),
            ),
            reply.count_values != 2 ==> r == Result::<(u64, u64), Error>::Err(
                Error::RemoteFailure,
            ),
    {
        if reply.count_values != 2 {
            return Err(Error::RemoteFailure);
        }
        Ok((pair[0], pair[1]))
    }

    /// Build the content request for this property's value list, asking
    /// for the given number of values.
    pub fn values_request(&self, count: u32) -> (r: ioctl::DrmModeGetProperty)
        ensures
            r.prop_id == self.raw.prop_id,
            r.count_values == count,
            r.values_ptr == 0,
            r.enum_blob_ptr == 0,
            r.count_enum_blobs == 0,
    {
        let mut req = ioctl::DrmModeGetProperty::zeroed();
        req.prop_id = self.raw.prop_id;
        req.count_values = count;
        req
    }

    /// Build the content request for this property's enum member list,
    /// asking for the given number of members.
    pub fn enum_members_request(&self, count: u32) -> (r: ioctl::DrmModeGetProperty)
        ensures
            r.prop_id == self.raw.prop_id,
            r.count_enum_blobs == count,
            r.values_ptr == 0,
            r.enum_blob_ptr == 0,
            r.count_values == 0,
    {
        let mut req = ioctl::DrmModeGetProperty::zeroed();
        req.prop_id = self.raw.prop_id;
        req.count_enum_blobs = count;
        req
    }
}

/// Wrap each fetched raw enum member.
pub fn enum_members_from_raw(members: Vec<ioctl::DrmModePropertyEnum>) -> (r: Vec<
    ObjectPropEnumMember,
>)
    ensures
        r@.len() == members@.len(),
        forall|i: int| 0 <= i < members@.len() ==> r@[i].raw == members@[i],
{
    let mut r: Vec<ObjectPropEnumMember> = Vec::new();
    let mut i: usize = 0;
    while i < members.len()
        invariant
            0 <= i <= members@.len(),
            r@.len() == i,
            forall|j: int| 0 <= j < i ==> r@[j].raw == members@[j],
        decreases members@.len() - i,
    {
        r.push(ObjectPropEnumMember { raw: members[i] });
        i += 1;
    }
    r
}

/// One member of an enum- or bitmask-typed property.
#[derive(Debug, Clone, Copy, PartialEq, Eq)]
pub struct ObjectPropEnumMember {
    pub raw: ioctl::DrmModePropertyEnum,
}

impl ObjectPropEnumMember {
    /// The member's stored value. For an enum property this is the value
    /// itself; for a bitmask property it is a bit index, not a mask.
    pub fn value(&self) -> (r: u64)
        ensures
            r == self.raw.value,
    {
        self.raw.value
    }

    /// The member's name: the bytes of the name field before its first
    /// zero byte.
    pub fn name(&self) -> (r: Vec<u8>)
        ensures
            r@ == spec_name_prefix(self.raw.name@),
    {
        read_name_field(&self.raw.name)
    }

    /// The mask that this member denotes under a bitmask-typed property:
    /// one shifted left by the stored bit index, or nothing if the index
    /// cannot address a 64-bit mask.
    pub fn bitmask_value(&self) -> (r: Option<u64>)
        ensures
            self.raw.value < 64 ==> r == Some(1u64 << self.raw.value),
            self.raw.value >= 64 ==> r is None,
    {
        if self.raw.value < 64 {
            Some(1u64 << (self.raw.value as u32))
        } else {
            None
        }
    }
}

/// An owned value that an atomic request must keep alive until the batch
/// is consumed or reset.
#[derive(Debug)]
pub enum DeferredValue {
    Blob(BlobHandle),
}

/// Types whose value can be sent as a raw 64-bit property value.
///
/// For types that stand for other objects already known by the kernel,
/// such as property blobs, the caller must keep the original object live
/// for as long as the raw value is being used in requests.
pub trait AsRawPropertyValue: Sized {
    /// The raw value this object stands for.
    spec fn spec_raw_value(&self) -> u64;

    /// The raw `u64` representation to send to the kernel.
    fn as_raw_property_value(&self) -> (r: u64)
        ensures
            r == self.spec_raw_value(),
    ;
}

/// Types that can be converted into raw property values while handing
/// over ownership, so that the recipient can keep the object live long
/// enough for the raw value to stay valid.
pub trait IntoRawPropertyValue: AsRawPropertyValue {
    /// The raw `u64` representation, along with the owned value, if any,
    /// that must be kept live while that representation is in use.
    fn into_raw_property_value(self) -> (r: (u64, Option<DeferredValue>))
        ensures
            r.0 == self.spec_raw_value(),
    ;
}

impl AsRawPropertyValue for u64 {
    open spec fn spec_raw_value(&self) -> u64 {
        *self
    }

    fn as_raw_property_value(&self) -> u64 {
        *self
    }
}

impl IntoRawPropertyValue for u64 {
    fn into_raw_property_value(self) -> (u64, Option<DeferredValue>) {
        (self, None)
    }
}

impl AsRawPropertyValue for u32 {
    open spec fn spec_raw_value(&self) -> u64 {
        *self as u64
    }

    fn as_raw_property_value(&self) -> u64 {
        *self as u64
    }
}

impl IntoRawPropertyValue for u32 {
    fn into_raw_property_value(self) -> (u64, Option<DeferredValue>) {
        (self as u64, None)
    }
}

impl AsRawPropertyValue for u16 {
    open spec fn spec_raw_value(&self) -> u64 {
        *self as u64
    }

    fn as_raw_property_value(&self) -> u64 {
        *self as u64
    }
}

impl IntoRawPropertyValue for u16 {
    fn into_raw_property_value(self) -> (u64, Option<DeferredValue>) {
        (self as u64, None)
    }
}

impl AsRawPropertyValue for u8 {
    open spec fn spec_raw_value(&self) -> u64 {
        *self as u64
    }

    fn as_raw_property_value(&self) -> u64 {
        *self as u64
    }
}

impl IntoRawPropertyValue for u8 {
    fn into_raw_property_value(self) -> (u64, Option<DeferredValue>) {
        (self as u64, None)
    }
}

impl AsRawPropertyValue for usize {
    open spec fn spec_raw_value(&self) -> u64 {
        *self as u64
    }

    fn as_raw_property_value(&self) -> u64 {
        *self as u64
    }
}

impl IntoRawPropertyValue for usize {
    fn into_raw_property_value(self) -> (u64, Option<DeferredValue>) {
        (self as u64, None)
    }
}

impl AsRawPropertyValue for i64 {
    open spec fn spec_raw_value(&self) -> u64 {
        *self as u64
    }

    fn as_raw_property_value(&self) -> u64 {
        *self as u64
    }
}

impl IntoRawPropertyValue for i64 {
    fn into_raw_property_value(self) -> (u64, Option<DeferredValue>) {
        (self as u64, None)
    }
}

impl AsRawPropertyValue for i32 {
    open spec fn spec_raw_value(&self) -> u64 {
        *self as u64
    }

    fn as_raw_property_value(&self) -> u64 {
        *self as u64
    }
}

impl IntoRawPropertyValue for i32 {
    fn into_raw_property_value(self) -> (u64, Option<DeferredValue>) {
        (self as u64, None)
    }
}

impl AsRawPropertyValue for i16 {
    open spec fn spec_raw_value(&self) -> u64 {
        *self as u64
    }

    fn as_raw_property_value(&self) -> u64 {
        *self as u64
    }
}

impl IntoRawPropertyValue for i16 {
    fn into_raw_property_value(self) -> (u64, Option<DeferredValue>) {
        (self as u64, None)
    }
}

impl AsRawPropertyValue for i8 {
    open spec fn spec_raw_value(&self) -> u64 {
        *self as u64
    }

    fn as_raw_property_value(&self) -> u64 {
        *self as u64
    }
}

impl IntoRawPropertyValue for i8 {
    fn into_raw_property_value(self) -> (u64, Option<DeferredValue>) {
        (self as u64, None)
    }
}

impl AsRawPropertyValue for isize {
    open spec fn spec_raw_value(&self) -> u64 {
        *self as u64
    }

    fn as_raw_property_value(&self) -> u64 {
        *self as u64
    }
}

impl IntoRawPropertyValue for isize {
    fn into_raw_property_value(self) -> (u64, Option<DeferredValue>) {
        (self as u64, None)
    }
}

impl AsRawPropertyValue for bool {
    open spec fn spec_raw_value(&self) -> u64 {
        if *self {
            1
        } else {
            0
        }
    }

    fn as_raw_property_value(&self) -> u64 {
        if *self {
            1
        } else {
            0
        }
    }
}

impl IntoRawPropertyValue for bool {
    fn into_raw_property_value(self) -> (u64, Option<DeferredValue>) {
        (if self { 1 } else { 0 }, None)
    }
}

/// A handle for a live kernel-held property blob.
///
/// The kernel-side object outlives this value only if the id is taken out
/// first; releasing it is best-effort and idempotent, and is performed by
/// the caller that owns the device handle.
#[derive(Debug, Clone, Copy, PartialEq, Eq, Structural)]
pub struct BlobHandle {
    pub id: Option<BlobId>,
}

impl BlobHandle {
    /// Wrap a freshly created blob id.
    pub fn new(id: BlobId) -> (r: Self)
        ensures
            r.id == Some(id),
    {
        BlobHandle { id: Some(id) }
    }

    /// The blob's id.
    pub fn id(&self) -> (r: BlobId)
        requires
            self.id is Some,
        ensures
            r == self.id->0,
    {
        match self.id {
            Some(id) => id,
            None => BlobId(0),
        }
    }

    /// Consume the handle, handing back the id that the caller must now
    /// release with the device, if the handle still holds one.
    pub fn destroy(self) -> (r: Option<BlobId>)
        ensures
            r == self.id,
    {
        self.id
    }

    /// Take the id out for a best-effort release, leaving the handle
    /// empty so that a second teardown is a no-op.
    pub fn take_for_destroy(&mut self) -> (r: Option<BlobId>)
        ensures
            r == old(self).id,
            final(self).id is None,
    {
        let r = self.id;
        self.id = None;
        r
    }
}

impl AsRawPropertyValue for BlobHandle {
    open spec fn spec_raw_value(&self) -> u64 {
        match self.id {
            Some(id) => id.0 as u64,
            None => 0,
        }
    }

    fn as_raw_property_value(&self) -> u64 {
        match self.id {
            Some(id) => id.0 as u64,
            None => 0,
        }
    }
}

impl IntoRawPropertyValue for BlobHandle {
    fn into_raw_property_value(self) -> (u64, Option<DeferredValue>) {
        let raw = self.as_raw_property_value();
        (raw, Some(DeferredValue::Blob(self)))
    }
}

} // verus!
