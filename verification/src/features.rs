//! Feature bits: what a device offers and what a driver takes.

use vstd::prelude::*;

use crate::config::CacheType;
use crate::virtio::{
    VIRTIO_BLK_F_FLUSH, VIRTIO_BLK_F_MQ, VIRTIO_BLK_F_RO, VIRTIO_F_VERSION_1, VIRTIO_RING_F_EVENT_IDX,
};

verus! {

/// Whether a feature, given by the number of its bit, is in a set of features.
pub open spec fn has_bit(features: u64, feature: u32) -> bool {
    features & (1u64 << feature) != 0
}

/// The features that a device offers.
pub open spec fn offered(cache_type: CacheType, read_only: bool, multiqueue: bool) -> u64 {
    (1u64 << VIRTIO_F_VERSION_1) | (1u64 << VIRTIO_RING_F_EVENT_IDX) | (if cache_type
        == CacheType::Writeback {
        1u64 << VIRTIO_BLK_F_FLUSH
    } else {
        0
    }) | (if read_only {
        1u64 << VIRTIO_BLK_F_RO
    } else {
        0
    }) | (if multiqueue {
        1u64 << VIRTIO_BLK_F_MQ
    } else {
        0
    })
}

/// A page of 32 features of a set. There are two of them; further ones are
/// empty.
pub open spec fn page_of(features: u64, page: u32) -> u32 {
    if page == 0 {
        (features & 0xffff_ffff) as u32
    } else if page == 1 {
        (features >> 32) as u32
    } else {
        0
    }
}

/// The set of features of a page.
pub open spec fn from_page(page: u32, value: u32) -> u64 {
    if page == 0 {
        value as u64
    } else if page == 1 {
        (value as u64) << 32
    } else {
        0
    }
}

/// The features that are taken after a driver took those of a page. What is not
/// available is not taken.
pub open spec fn acked_after(acked: u64, avail: u64, page: u32, value: u32) -> u64 {
    acked | (from_page(page, value) & avail)
}

/// The features that a device offers.
pub fn offered_features(cache_type: CacheType, read_only: bool, multiqueue: bool) -> (features:
    u64)
    ensures
        features == offered(cache_type, read_only, multiqueue),
{
    let mut features: u64 = (1u64 << VIRTIO_F_VERSION_1) | (1u64 << VIRTIO_RING_F_EVENT_IDX);
    assert(features | 0 == features) by (bit_vector);
    if let CacheType::Writeback = cache_type {
        features = features | (1u64 << VIRTIO_BLK_F_FLUSH);
    }
    assert(features | 0 == features) by (bit_vector);
    if read_only {
        features = features | (1u64 << VIRTIO_BLK_F_RO);
    }
    assert(features | 0 == features) by (bit_vector);
    if multiqueue {
        features = features | (1u64 << VIRTIO_BLK_F_MQ);
    }
    features
}

/// Whether a feature is in a set of features.
pub fn has_feature(features: u64, feature: u32) -> (has: bool)
    requires
        feature < 64,
    ensures
        has == has_bit(features, feature),
{
    features & (1u64 << feature) != 0
}

/// A page of 32 features of a set.
pub fn features_by_page(features: u64, page: u32) -> (value: u32)
    ensures
        value == page_of(features, page),
{
    match page {
        0 => (features & 0xffff_ffff) as u32,
        1 => (features >> 32) as u32,
        _ => 0,
    }
}

/// The features that are taken after a driver took those of a page.
pub fn ack_features(acked: u64, avail: u64, page: u32, value: u32) -> (features: u64)
    ensures
        features == acked_after(acked, avail, page, value),
{
    let taken: u64 = match page {
        0 => value as u64,
        1 => (value as u64) << 32,
        _ => 0,
    };
    acked | (taken & avail)
}

/// A device offers version 1 and the event index always, flushing where its
/// cache is written back, read-only where it is read-only, and several queues
/// where it has them. It offers nothing else.
pub proof fn law_offered_features(
    cache_type: CacheType,
    read_only: bool,
    multiqueue: bool,
    feature: u32,
)
    requires
        feature < 64,
    ensures
        has_bit(offered(cache_type, read_only, multiqueue), feature) == {
            ||| feature == VIRTIO_F_VERSION_1
            ||| feature == VIRTIO_RING_F_EVENT_IDX
            ||| feature == VIRTIO_BLK_F_FLUSH && cache_type == CacheType::Writeback
            ||| feature == VIRTIO_BLK_F_RO && read_only
            ||| feature == VIRTIO_BLK_F_MQ && multiqueue
        },
{
    let flush = cache_type == CacheType::Writeback;
    assert((((1u64 << 32u32) | (1u64 << 29u32) | (if flush {
        1u64 << 9u32
    } else {
        0u64
    }) | (if read_only {
        1u64 << 5u32
    } else {
        0u64
    }) | (if multiqueue {
        1u64 << 12u32
    } else {
        0u64
    })) & (1u64 << feature) != 0) == (feature == 32 || feature == 29 || (feature == 9 && flush)
        || (feature == 5 && read_only) || (feature == 12 && multiqueue))) by (bit_vector)
        requires
            feature < 64,
    ;
}

/// A driver that takes every feature of both pages ends up with what is
/// available, whatever it took before within that.
pub proof fn law_taking_all_takes_what_is_available(acked: u64, avail: u64)
    requires
        acked & !avail == 0,
    ensures
        acked_after(acked_after(acked, avail, 0, u32::MAX), avail, 1, u32::MAX) == avail,
{
    let all: u32 = u32::MAX;
    assert((acked | ((all as u64) & avail)) | (((all as u64) << 32u32) & avail) == avail)
        by (bit_vector)
        requires
            acked & !avail == 0,
            all == 0xffff_ffffu32,
    ;
}

/// What a driver takes never goes beyond what is available, and nothing that it
/// took is lost.
pub proof fn law_taking_stays_available(acked: u64, avail: u64, page: u32, value: u32)
    requires
        acked & !avail == 0,
    ensures
        acked_after(acked, avail, page, value) & !avail == 0,
        acked & !acked_after(acked, avail, page, value) == 0,
{
    let taken = from_page(page, value);
    assert((acked | (taken & avail)) & !avail == 0 && acked & !(acked | (taken & avail)) == 0)
        by (bit_vector)
        requires
            acked & !avail == 0,
    ;
}

/// A set of features is told by its two pages.
pub proof fn law_pages_make_the_features(features: u64)
    ensures
        from_page(0, page_of(features, 0)) | from_page(1, page_of(features, 1)) == features,
{
    assert((((features & 0xffff_ffff) as u32) as u64) | ((((features >> 32u32) as u32) as u64)
        << 32u32) == features) by (bit_vector);
}

/// A feature is in a set exactly if its bit is one.
pub proof fn law_features_are_bits(features: u64, feature: u32)
    requires
        feature < 64,
    ensures
        has_bit(features, feature) <==> (features >> feature) % 2 == 1,
{
    assert((features & (1u64 << feature) != 0) == ((features >> feature) % 2 == 1)) by (bit_vector)
        requires
            feature < 64,
    ;
}

/// The first page holds the lower 32 features, the second the upper 32, and
/// further ones nothing.
pub proof fn law_pages_split_the_features(features: u64, page: u32, value: u32)
    ensures
        page_of(features, 0) == features % 0x1_0000_0000,
        page_of(features, 1) == features / 0x1_0000_0000,
        page > 1 ==> page_of(features, page) == 0,
        from_page(0, value) == value,
        from_page(1, value) == value * 0x1_0000_0000,
        page > 1 ==> from_page(page, value) == 0,
{
    assert((features & 0xffff_ffff) as u32 == features % 0x1_0000_0000 && (features >> 32u32) as u32
        == features / 0x1_0000_0000 && (value as u64) << 32u32 == value * 0x1_0000_0000)
        by (bit_vector);
}

/// A feature is taken exactly if it was taken before, or is available and in the
/// page that the driver takes.
pub proof fn law_which_features_are_taken(
    acked: u64,
    avail: u64,
    page: u32,
    value: u32,
    feature: u32,
)
    requires
        feature < 64,
    ensures
        has_bit(acked_after(acked, avail, page, value), feature) <==> has_bit(acked, feature) || (
        has_bit(avail, feature) && has_bit(from_page(page, value), feature)),
{
    let taken = from_page(page, value);
    assert(((acked | (taken & avail)) & (1u64 << feature) != 0) == (acked & (1u64 << feature) != 0
        || (avail & (1u64 << feature) != 0 && taken & (1u64 << feature) != 0))) by (bit_vector);
}

} // verus!
