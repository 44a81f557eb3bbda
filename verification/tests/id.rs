use lib::id::{Id, ShareId};
use lib::id_vector::{IdVector, IntoIdVector};
use lib::message::RcMessage;
use lib::ownership::{Owned, Shared};

struct NSObject;

fn net_retains(log: &[RcMessage], obj: usize) -> i64 {
    let mut n: i64 = 0;
    for m in log {
        match *m {
            RcMessage::Retain(p) if p == obj => n += 1,
            RcMessage::Release(p) if p == obj => n -= 1,
            _ => {}
        }
    }
    n
}

#[test]
fn maybe_from_retained_ptr_null_is_none() {
    let id: Option<Id<NSObject>> = Id::maybe_from_retained_ptr(0);
    assert!(id.is_none());
}

#[test]
fn maybe_from_retained_ptr_keeps_address() {
    let id: Option<Id<NSObject, Owned>> = Id::maybe_from_retained_ptr(0x1000);
    assert_eq!(id.map(|i| i.as_ptr()), Some(0x1000));
}

#[test]
fn from_retained_ptr_sends_nothing() {
    let id: Id<NSObject> = Id::from_retained_ptr(0x2000);
    assert_eq!(id.as_ptr(), 0x2000);
}

#[test]
fn maybe_from_ptr_null_sends_nothing() {
    let mut out = Vec::new();
    let id: Option<Id<NSObject>> = Id::maybe_from_ptr(0, &mut out);
    assert!(id.is_none());
    assert!(out.is_empty());
}

#[test]
fn maybe_from_ptr_retains() {
    let mut out = vec![RcMessage::Release(7)];
    let id: Option<Id<NSObject>> = Id::maybe_from_ptr(0x30, &mut out);
    assert_eq!(id.map(|i| i.as_ptr()), Some(0x30));
    assert_eq!(out, vec![RcMessage::Release(7), RcMessage::Retain(0x30)]);
}

#[test]
fn from_ptr_retains() {
    let mut out = Vec::new();
    let id: Id<NSObject> = Id::from_ptr(0x40, &mut out);
    assert_eq!(id.as_ptr(), 0x40);
    assert_eq!(out, vec![RcMessage::Retain(0x40)]);
}

#[test]
fn release_sends_release() {
    let mut out = Vec::new();
    let id: Id<NSObject> = Id::from_retained_ptr(0x50);
    id.release(&mut out);
    assert_eq!(out, vec![RcMessage::Release(0x50)]);
}

#[test]
fn share_keeps_object_and_count() {
    let mut out = Vec::new();
    let id: Id<NSObject, Owned> = Id::from_ptr(0x60, &mut out);
    let shared: ShareId<NSObject> = id.share();
    assert_eq!(shared.as_ptr(), 0x60);
    assert_eq!(out, vec![RcMessage::Retain(0x60)]);
}

#[test]
fn clone_retains_once_more() {
    let mut out = Vec::new();
    let shared: Id<NSObject, Shared> = Id::from_retained_ptr(0x70);
    let other = shared.clone(&mut out);
    assert_eq!(other.as_ptr(), 0x70);
    assert_eq!(shared.as_ptr(), 0x70);
    assert_eq!(out, vec![RcMessage::Retain(0x70)]);
}

#[test]
fn retained_lifetime_is_balanced() {
    let mut out = vec![RcMessage::Retain(0x80)];
    let id: Id<NSObject> = Id::from_ptr(0x90, &mut out);
    let other: ShareId<NSObject> = Id::from_ptr(0x80, &mut out);
    other.release(&mut out);
    id.release(&mut out);
    assert_eq!(net_retains(&out, 0x90), 0);
    assert_eq!(net_retains(&out, 0x80), 1);
}

#[test]
fn shared_clones_balanced() {
    let mut out = Vec::new();
    let first: Id<NSObject> = Id::from_ptr(0xa0, &mut out);
    let shared = first.share();
    let second = shared.clone(&mut out);
    let third = second.clone(&mut out);
    assert_eq!(net_retains(&out, 0xa0), 3);
    third.release(&mut out);
    second.release(&mut out);
    shared.release(&mut out);
    assert_eq!(net_retains(&out, 0xa0), 0);
}

#[test]
fn retained_ptr_release_takes_over() {
    let mut out = Vec::new();
    let id: Id<NSObject> = Id::from_retained_ptr(0xb0);
    id.release(&mut out);
    assert_eq!(net_retains(&out, 0xb0), -1);
    assert_eq!(net_retains(&out, 0xc0), 0);
}

#[test]
fn as_refs_slice_keeps_order() {
    let ids: Vec<Id<NSObject>> = vec![
        Id::from_retained_ptr(3),
        Id::from_retained_ptr(1),
        Id::from_retained_ptr(2),
    ];
    assert_eq!(ids[..].as_refs_slice(), vec![3, 1, 2]);
    let empty: Vec<Id<NSObject>> = Vec::new();
    assert!(empty[..].as_refs_slice().is_empty());
}

#[test]
fn into_id_vec_retains_each() {
    let mut out = Vec::new();
    let addrs: Vec<usize> = vec![0x10, 0x20, 0x10];
    let ids: Vec<Id<NSObject, Shared>> = addrs.into_id_vec(&mut out);
    assert_eq!(ids.len(), 3);
    assert_eq!(ids[..].as_refs_slice(), vec![0x10, 0x20, 0x10]);
    assert_eq!(
        out,
        vec![RcMessage::Retain(0x10), RcMessage::Retain(0x20), RcMessage::Retain(0x10)]
    );
    assert_eq!(net_retains(&out, 0x10), 2);
    for id in ids {
        id.release(&mut out);
    }
    assert_eq!(net_retains(&out, 0x10), 0);
    assert_eq!(net_retains(&out, 0x20), 0);
}

#[test]
fn into_id_vec_empty() {
    let mut out = Vec::new();
    let ids: Vec<Id<NSObject>> = Vec::<usize>::new().into_id_vec(&mut out);
    assert!(ids.is_empty());
    assert!(out.is_empty());
}
