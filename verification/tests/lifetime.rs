//! Handle lifetime: exactly one release per registration, however shared.

use kson_bridge::ForeignRuntime;
use kson_bridge::KsonPtr;
use kson_bridge::ObjectRecord;
use kson_bridge::OwnedKotlinPtr;
use kson_bridge::Payload;
use kson_bridge::ThreadBinding;

fn rec(payload: Payload) -> ObjectRecord {
    ObjectRecord {
        class_name: String::new(),
        type_token: 0,
        ordinal: 0,
        value_id: 0,
        display: Vec::new(),
        payload,
        roots: 0,
        releases: 0,
    }
}

fn runtime_with(n: usize) -> ForeignRuntime {
    let mut records = Vec::new();
    for _ in 0..n {
        records.push(rec(Payload::Opaque));
    }
    ForeignRuntime {
        classes: Vec::new(),
        records,
        cells: Vec::new(),
        replies: Vec::new(),
        calls: Vec::new(),
        pending_fault: false,
    }
}

#[test]
fn owned_handle_released_exactly_once() {
    let mut rt = runtime_with(1);
    let owned = OwnedKotlinPtr::wrap(&mut rt, 0);
    assert_eq!(rt.records[0].roots, 1);
    assert_eq!(rt.records[0].releases, 0);
    owned.dispose(&mut rt);
    assert_eq!(rt.records[0].roots, 1);
    assert_eq!(rt.records[0].releases, 1);
}

#[test]
fn shared_handle_single_reference() {
    let mut rt = runtime_with(1);
    let owned = OwnedKotlinPtr::wrap(&mut rt, 0);
    let ptr = KsonPtr::share(owned, &mut rt);
    assert_eq!(rt.cells[0].count, 1);
    assert!(!rt.cells[0].disposed);
    assert_eq!(rt.records[0].releases, 0);
    ptr.drop_ref(&mut rt);
    assert_eq!(rt.cells[0].count, 0);
    assert!(rt.cells[0].disposed);
    assert_eq!(rt.records[0].releases, 1);
}

#[test]
fn shared_handle_clones_release_once_in_order() {
    let mut rt = runtime_with(1);
    let owned = OwnedKotlinPtr::wrap(&mut rt, 0);
    let p0 = KsonPtr::share(owned, &mut rt);
    let p1 = p0.clone_ref(&mut rt);
    let p2 = p0.clone_ref(&mut rt);
    assert_eq!(rt.cells[0].count, 3);
    p0.drop_ref(&mut rt);
    assert_eq!(rt.records[0].releases, 0);
    p1.drop_ref(&mut rt);
    assert_eq!(rt.records[0].releases, 0);
    p2.drop_ref(&mut rt);
    assert_eq!(rt.records[0].releases, 1);
}

#[test]
fn shared_handle_clones_release_once_reversed() {
    let mut rt = runtime_with(1);
    let owned = OwnedKotlinPtr::wrap(&mut rt, 0);
    let p0 = KsonPtr::share(owned, &mut rt);
    let p1 = p0.clone_ref(&mut rt);
    let p2 = p1.clone_ref(&mut rt);
    p2.drop_ref(&mut rt);
    p1.drop_ref(&mut rt);
    assert_eq!(rt.records[0].releases, 0);
    assert_eq!(rt.cells[0].count, 1);
    p0.drop_ref(&mut rt);
    assert_eq!(rt.records[0].releases, 1);
}

#[test]
fn shared_handle_interleaved_clone_and_drop() {
    let mut rt = runtime_with(1);
    let owned = OwnedKotlinPtr::wrap(&mut rt, 0);
    let p0 = KsonPtr::share(owned, &mut rt);
    let p1 = p0.clone_ref(&mut rt);
    p0.drop_ref(&mut rt);
    let p2 = p1.clone_ref(&mut rt);
    p2.drop_ref(&mut rt);
    p1.drop_ref(&mut rt);
    assert_eq!(rt.records[0].releases, 1);
    assert_eq!(rt.cells[0].count, 0);
    assert!(rt.cells[0].disposed);
}

#[test]
fn two_objects_release_independently() {
    let mut rt = runtime_with(2);
    let a = OwnedKotlinPtr::wrap(&mut rt, 0);
    let b = OwnedKotlinPtr::wrap(&mut rt, 1);
    a.dispose(&mut rt);
    assert_eq!(rt.records[0].releases, 1);
    assert_eq!(rt.records[1].releases, 0);
    b.dispose(&mut rt);
    assert_eq!(rt.records[1].releases, 1);
}

#[test]
fn binding_acquire_is_reentrant() {
    let mut tb = ThreadBinding::new();
    assert!(!tb.bound);
    let outer = tb.acquire();
    assert!(tb.bound);
    assert!(outer.is_responsible());
    assert_eq!(tb.attach_calls, 1);
    let inner = tb.acquire();
    assert!(!inner.is_responsible());
    assert_eq!(tb.attach_calls, 1);
    tb.release(inner);
    assert!(tb.bound);
    assert_eq!(tb.detach_calls, 0);
    tb.release(outer);
    assert!(!tb.bound);
    assert_eq!(tb.attach_calls, 1);
    assert_eq!(tb.detach_calls, 1);
}

#[test]
fn binding_balances_over_repeated_scopes() {
    let mut tb = ThreadBinding::new();
    for _ in 0..3 {
        let g = tb.acquire();
        let g2 = tb.acquire();
        tb.release(g2);
        tb.release(g);
    }
    assert_eq!(tb.attach_calls, 3);
    assert_eq!(tb.detach_calls, 3);
    assert!(!tb.bound);
}

#[test]
fn default_true_is_true() {
    assert!(kson_bridge::default_true());
}
