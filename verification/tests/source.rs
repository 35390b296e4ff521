use erroneous::chain::{CauseLink, ErrValue, Error};

fn a() -> ErrValue {
    ErrValue { label: 1, cause: CauseLink::NoCause }
}

fn b() -> ErrValue {
    ErrValue { label: 2, cause: CauseLink::Direct(Box::new(a())) }
}

fn c() -> ErrValue {
    ErrValue { label: 3, cause: CauseLink::Direct(Box::new(b())) }
}

#[test]
fn source() {
    let e = c();
    let e = e.source().unwrap();
    assert!(e.label == 2);
    let e = e.source().unwrap();
    assert!(e.label == 1);
    assert!(e.source().is_none());
}

#[test]
fn iter() {
    let root = c();
    let mut e = root.iter();
    assert!(e.next().unwrap().label == 2);
    assert!(e.next().unwrap().label == 1);
    assert!(e.next().is_none());
}

#[test]
fn iter_stays_exhausted() {
    let root = b();
    let mut e = root.iter();
    assert!(e.next().unwrap().label == 1);
    assert!(e.next().is_none());
    assert!(e.next().is_none());
    assert!(e.next().is_none());
    let mut fresh = root.iter();
    assert!(fresh.next().unwrap().label == 1);
}

#[test]
fn deferred_skips_a_link() {
    let d = ErrValue { label: 4, cause: CauseLink::Deferred(Box::new(b())) };
    let direct = d.source().unwrap();
    assert!(direct.label == 1);
    let mut e = d.iter();
    assert!(e.next().unwrap().label == 1);
    assert!(e.next().is_none());
}

#[test]
fn no_cause_is_terminal() {
    let lone = a();
    assert!(lone.source().is_none());
    let mut e = lone.iter();
    assert!(e.next().is_none());
    assert!(e.next().is_none());
}

#[test]
fn chain_labels_collects_the_whole_chain() {
    let root = c();
    assert_eq!(root.chain_labels(), vec![2, 1]);
    let d = ErrValue { label: 4, cause: CauseLink::Deferred(Box::new(b())) };
    assert_eq!(d.chain_labels(), vec![1]);
    assert_eq!(a().chain_labels(), Vec::<u64>::new());
}
