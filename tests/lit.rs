use cadical::lit::Lit;

#[test]
fn lit_rejects_zero_and_min() {
    assert!(Lit::new(0).is_none());
    assert!(Lit::new(i32::MIN).is_none());
}

#[test]
fn lit_accepts_others() {
    let a = Lit::new(5).unwrap();
    assert_eq!(a.get(), 5);
    assert_eq!(a.var(), 5);
    let b = Lit::new(-7).unwrap();
    assert_eq!(b.get(), -7);
    assert_eq!(b.var(), 7);
    let m = Lit::new(i32::MAX).unwrap();
    assert_eq!(m.var(), i32::MAX as u32);
    let n = Lit::new(i32::MIN + 1).unwrap();
    assert_eq!(n.var(), i32::MAX as u32);
}

#[test]
fn lit_negation() {
    let a = Lit::new(3).unwrap();
    assert_eq!((!a).get(), -3);
    assert_eq!(a.negate().get(), -3);
    assert_eq!(!!a, a);
    assert_eq!((!a).var(), a.var());
    let m = Lit::new(i32::MIN + 1).unwrap();
    assert_eq!((!m).get(), i32::MAX);
    assert_eq!(!!m, m);
}
