use domdoc::runtime::Runtime;
use domdoc::tree::{Attr, Node};
use domdoc::wrapper::WrapperCache;

#[test]
fn fresh_ids_never_repeat() {
    let mut rt = Runtime::new();
    let a = rt.fresh_id();
    let b = rt.fresh_id();
    let c = rt.fresh_id();
    assert_ne!(a, b);
    assert_ne!(b, c);
    assert_ne!(a, c);
}

#[test]
fn root_registration_and_removal_pair_up() {
    let mut rt = Runtime::new();
    rt.add_root(7, 40);
    rt.add_root(7, 41);
    rt.add_root(7, 40);
    assert_eq!(rt.count_roots(7, 40), 2);
    assert_eq!(rt.count_roots(7, 41), 1);
    assert_eq!(rt.count_roots(8, 40), 0);
    rt.remove_root(7, 40);
    assert_eq!(rt.count_roots(7, 40), 1);
    assert_eq!(rt.count_roots(7, 41), 1);
    assert_eq!(rt.roots.len(), 2);
}

#[test]
fn remove_root_takes_the_first_matching_entry() {
    let mut rt = Runtime::new();
    rt.add_root(1, 10);
    rt.add_root(2, 10);
    rt.add_root(1, 10);
    rt.remove_root(1, 10);
    assert_eq!(rt.roots.len(), 2);
    assert_eq!(rt.roots[0].compartment, 2);
    assert_eq!(rt.roots[1].compartment, 1);
}

#[test]
fn wrapper_identity_is_stable() {
    let mut rt = Runtime::new();
    let mut cache = WrapperCache::new();
    assert!(cache.get().is_none());
    let first = cache.wrap(&mut rt);
    let second = cache.wrap(&mut rt);
    assert_eq!(first, second);
    assert_eq!(cache.get(), Some(first));
}

#[test]
fn wrapping_two_entities_gives_distinct_proxies() {
    let mut rt = Runtime::new();
    let mut a = WrapperCache::new();
    let mut b = WrapperCache::new();
    assert_ne!(a.wrap(&mut rt), b.wrap(&mut rt));
}

#[test]
fn get_attr_takes_the_first_occurrence() {
    let n = Node {
        id: 1,
        tag: "body".to_string(),
        element: true,
        attrs: vec![
            Attr { name: "name".to_string(), value: "first".to_string() },
            Attr { name: "name".to_string(), value: "second".to_string() },
        ],
        children: vec![],
        wrapper: WrapperCache::new(),
    };
    let key = "name".to_string();
    assert_eq!(n.get_attr(&key), Some(&"first".to_string()));
    let missing = "id".to_string();
    assert!(n.get_attr(&missing).is_none());
}
