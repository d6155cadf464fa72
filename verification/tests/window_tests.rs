use sandbox_exec::window::RollingWindow;

#[test]
fn window_evicts_the_oldest() {
    let mut w: RollingWindow<u32> = RollingWindow::new(3);
    assert_eq!(w.push(1), None);
    assert_eq!(w.push(2), None);
    assert!(!w.is_full());
    assert_eq!(w.push(3), None);
    assert!(w.is_full());
    assert_eq!(w.push(4), Some(1));
    assert_eq!(w.items(), &vec![2, 3, 4]);
    assert_eq!(w.len(), 3);
}

#[test]
fn window_evicts_the_named_item() {
    let mut w: RollingWindow<&str> = RollingWindow::new(2);
    assert_eq!(w.add("a", 7), None);
    assert_eq!(w.add("b", 7), None);
    assert_eq!(w.add("c", 1), Some("b"));
    assert_eq!(w.items(), &vec!["a", "c"]);
    assert_eq!(w.add("d", 0), Some("a"));
    assert_eq!(w.items(), &vec!["c", "d"]);
}

#[test]
fn window_of_size_zero_holds_the_last_item() {
    let mut w: RollingWindow<u8> = RollingWindow::new(0);
    assert!(!w.is_full());
    assert_eq!(w.push(1), None);
    assert!(w.is_full());
    assert_eq!(w.push(2), Some(1));
    assert_eq!(w.push(3), Some(2));
    assert_eq!(w.items(), &vec![3]);
}

#[test]
fn window_keeps_what_is_marked() {
    let mut w: RollingWindow<u32> = RollingWindow::new(10);
    for i in 0..6 {
        w.push(i);
    }
    w.retain_marked(&vec![true, false, false, true, true, false]);
    assert_eq!(w.items(), &vec![0, 3, 4]);
    w.retain_marked(&vec![false, false, false]);
    assert_eq!(w.len(), 0);
    w.retain_marked(&vec![]);
    assert_eq!(w.len(), 0);
}

#[test]
fn window_replaces_in_place() {
    let mut w: RollingWindow<String> = RollingWindow::new(2);
    w.push("a".to_string());
    w.push("b".to_string());
    assert_eq!(w.replace(0, "c".to_string()), "a");
    assert_eq!(w.items(), &vec!["c".to_string(), "b".to_string()]);
}
