use nixie_clock::menu::NixieMenu;

fn count_active(menu: &NixieMenu) -> usize {
    let mut n: usize = 0;
    for i in 0..menu.len() {
        if menu.node(i).active {
            n += 1;
        }
    }
    n
}

#[test]
fn next_wraps_nine_to_zero() {
    let mut menu = NixieMenu::new(false, None, 0);
    let child = menu.add_child(0, 9, true, Some(0), 1).unwrap();
    assert_eq!(child, 1);
    menu.set_active_item(0, Some(9)).unwrap();
    menu.set_active(0, true).unwrap();
    menu.next();
    assert_eq!(menu.node(0).active_item, Some(0));
}

#[test]
fn previous_wraps_zero_to_nine() {
    let mut menu = NixieMenu::new(false, None, 0);
    menu.add_child(0, 0, true, Some(0), 1).unwrap();
    menu.set_active_item(0, Some(0)).unwrap();
    menu.set_active(0, true).unwrap();
    menu.previous();
    assert_eq!(menu.node(0).active_item, Some(9));
}

#[test]
fn endpoint_next_increments_value() {
    let mut menu = NixieMenu::new(true, Some(5), 0);
    menu.set_active_item(0, Some(0)).unwrap();
    menu.set_active(0, true).unwrap();
    menu.next();
    assert_eq!(menu.node(0).value, Some(6));
    menu.previous();
    menu.previous();
    assert_eq!(menu.node(0).value, Some(4));
}

#[test]
fn endpoint_previous_stops_at_zero() {
    let mut menu = NixieMenu::new(true, Some(0), 0);
    menu.set_active_item(0, Some(0)).unwrap();
    menu.set_active(0, true).unwrap();
    menu.previous();
    assert_eq!(menu.node(0).value, Some(0));
}

#[test]
fn ops_without_descent_index_do_nothing() {
    let mut menu = NixieMenu::new(true, Some(3), 0);
    menu.set_active(0, true).unwrap();
    menu.next();
    assert_eq!(menu.node(0).value, Some(3));
    assert!(menu.step_in().is_err());
    assert!(menu.step_out().is_err());
}

#[test]
fn step_in_moves_cursor_down_and_out_brings_it_back() {
    let mut menu = NixieMenu::new(false, None, 0);
    let child = menu.add_child(0, 2, false, None, 1).unwrap();
    let grandchild = menu.add_child(child, 4, true, Some(7), 2).unwrap();
    menu.set_active_item(0, Some(2)).unwrap();
    menu.set_active_item(child, Some(4)).unwrap();
    menu.set_active(0, true).unwrap();

    assert!(menu.step_in().is_ok());
    assert!(!menu.node(0).active);
    assert!(menu.node(child).active);
    assert_eq!(count_active(&menu), 1);

    assert!(menu.step_in().is_ok());
    assert!(menu.node(grandchild).active);
    assert_eq!(count_active(&menu), 1);

    assert!(menu.step_out().is_ok());
    assert!(menu.node(child).active);
    assert!(!menu.node(grandchild).active);
    assert_eq!(count_active(&menu), 1);

    assert!(menu.step_out().is_ok());
    assert!(menu.node(0).active);
    assert_eq!(count_active(&menu), 1);
}

#[test]
fn cursor_stays_unique_through_arbitrary_stepping() {
    let mut menu = NixieMenu::new(false, None, 0);
    let child = menu.add_child(0, 0, false, None, 1).unwrap();
    menu.add_child(child, 0, true, Some(1), 2).unwrap();
    menu.set_active_item(0, Some(0)).unwrap();
    menu.set_active_item(child, Some(0)).unwrap();
    assert_eq!(count_active(&menu), 0);
    // before the first activation stepping fails and the cursor stays nowhere
    assert!(menu.step_in().is_err());
    assert_eq!(count_active(&menu), 0);
    menu.set_active(0, true).unwrap();
    for i in 0..6 {
        if i % 2 == 0 {
            let _ = menu.step_in();
        } else {
            let _ = menu.step_out();
        }
        assert_eq!(count_active(&menu), 1);
    }
}

#[test]
fn step_in_fails_on_missing_child() {
    let mut menu = NixieMenu::new(false, None, 0);
    menu.set_active_item(0, Some(3)).unwrap();
    menu.set_active(0, true).unwrap();
    assert!(menu.step_in().is_err());
    assert!(menu.node(0).active);
}

#[test]
fn deep_dead_end_is_reported() {
    // the root has its child, but the walk dead-ends below without any
    // hand-off: the failure is signalled and nothing moves
    let mut menu = NixieMenu::new(false, None, 0);
    let child = menu.add_child(0, 1, false, None, 1).unwrap();
    menu.set_active_item(0, Some(1)).unwrap();
    assert!(menu.node(child).active_item.is_none());
    assert!(menu.step_in().is_err());
    assert!(menu.step_out().is_err());
    assert_eq!(count_active(&menu), 0);
}

#[test]
fn add_child_rejects_bad_slots() {
    let mut menu = NixieMenu::new(false, None, 0);
    assert!(menu.add_child(5, 0, true, None, 1).is_err());
    assert!(menu.add_child(0, 10, true, None, 1).is_err());
    menu.add_child(0, 0, true, None, 1).unwrap();
    assert!(menu.add_child(0, 0, true, None, 2).is_err());
}

#[test]
fn display_reads_the_focused_level() {
    let mut menu = NixieMenu::new(false, None, 0);
    let child = menu.add_child(0, 2, true, Some(9), 1).unwrap();
    menu.set_active_item(0, Some(2)).unwrap();
    menu.set_active_item(child, Some(0)).unwrap();
    assert_eq!(menu.display(), (Some(2), None));
    // no cursor anywhere: nothing focused
    assert_eq!(menu.rec_display(), None);
    menu.set_active(child, true).unwrap();
    assert_eq!(menu.rec_display(), Some((Some(0), Some(9))));
}
