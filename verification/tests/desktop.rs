use desktop_attach::desktop::{attach_to_desktop, Desktop, TopLevel};
use desktop_attach::handle::WindowHandle;
use desktop_attach::protocol::{Request, WindowClass};

fn h(raw: isize) -> WindowHandle {
    WindowHandle::from_raw(raw)
}

fn plain(window: isize) -> TopLevel {
    TopLevel { window: h(window), icon_view: WindowHandle::null(), host: WindowHandle::null() }
}

fn icons(window: isize, icon_view: isize, host: isize) -> TopLevel {
    TopLevel { window: h(window), icon_view: h(icon_view), host: h(host) }
}

fn find_root() -> Request {
    Request::FindWindow { class: WindowClass::ShellRoot }
}

fn notify(root: isize) -> Request {
    Request::SendMessage { to: h(root), message: 0x052C, timeout_ms: 1000 }
}

fn probe(window: isize) -> Request {
    Request::FindChild { parent: h(window), class: WindowClass::IconView }
}

fn find_host(after: isize) -> Request {
    Request::FindSibling { after: h(after), class: WindowClass::CompositingHost }
}

fn reparent(child: isize, parent: isize) -> Request {
    Request::SetParent { child: h(child), parent: h(parent) }
}

fn reparents(performed: &[Request]) -> Vec<Request> {
    performed
        .iter()
        .copied()
        .filter(|request| matches!(request, Request::SetParent { .. }))
        .collect()
}

fn windows_taken(performed: &[Request]) -> usize {
    performed.iter().filter(|request| matches!(request, Request::FindChild { .. })).count()
}

#[test]
fn second_window_hosts_icons_and_has_a_container() {
    let desktop = Desktop {
        shell_root: h(100),
        windows: vec![plain(1), icons(2, 30, 20), plain(3), icons(4, 31, 21)],
    };
    let performed = attach_to_desktop(h(7), &desktop);
    assert_eq!(
        performed,
        vec![
            find_root(),
            notify(100),
            Request::NextWindow,
            probe(1),
            Request::NextWindow,
            probe(2),
            find_host(2),
            reparent(7, 20),
        ]
    );
    assert_eq!(windows_taken(&performed), 2);
    assert!(!performed.contains(&probe(3)));
    assert!(!performed.contains(&probe(4)));
}

#[test]
fn two_windows_second_has_icon_child_and_container() {
    let desktop = Desktop { shell_root: h(100), windows: vec![plain(1), icons(2, 30, 20)] };
    let performed = attach_to_desktop(h(7), &desktop);
    assert_eq!(
        performed,
        vec![
            find_root(),
            notify(100),
            Request::NextWindow,
            probe(1),
            Request::NextWindow,
            probe(2),
            find_host(2),
            reparent(7, 20),
        ]
    );
    assert_eq!(performed.last(), Some(&reparent(7, 20)));
    assert_eq!(reparents(&performed), vec![reparent(7, 20)]);
    assert_eq!(windows_taken(&performed), 2);
}

#[test]
fn no_window_hosts_icons() {
    let desktop = Desktop { shell_root: h(100), windows: vec![plain(1), plain(2), plain(3)] };
    let performed = attach_to_desktop(h(7), &desktop);
    assert_eq!(
        performed,
        vec![
            find_root(),
            notify(100),
            Request::NextWindow,
            probe(1),
            Request::NextWindow,
            probe(2),
            Request::NextWindow,
            probe(3),
            Request::NextWindow,
        ]
    );
    assert!(reparents(&performed).is_empty());
}

#[test]
fn no_window_hosts_icons_though_hosts_are_recorded() {
    let desktop = Desktop {
        shell_root: h(100),
        windows: vec![
            TopLevel { window: h(1), icon_view: WindowHandle::null(), host: h(20) },
            TopLevel { window: h(2), icon_view: WindowHandle::null(), host: h(21) },
        ],
    };
    let performed = attach_to_desktop(h(7), &desktop);
    assert!(reparents(&performed).is_empty());
    assert!(!performed.iter().any(|request| matches!(request, Request::FindSibling { .. })));
    assert_eq!(windows_taken(&performed), 2);
}

#[test]
fn empty_desktop() {
    let desktop = Desktop { shell_root: WindowHandle::null(), windows: vec![] };
    let performed = attach_to_desktop(h(7), &desktop);
    assert_eq!(performed, vec![find_root(), notify(0), Request::NextWindow]);
}

#[test]
fn absent_shell_root_does_not_stop_the_search() {
    let desktop = Desktop {
        shell_root: WindowHandle::null(),
        windows: vec![icons(2, 30, 20)],
    };
    let performed = attach_to_desktop(h(7), &desktop);
    assert_eq!(
        performed,
        vec![
            find_root(),
            notify(0),
            Request::NextWindow,
            probe(2),
            find_host(2),
            reparent(7, 20),
        ]
    );
}

#[test]
fn sole_icon_host_is_chosen_wherever_it_stands() {
    for k in 0..5usize {
        let mut windows = vec![plain(1), plain(2), plain(3), plain(4), plain(5)];
        windows[k] = icons(k as isize + 1, 30, 20 + k as isize);
        let desktop = Desktop { shell_root: h(100), windows };
        let performed = attach_to_desktop(h(7), &desktop);
        assert_eq!(performed.len(), 2 + 2 * (k + 1) + 2);
        assert_eq!(windows_taken(&performed), k + 1);
        assert_eq!(performed[performed.len() - 2], find_host(k as isize + 1));
        assert_eq!(performed[performed.len() - 1], reparent(7, 20 + k as isize));
        assert_eq!(reparents(&performed).len(), 1);
    }
}

#[test]
fn first_of_two_windows_with_container_decides() {
    let desktop = Desktop {
        shell_root: h(100),
        windows: vec![plain(1), icons(2, 30, 20), icons(3, 31, 21)],
    };
    let performed = attach_to_desktop(h(7), &desktop);
    assert_eq!(reparents(&performed), vec![reparent(7, 20)]);
    assert_eq!(windows_taken(&performed), 2);
}

#[test]
fn icon_host_without_container_is_passed_over() {
    let desktop = Desktop {
        shell_root: h(100),
        windows: vec![
            plain(1),
            TopLevel { window: h(2), icon_view: h(30), host: WindowHandle::null() },
            icons(3, 31, 21),
            icons(4, 32, 22),
        ],
    };
    let performed = attach_to_desktop(h(7), &desktop);
    assert_eq!(
        performed,
        vec![
            find_root(),
            notify(100),
            Request::NextWindow,
            probe(1),
            Request::NextWindow,
            probe(2),
            find_host(2),
            Request::NextWindow,
            probe(3),
            find_host(3),
            reparent(7, 21),
        ]
    );
    assert_eq!(windows_taken(&performed), 3);
}

#[test]
fn later_window_with_container_is_found_after_one_without() {
    let desktop = Desktop {
        shell_root: h(100),
        windows: vec![
            TopLevel { window: h(1), icon_view: h(11), host: WindowHandle::null() },
            TopLevel { window: h(2), icon_view: h(21), host: h(3) },
        ],
    };
    let performed = attach_to_desktop(h(9), &desktop);
    assert_eq!(
        performed,
        vec![
            find_root(),
            notify(100),
            Request::NextWindow,
            probe(1),
            find_host(1),
            Request::NextWindow,
            probe(2),
            find_host(2),
            reparent(9, 3),
        ]
    );
}

#[test]
fn icon_hosts_without_container_end_in_not_found() {
    let desktop = Desktop {
        shell_root: h(100),
        windows: vec![
            TopLevel { window: h(1), icon_view: h(11), host: WindowHandle::null() },
            plain(2),
            TopLevel { window: h(3), icon_view: h(31), host: WindowHandle::null() },
        ],
    };
    let performed = attach_to_desktop(h(9), &desktop);
    assert_eq!(
        performed,
        vec![
            find_root(),
            notify(100),
            Request::NextWindow,
            probe(1),
            find_host(1),
            Request::NextWindow,
            probe(2),
            Request::NextWindow,
            probe(3),
            find_host(3),
            Request::NextWindow,
        ]
    );
    assert!(reparents(&performed).is_empty());
}

#[test]
fn attaching_twice_gives_the_same_parent() {
    let desktop = Desktop {
        shell_root: h(100),
        windows: vec![plain(1), plain(7), icons(2, 30, 20), plain(3)],
    };
    let first = attach_to_desktop(h(7), &desktop);
    let second = attach_to_desktop(h(7), &desktop);
    assert_eq!(first, second);
    assert_eq!(reparents(&first), vec![reparent(7, 20)]);
    assert_eq!(reparents(&second), vec![reparent(7, 20)]);

    // After the first run the target is no top-level window any more.
    let later = Desktop {
        shell_root: h(100),
        windows: vec![plain(1), icons(2, 30, 20), plain(3)],
    };
    let third = attach_to_desktop(h(7), &later);
    assert_eq!(reparents(&third), vec![reparent(7, 20)]);

    let mut parents = std::collections::HashMap::new();
    for request in first.iter().chain(second.iter()).chain(third.iter()) {
        if let Request::SetParent { child, parent } = request {
            parents.insert(*child, *parent);
        }
    }
    assert_eq!(parents.len(), 1);
    assert_eq!(parents.get(&h(7)), Some(&h(20)));
}

#[test]
fn container_is_never_null() {
    let handles = [0isize, 5];
    for icon_a in handles {
        for host_a in handles {
            for icon_b in handles {
                for host_b in handles {
                    let desktop = Desktop {
                        shell_root: h(100),
                        windows: vec![icons(1, icon_a, host_a), icons(2, icon_b, host_b)],
                    };
                    let performed = attach_to_desktop(h(7), &desktop);
                    for request in &performed {
                        if let Request::SetParent { child, parent } = request {
                            assert!(!parent.is_null());
                            assert_eq!(*child, h(7));
                        }
                    }
                    let expected = if icon_a != 0 && host_a != 0 {
                        host_a
                    } else if icon_b != 0 && host_b != 0 {
                        host_b
                    } else {
                        0
                    };
                    if expected == 0 {
                        assert!(reparents(&performed).is_empty());
                    } else {
                        assert_eq!(reparents(&performed), vec![reparent(7, expected)]);
                    }
                }
            }
        }
    }
}

#[test]
fn every_run_notifies_once_with_the_fixed_timeout() {
    for windows in [vec![], vec![plain(1)], vec![icons(1, 30, 20)], vec![icons(1, 30, 0)]] {
        let desktop = Desktop { shell_root: h(100), windows };
        let performed = attach_to_desktop(h(7), &desktop);
        let sent: Vec<Request> = performed
            .iter()
            .copied()
            .filter(|request| matches!(request, Request::SendMessage { .. }))
            .collect();
        assert_eq!(sent, vec![notify(100)]);
        assert_eq!(performed[1], notify(100));
    }
}

#[test]
fn windows_that_share_a_handle_are_told_apart_by_position() {
    let desktop = Desktop {
        shell_root: h(100),
        windows: vec![plain(1), icons(1, 30, 20)],
    };
    let performed = attach_to_desktop(h(7), &desktop);
    assert_eq!(
        performed,
        vec![
            find_root(),
            notify(100),
            Request::NextWindow,
            probe(1),
            Request::NextWindow,
            probe(1),
            find_host(1),
            reparent(7, 20),
        ]
    );
}
