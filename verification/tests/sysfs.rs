use benzene_battery::store::{Node, Store};
use benzene_battery::sysfs::{read_int, read_string, write_string, Error, SysfsPath};

fn store_with(nodes: Vec<Node>) -> Store {
    let mut st = Store::new();
    for n in nodes {
        st.add(n);
    }
    st
}

#[test]
fn read_trims_and_parses() {
    let st = store_with(vec![Node::present("/n/level", "  73\n")]);
    assert_eq!(read_string(&st, "/n/level").unwrap(), "73");
    assert_eq!(read_int(&st, "/n/level").unwrap(), 73);
}

#[test]
fn read_absent_is_not_found() {
    let st = Store::new();
    assert!(matches!(read_string(&st, "/n/level"), Err(Error::NotFound { .. })));
    assert!(matches!(read_int(&st, "/n/level"), Err(Error::NotFound { .. })));
}

#[test]
fn read_failure_is_io() {
    let st = store_with(vec![Node::unreadable("/n/level")]);
    assert!(matches!(read_string(&st, "/n/level"), Err(Error::Io { .. })));
}

#[test]
fn read_non_numeric_is_parse_failure() {
    let st = store_with(vec![Node::present("/n/level", "enabled\n")]);
    match read_int(&st, "/n/level") {
        Err(Error::Parse { path, content }) => {
            assert_eq!(path, "/n/level");
            assert_eq!(content, "enabled");
        },
        other => panic!("expected a parse failure, got {:?}", other),
    }
}

#[test]
fn write_replaces_content_and_logs() {
    let mut st = store_with(vec![Node::present("/n/level", "1")]);
    write_string(&mut st, "/n/level", "2").unwrap();
    assert_eq!(read_string(&st, "/n/level").unwrap(), "2");
    assert_eq!(st.log.len(), 1);
    assert_eq!(st.log[0].path, "/n/level");
    assert_eq!(st.log[0].value, "2");
}

#[test]
fn write_absent_fails_without_logging() {
    let mut st = Store::new();
    assert!(matches!(write_string(&mut st, "/n/level", "2"), Err(Error::NotFound { .. })));
    assert!(st.log.is_empty());
}

#[test]
fn write_rejected_is_io() {
    let mut st = store_with(vec![Node::read_only("/n/level", "1")]);
    assert!(matches!(write_string(&mut st, "/n/level", "2"), Err(Error::Io { .. })));
    assert_eq!(read_string(&st, "/n/level").unwrap(), "1");
    assert!(st.log.is_empty());
}

#[test]
fn resolve_prefers_the_primary() {
    let p = SysfsPath::with_alt("/n/primary", "/n/alternate");
    let st = store_with(vec![
        Node::present("/n/primary", "1"),
        Node::present("/n/alternate", "2"),
    ]);
    assert_eq!(p.resolve(&st), Some("/n/primary"));
    assert!(p.is_present(&st));
    assert_eq!(p.read_int(&st).unwrap(), 1);
}

#[test]
fn resolve_falls_back_to_the_alternate() {
    let p = SysfsPath::with_alt("/n/primary", "/n/alternate");
    let mut st = store_with(vec![Node::present("/n/alternate", "2")]);
    assert_eq!(p.resolve(&st), Some("/n/alternate"));
    assert_eq!(p.read_int(&st).unwrap(), 2);
    p.write_int(&mut st, 9).unwrap();
    assert_eq!(read_string(&st, "/n/alternate").unwrap(), "9");
    assert_eq!(st.log[0].path, "/n/alternate");
}

#[test]
fn resolve_with_neither_location_is_absent() {
    let p = SysfsPath::with_alt("/n/primary", "/n/alternate");
    let mut st = store_with(vec![Node::present("/n/other", "3")]);
    assert_eq!(p.resolve(&st), None);
    assert!(!p.is_present(&st));
    assert!(matches!(p.read_string(&st), Err(Error::NotFound { .. })));
    assert!(matches!(p.write_string(&mut st, "x"), Err(Error::NotFound { .. })));
    assert_eq!(p.read_int_or(&st, -7), -7);
}

#[test]
fn read_int_or_defaults_on_every_failure() {
    let p = SysfsPath::new("/n/level");
    assert_eq!(p.read_int_or(&Store::new(), 5), 5);
    let unreadable = store_with(vec![Node::unreadable("/n/level")]);
    assert_eq!(p.read_int_or(&unreadable, 6), 6);
    let garbled = store_with(vec![Node::present("/n/level", "x")]);
    assert_eq!(p.read_int_or(&garbled, 7), 7);
    let fine = store_with(vec![Node::present("/n/level", " 42 ")]);
    assert_eq!(p.read_int_or(&fine, 8), 42);
}
