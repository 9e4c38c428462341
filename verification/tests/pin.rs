use jujik::pin::Pin;

#[test]
fn new_names_the_pin_after_the_path() {
    let pin = Pin::new("/tmp/x".to_string()).unwrap();
    assert_eq!(pin.name(), "x");
    assert_eq!(pin.path(), "/tmp/x");
    assert_eq!(pin.path_str(), "/tmp/x");
    assert_eq!(pin, Pin::from("x".to_string(), "/tmp/x".to_string()));
}

#[test]
fn new_drops_the_extension_from_the_name() {
    let pin = Pin::new("/home/u/notes.d".to_string()).unwrap();
    assert_eq!(pin.name(), "notes");
    assert_eq!(pin.path(), "/home/u/notes.d");
    assert_eq!(Pin::new("/".to_string()).unwrap().name(), "/");
    assert_eq!(Pin::new("".to_string()).unwrap(), Pin::empty());
}

#[test]
fn empty_and_default_have_neither_name_nor_path() {
    assert_eq!(Pin::empty().name(), "");
    assert_eq!(Pin::empty().path(), "");
    assert_eq!(Pin::empty(), Pin::default());
}

#[test]
fn setters_change_one_field() {
    let mut pin = Pin::from("Home".to_string(), "/home/u".to_string());
    pin.set_name("Mine".to_string());
    assert_eq!(pin.name(), "Mine");
    assert_eq!(pin.path(), "/home/u");
    pin.set_path("/srv".to_string());
    assert_eq!(pin.name(), "Mine");
    assert_eq!(pin.path_str(), "/srv");
    assert_ne!(pin, Pin::from("Mine".to_string(), "/home/u".to_string()));
    assert_eq!(pin.clone(), pin);
}
