use jujik::config::{
    clone_pins, clone_tabs, Config, EntitysShowColumn, JujikColor, JujikStyle,
    DEFAULT_TEXT_SIZE_BITS,
};
use jujik::entity::Entity;
use jujik::error::JujikError;
use jujik::pin::Pin;
use jujik::tab::Tab;

#[test]
fn default_snapshot_is_empty() {
    let config = Config::default();
    assert!(config.pins.is_empty());
    assert!(config.tabs.is_empty());
    assert_eq!(config.current_tab_idx, 0);
    assert_eq!(config.style, JujikStyle::default());
    assert_eq!(config.entitys_show, EntitysShowColumn::default());
}

#[test]
fn default_look() {
    let style = JujikStyle::default();
    assert!(!style.show);
    assert_eq!(style.primary_color, JujikColor::new(100, 100, 100));
    assert_eq!(style.background_color, JujikColor::new(50, 50, 50));
    assert_eq!(style.selection_color, JujikColor::new(50, 80, 50));
    assert_eq!(style.text_color, JujikColor::new(220, 220, 220));
    assert_eq!(f32::from_bits(style.text_size_bits), 18.0);
    assert_eq!(DEFAULT_TEXT_SIZE_BITS, 18.0f32.to_bits());
    assert_eq!(JujikColor::new(1, 2, 3).array(), [1, 2, 3]);
}

#[test]
fn every_column_is_shown_by_default() {
    let columns = EntitysShowColumn::default();
    assert!(columns.filekind && columns.name && columns.name_with_extension);
    assert!(columns.extension && columns.permissions && columns.owners);
    assert!(columns.size && columns.date_modification && columns.date_creation);
}

#[test]
fn with_home_pins_the_home_directory() {
    let config = Config::with_home("/home/ann".to_string());
    assert_eq!(config.pins, vec![Pin::from("Home".to_string(), "/home/ann".to_string())]);
    assert!(config.tabs.is_empty());
    assert_eq!(config.current_tab_idx, 0);
}

#[test]
fn new_takes_every_part() {
    let style = JujikStyle { show: true, ..JujikStyle::default() };
    let columns = EntitysShowColumn { size: false, ..EntitysShowColumn::default() };
    let config = Config::new(style, vec![Pin::empty()], vec![Tab::default()], 3, columns);
    assert_eq!(config.style, style);
    assert_eq!(config.pins, vec![Pin::empty()]);
    assert_eq!(config.tabs, vec![Tab::default()]);
    assert_eq!(config.current_tab_idx, 3);
    assert_eq!(config.entitys_show, columns);
    let copy = config.clone();
    assert_eq!(copy.pins, config.pins);
    assert_eq!(copy.tabs, config.tabs);
    assert_eq!(copy.current_tab_idx, 3);
}

#[test]
fn clear_entitys_empties_every_listing() {
    let listing = Tab::tab_entitys("/tmp".to_string(), vec![Entity::default(), Entity::default()]).unwrap();
    let view = Tab::tab_view("/tmp/a".to_string(), Entity::default()).unwrap();
    let mut config = Config { tabs: vec![listing.clone(), view.clone(), listing], ..Config::default() };
    config.clear_entitys();
    assert_eq!(config.tabs[0].entitys(), Some(Vec::new()));
    assert_eq!(config.tabs[0].path(), "/tmp");
    assert_eq!(config.tabs[1], view);
    assert_eq!(config.tabs[2].entitys(), Some(Vec::new()));
}

#[test]
fn rows_are_copied_place_by_place() {
    let pins = vec![Pin::from("a".to_string(), "/a".to_string()), Pin::empty()];
    assert_eq!(clone_pins(&pins), pins);
    let tabs = vec![Tab::default(), Tab::tab_view("/x".to_string(), Entity::default()).unwrap()];
    assert_eq!(clone_tabs(&tabs), tabs);
}

#[test]
fn error_messages() {
    assert_eq!(JujikError::NoError.message(), "");
    assert_eq!(JujikError::IO("io".to_string()).message(), "io");
    assert_eq!(JujikError::Send("send".to_string()).message(), "send");
    assert_eq!(JujikError::Recv("recv".to_string()).message(), "recv");
    assert_eq!(JujikError::TryRecv("try".to_string()).message(), "try");
    assert_eq!(JujikError::RecvTimeout("late".to_string()).message(), "late");
    assert_eq!(JujikError::EFrame("frame".to_string()).message(), "frame");
    assert_eq!(JujikError::Logger("log".to_string()).message(), "log");
    assert_eq!(JujikError::Thread("thread".to_string()).message(), "thread");
    assert_eq!(JujikError::SerdeJson("json".to_string()).message(), "json");
    assert_eq!(JujikError::Other("other".to_string()).message(), "other");
    assert_eq!(JujikError::other("Path ", "/x").message(), "Path /x");
}
