use jujik::entity::permission::{
    EntityPermissions, EntityPermissionsCategory, EntityPermissionsKind,
};

const CATEGORIES: [EntityPermissionsCategory; 3] = [
    EntityPermissionsCategory::User,
    EntityPermissionsCategory::Group,
    EntityPermissionsCategory::Other,
];

const KINDS: [EntityPermissionsKind; 3] = [
    EntityPermissionsKind::Read,
    EntityPermissionsKind::Write,
    EntityPermissionsKind::Execute,
];

#[test]
fn new_masks_to_nine_bits() {
    assert_eq!(EntityPermissions::new(0o100644).mode(), 0o644);
    assert_eq!(EntityPermissions::new(0o777).mode(), 0o777);
    assert_eq!(EntityPermissions::new(u32::MAX).mode(), 0o777);
    assert_eq!(EntityPermissions::new(0o1000).mode(), 0);
    assert_eq!(EntityPermissions::new(0).mode(), 0);
}

#[test]
fn mode_round_trips_for_many_modes() {
    for raw in [0u32, 1, 0o7, 0o70, 0o700, 0o644, 0o755, 0o4755, 0o40755, 0xffff_f000, u32::MAX] {
        let permissions = EntityPermissions::new(raw);
        assert_eq!(permissions.mode(), raw & 0o777);
        assert_eq!(permissions.mode(), permissions.mode() & 0o777);
    }
}

#[test]
fn mode_stays_masked_under_set_and_unset() {
    let mut permissions = EntityPermissions::new(u32::MAX);
    for category in CATEGORIES {
        for kind in KINDS {
            permissions.unset(category, kind);
            assert_eq!(permissions.mode(), permissions.mode() & 0o777);
            assert!(!permissions.has(category, kind));
        }
    }
    assert_eq!(permissions.mode(), 0);
    for category in CATEGORIES {
        for kind in KINDS {
            permissions.set(category, kind);
            assert_eq!(permissions.mode(), permissions.mode() & 0o777);
            assert!(permissions.has(category, kind));
        }
    }
    assert_eq!(permissions.mode(), 0o777);
}

#[test]
fn masks_and_shifts_are_the_unix_ones() {
    assert_eq!(EntityPermissionsCategory::User.mask(), 0o700);
    assert_eq!(EntityPermissionsCategory::Group.mask(), 0o070);
    assert_eq!(EntityPermissionsCategory::Other.mask(), 0o007);
    assert_eq!(EntityPermissionsCategory::User.shift(), 6);
    assert_eq!(EntityPermissionsCategory::Group.shift(), 3);
    assert_eq!(EntityPermissionsCategory::Other.shift(), 0);
    assert_eq!(EntityPermissionsKind::Read.mask(), 4);
    assert_eq!(EntityPermissionsKind::Write.mask(), 2);
    assert_eq!(EntityPermissionsKind::Execute.mask(), 1);
}

#[test]
fn has_reads_single_bits() {
    let permissions = EntityPermissions::new(0o640);
    assert!(permissions.has(EntityPermissionsCategory::User, EntityPermissionsKind::Read));
    assert!(permissions.has(EntityPermissionsCategory::User, EntityPermissionsKind::Write));
    assert!(!permissions.has(EntityPermissionsCategory::User, EntityPermissionsKind::Execute));
    assert!(permissions.has(EntityPermissionsCategory::Group, EntityPermissionsKind::Read));
    assert!(!permissions.has(EntityPermissionsCategory::Group, EntityPermissionsKind::Write));
    assert!(!permissions.has(EntityPermissionsCategory::Other, EntityPermissionsKind::Read));
}

#[test]
fn symbolic_uses_e_for_execute() {
    assert_eq!(EntityPermissions::new(0o755).symbolic(), "rwer-er-e");
    assert_eq!(EntityPermissions::new(0o644).symbolic(), "rw-r--r--");
    assert_eq!(EntityPermissions::new(0o777).symbolic(), "rwerwerwe");
    assert_eq!(EntityPermissions::new(0o124).symbolic(), "--e-w-r--");
    assert_eq!(EntityPermissions::new(0).symbolic(), "---------");
}

#[test]
fn set_and_unset_touch_one_bit() {
    let mut p = EntityPermissions::new(0o644);
    p.set(EntityPermissionsCategory::User, EntityPermissionsKind::Execute);
    assert_eq!(p.mode(), 0o744);
    p.unset(EntityPermissionsCategory::Group, EntityPermissionsKind::Read);
    assert_eq!(p.mode(), 0o704);
    p.unset(EntityPermissionsCategory::Group, EntityPermissionsKind::Read);
    assert_eq!(p.mode(), 0o704);
    p.set(EntityPermissionsCategory::Other, EntityPermissionsKind::Read);
    assert_eq!(p.mode(), 0o704);
    assert!(p.has(EntityPermissionsCategory::Other, EntityPermissionsKind::Read));
    assert!(!p.has(EntityPermissionsCategory::Group, EntityPermissionsKind::Read));
}

#[test]
fn default_grants_nothing() {
    assert_eq!(EntityPermissions::default().mode(), 0);
    assert_eq!(EntityPermissions::default(), EntityPermissions::new(0o1000));
}

#[test]
fn to_string_shows_rendering_and_octal_mode() {
    assert_eq!(EntityPermissions::new(0o644).to_string(), "rw-r--r-- (644)");
    assert_eq!(EntityPermissions::new(0o755).to_string(), "rwer-er-e (755)");
    assert_eq!(EntityPermissions::new(0o7).to_string(), "------rwe (7)");
    assert_eq!(EntityPermissions::new(0).to_string(), "--------- (0)");
}
