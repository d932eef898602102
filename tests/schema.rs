use mesh_history::schema::{
    check_db, get_db_version, make_version_table, prev_ip_create, update_db_version, update_v1,
    Store, StoreError, CURRENT_VERSION,
};

#[test]
fn fresh_store_is_version_zero() {
    let db = Store::new();
    assert_eq!(get_db_version(&db), 0);
    assert!(db.history().is_none());
}

#[test]
fn history_needs_its_table() {
    let mut db = Store::new();
    assert_eq!(db.get_prev_ips(&"".to_string()).unwrap_err(), StoreError::MissingHistoryTable);
    assert_eq!(db.add_prev_ip("1.2.3.4:4403".to_string()).unwrap_err(), StoreError::MissingHistoryTable);
}

#[test]
fn version_write_needs_version_table() {
    let mut db = Store::new();
    assert_eq!(update_db_version(1, &mut db), Err(StoreError::MissingVersionTable));
    assert_eq!(update_v1(&mut Store::new()), Err(StoreError::MissingVersionTable));
    make_version_table(&mut db);
    assert_eq!(get_db_version(&db), 0);
    assert_eq!(update_db_version(3, &mut db), Ok(()));
    assert_eq!(get_db_version(&db), 3);
}

#[test]
fn migration_brings_store_to_current() {
    let mut db = Store::new();
    assert_eq!(check_db(&mut db), Ok(()));
    assert_eq!(get_db_version(&db), CURRENT_VERSION);
    assert_eq!(CURRENT_VERSION, 1);
    assert_eq!(db.history().unwrap().len(), 0);
    assert_eq!(db.add_prev_ip("1.2.3.4:4403".to_string()), Ok("1.2.3.4:4403".to_string()));
    assert_eq!(db.get_prev_ips(&"".to_string()), Ok(vec!["1.2.3.4:4403".to_string()]));
}

#[test]
fn migration_twice_is_a_no_op() {
    let mut db = Store::new();
    check_db(&mut db).unwrap();
    db.add_prev_ip("a:1".to_string()).unwrap();
    db.add_prev_ip("b:2".to_string()).unwrap();
    assert_eq!(check_db(&mut db), Ok(()));
    assert_eq!(get_db_version(&db), 1);
    assert_eq!(db.get_prev_ips(&"".to_string()), Ok(vec!["b:2".to_string(), "a:1".to_string()]));
}

#[test]
fn creation_tolerates_existing_tables() {
    let mut db = Store::new();
    prev_ip_create(&mut db);
    db.add_prev_ip("kept:1".to_string()).unwrap();
    prev_ip_create(&mut db);
    make_version_table(&mut db);
    make_version_table(&mut db);
    assert_eq!(check_db(&mut db), Ok(()));
    assert_eq!(get_db_version(&db), 1);
    assert_eq!(db.get_prev_ips(&"kept".to_string()), Ok(vec!["kept:1".to_string()]));
}
