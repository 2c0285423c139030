use user_query::db::DB;
use user_query::query_engine::Query;
use user_query::user_service::User;

fn seeded() -> Query {
    Query {
        db: DB::new(vec![
            User::new("1".to_string(), "Alice".to_string()),
            User::new("2".to_string(), "Bob".to_string()),
        ]),
    }
}

fn empty() -> Query {
    Query { db: DB::new(Vec::new()) }
}

#[test]
fn scenario_seeded_get_user_present() {
    let q = seeded();
    let r = q.get_user("2".to_string());
    let u = r.expect("a seeded identifier must resolve");
    assert_eq!(u.id, "2");
    assert_eq!(u.name, "Bob");
}

#[test]
fn scenario_seeded_get_user_absent() {
    let q = seeded();
    assert!(q.get_user("3".to_string()).is_none());
}

#[test]
fn scenario_seeded_get_users_in_seed_order() {
    let q = seeded();
    let all = q.get_users();
    assert_eq!(all.len(), 2);
    assert_eq!(all[0].id, "1");
    assert_eq!(all[0].name, "Alice");
    assert_eq!(all[1].id, "2");
    assert_eq!(all[1].name, "Bob");
}

#[test]
fn scenario_empty_store_get_users() {
    let q = empty();
    assert!(q.get_users().is_empty());
}

#[test]
fn scenario_empty_store_get_user() {
    let q = empty();
    assert!(q.get_user("anything".to_string()).is_none());
}

#[test]
fn empty_identifier_matches_no_seeded_record() {
    let q = seeded();
    assert!(q.get_user(String::new()).is_none());
}

#[test]
fn lookup_is_byte_for_byte_exact() {
    let q = Query {
        db: DB::new(vec![User::new("AbC".to_string(), "Cara".to_string())]),
    };
    assert!(q.get_user("abc".to_string()).is_none());
    assert!(q.get_user("ABC".to_string()).is_none());
    assert!(q.get_user("AbC ".to_string()).is_none());
    let u = q.get_user("AbC".to_string()).expect("the exact identifier must resolve");
    assert_eq!(u.name, "Cara");
}

#[test]
fn duplicate_identifiers_first_in_store_order_wins() {
    let q = Query {
        db: DB::new(vec![
            User::new("7".to_string(), "First".to_string()),
            User::new("7".to_string(), "Second".to_string()),
        ]),
    };
    let u = q.get_user("7".to_string()).expect("the identifier is present");
    assert_eq!(u.name, "First");
}

#[test]
fn get_user_is_idempotent() {
    let q = seeded();
    let r1 = q.get_user("1".to_string());
    let r2 = q.get_user("1".to_string());
    let u1 = r1.expect("present");
    let u2 = r2.expect("present");
    assert_eq!(u1.id, u2.id);
    assert_eq!(u1.name, u2.name);
    assert!(q.get_user("9".to_string()).is_none());
    assert!(q.get_user("9".to_string()).is_none());
}

#[test]
fn get_users_is_idempotent() {
    let q = seeded();
    let a1 = q.get_users();
    let a2 = q.get_users();
    assert_eq!(a1.len(), a2.len());
    for (u1, u2) in a1.iter().zip(a2.iter()) {
        assert_eq!(u1.id, u2.id);
        assert_eq!(u1.name, u2.name);
    }
}

#[test]
fn get_users_length_equals_store_size() {
    let mut users = Vec::new();
    for k in 0..5 {
        users.push(User::new(k.to_string(), format!("user {k}")));
    }
    let q = Query { db: DB::new(users) };
    assert_eq!(q.get_users().len(), 5);
}

#[test]
fn store_fetch_by_id_matches_resolver() {
    let db = DB::new(vec![User::new("x".to_string(), "Xena".to_string())]);
    let u = db.fetch_by_id(&"x".to_string()).expect("present");
    assert_eq!(u.name, "Xena");
    assert!(db.fetch_by_id(&"y".to_string()).is_none());
    assert_eq!(db.fetch_all().len(), 1);
}
