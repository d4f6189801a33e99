use rws::error::ApiError;
use rws::schema::{create_table_sql, drop_table_sql, drop_users_cascade_sql, Database};

#[test]
fn statements_name_their_tables() {
    let cases = [
        (Database::Buckets, "buckets"),
        (Database::Users, "users"),
        (Database::Objects, "objects"),
        (Database::Permisssions, "permissions"),
        (Database::PermisssionOptions, "permission_options"),
    ];
    for (db, name) in cases {
        assert_eq!(drop_table_sql(db), format!("DROP TABLE IF EXISTS {}", name));
        assert!(create_table_sql(db).starts_with(&format!("CREATE TABLE IF NOT EXISTS {} (", name)));
    }
    assert_eq!(drop_users_cascade_sql(), "DROP TABLE IF EXISTS users CASCADE");
    assert!(create_table_sql(Database::Users).contains("password text NOT NULL"));
}

#[test]
fn errors() {
    let e = ApiError::new(404, "gone");
    assert_eq!((e.status, e.message.as_str()), (404, "gone"));
    let e = ApiError::internal("boom".to_string());
    assert_eq!((e.status, e.message.as_str()), (500, "boom"));
}
