//! The database tables and the statements that create and drop them.

use vstd::prelude::*;
use vstd::string::*;
use crate::text::{contains_text, has_prefix, occurs_at};

verus! {

/// The tables of the storage service.
#[derive(Debug, Clone, Copy, PartialEq, Eq, Structural)]
pub enum Database {
    Buckets,
    Users,
    Objects,
    Permisssions,
    PermisssionOptions,
}

/// The statement that creates a table when it does not exist yet.
pub open spec fn create_statement(db: Database) -> Seq<char> {
    match db {
        Database::Buckets => "CREATE TABLE IF NOT EXISTS buckets (
  bucket_id uuid NOT NULL  UNIQUE,
  name text NOT NULL  UNIQUE,
  creation_date int8 NOT NULL,
  creator uuid,
  PRIMARY KEY(bucket_id)
  CONSTRAINT user_constraint
      FOREIGN KEY(creator) 
        REFERENCES users(user_id)
        ON DELETE SET NULL
)"@,
        Database::Users => "CREATE TABLE IF NOT EXISTS users (
  user_id uuid NOT NULL UNIQUE,
  name text NOT NULL UNIQUE,
  password text NOT NULL,
  email text,
  PRIMARY KEY(user_id)
)"@,
        Database::Objects => "CREATE TABLE IF NOT EXISTS objects (
  object_id uuid NOT NULL   UNIQUE,
  name text NOT NULL   UNIQUE,
  upload_date int8 NOT NULL,
  content_disposition text NOT NULL,
  content_length oid NOT NULL,
  content_type text NOT NULL,
  last_modified int8 NOT NULL,
  etag text NOT NULL,
  encrypted bool NOT NULL,
  bucket_id uuid NOT NULL,
  creator uuid,
  PRIMARY KEY(object_id),
  CONSTRAINT bucket_constraint
      FOREIGN KEY(bucket_id) 
        REFERENCES buckets(bucket_id)
        ON DELETE CASCADE
  CONSTRAINT creator_constraint
    FOREIGN KEY(creator) 
      REFERENCES users(user_id)
      ON DELETE SET NULL
)"@,
        Database::Permisssions => "CREATE TABLE IF NOT EXISTS permissions (
  permission_id uuid NOT NULL UNIQUE,
  user uuid,
  bucket uuid NOT NULL,
  permission_option uuid NOT NULL,
  PRIMARY KEY(permission_id),
  CONSTRAINT bucket_constraint
      FOREIGN KEY(bucket) 
        REFERENCES buckets(bucket_id)
        ON DELETE CASCADE
  CONSTRAINT user_constraint
    FOREIGN KEY(user) 
      REFERENCES users(user_id)
      ON DELETE SET NULL
  CONSTRAINT permission_option_constraint
    FOREIGN KEY(permission_option) 
      REFERENCES permission_options(permission_option_id)
      ON DELETE CASCADE
)"@,
        Database::PermisssionOptions => "CREATE TABLE IF NOT EXISTS permission_options (
  permission_option_id uuid NOT NULL UNIQUE,
  name text NOT NULL UNIQUE,
  PRIMARY KEY(permission_option_id)
)"@,
    }
}

/// The statement that creates `db` when it does not exist yet.
pub fn create_table_sql(db: Database) -> (s: &'static str)
    ensures
        s@ == create_statement(db),
{
    match db {
        Database::Buckets => "CREATE TABLE IF NOT EXISTS buckets (
  bucket_id uuid NOT NULL  UNIQUE,
  name text NOT NULL  UNIQUE,
  creation_date int8 NOT NULL,
  creator uuid,
  PRIMARY KEY(bucket_id)
  CONSTRAINT user_constraint
      FOREIGN KEY(creator) 
        REFERENCES users(user_id)
        ON DELETE SET NULL
)",
        Database::Users => "CREATE TABLE IF NOT EXISTS users (
  user_id uuid NOT NULL UNIQUE,
  name text NOT NULL UNIQUE,
  password text NOT NULL,
  email text,
  PRIMARY KEY(user_id)
)",
        Database::Objects => "CREATE TABLE IF NOT EXISTS objects (
  object_id uuid NOT NULL   UNIQUE,
  name text NOT NULL   UNIQUE,
  upload_date int8 NOT NULL,
  content_disposition text NOT NULL,
  content_length oid NOT NULL,
  content_type text NOT NULL,
  last_modified int8 NOT NULL,
  etag text NOT NULL,
  encrypted bool NOT NULL,
  bucket_id uuid NOT NULL,
  creator uuid,
  PRIMARY KEY(object_id),
  CONSTRAINT bucket_constraint
      FOREIGN KEY(bucket_id) 
        REFERENCES buckets(bucket_id)
        ON DELETE CASCADE
  CONSTRAINT creator_constraint
    FOREIGN KEY(creator) 
      REFERENCES users(user_id)
      ON DELETE SET NULL
)",
        Database::Permisssions => "CREATE TABLE IF NOT EXISTS permissions (
  permission_id uuid NOT NULL UNIQUE,
  user uuid,
  bucket uuid NOT NULL,
  permission_option uuid NOT NULL,
  PRIMARY KEY(permission_id),
  CONSTRAINT bucket_constraint
      FOREIGN KEY(bucket) 
        REFERENCES buckets(bucket_id)
        ON DELETE CASCADE
  CONSTRAINT user_constraint
    FOREIGN KEY(user) 
      REFERENCES users(user_id)
      ON DELETE SET NULL
  CONSTRAINT permission_option_constraint
    FOREIGN KEY(permission_option) 
      REFERENCES permission_options(permission_option_id)
      ON DELETE CASCADE
)",
        Database::PermisssionOptions => "CREATE TABLE IF NOT EXISTS permission_options (
  permission_option_id uuid NOT NULL UNIQUE,
  name text NOT NULL UNIQUE,
  PRIMARY KEY(permission_option_id)
)",
    }
}
/// The name of each table.
pub open spec fn table_name(db: Database) -> Seq<char> {
    match db {
        Database::Buckets => "buckets"@,
        Database::Users => "users"@,
        Database::Objects => "objects"@,
        Database::Permisssions => "permissions"@,
        Database::PermisssionOptions => "permission_options"@,
    }
}

/// The statement that drops a table when it exists.
pub open spec fn drop_statement(db: Database) -> Seq<char> {
    match db {
        Database::Buckets => "DROP TABLE IF EXISTS buckets"@,
        Database::Users => "DROP TABLE IF EXISTS users"@,
        Database::Objects => "DROP TABLE IF EXISTS objects"@,
        Database::Permisssions => "DROP TABLE IF EXISTS permissions"@,
        Database::PermisssionOptions => "DROP TABLE IF EXISTS permission_options"@,
    }
}

/// The statement that drops `db` when it exists.
pub fn drop_table_sql(db: Database) -> (s: &'static str)
    ensures
        s@ == drop_statement(db),
{
    match db {
        Database::Buckets => "DROP TABLE IF EXISTS buckets",
        Database::Users => "DROP TABLE IF EXISTS users",
        Database::Objects => "DROP TABLE IF EXISTS objects",
        Database::Permisssions => "DROP TABLE IF EXISTS permissions",
        Database::PermisssionOptions => "DROP TABLE IF EXISTS permission_options",
    }
}

/// The statement with which the user directory drops its users table,
/// together with everything that depends on it.
pub fn drop_users_cascade_sql() -> (s: &'static str)
    ensures
        s@ == "DROP TABLE IF EXISTS users CASCADE"@,
{
    "DROP TABLE IF EXISTS users CASCADE"
}

/// Each drop statement drops the table of its name.
pub proof fn lemma_drop_names_table(db: Database)
    ensures
        drop_statement(db) == "DROP TABLE IF EXISTS "@ + table_name(db),
{
    reveal_strlit("DROP TABLE IF EXISTS ");
    reveal_strlit("buckets");
    reveal_strlit("users");
    reveal_strlit("objects");
    reveal_strlit("permissions");
    reveal_strlit("permission_options");
    reveal_strlit("DROP TABLE IF EXISTS buckets");
    reveal_strlit("DROP TABLE IF EXISTS users");
    reveal_strlit("DROP TABLE IF EXISTS objects");
    reveal_strlit("DROP TABLE IF EXISTS permissions");
    reveal_strlit("DROP TABLE IF EXISTS permission_options");
    assert(drop_statement(db) =~= "DROP TABLE IF EXISTS "@ + table_name(db));
}

/// Each create statement creates the table of its name.
pub proof fn lemma_create_names_table(db: Database)
    ensures
        has_prefix(create_statement(db), "CREATE TABLE IF NOT EXISTS "@ + table_name(db) + " ("@),
{
    reveal_strlit("CREATE TABLE IF NOT EXISTS ");
    reveal_strlit(" (");
    reveal_strlit("buckets");
    reveal_strlit("users");
    reveal_strlit("objects");
    reveal_strlit("permissions");
    reveal_strlit("permission_options");
    reveal_strlit("CREATE TABLE IF NOT EXISTS buckets (
  bucket_id uuid NOT NULL  UNIQUE,
  name text NOT NULL  UNIQUE,
  creation_date int8 NOT NULL,
  creator uuid,
  PRIMARY KEY(bucket_id)
  CONSTRAINT user_constraint
      FOREIGN KEY(creator) 
        REFERENCES users(user_id)
        ON DELETE SET NULL
)");
    reveal_strlit("CREATE TABLE IF NOT EXISTS users (
  user_id uuid NOT NULL UNIQUE,
  name text NOT NULL UNIQUE,
  password text NOT NULL,
  email text,
  PRIMARY KEY(user_id)
)");
    reveal_strlit("CREATE TABLE IF NOT EXISTS objects (
  object_id uuid NOT NULL   UNIQUE,
  name text NOT NULL   UNIQUE,
  upload_date int8 NOT NULL,
  content_disposition text NOT NULL,
  content_length oid NOT NULL,
  content_type text NOT NULL,
  last_modified int8 NOT NULL,
  etag text NOT NULL,
  encrypted bool NOT NULL,
  bucket_id uuid NOT NULL,
  creator uuid,
  PRIMARY KEY(object_id),
  CONSTRAINT bucket_constraint
      FOREIGN KEY(bucket_id) 
        REFERENCES buckets(bucket_id)
        ON DELETE CASCADE
  CONSTRAINT creator_constraint
    FOREIGN KEY(creator) 
      REFERENCES users(user_id)
      ON DELETE SET NULL
)");
    reveal_strlit("CREATE TABLE IF NOT EXISTS permissions (
  permission_id uuid NOT NULL UNIQUE,
  user uuid,
  bucket uuid NOT NULL,
  permission_option uuid NOT NULL,
  PRIMARY KEY(permission_id),
  CONSTRAINT bucket_constraint
      FOREIGN KEY(bucket) 
        REFERENCES buckets(bucket_id)
        ON DELETE CASCADE
  CONSTRAINT user_constraint
    FOREIGN KEY(user) 
      REFERENCES users(user_id)
      ON DELETE SET NULL
  CONSTRAINT permission_option_constraint
    FOREIGN KEY(permission_option) 
      REFERENCES permission_options(permission_option_id)
      ON DELETE CASCADE
)");
    reveal_strlit("CREATE TABLE IF NOT EXISTS permission_options (
  permission_option_id uuid NOT NULL UNIQUE,
  name text NOT NULL UNIQUE,
  PRIMARY KEY(permission_option_id)
)");
    let pre = "CREATE TABLE IF NOT EXISTS "@ + table_name(db) + " ("@;
    assert(create_statement(db).subrange(0, pre.len() as int) =~= pre);
}

/// The constraints each table is created with: which columns must be
/// present (`NOT NULL`), which must be unique (`UNIQUE`; in particular user,
/// bucket, object and permission-option names), each table's primary key,
/// and each reference to another table with what happens when the row
/// referred to is deleted.
pub proof fn lemma_table_constraints()
    ensures
        contains_text(create_statement(Database::Users), "user_id uuid NOT NULL UNIQUE"@),
        contains_text(create_statement(Database::Users), "name text NOT NULL UNIQUE"@),
        contains_text(create_statement(Database::Users), "password text NOT NULL"@),
        contains_text(create_statement(Database::Users), "PRIMARY KEY(user_id)"@),
        contains_text(create_statement(Database::Buckets), "bucket_id uuid NOT NULL  UNIQUE"@),
        contains_text(create_statement(Database::Buckets), "name text NOT NULL  UNIQUE"@),
        contains_text(create_statement(Database::Buckets), "creation_date int8 NOT NULL"@),
        contains_text(create_statement(Database::Buckets), "PRIMARY KEY(bucket_id)"@),
        contains_text(create_statement(Database::Buckets), "FOREIGN KEY(creator) \n        REFERENCES users(user_id)\n        ON DELETE SET NULL"@),
        contains_text(create_statement(Database::Objects), "object_id uuid NOT NULL   UNIQUE"@),
        contains_text(create_statement(Database::Objects), "name text NOT NULL   UNIQUE"@),
        contains_text(create_statement(Database::Objects), "upload_date int8 NOT NULL"@),
        contains_text(create_statement(Database::Objects), "content_disposition text NOT NULL"@),
        contains_text(create_statement(Database::Objects), "content_length oid NOT NULL"@),
        contains_text(create_statement(Database::Objects), "content_type text NOT NULL"@),
        contains_text(create_statement(Database::Objects), "last_modified int8 NOT NULL"@),
        contains_text(create_statement(Database::Objects), "etag text NOT NULL"@),
        contains_text(create_statement(Database::Objects), "encrypted bool NOT NULL"@),
        contains_text(create_statement(Database::Objects), "bucket_id uuid NOT NULL"@),
        contains_text(create_statement(Database::Objects), "PRIMARY KEY(object_id)"@),
        contains_text(create_statement(Database::Objects), "FOREIGN KEY(bucket_id) \n        REFERENCES buckets(bucket_id)\n        ON DELETE CASCADE"@),
        contains_text(create_statement(Database::Objects), "FOREIGN KEY(creator) \n      REFERENCES users(user_id)\n      ON DELETE SET NULL"@),
        contains_text(create_statement(Database::Permisssions), "permission_id uuid NOT NULL UNIQUE"@),
        contains_text(create_statement(Database::Permisssions), "bucket uuid NOT NULL"@),
        contains_text(create_statement(Database::Permisssions), "permission_option uuid NOT NULL"@),
        contains_text(create_statement(Database::Permisssions), "PRIMARY KEY(permission_id)"@),
        contains_text(create_statement(Database::Permisssions), "FOREIGN KEY(bucket) \n        REFERENCES buckets(bucket_id)\n        ON DELETE CASCADE"@),
        contains_text(create_statement(Database::Permisssions), "FOREIGN KEY(user) \n      REFERENCES users(user_id)\n      ON DELETE SET NULL"@),
        contains_text(create_statement(Database::Permisssions), "FOREIGN KEY(permission_option) \n      REFERENCES permission_options(permission_option_id)\n      ON DELETE CASCADE"@),
        contains_text(create_statement(Database::PermisssionOptions), "permission_option_id uuid NOT NULL UNIQUE"@),
        contains_text(create_statement(Database::PermisssionOptions), "name text NOT NULL UNIQUE"@),
        contains_text(create_statement(Database::PermisssionOptions), "PRIMARY KEY(permission_option_id)"@),
{
    lemma_users_constraints();
    lemma_buckets_constraints();
    lemma_objects_constraints();
    lemma_permissions_constraints();
    lemma_permission_options_constraints();
}

proof fn lemma_users_constraints()
    ensures
        contains_text(create_statement(Database::Users), "user_id uuid NOT NULL UNIQUE"@),
        contains_text(create_statement(Database::Users), "name text NOT NULL UNIQUE"@),
        contains_text(create_statement(Database::Users), "password text NOT NULL"@),
        contains_text(create_statement(Database::Users), "PRIMARY KEY(user_id)"@),
{
    reveal_strlit("CREATE TABLE IF NOT EXISTS users (\n  user_id uuid NOT NULL UNIQUE,\n  name text NOT NULL UNIQUE,\n  password text NOT NULL,\n  email text,\n  PRIMARY KEY(user_id)\n)");
    let s = create_statement(Database::Users);
    reveal_strlit("user_id uuid NOT NULL UNIQUE");
    assert(s.subrange(37, 65) =~= "user_id uuid NOT NULL UNIQUE"@);
    assert(occurs_at(s, "user_id uuid NOT NULL UNIQUE"@, 37));
    reveal_strlit("name text NOT NULL UNIQUE");
    assert(s.subrange(69, 94) =~= "name text NOT NULL UNIQUE"@);
    assert(occurs_at(s, "name text NOT NULL UNIQUE"@, 69));
    reveal_strlit("password text NOT NULL");
    assert(s.subrange(98, 120) =~= "password text NOT NULL"@);
    assert(occurs_at(s, "password text NOT NULL"@, 98));
    reveal_strlit("PRIMARY KEY(user_id)");
    assert(s.subrange(138, 158) =~= "PRIMARY KEY(user_id)"@);
    assert(occurs_at(s, "PRIMARY KEY(user_id)"@, 138));
}

proof fn lemma_buckets_constraints()
    ensures
        contains_text(create_statement(Database::Buckets), "bucket_id uuid NOT NULL  UNIQUE"@),
        contains_text(create_statement(Database::Buckets), "name text NOT NULL  UNIQUE"@),
        contains_text(create_statement(Database::Buckets), "creation_date int8 NOT NULL"@),
        contains_text(create_statement(Database::Buckets), "PRIMARY KEY(bucket_id)"@),
        contains_text(create_statement(Database::Buckets), "FOREIGN KEY(creator) \n        REFERENCES users(user_id)\n        ON DELETE SET NULL"@),
{
    reveal_strlit("CREATE TABLE IF NOT EXISTS buckets (\n  bucket_id uuid NOT NULL  UNIQUE,\n  name text NOT NULL  UNIQUE,\n  creation_date int8 NOT NULL,\n  creator uuid,\n  PRIMARY KEY(bucket_id)\n  CONSTRAINT user_constraint\n      FOREIGN KEY(creator) \n        REFERENCES users(user_id)\n        ON DELETE SET NULL\n)");
    let s = create_statement(Database::Buckets);
    reveal_strlit("bucket_id uuid NOT NULL  UNIQUE");
    assert(s.subrange(39, 70) =~= "bucket_id uuid NOT NULL  UNIQUE"@);
    assert(occurs_at(s, "bucket_id uuid NOT NULL  UNIQUE"@, 39));
    reveal_strlit("name text NOT NULL  UNIQUE");
    assert(s.subrange(74, 100) =~= "name text NOT NULL  UNIQUE"@);
    assert(occurs_at(s, "name text NOT NULL  UNIQUE"@, 74));
    reveal_strlit("creation_date int8 NOT NULL");
    assert(s.subrange(104, 131) =~= "creation_date int8 NOT NULL"@);
    assert(occurs_at(s, "creation_date int8 NOT NULL"@, 104));
    reveal_strlit("PRIMARY KEY(bucket_id)");
    assert(s.subrange(151, 173) =~= "PRIMARY KEY(bucket_id)"@);
    assert(occurs_at(s, "PRIMARY KEY(bucket_id)"@, 151));
    reveal_strlit("FOREIGN KEY(creator) \n        REFERENCES users(user_id)\n        ON DELETE SET NULL");
    assert(s.subrange(209, 291) =~= "FOREIGN KEY(creator) \n        REFERENCES users(user_id)\n        ON DELETE SET NULL"@);
    assert(occurs_at(s, "FOREIGN KEY(creator) \n        REFERENCES users(user_id)\n        ON DELETE SET NULL"@, 209));
}

proof fn lemma_objects_constraints()
    ensures
        contains_text(create_statement(Database::Objects), "object_id uuid NOT NULL   UNIQUE"@),
        contains_text(create_statement(Database::Objects), "name text NOT NULL   UNIQUE"@),
        contains_text(create_statement(Database::Objects), "upload_date int8 NOT NULL"@),
        contains_text(create_statement(Database::Objects), "content_disposition text NOT NULL"@),
        contains_text(create_statement(Database::Objects), "content_length oid NOT NULL"@),
        contains_text(create_statement(Database::Objects), "content_type text NOT NULL"@),
        contains_text(create_statement(Database::Objects), "last_modified int8 NOT NULL"@),
        contains_text(create_statement(Database::Objects), "etag text NOT NULL"@),
        contains_text(create_statement(Database::Objects), "encrypted bool NOT NULL"@),
        contains_text(create_statement(Database::Objects), "bucket_id uuid NOT NULL"@),
        contains_text(create_statement(Database::Objects), "PRIMARY KEY(object_id)"@),
        contains_text(create_statement(Database::Objects), "FOREIGN KEY(bucket_id) \n        REFERENCES buckets(bucket_id)\n        ON DELETE CASCADE"@),
        contains_text(create_statement(Database::Objects), "FOREIGN KEY(creator) \n      REFERENCES users(user_id)\n      ON DELETE SET NULL"@),
{
    reveal_strlit("CREATE TABLE IF NOT EXISTS objects (\n  object_id uuid NOT NULL   UNIQUE,\n  name text NOT NULL   UNIQUE,\n  upload_date int8 NOT NULL,\n  content_disposition text NOT NULL,\n  content_length oid NOT NULL,\n  content_type text NOT NULL,\n  last_modified int8 NOT NULL,\n  etag text NOT NULL,\n  encrypted bool NOT NULL,\n  bucket_id uuid NOT NULL,\n  creator uuid,\n  PRIMARY KEY(object_id),\n  CONSTRAINT bucket_constraint\n      FOREIGN KEY(bucket_id) \n        REFERENCES buckets(bucket_id)\n        ON DELETE CASCADE\n  CONSTRAINT creator_constraint\n    FOREIGN KEY(creator) \n      REFERENCES users(user_id)\n      ON DELETE SET NULL\n)");
    let s = create_statement(Database::Objects);
    reveal_strlit("object_id uuid NOT NULL   UNIQUE");
    assert(s.subrange(39, 71) =~= "object_id uuid NOT NULL   UNIQUE"@);
    assert(occurs_at(s, "object_id uuid NOT NULL   UNIQUE"@, 39));
    reveal_strlit("name text NOT NULL   UNIQUE");
    assert(s.subrange(75, 102) =~= "name text NOT NULL   UNIQUE"@);
    assert(occurs_at(s, "name text NOT NULL   UNIQUE"@, 75));
    reveal_strlit("upload_date int8 NOT NULL");
    assert(s.subrange(106, 131) =~= "upload_date int8 NOT NULL"@);
    assert(occurs_at(s, "upload_date int8 NOT NULL"@, 106));
    reveal_strlit("content_disposition text NOT NULL");
    assert(s.subrange(135, 168) =~= "content_disposition text NOT NULL"@);
    assert(occurs_at(s, "content_disposition text NOT NULL"@, 135));
    reveal_strlit("content_length oid NOT NULL");
    assert(s.subrange(172, 199) =~= "content_length oid NOT NULL"@);
    assert(occurs_at(s, "content_length oid NOT NULL"@, 172));
    reveal_strlit("content_type text NOT NULL");
    assert(s.subrange(203, 229) =~= "content_type text NOT NULL"@);
    assert(occurs_at(s, "content_type text NOT NULL"@, 203));
    reveal_strlit("last_modified int8 NOT NULL");
    assert(s.subrange(233, 260) =~= "last_modified int8 NOT NULL"@);
    assert(occurs_at(s, "last_modified int8 NOT NULL"@, 233));
    reveal_strlit("etag text NOT NULL");
    assert(s.subrange(264, 282) =~= "etag text NOT NULL"@);
    assert(occurs_at(s, "etag text NOT NULL"@, 264));
    reveal_strlit("encrypted bool NOT NULL");
    assert(s.subrange(286, 309) =~= "encrypted bool NOT NULL"@);
    assert(occurs_at(s, "encrypted bool NOT NULL"@, 286));
    reveal_strlit("bucket_id uuid NOT NULL");
    assert(s.subrange(313, 336) =~= "bucket_id uuid NOT NULL"@);
    assert(occurs_at(s, "bucket_id uuid NOT NULL"@, 313));
    reveal_strlit("PRIMARY KEY(object_id)");
    assert(s.subrange(356, 378) =~= "PRIMARY KEY(object_id)"@);
    assert(occurs_at(s, "PRIMARY KEY(object_id)"@, 356));
    reveal_strlit("FOREIGN KEY(bucket_id) \n        REFERENCES buckets(bucket_id)\n        ON DELETE CASCADE");
    assert(s.subrange(417, 504) =~= "FOREIGN KEY(bucket_id) \n        REFERENCES buckets(bucket_id)\n        ON DELETE CASCADE"@);
    assert(occurs_at(s, "FOREIGN KEY(bucket_id) \n        REFERENCES buckets(bucket_id)\n        ON DELETE CASCADE"@, 417));
    reveal_strlit("FOREIGN KEY(creator) \n      REFERENCES users(user_id)\n      ON DELETE SET NULL");
    assert(s.subrange(541, 619) =~= "FOREIGN KEY(creator) \n      REFERENCES users(user_id)\n      ON DELETE SET NULL"@);
    assert(occurs_at(s, "FOREIGN KEY(creator) \n      REFERENCES users(user_id)\n      ON DELETE SET NULL"@, 541));
}

proof fn lemma_permissions_constraints()
    ensures
        contains_text(create_statement(Database::Permisssions), "permission_id uuid NOT NULL UNIQUE"@),
        contains_text(create_statement(Database::Permisssions), "bucket uuid NOT NULL"@),
        contains_text(create_statement(Database::Permisssions), "permission_option uuid NOT NULL"@),
        contains_text(create_statement(Database::Permisssions), "PRIMARY KEY(permission_id)"@),
        contains_text(create_statement(Database::Permisssions), "FOREIGN KEY(bucket) \n        REFERENCES buckets(bucket_id)\n        ON DELETE CASCADE"@),
        contains_text(create_statement(Database::Permisssions), "FOREIGN KEY(user) \n      REFERENCES users(user_id)\n      ON DELETE SET NULL"@),
        contains_text(create_statement(Database::Permisssions), "FOREIGN KEY(permission_option) \n      REFERENCES permission_options(permission_option_id)\n      ON DELETE CASCADE"@),
{
    reveal_strlit("CREATE TABLE IF NOT EXISTS permissions (\n  permission_id uuid NOT NULL UNIQUE,\n  user uuid,\n  bucket uuid NOT NULL,\n  permission_option uuid NOT NULL,\n  PRIMARY KEY(permission_id),\n  CONSTRAINT bucket_constraint\n      FOREIGN KEY(bucket) \n        REFERENCES buckets(bucket_id)\n        ON DELETE CASCADE\n  CONSTRAINT user_constraint\n    FOREIGN KEY(user) \n      REFERENCES users(user_id)\n      ON DELETE SET NULL\n  CONSTRAINT permission_option_constraint\n    FOREIGN KEY(permission_option) \n      REFERENCES permission_options(permission_option_id)\n      ON DELETE CASCADE\n)");
    let s = create_statement(Database::Permisssions);
    reveal_strlit("permission_id uuid NOT NULL UNIQUE");
    assert(s.subrange(43, 77) =~= "permission_id uuid NOT NULL UNIQUE"@);
    assert(occurs_at(s, "permission_id uuid NOT NULL UNIQUE"@, 43));
    reveal_strlit("bucket uuid NOT NULL");
    assert(s.subrange(94, 114) =~= "bucket uuid NOT NULL"@);
    assert(occurs_at(s, "bucket uuid NOT NULL"@, 94));
    reveal_strlit("permission_option uuid NOT NULL");
    assert(s.subrange(118, 149) =~= "permission_option uuid NOT NULL"@);
    assert(occurs_at(s, "permission_option uuid NOT NULL"@, 118));
    reveal_strlit("PRIMARY KEY(permission_id)");
    assert(s.subrange(153, 179) =~= "PRIMARY KEY(permission_id)"@);
    assert(occurs_at(s, "PRIMARY KEY(permission_id)"@, 153));
    reveal_strlit("FOREIGN KEY(bucket) \n        REFERENCES buckets(bucket_id)\n        ON DELETE CASCADE");
    assert(s.subrange(218, 302) =~= "FOREIGN KEY(bucket) \n        REFERENCES buckets(bucket_id)\n        ON DELETE CASCADE"@);
    assert(occurs_at(s, "FOREIGN KEY(bucket) \n        REFERENCES buckets(bucket_id)\n        ON DELETE CASCADE"@, 218));
    reveal_strlit("FOREIGN KEY(user) \n      REFERENCES users(user_id)\n      ON DELETE SET NULL");
    assert(s.subrange(336, 411) =~= "FOREIGN KEY(user) \n      REFERENCES users(user_id)\n      ON DELETE SET NULL"@);
    assert(occurs_at(s, "FOREIGN KEY(user) \n      REFERENCES users(user_id)\n      ON DELETE SET NULL"@, 336));
    reveal_strlit("FOREIGN KEY(permission_option) \n      REFERENCES permission_options(permission_option_id)\n      ON DELETE CASCADE");
    assert(s.subrange(458, 571) =~= "FOREIGN KEY(permission_option) \n      REFERENCES permission_options(permission_option_id)\n      ON DELETE CASCADE"@);
    assert(occurs_at(s, "FOREIGN KEY(permission_option) \n      REFERENCES permission_options(permission_option_id)\n      ON DELETE CASCADE"@, 458));
}

proof fn lemma_permission_options_constraints()
    ensures
        contains_text(create_statement(Database::PermisssionOptions), "permission_option_id uuid NOT NULL UNIQUE"@),
        contains_text(create_statement(Database::PermisssionOptions), "name text NOT NULL UNIQUE"@),
        contains_text(create_statement(Database::PermisssionOptions), "PRIMARY KEY(permission_option_id)"@),
{
    reveal_strlit("CREATE TABLE IF NOT EXISTS permission_options (\n  permission_option_id uuid NOT NULL UNIQUE,\n  name text NOT NULL UNIQUE,\n  PRIMARY KEY(permission_option_id)\n)");
    let s = create_statement(Database::PermisssionOptions);
    reveal_strlit("permission_option_id uuid NOT NULL UNIQUE");
    assert(s.subrange(50, 91) =~= "permission_option_id uuid NOT NULL UNIQUE"@);
    assert(occurs_at(s, "permission_option_id uuid NOT NULL UNIQUE"@, 50));
    reveal_strlit("name text NOT NULL UNIQUE");
    assert(s.subrange(95, 120) =~= "name text NOT NULL UNIQUE"@);
    assert(occurs_at(s, "name text NOT NULL UNIQUE"@, 95));
    reveal_strlit("PRIMARY KEY(permission_option_id)");
    assert(s.subrange(124, 157) =~= "PRIMARY KEY(permission_option_id)"@);
    assert(occurs_at(s, "PRIMARY KEY(permission_option_id)"@, 124));
}

/// The tables are named `buckets`, `users`, `objects`, `permissions` and
/// `permission_options`: the names that the create statements refer to
/// each other by.
pub proof fn lemma_table_names()
    ensures
        table_name(Database::Buckets) == "buckets"@,
        table_name(Database::Users) == "users"@,
        table_name(Database::Objects) == "objects"@,
        table_name(Database::Permisssions) == "permissions"@,
        table_name(Database::PermisssionOptions) == "permission_options"@,
{
}

} // verus!
