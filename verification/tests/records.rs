use kitty_api::data_item::{data_item_sql, u32_from_column, u32_to_column, u64_from_column, u64_to_column};
use kitty_api::preparation::picture_path_of;
use kitty_api::data_item::{
    column_kind, generate_excluded_sql, generate_fields_sql, impl_data_item, struct_from_row,
    vector_fields_to_sql, ColumnKind, Field,
};
use kitty_api::entities::{Cat, User};
use kitty_api::misc::MsgCode;
use kitty_api::preparation::{cat_picture_path, generate_cats};
use kitty_api::user::{generate_users, User as StoredUser};
use kitty_api::users::{creation_code, lookup_code, page_window, removal_code};

fn field(name: &str, ty: &str) -> Field {
    Field { name: name.to_string(), ty: ty.to_string() }
}

fn user_fields() -> Vec<Field> {
    vec![
        field("id", "u32"),
        field("username", "String"),
        field("first_name", "String"),
        field("last_name", "String"),
        field("email", "String"),
        field("age", "u32"),
        field("active", "bool"),
        field("picture", "String"),
    ]
}

fn cat(name: &str) -> Cat {
    Cat {
        id: 3,
        name: name.to_string(),
        breed: "Siamese".to_string(),
        age: 4,
        weight: 4200,
        picture: String::new(),
    }
}

fn stored(name: &str) -> StoredUser {
    StoredUser {
        id: 0,
        username: name.to_string(),
        first_name: "F".to_string(),
        last_name: "L".to_string(),
        email: format!("{}@x.io", name),
        age: 30,
        active: true,
        picture: String::new(),
    }
}

#[test]
fn column_kinds() {
    for t in ["String", "bool", "f32", "f64", "i32", "i64"] {
        assert_eq!(column_kind(t), Some(ColumnKind::Native));
    }
    assert_eq!(column_kind("u32"), Some(ColumnKind::U32AsI32));
    assert_eq!(column_kind("u64"), Some(ColumnKind::U64AsI64));
    assert_eq!(column_kind("u8"), None);
    assert_eq!(column_kind("Vec<u8>"), None);
}

#[test]
fn fields_sql_without_id() {
    let (cols, dollars) = generate_fields_sql(&user_fields(), true);
    assert_eq!(cols, "username, first_name, last_name, email, age, active, picture");
    assert_eq!(dollars, "$1, $2, $3, $4, $5, $6, $7");
}

#[test]
fn fields_sql_with_id() {
    let (cols, dollars) = generate_fields_sql(&user_fields(), false);
    assert_eq!(cols, "id, username, first_name, last_name, email, age, active, picture");
    assert_eq!(dollars, "$1, $2, $3, $4, $5, $6, $7, $8");
}

#[test]
fn fields_sql_many_and_none() {
    let many: Vec<Field> = (0..12).map(|i| field(&format!("f{}", i), "i32")).collect();
    let (_, dollars) = generate_fields_sql(&many, true);
    assert_eq!(dollars, "$1, $2, $3, $4, $5, $6, $7, $8, $9, $10, $11, $12");
    let (cols, dollars) = generate_fields_sql(&vec![field("id", "u32")], true);
    assert_eq!(cols, "");
    assert_eq!(dollars, "");
}

#[test]
fn excluded_sql() {
    let fields = vec![field("id", "u32"), field("text", "String"), field("length", "u32")];
    assert_eq!(generate_excluded_sql(&fields, true), "text = EXCLUDED.text, length = EXCLUDED.length");
    assert_eq!(
        generate_excluded_sql(&fields, false),
        "id = EXCLUDED.id, text = EXCLUDED.text, length = EXCLUDED.length"
    );
}

#[test]
fn columns_of_fields() {
    let fields = user_fields();
    let row = struct_from_row(&fields);
    assert_eq!(row.len(), 8);
    assert_eq!(row[0].name, "id");
    assert_eq!(row[0].kind, ColumnKind::U32AsI32);
    assert_eq!(row[1].kind, ColumnKind::Native);
    let params = vector_fields_to_sql(&fields, true);
    assert_eq!(params.len(), 7);
    assert_eq!(params[0].name, "username");
    assert_eq!(params[4].name, "age");
    assert_eq!(params[4].kind, ColumnKind::U32AsI32);
    assert_eq!(vector_fields_to_sql(&fields, false).len(), 8);
}

#[test]
fn data_item_for_textcat() {
    let fields = vec![
        field("id", "u32"),
        field("text", "String"),
        field("is_ascii", "bool"),
        field("length", "u32"),
    ];
    let sql = impl_data_item("TextCat", &fields);
    assert_eq!(sql.table, "textcats");
    assert_eq!(sql.item, "textcat");
    assert_eq!(sql.select_by_id, "SELECT * FROM textcats WHERE id = $1");
    assert_eq!(sql.select_all, "SELECT * FROM textcats");
    assert_eq!(sql.select_page, "SELECT * FROM textcats ORDER BY id ASC LIMIT $1 OFFSET $2");
    assert_eq!(sql.insert, "INSERT INTO textcats (text, is_ascii, length)VALUES ($1, $2, $3) RETURNING id");
    assert_eq!(
        sql.insert_with_id,
        "INSERT INTO textcats (id, text, is_ascii, length)VALUES ($1, $2, $3, $4) RETURNING id"
    );
    assert_eq!(
        sql.put,
        "INSERT INTO textcats (id, text, is_ascii, length)VALUES ($1, $2, $3, $4) ON CONFLICT (id) DO UPDATE SET text = EXCLUDED.text, is_ascii = EXCLUDED.is_ascii, length = EXCLUDED.length RETURNING id"
    );
    assert_eq!(sql.count, "SELECT count(*) FROM textcats");
    assert_eq!(sql.truncate, "TRUNCATE TABLE textcats RESTART IDENTITY");
    assert_eq!(sql.delete_with_id, "DELETE FROM textcats WHERE id = $1 RETURNING *");
    assert_eq!(
        sql.endpoints,
        vec![
            "get_all_textcats",
            "get_textcat_by_index",
            "get_textcats_paginated",
            "create_textcat",
            "create_textcat_by_index",
            "put_textcat_by_index",
            "remove_all_textcats",
            "remove_textcat_by_index",
        ]
    );
    assert_eq!(sql.row_columns.len(), 4);
    assert_eq!(sql.insert_params.len(), 3);
    assert_eq!(sql.all_params.len(), 4);
}

#[test]
fn page_windows() {
    assert_eq!(page_window(0, 5), (5, 0));
    assert_eq!(page_window(3, 5), (5, 15));
    assert_eq!(page_window(4, 5).1, page_window(3, 5).1 + 5);
    assert_eq!(page_window(0, 0), (0, 0));
}

#[test]
fn user_codes() {
    assert_eq!(lookup_code(true), MsgCode::NoInfo);
    assert_eq!(lookup_code(false), MsgCode::ErrUserNotExist);
    assert_eq!(removal_code(true), MsgCode::InfoRemoveUserOk);
    assert_eq!(removal_code(false), MsgCode::ErrUserNotExist);
    assert_eq!(creation_code(true), MsgCode::InfoNewUserOk);
    assert_eq!(creation_code(false), MsgCode::ErrUserExists);
}

#[test]
fn user_with_id() {
    let u = User {
        id: 1,
        username: "kitty".to_string(),
        first_name: "K".to_string(),
        last_name: "C".to_string(),
        email: "k@c.io".to_string(),
        age: 3,
        active: false,
        picture: "p".to_string(),
    };
    let v = u.with_id(77);
    assert_eq!(v.id, 77);
    assert_eq!(v.username, "kitty");
    assert_eq!(v.age, 3);
    assert!(!v.active);
}

#[test]
fn users_are_numbered_from_one() {
    let map = generate_users(vec![stored("a"), stored("b"), stored("c")]);
    assert_eq!(map.len(), 3);
    assert!(map.get(&0).is_none());
    for (k, name) in [(1usize, "a"), (2, "b"), (3, "c")] {
        let u = map.get(&k).unwrap();
        assert_eq!(u.id, k);
        assert_eq!(u.username, name);
    }
    assert!(generate_users(Vec::new()).is_empty());
}

#[test]
fn cat_pictures() {
    assert_eq!(cat_picture_path("Tom"), "/static/pics/cats/256x256/tom.jpg");
    let cats = generate_cats(vec![cat("Tom"), cat("GARFIELD"), cat("Émile")]);
    assert_eq!(cats.len(), 3);
    assert_eq!(cats[0].picture, "/static/pics/cats/256x256/tom.jpg");
    assert_eq!(cats[1].picture, "/static/pics/cats/256x256/garfield.jpg");
    assert_eq!(cats[2].picture, "/static/pics/cats/256x256/émile.jpg");
    assert_eq!(cats[1].name, "GARFIELD");
    assert_eq!(cats[1].weight, 4200);
    assert!(generate_cats(Vec::new()).is_empty());
}

#[test]
fn data_item_from_lowercase_name() {
    let fields = vec![field("id", "u32"), field("name", "String")];
    let sql = data_item_sql("cat", &fields);
    assert_eq!(sql.table, "cats");
    assert_eq!(sql.item, "cat");
    assert_eq!(sql.insert, "INSERT INTO cats (name)VALUES ($1) RETURNING id");
    assert_eq!(
        sql.put,
        "INSERT INTO cats (id, name)VALUES ($1, $2) ON CONFLICT (id) DO UPDATE SET name = EXCLUDED.name RETURNING id"
    );
    let same = impl_data_item("Cat", &fields);
    assert_eq!(same.table, sql.table);
    assert_eq!(same.put, sql.put);
}

#[test]
fn picture_from_lowercase_name() {
    assert_eq!(picture_path_of("tom"), "/static/pics/cats/256x256/tom.jpg");
    assert_eq!(picture_path_of(""), "/static/pics/cats/256x256/.jpg");
}

#[test]
fn column_conversions_round_trip() {
    assert_eq!(u32_to_column(7), 7);
    assert_eq!(u32_to_column(u32::MAX), -1);
    assert_eq!(u32_to_column(1 << 31), i32::MIN);
    assert_eq!(u32_from_column(-1), u32::MAX);
    assert_eq!(u64_to_column(u64::MAX), -1);
    assert_eq!(u64_from_column(i64::MIN), 1 << 63);
    for v in [0u32, 1, 12345, i32::MAX as u32, 1 << 31, u32::MAX] {
        assert_eq!(u32_from_column(u32_to_column(v)), v);
    }
    for v in [0u64, 42, i64::MAX as u64, 1 << 63, u64::MAX] {
        assert_eq!(u64_from_column(u64_to_column(v)), v);
    }
}
