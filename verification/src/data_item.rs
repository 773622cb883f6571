//! What the `DataItem` derive computes from a record type: its table, the
//! columns and the way each is stored, the SQL text of every query that the
//! generated endpoints run, and the names of those endpoints.

use vstd::prelude::*;
use crate::text::{join, lemma_join_push, lowercase, push_decimal, decimal_text, str_eq, to_lowercase};

verus! {

/// A named field of a record type, with the name of its type.
pub struct Field {
    pub name: String,
    pub ty: String,
}

/// The abstract value of a [`Field`].
pub struct FieldView {
    pub name: Seq<char>,
    pub ty: Seq<char>,
}

impl View for Field {
    type V = FieldView;

    open spec fn view(&self) -> FieldView {
        FieldView { name: self.name@, ty: self.ty@ }
    }
}

/// How a field is stored in its column.
#[derive(PartialEq, Eq, Structural, Clone, Copy, Debug)]
pub enum ColumnKind {
    /// The column has the field's own type.
    Native,
    /// A `u32` field kept in an `INTEGER` column, converted with `as`.
    U32AsI32,
    /// A `u64` field kept in a `BIGINT` column, converted with `as`.
    U64AsI64,
}

/// A column: the field it holds and how.
pub struct Column {
    pub name: String,
    pub kind: ColumnKind,
}

/// The abstract value of a [`Column`].
pub struct ColumnView {
    pub name: Seq<char>,
    pub kind: ColumnKind,
}

impl View for Column {
    type V = ColumnView;

    open spec fn view(&self) -> ColumnView {
        ColumnView { name: self.name@, kind: self.kind }
    }
}

/// How a field of the named type is stored; `None` for a type that has no
/// column.
pub open spec fn spec_column_kind(ty: Seq<char>) -> Option<ColumnKind> {
    if ty == "String"@ || ty == "bool"@ || ty == "f32"@ || ty
        == "f64"@ || ty == "i32"@ || ty == "i64"@ {
        Some(ColumnKind::Native)
    } else if ty == "u32"@ {
        Some(ColumnKind::U32AsI32)
    } else if ty == "u64"@ {
        Some(ColumnKind::U64AsI64)
    } else {
        None
    }
}

/// How a field of the named type is stored; `None` for a type that has no
/// column.
pub fn column_kind(ty: &str) -> (r: Option<ColumnKind>)
    ensures
        r == spec_column_kind(ty@),
{
    if str_eq(ty, "String") || str_eq(ty, "bool") || str_eq(ty, "f32")
        || str_eq(ty, "f64") || str_eq(ty, "i32") || str_eq(ty, "i64") {
        Some(ColumnKind::Native)
    } else if str_eq(ty, "u32") {
        Some(ColumnKind::U32AsI32)
    } else if str_eq(ty, "u64") {
        Some(ColumnKind::U64AsI64)
    } else {
        None
    }
}

/// The abstract values of a list of fields.
pub open spec fn fields_view(fields: Seq<Field>) -> Seq<FieldView> {
    fields.map_values(|f: Field| f@)
}

/// Every field has a type with a column.
pub open spec fn all_supported(fields: Seq<FieldView>) -> bool {
    forall|i: int| 0 <= i < fields.len() ==> (#[trigger] spec_column_kind(fields[i].ty)) is Some
}

/// The field name that the write queries leave out: `id` when they count on
/// the database to number the row, else the empty name.
pub open spec fn skipped_name(count_id: bool) -> Seq<char> {
    if count_id {
        "id"@
    } else {
        ""@
    }
}

/// The fields, in order, whose name is not the skipped one.
pub open spec fn kept_fields(fields: Seq<FieldView>, count_id: bool) -> Seq<FieldView>
    decreases fields.len(),
{
    if fields.len() == 0 {
        Seq::empty()
    } else {
        let rest = kept_fields(fields.drop_last(), count_id);
        if fields.last().name != skipped_name(count_id) {
            rest.push(fields.last())
        } else {
            rest
        }
    }
}

/// The names of some fields.
pub open spec fn names_of(fields: Seq<FieldView>) -> Seq<Seq<char>> {
    fields.map_values(|f: FieldView| f.name)
}

/// The columns of some fields of supported types.
pub open spec fn columns_of(fields: Seq<FieldView>) -> Seq<ColumnView> {
    fields.map_values(|f: FieldView| ColumnView { name: f.name, kind: spec_column_kind(f.ty).unwrap() })
}

/// The query placeholders `$1` to `$k`.
pub open spec fn dollar_list(k: nat) -> Seq<Seq<char>> {
    Seq::new(k, |i: int| "$"@ + decimal_text((i + 1) as nat))
}

/// The placeholder list of a query with `k` parameters: `$1, $2, ..., $k`.
pub open spec fn placeholders(k: nat) -> Seq<char> {
    join(dollar_list(k), ", "@)
}

/// A write query binds exactly as many parameters as it has placeholders
/// and names columns: one of each per kept field.
pub proof fn lemma_placeholders_match_columns(fields: Seq<FieldView>, count_id: bool)
    ensures
        dollar_list(kept_fields(fields, count_id).len()).len() == kept_fields(fields, count_id).len(),
        names_of(kept_fields(fields, count_id)).len() == kept_fields(fields, count_id).len(),
        columns_of(kept_fields(fields, count_id)).len() == kept_fields(fields, count_id).len(),
{
}

proof fn lemma_kept_fields_step(fields: Seq<FieldView>, count_id: bool, i: int)
    requires
        0 <= i < fields.len(),
    ensures
        kept_fields(fields.take(i + 1), count_id) == if fields[i].name != skipped_name(count_id) {
            kept_fields(fields.take(i), count_id).push(fields[i])
        } else {
            kept_fields(fields.take(i), count_id)
        },
{
    assert(fields.take(i + 1).drop_last() =~= fields.take(i));
}

proof fn lemma_kept_fields_subset(fields: Seq<FieldView>, count_id: bool)
    requires
        all_supported(fields),
    ensures
        all_supported(kept_fields(fields, count_id)),
    decreases fields.len(),
{
    if fields.len() > 0 {
        let front = fields.drop_last();
        assert(all_supported(front)) by {
            assert forall|i: int| 0 <= i < front.len() implies (#[trigger] spec_column_kind(
                front[i].ty,
            )) is Some by {
                assert(front[i] == fields[i]);
            }
        }
        lemma_kept_fields_subset(front, count_id);
        assert(spec_column_kind(fields[fields.len() - 1].ty) is Some);
    }
}

fn column_of(field: &Field) -> (c: Column)
    requires
        spec_column_kind(field.ty@) is Some,
    ensures
        c@ == (ColumnView {
            name: field.name@,
            kind: spec_column_kind(field.ty@).unwrap(),
        }),
{
    let kind = match column_kind(field.ty.as_str()) {
        Some(k) => k,
        None => ColumnKind::Native,
    };
    Column { name: field.name.clone(), kind }
}

/// The column list and the placeholder list of the write queries:
/// the names of the kept fields joined with `", "`, and `$1, ..., $k` for
/// their number `k`.
pub fn generate_fields_sql(fields: &Vec<Field>, count_id: bool) -> (r: (String, String))
    ensures
        r.0@ == join(names_of(kept_fields(fields_view(fields@), count_id)), ", "@),
        r.1@ == placeholders(kept_fields(fields_view(fields@), count_id).len()),
{
    let ghost all = fields_view(fields@);
    let mut names = String::new();
    let mut dollars = String::new();
    let mut index: usize = 0;
    let n = fields.len();
    let mut i: usize = 0;
    assert(all.take(0) =~= Seq::<FieldView>::empty());
    assert(names_of(Seq::<FieldView>::empty()) =~= Seq::<Seq<char>>::empty());
    assert(dollar_list(0) =~= Seq::<Seq<char>>::empty());
    while i < n
        invariant
            n == fields@.len(),
            all == fields_view(fields@),
            i <= n,
            index == kept_fields(all.take(i as int), count_id).len(),
            index <= i,
            names@ == join(names_of(kept_fields(all.take(i as int), count_id)), ", "@),
            dollars@ == placeholders(index as nat),
        decreases n - i,
    {
        let field = &fields[i];
        proof {
            lemma_kept_fields_step(all, count_id, i as int);
        }
        let skip = if count_id {
            str_eq(field.name.as_str(), "id")
        } else {
            str_eq(field.name.as_str(), "")
        };
        assert(all[i as int] == field@);
        if !skip {
            let ghost before = kept_fields(all.take(i as int), count_id);
            proof {
                lemma_join_push(names_of(before), ", "@, field.name@);
                assert(names_of(before.push(field@)) =~= names_of(before).push(field.name@));
                lemma_join_push(dollar_list(index as nat), ", "@, "$"@ + decimal_text((index + 1) as nat));
                assert(dollar_list((index + 1) as nat) =~= dollar_list(index as nat).push(
                    "$"@ + decimal_text((index + 1) as nat),
                ));
            }
            if index > 0 {
                names.append(", ");
                dollars.append(", ");
            }
            names.append(field.name.as_str());
            index = index + 1;
            dollars.append("$");
            push_decimal(&mut dollars, index);
        }
        i = i + 1;
    }
    assert(all.take(n as int) =~= all);
    (names, dollars)
}

/// The assignments that an upsert makes from the proposed row:
/// `name = EXCLUDED.name` for every kept field, joined with `", "`.
pub open spec fn excluded_assignment(name: Seq<char>) -> Seq<char> {
    name + " = EXCLUDED."@ + name
}

/// The upsert assignments of some fields.
pub open spec fn excluded_list(fields: Seq<FieldView>) -> Seq<Seq<char>> {
    fields.map_values(|f: FieldView| excluded_assignment(f.name))
}

/// The `SET` list of an upsert: `name = EXCLUDED.name` for every kept field,
/// joined with `", "`.
pub fn generate_excluded_sql(fields: &Vec<Field>, count_id: bool) -> (r: String)
    ensures
        r@ == join(excluded_list(kept_fields(fields_view(fields@), count_id)), ", "@),
{
    let ghost all = fields_view(fields@);
    let mut out = String::new();
    let mut count: usize = 0;
    let n = fields.len();
    let mut i: usize = 0;
    assert(all.take(0) =~= Seq::<FieldView>::empty());
    assert(excluded_list(Seq::<FieldView>::empty()) =~= Seq::<Seq<char>>::empty());
    while i < n
        invariant
            n == fields@.len(),
            all == fields_view(fields@),
            i <= n,
            count == kept_fields(all.take(i as int), count_id).len(),
            count <= i,
            out@ == join(excluded_list(kept_fields(all.take(i as int), count_id)), ", "@),
        decreases n - i,
    {
        let field = &fields[i];
        proof {
            lemma_kept_fields_step(all, count_id, i as int);
        }
        let skip = if count_id {
            str_eq(field.name.as_str(), "id")
        } else {
            str_eq(field.name.as_str(), "")
        };
        assert(all[i as int] == field@);
        if !skip {
            let ghost before = kept_fields(all.take(i as int), count_id);
            proof {
                lemma_join_push(excluded_list(before), ", "@, excluded_assignment(field.name@));
                assert(excluded_list(before.push(field@)) =~= excluded_list(before).push(
                    excluded_assignment(field.name@),
                ));
            }
            if count > 0 {
                out.append(", ");
            }
            out.append(field.name.as_str());
            out.append(" = EXCLUDED.");
            out.append(field.name.as_str());
            assert(out@ =~= join(excluded_list(before), ", "@) + (if count > 0 {
                ", "@
            } else {
                ""@
            }) + excluded_assignment(field.name@)) by {
                reveal_strlit("");
            }
            count = count + 1;
        }
        i = i + 1;
    }
    assert(all.take(n as int) =~= all);
    out
}

proof fn lemma_kept_fields_prefix(fields: Seq<FieldView>, count_id: bool, j: int, k: int)
    requires
        0 <= j <= k <= fields.len(),
    ensures
        kept_fields(fields.take(j), count_id).len() <= kept_fields(fields.take(k), count_id).len(),
        forall|idx: int|
            0 <= idx < kept_fields(fields.take(j), count_id).len() ==> #[trigger] kept_fields(
                fields.take(j),
                count_id,
            )[idx] == kept_fields(fields.take(k), count_id)[idx],
    decreases k - j,
{
    if j < k {
        lemma_kept_fields_prefix(fields, count_id, j, k - 1);
        lemma_kept_fields_step(fields, count_id, k - 1);
    }
}

/// The column of each kept field, in order: what the write queries bind as
/// parameters.
pub fn vector_fields_to_sql(fields: &Vec<Field>, count_id: bool) -> (r: Vec<Column>)
    requires
        all_supported(kept_fields(fields_view(fields@), count_id)),
    ensures
        r@.map_values(|c: Column| c@) == columns_of(kept_fields(fields_view(fields@), count_id)),
{
    let ghost all = fields_view(fields@);
    let mut out: Vec<Column> = Vec::new();
    let n = fields.len();
    let mut i: usize = 0;
    assert(all.take(n as int) =~= all);
    assert(all.take(0) =~= Seq::<FieldView>::empty());
    while i < n
        invariant
            n == fields@.len(),
            all == fields_view(fields@),
            i <= n,
            all.take(n as int) == all,
            all_supported(kept_fields(all, count_id)),
            out@.map_values(|c: Column| c@) == columns_of(kept_fields(all.take(i as int), count_id)),
        decreases n - i,
    {
        let field = &fields[i];
        proof {
            lemma_kept_fields_step(all, count_id, i as int);
        }
        let skip = if count_id {
            str_eq(field.name.as_str(), "id")
        } else {
            str_eq(field.name.as_str(), "")
        };
        assert(all[i as int] == field@);
        if !skip {
            let ghost before = kept_fields(all.take(i as int), count_id);
            proof {
                lemma_kept_fields_prefix(all, count_id, i + 1, n as int);
                assert(kept_fields(all.take(i + 1), count_id)[before.len() as int] == field@);
                assert(spec_column_kind(kept_fields(all, count_id)[before.len() as int].ty) is Some);
            }
            let column = column_of(field);
            let ghost prev = out@;
            out.push(column);
            assert(out@.map_values(|c: Column| c@) =~= prev.map_values(|c: Column| c@).push(
                column@,
            ));
            assert(columns_of(before.push(field@)) =~= columns_of(before).push(column@));
        }
        i = i + 1;
    }
    out
}

/// The column of every field, in order: how a row is read back into the
/// record.
pub fn struct_from_row(fields: &Vec<Field>) -> (r: Vec<Column>)
    requires
        all_supported(fields_view(fields@)),
    ensures
        r@.map_values(|c: Column| c@) == columns_of(fields_view(fields@)),
{
    let ghost all = fields_view(fields@);
    let mut out: Vec<Column> = Vec::new();
    let n = fields.len();
    let mut i: usize = 0;
    while i < n
        invariant
            n == fields@.len(),
            all == fields_view(fields@),
            i <= n,
            all_supported(all),
            out@.map_values(|c: Column| c@) == columns_of(all.take(i as int)),
        decreases n - i,
    {
        let field = &fields[i];
        assert(all[i as int] == field@);
        assert(spec_column_kind(all[i as int].ty) is Some);
        let column = column_of(field);
        let ghost prev = out@;
        out.push(column);
        assert(out@.map_values(|c: Column| c@) =~= prev.map_values(|c: Column| c@).push(column@));
        assert(columns_of(all.take(i + 1)) =~= columns_of(all.take(i as int)).push(column@));
        i = i + 1;
    }
    assert(all.take(n as int) =~= all);
    out
}

/// Everything that the derive computes for one record type.
pub struct DataItemSql {
    /// The table: the lowercased type name with an `s`.
    pub table: String,
    /// The lowercased type name, which names a single item.
    pub item: String,
    /// The generated endpoints, in the order they are mounted.
    pub endpoints: Vec<String>,
    /// Reads one row by id.
    pub select_by_id: String,
    /// Reads every row.
    pub select_all: String,
    /// Reads one page of rows in id order.
    pub select_page: String,
    /// Inserts a row numbered by the database.
    pub insert: String,
    /// Inserts a row with the record's own id.
    pub insert_with_id: String,
    /// Inserts a row with the record's own id, or overwrites the row with
    /// that id.
    pub put: String,
    /// Counts the rows.
    pub count: String,
    /// Empties the table and restarts its numbering.
    pub truncate: String,
    /// Deletes one row by id and returns it.
    pub delete_with_id: String,
    /// How a row is read back into the record.
    pub row_columns: Vec<Column>,
    /// The parameters of `insert`.
    pub insert_params: Vec<Column>,
    /// The parameters of `insert_with_id` and `put`.
    pub all_params: Vec<Column>,
}

/// The table of a record type: its lowercased name with an `s`.
pub open spec fn table_of(name: Seq<char>) -> Seq<char> {
    lowercase(name) + "s"@
}

/// The names of the generated endpoints of a table and its items.
pub open spec fn endpoint_names(table: Seq<char>, item: Seq<char>) -> Seq<Seq<char>> {
    seq![
        "get_all_"@ + table,
        "get_"@ + item + "_by_index"@,
        "get_"@ + table + "_paginated"@,
        "create_"@ + item,
        "create_"@ + item + "_by_index"@,
        "put_"@ + item + "_by_index"@,
        "remove_all_"@ + table,
        "remove_"@ + item + "_by_index"@,
    ]
}

/// An insert of the given columns and placeholders that returns the new id.
pub open spec fn insert_text(table: Seq<char>, columns: Seq<char>, dollars: Seq<char>) -> Seq<char> {
    "INSERT INTO "@ + table + " ("@ + columns + ")VALUES ("@ + dollars + ") RETURNING id"@
}

/// An insert that overwrites the row with the same id.
pub open spec fn upsert_text(
    table: Seq<char>,
    columns: Seq<char>,
    dollars: Seq<char>,
    assignments: Seq<char>,
) -> Seq<char> {
    "INSERT INTO "@ + table + " ("@ + columns + ")VALUES ("@ + dollars
        + ") ON CONFLICT (id) DO UPDATE SET "@ + assignments + " RETURNING id"@
}

fn concat(a: &str, b: &str) -> (r: String)
    ensures
        r@ == a@ + b@,
{
    let mut r = String::from_str(a);
    r.append(b);
    r
}

fn concat3(a: &str, b: &str, c: &str) -> (r: String)
    ensures
        r@ == a@ + b@ + c@,
{
    let mut r = String::from_str(a);
    r.append(b);
    r.append(c);
    r
}

/// What the derive computes for a record type whose lowercased name is
/// `item` and whose fields are `fields`.
pub open spec fn describes_data_item(r: DataItemSql, item: Seq<char>, fields: Seq<FieldView>) -> bool {
    let table = item + "s"@;
    &&& r.table@ == table
    &&& r.item@ == item
    &&& r.endpoints@.map_values(|e: String| e@) == endpoint_names(table, item)
    &&& r.select_by_id@ == "SELECT * FROM "@ + table + " WHERE id = $1"@
    &&& r.select_all@ == "SELECT * FROM "@ + table
    &&& r.select_page@ == "SELECT * FROM "@ + table + " ORDER BY id ASC LIMIT $1 OFFSET $2"@
    &&& r.insert@ == insert_text(
        table,
        join(names_of(kept_fields(fields, true)), ", "@),
        placeholders(kept_fields(fields, true).len()),
    )
    &&& r.insert_with_id@ == insert_text(
        table,
        join(names_of(kept_fields(fields, false)), ", "@),
        placeholders(kept_fields(fields, false).len()),
    )
    &&& r.put@ == upsert_text(
        table,
        join(names_of(kept_fields(fields, false)), ", "@),
        placeholders(kept_fields(fields, false).len()),
        join(excluded_list(kept_fields(fields, true)), ", "@),
    )
    &&& r.count@ == "SELECT count(*) FROM "@ + table
    &&& r.truncate@ == "TRUNCATE TABLE "@ + table + " RESTART IDENTITY"@
    &&& r.delete_with_id@ == "DELETE FROM "@ + table + " WHERE id = $1 RETURNING *"@
    &&& r.row_columns@.map_values(|c: Column| c@) == columns_of(fields)
    &&& r.insert_params@.map_values(|c: Column| c@) == columns_of(kept_fields(fields, true))
    &&& r.all_params@.map_values(|c: Column| c@) == columns_of(kept_fields(fields, false))
}

/// Computes the table, the endpoint names, the SQL of every query and the
/// columns of a record type whose lowercased name is `item` and whose fields
/// are `fields`.
pub fn data_item_sql(item: &str, fields: &Vec<Field>) -> (r: DataItemSql)
    requires
        all_supported(fields_view(fields@)),
    ensures
        describes_data_item(r, item@, fields_view(fields@)),
{
    proof {
        lemma_kept_fields_subset(fields_view(fields@), true);
        lemma_kept_fields_subset(fields_view(fields@), false);
    }
    let item = String::from_str(item);
    let table = concat(item.as_str(), "s");
    let t = table.as_str();
    let i = item.as_str();
    let (fields_sql, dollars) = generate_fields_sql(fields, true);
    let (all_fields_sql, all_dollars) = generate_fields_sql(fields, false);
    let excluded_sql = generate_excluded_sql(fields, true);

    let mut endpoints: Vec<String> = Vec::new();
    endpoints.push(concat("get_all_", t));
    endpoints.push(concat3("get_", i, "_by_index"));
    endpoints.push(concat3("get_", t, "_paginated"));
    endpoints.push(concat("create_", i));
    endpoints.push(concat3("create_", i, "_by_index"));
    endpoints.push(concat3("put_", i, "_by_index"));
    endpoints.push(concat("remove_all_", t));
    endpoints.push(concat3("remove_", i, "_by_index"));
    assert(endpoints@.map_values(|e: String| e@) =~= endpoint_names(table@, item@));

    let mut insert = concat3("INSERT INTO ", t, " (");
    insert.append(fields_sql.as_str());
    insert.append(")VALUES (");
    insert.append(dollars.as_str());
    insert.append(") RETURNING id");

    let mut insert_with_id = concat3("INSERT INTO ", t, " (");
    insert_with_id.append(all_fields_sql.as_str());
    insert_with_id.append(")VALUES (");
    insert_with_id.append(all_dollars.as_str());
    insert_with_id.append(") RETURNING id");

    let mut put = concat3("INSERT INTO ", t, " (");
    put.append(all_fields_sql.as_str());
    put.append(")VALUES (");
    put.append(all_dollars.as_str());
    put.append(") ON CONFLICT (id) DO UPDATE SET ");
    put.append(excluded_sql.as_str());
    put.append(" RETURNING id");

    DataItemSql {
        select_by_id: concat3("SELECT * FROM ", t, " WHERE id = $1"),
        select_all: concat("SELECT * FROM ", t),
        select_page: concat3("SELECT * FROM ", t, " ORDER BY id ASC LIMIT $1 OFFSET $2"),
        insert,
        insert_with_id,
        put,
        count: concat("SELECT count(*) FROM ", t),
        truncate: concat3("TRUNCATE TABLE ", t, " RESTART IDENTITY"),
        delete_with_id: concat3("DELETE FROM ", t, " WHERE id = $1 RETURNING *"),
        row_columns: struct_from_row(fields),
        insert_params: vector_fields_to_sql(fields, true),
        all_params: vector_fields_to_sql(fields, false),
        endpoints,
        table,
        item,
    }
}


/// Computes the table, the endpoint names, the SQL of every query and the
/// columns of the record type `name` with the fields `fields`: those of
/// [`data_item_sql`] for the lowercased name.
pub fn impl_data_item(name: &str, fields: &Vec<Field>) -> (r: DataItemSql)
    requires
        all_supported(fields_view(fields@)),
    ensures
        describes_data_item(r, lowercase(name@), fields_view(fields@)),
        r.table@ == table_of(name@),
{
    let item = to_lowercase(name);
    data_item_sql(item.as_str(), fields)
}

/// The value that a column of kind `kind` stores for a field holding `v`:
/// a `u32` is kept as the `i32` with the same bits, a `u64` as the `i64`
/// with the same bits, anything else as itself.
pub open spec fn column_write(kind: ColumnKind, v: int) -> int {
    match kind {
        ColumnKind::Native => v,
        ColumnKind::U32AsI32 => ((v as u32) as i32) as int,
        ColumnKind::U64AsI64 => ((v as u64) as i64) as int,
    }
}

/// The field value that a column of kind `kind` holding `s` reads back as.
pub open spec fn column_read(kind: ColumnKind, s: int) -> int {
    match kind {
        ColumnKind::Native => s,
        ColumnKind::U32AsI32 => ((s as i32) as u32) as int,
        ColumnKind::U64AsI64 => ((s as i64) as u64) as int,
    }
}

/// A value that a field with a column of kind `kind` can hold.
pub open spec fn fits_field(kind: ColumnKind, v: int) -> bool {
    match kind {
        ColumnKind::Native => true,
        ColumnKind::U32AsI32 => 0 <= v <= u32::MAX,
        ColumnKind::U64AsI64 => 0 <= v <= u64::MAX,
    }
}

/// The parameter bound for a `u32` field.
pub fn u32_to_column(v: u32) -> (s: i32)
    ensures
        s as int == column_write(ColumnKind::U32AsI32, v as int),
{
    v as i32
}

/// The `u32` field value read from its column.
pub fn u32_from_column(s: i32) -> (v: u32)
    ensures
        v as int == column_read(ColumnKind::U32AsI32, s as int),
{
    s as u32
}

/// The parameter bound for a `u64` field.
pub fn u64_to_column(v: u64) -> (s: i64)
    ensures
        s as int == column_write(ColumnKind::U64AsI64, v as int),
{
    v as i64
}

/// The `u64` field value read from its column.
pub fn u64_from_column(s: i64) -> (v: u64)
    ensures
        v as int == column_read(ColumnKind::U64AsI64, s as int),
{
    s as u64
}

/// Reading a column back gives the value written to it, for every value
/// its field can hold.
pub proof fn lemma_column_round_trip(kind: ColumnKind, v: int)
    requires
        fits_field(kind, v),
    ensures
        column_read(kind, column_write(kind, v)) == v,
{
    match kind {
        ColumnKind::Native => {},
        ColumnKind::U32AsI32 => {
            let x = v as u32;
            assert(x == v);
            assert(((x as i32) as u32) == x) by (bit_vector);
        },
        ColumnKind::U64AsI64 => {
            let x = v as u64;
            assert(x == v);
            assert(((x as i64) as u64) == x) by (bit_vector);
        },
    }
}

/// No field of the list has the empty name.
pub open spec fn names_nonempty(fields: Seq<FieldView>) -> bool {
    forall|i: int| 0 <= i < fields.len() ==> (#[trigger] fields[i]).name.len() > 0
}

proof fn lemma_kept_all_named(fields: Seq<FieldView>)
    requires
        names_nonempty(fields),
    ensures
        kept_fields(fields, false) == fields,
    decreases fields.len(),
{
    if fields.len() > 0 {
        let front = fields.drop_last();
        assert(names_nonempty(front)) by {
            assert forall|i: int| 0 <= i < front.len() implies (#[trigger] front[i]).name.len() > 0 by {
                assert(front[i] == fields[i]);
            }
        }
        lemma_kept_all_named(front);
        assert(fields.last().name.len() > 0);
        assert(fields.last().name != skipped_name(false)) by {
            reveal_strlit("");
        }
        assert(front.push(fields.last()) =~= fields);
    }
}

/// A record written with the parameters of `insert_with_id` and `put` reads
/// back as itself: when every field is named, each field is bound to, and
/// read from, the column with its name and kind, and reading that column
/// gives back the value written, whatever value the field holds.
pub proof fn lemma_row_round_trip(fields: Seq<FieldView>, i: int, v: int)
    requires
        names_nonempty(fields),
        all_supported(fields),
        0 <= i < fields.len(),
        fits_field(spec_column_kind(fields[i].ty).unwrap(), v),
    ensures
        columns_of(kept_fields(fields, false)) == columns_of(fields),
        columns_of(fields)[i].name == fields[i].name,
        column_read(columns_of(fields)[i].kind, column_write(columns_of(fields)[i].kind, v)) == v,
{
    lemma_kept_all_named(fields);
    lemma_column_round_trip(spec_column_kind(fields[i].ty).unwrap(), v);
}

} // verus!
