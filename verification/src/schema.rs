//! The destination table: its columns, in their declared order, and how a
//! row is bound to the insert statement position by position.

use vstd::prelude::*;
use vstd::string::*;
use crate::double::Double;
use crate::row::{TickRow, TickRowModel};

verus! {

/// The number of columns of the destination table.
pub const COLUMN_COUNT: usize = 21;

/// One value bound to a position of the insert statement.
#[derive(Clone, Debug, PartialEq, Eq)]
pub enum SqlValue {
    Integer(i32),
    BigInt(i64),
    Double(Double),
    Text(String),
    Boolean(bool),
}

/// The mathematical content of a [`SqlValue`].
pub enum SqlValueModel {
    Integer(i32),
    BigInt(i64),
    Double(u64),
    Text(Seq<char>),
    Boolean(bool),
}

impl View for SqlValue {
    type V = SqlValueModel;

    open spec fn view(&self) -> SqlValueModel {
        match self {
            SqlValue::Integer(n) => SqlValueModel::Integer(*n),
            SqlValue::BigInt(n) => SqlValueModel::BigInt(*n),
            SqlValue::Double(d) => SqlValueModel::Double(d.spec_bits()),
            SqlValue::Text(s) => SqlValueModel::Text(s@),
            SqlValue::Boolean(b) => SqlValueModel::Boolean(*b),
        }
    }
}

/// The name of the destination table.
pub open spec fn table_name() -> Seq<char> {
    "demo_ticks"@
}

/// The columns of the destination table, in their declared order.
pub open spec fn column_names() -> Seq<Seq<char>> {
    seq![
        "tick"@,
        "round_num"@,
        "seconds"@,
        "clock_time"@,
        "t_score"@,
        "ct_score"@,
        "steam_id"@,
        "name"@,
        "team"@,
        "side"@,
        "is_alive"@,
        "hp"@,
        "armor"@,
        "x"@,
        "y"@,
        "z"@,
        "view_x"@,
        "view_y"@,
        "active_weapon"@,
        "demo_filename"@,
        "map_name"@,
    ]
}

/// The values of a row in the order of the columns: position `i` holds the
/// value for column `i` of [`column_names`].
pub open spec fn bound_values(row: TickRowModel) -> Seq<SqlValueModel> {
    seq![
        SqlValueModel::Integer(row.tick),
        SqlValueModel::Integer(row.round_num),
        SqlValueModel::Double(row.seconds),
        SqlValueModel::Text(row.clock_time),
        SqlValueModel::Integer(row.t_score),
        SqlValueModel::Integer(row.ct_score),
        SqlValueModel::BigInt(row.steam_id),
        SqlValueModel::Text(row.name),
        SqlValueModel::Text(row.team),
        SqlValueModel::Text(row.side),
        SqlValueModel::Boolean(row.is_alive),
        SqlValueModel::Integer(row.hp),
        SqlValueModel::Integer(row.armor),
        SqlValueModel::Double(row.x),
        SqlValueModel::Double(row.y),
        SqlValueModel::Double(row.z),
        SqlValueModel::Double(row.view_x),
        SqlValueModel::Double(row.view_y),
        SqlValueModel::Text(row.active_weapon),
        SqlValueModel::Text(row.demo_filename),
        SqlValueModel::Text(row.map_name),
    ]
}

/// The views of a sequence of bound values, in the same order.
pub open spec fn value_models(values: Seq<SqlValue>) -> Seq<SqlValueModel> {
    Seq::new(values.len(), |i: int| values[i]@)
}

/// The views of a sequence of texts, in the same order.
pub open spec fn text_models(texts: Seq<&'static str>) -> Seq<Seq<char>> {
    Seq::new(texts.len(), |i: int| texts[i]@)
}

/// The parts of a list written one after the other with a separator
/// between each two.
pub open spec fn joined(parts: Seq<Seq<char>>, separator: Seq<char>) -> Seq<char>
    decreases parts.len(),
{
    if parts.len() == 0 {
        Seq::empty()
    } else if parts.len() == 1 {
        parts[0]
    } else {
        joined(parts.drop_last(), separator) + separator + parts.last()
    }
}

/// One placeholder for each of `count` positions.
pub open spec fn placeholders(count: nat) -> Seq<Seq<char>> {
    Seq::new(count, |i: int| "?"@)
}

/// The text of the insert statement: every column by name, in the declared
/// order, and one placeholder for each.
pub open spec fn insert_statement_text() -> Seq<char> {
    "INSERT INTO "@ + table_name() + " ("@ + joined(column_names(), ", "@) + ") VALUES ("@
        + joined(placeholders(column_names().len()), ", "@) + ")"@
}

/// The columns of the destination table, in their declared order.
pub fn columns() -> (names: Vec<&'static str>)
    ensures
        names.len() == COLUMN_COUNT,
        text_models(names@) == column_names(),
{
    let mut names: Vec<&'static str> = Vec::new();
    names.push("tick");
    names.push("round_num");
    names.push("seconds");
    names.push("clock_time");
    names.push("t_score");
    names.push("ct_score");
    names.push("steam_id");
    names.push("name");
    names.push("team");
    names.push("side");
    names.push("is_alive");
    names.push("hp");
    names.push("armor");
    names.push("x");
    names.push("y");
    names.push("z");
    names.push("view_x");
    names.push("view_y");
    names.push("active_weapon");
    names.push("demo_filename");
    names.push("map_name");
    assert(text_models(names@) =~= column_names());
    names
}

impl TickRow {
    /// The values of the row in the order of the columns, ready to be bound
    /// to the insert statement position by position.
    pub fn params(&self) -> (values: Vec<SqlValue>)
        ensures
            values.len() == COLUMN_COUNT,
            value_models(values@) == bound_values(self@),
    {
        let mut values: Vec<SqlValue> = Vec::new();
        values.push(SqlValue::Integer(self.tick));
        values.push(SqlValue::Integer(self.round_num));
        values.push(SqlValue::Double(self.seconds));
        values.push(SqlValue::Text(self.clock_time.clone()));
        values.push(SqlValue::Integer(self.t_score));
        values.push(SqlValue::Integer(self.ct_score));
        values.push(SqlValue::BigInt(self.steam_id));
        values.push(SqlValue::Text(self.name.clone()));
        values.push(SqlValue::Text(self.team.clone()));
        values.push(SqlValue::Text(self.side.clone()));
        values.push(SqlValue::Boolean(self.is_alive));
        values.push(SqlValue::Integer(self.hp));
        values.push(SqlValue::Integer(self.armor));
        values.push(SqlValue::Double(self.x));
        values.push(SqlValue::Double(self.y));
        values.push(SqlValue::Double(self.z));
        values.push(SqlValue::Double(self.view_x));
        values.push(SqlValue::Double(self.view_y));
        values.push(SqlValue::Text(self.active_weapon.clone()));
        values.push(SqlValue::Text(self.demo_filename.clone()));
        values.push(SqlValue::Text(self.map_name.clone()));
        assert(value_models(values@) =~= bound_values(self@));
        values
    }
}

/// Joining one part more appends the separator and the part, but for the
/// first part, which stands alone.
proof fn lemma_joined_extends(parts: Seq<Seq<char>>, separator: Seq<char>, i: int)
    requires
        0 <= i < parts.len(),
    ensures
        joined(parts.take(i + 1), separator) == if i == 0 {
            parts[0]
        } else {
            joined(parts.take(i), separator) + separator + parts[i]
        },
{
    let longer = parts.take(i + 1);
    assert(longer.last() == parts[i]);
    assert(longer.drop_last() =~= parts.take(i));
    if i == 0 {
        assert(longer[0] == parts[0]);
    }
}

/// Appends the parts to `text`, with the separator between each two.
fn append_joined(text: &mut String, parts: &Vec<&'static str>, separator: &str)
    ensures
        final(text)@ == old(text)@ + joined(text_models(parts@), separator@),
{
    let ghost models = text_models(parts@);
    let mut i: usize = 0;
    assert(models.take(0) =~= Seq::<Seq<char>>::empty());
    assert(text@ =~= old(text)@ + joined(models.take(0), separator@));
    while i < parts.len()
        invariant
            i <= parts.len(),
            models == text_models(parts@),
            text@ == old(text)@ + joined(models.take(i as int), separator@),
        decreases parts.len() - i,
    {
        let ghost before = text@;
        if i > 0 {
            text.append(separator);
        }
        text.append(parts[i]);
        proof {
            lemma_joined_extends(models, separator@, i as int);
            assert(models[i as int] == parts[i as int]@);
            assert(text@ =~= old(text)@ + joined(models.take(i + 1), separator@));
        }
        i += 1;
    }
    assert(models.take(parts.len() as int) =~= models);
}

/// The text of the insert statement for the destination table.
pub fn insert_statement() -> (sql: String)
    ensures
        sql@ == insert_statement_text(),
{
    let names = columns();
    let mut marks: Vec<&'static str> = Vec::new();
    let mut i: usize = 0;
    while i < names.len()
        invariant
            i <= names.len(),
            marks.len() == i,
            forall|j: int| 0 <= j < i ==> marks[j]@ == "?"@,
        decreases names.len() - i,
    {
        marks.push("?");
        i += 1;
    }
    assert(text_models(marks@) =~= placeholders(column_names().len()));
    let mut sql = "INSERT INTO ".to_owned();
    sql.append("demo_ticks");
    sql.append(" (");
    append_joined(&mut sql, &names, ", ");
    sql.append(") VALUES (");
    append_joined(&mut sql, &marks, ", ");
    sql.append(")");
    assert(sql@ =~= insert_statement_text());
    sql
}

/// The statement has as many placeholders as the table has columns, and a
/// row binds as many values.
pub proof fn lemma_positions_match_columns(row: TickRowModel)
    ensures
        column_names().len() == COLUMN_COUNT,
        bound_values(row).len() == column_names().len(),
        placeholders(column_names().len()).len() == column_names().len(),
{
}

} // verus!
