//! The record normalizer: from loosely typed records to typed rows.

use vstd::prelude::*;
use crate::error::{LoadError, LoadErrorModel};
use crate::record::{
    bool_field, double_field, i32_field, i64_field, text_field, InputRecord, SourceItem,
};
use crate::row::{default_row, TickRow, TickRowModel};
use crate::value::ValueModel;

verus! {

/// The row that a record normalizes to. Each column reads one field of the
/// record under its source key and falls back to the table of defaults;
/// the two constants of the load are attached whatever the record holds
/// under their names.
pub open spec fn normalized(
    m: Map<Seq<char>, ValueModel>,
    demo_filename: Seq<char>,
    map_name: Seq<char>,
) -> TickRowModel {
    let d = default_row(demo_filename, map_name);
    TickRowModel {
        tick: i32_field(m, "tick"@, d.tick),
        round_num: i32_field(m, "roundNum"@, d.round_num),
        seconds: double_field(m, "seconds"@, d.seconds),
        clock_time: text_field(m, "clockTime"@, d.clock_time),
        t_score: i32_field(m, "tScore"@, d.t_score),
        ct_score: i32_field(m, "ctScore"@, d.ct_score),
        steam_id: i64_field(m, "steamID"@, d.steam_id),
        name: text_field(m, "name"@, d.name),
        team: text_field(m, "team"@, d.team),
        side: text_field(m, "side"@, d.side),
        is_alive: bool_field(m, "isAlive"@, d.is_alive),
        hp: i32_field(m, "hp"@, d.hp),
        armor: i32_field(m, "armor"@, d.armor),
        x: double_field(m, "x"@, d.x),
        y: double_field(m, "y"@, d.y),
        z: double_field(m, "z"@, d.z),
        view_x: double_field(m, "viewX"@, d.view_x),
        view_y: double_field(m, "viewY"@, d.view_y),
        active_weapon: text_field(m, "activeWeapon"@, d.active_weapon),
        demo_filename: d.demo_filename,
        map_name: d.map_name,
    }
}

/// Normalizes one record. This never fails: a field that is absent, null
/// or of a type that its column does not accept is replaced by its default.
pub fn normalize(record: &InputRecord, demo_filename: &str, map_name: &str) -> (row: TickRow)
    ensures
        row@ == normalized(record@, demo_filename@, map_name@),
{
    let d = TickRow::defaults(demo_filename, map_name);
    TickRow {
        tick: record.i32_or("tick", d.tick),
        round_num: record.i32_or("roundNum", d.round_num),
        seconds: record.double_or("seconds", d.seconds),
        clock_time: record.text_or("clockTime", d.clock_time.as_str()),
        t_score: record.i32_or("tScore", d.t_score),
        ct_score: record.i32_or("ctScore", d.ct_score),
        steam_id: record.i64_or("steamID", d.steam_id),
        name: record.text_or("name", d.name.as_str()),
        team: record.text_or("team", d.team.as_str()),
        side: record.text_or("side", d.side.as_str()),
        is_alive: record.bool_or("isAlive", d.is_alive),
        hp: record.i32_or("hp", d.hp),
        armor: record.i32_or("armor", d.armor),
        x: record.double_or("x", d.x),
        y: record.double_or("y", d.y),
        z: record.double_or("z", d.z),
        view_x: record.double_or("viewX", d.view_x),
        view_y: record.double_or("viewY", d.view_y),
        active_weapon: record.text_or("activeWeapon", d.active_weapon.as_str()),
        demo_filename: d.demo_filename,
        map_name: d.map_name,
    }
}

/// Normalizes the whole input, in order. The first item that is not a
/// mapping fails the call, and no row is handed out.
pub fn normalize_all(items: &Vec<SourceItem>, demo_filename: &str, map_name: &str) -> (r: Result<
    Vec<TickRow>,
    LoadError,
>)
    ensures
        match r {
            Ok(rows) => {
                &&& rows.len() == items.len()
                &&& forall|i: int| 0 <= i < items.len() ==> items[i] is Mapping
                &&& forall|i: int|
                    0 <= i < items.len() ==> (#[trigger] rows[i])@ == normalized(
                        items[i]->Mapping_0@,
                        demo_filename@,
                        map_name@,
                    )
            },
            Err(e) => {
                &&& e@ matches LoadErrorModel::Malformed { index }
                &&& index < items.len()
                &&& items[index as int] is NotMapping
                &&& forall|j: int| 0 <= j < index ==> items[j] is Mapping
            },
        },
{
    let mut rows: Vec<TickRow> = Vec::new();
    let mut i: usize = 0;
    while i < items.len()
        invariant
            i <= items.len(),
            rows.len() == i,
            forall|j: int| 0 <= j < i ==> items[j] is Mapping,
            forall|j: int|
                0 <= j < i ==> (#[trigger] rows[j])@ == normalized(
                    items[j]->Mapping_0@,
                    demo_filename@,
                    map_name@,
                ),
        decreases items.len() - i,
    {
        match &items[i] {
            SourceItem::Mapping(record) => {
                rows.push(normalize(record, demo_filename, map_name));
            },
            SourceItem::NotMapping => {
                return Err(LoadError::Malformed { index: i });
            },
        }
        i += 1;
    }
    Ok(rows)
}

/// Normalization depends on nothing but the mapping and the two constants:
/// records that hold the same fields, however they were built, and the same
/// constants give the same row, and so does normalizing one record twice.
pub proof fn lemma_normalization_is_repeatable(
    first: InputRecord,
    second: InputRecord,
    demo_filename: Seq<char>,
    map_name: Seq<char>,
)
    requires
        first@ == second@,
    ensures
        normalized(first@, demo_filename, map_name) == normalized(
            second@,
            demo_filename,
            map_name,
        ),
{
}

/// A defective field takes its default, whatever the column: where the key
/// is absent, or the value under it is null or of a type that the column
/// does not accept, the column holds `default`.
pub proof fn lemma_defective_field_takes_default(
    m: Map<Seq<char>, ValueModel>,
    key: Seq<char>,
)
    ensures
        forall|default: i32|
            !m.contains_key(key) || m[key].as_i32() is None ==> #[trigger] i32_field(
                m,
                key,
                default,
            ) == default,
        forall|default: i64|
            !m.contains_key(key) || m[key].as_i64() is None ==> #[trigger] i64_field(
                m,
                key,
                default,
            ) == default,
        forall|default: u64|
            !m.contains_key(key) || m[key].as_double() is None ==> #[trigger] double_field(
                m,
                key,
                default,
            ) == default,
        forall|default: Seq<char>|
            !m.contains_key(key) || m[key].as_text() is None ==> #[trigger] text_field(
                m,
                key,
                default,
            ) == default,
        forall|default: bool|
            !m.contains_key(key) || m[key].as_bool() is None ==> #[trigger] bool_field(
                m,
                key,
                default,
            ) == default,
        m.contains_key(key) && (m[key] == ValueModel::Null || m[key] == ValueModel::Other) ==> {
            &&& m[key].as_i32() is None
            &&& m[key].as_i64() is None
            &&& m[key].as_double() is None
            &&& m[key].as_text() is None
            &&& m[key].as_bool() is None
        },
{
}

/// A record in which every field is defective normalizes to the row of
/// defaults: so does the empty record.
pub proof fn lemma_all_defective_gives_defaults(
    m: Map<Seq<char>, ValueModel>,
    demo_filename: Seq<char>,
    map_name: Seq<char>,
)
    requires
        forall|key: Seq<char>| #[trigger]
            m.contains_key(key) ==> m[key] == ValueModel::Null || m[key] == ValueModel::Other,
    ensures
        normalized(m, demo_filename, map_name) == default_row(demo_filename, map_name),
{
}

} // verus!
