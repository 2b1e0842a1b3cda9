//! The typed row of the destination table.

use vstd::prelude::*;
use crate::double::Double;

verus! {

/// One row of the destination table. Every field is populated: none is
/// optional, and none is ever left without a value.
#[derive(Clone, Debug, PartialEq, Eq)]
pub struct TickRow {
    /// Frame index.
    pub tick: i32,
    /// Round index.
    pub round_num: i32,
    /// Elapsed round time.
    pub seconds: Double,
    /// Display clock.
    pub clock_time: String,
    /// Score of the first team at this tick.
    pub t_score: i32,
    /// Score of the second team at this tick.
    pub ct_score: i32,
    /// Identity of the tracked entity.
    pub steam_id: i64,
    pub name: String,
    pub team: String,
    pub side: String,
    pub is_alive: bool,
    pub hp: i32,
    pub armor: i32,
    /// World position.
    pub x: Double,
    pub y: Double,
    pub z: Double,
    /// Aim angles.
    pub view_x: Double,
    pub view_y: Double,
    pub active_weapon: String,
    /// The same for every row of one load.
    pub demo_filename: String,
    /// The same for every row of one load.
    pub map_name: String,
}

/// The mathematical content of a [`TickRow`]: texts as sequences of
/// characters, doubles by their bit pattern.
pub struct TickRowModel {
    pub tick: i32,
    pub round_num: i32,
    pub seconds: u64,
    pub clock_time: Seq<char>,
    pub t_score: i32,
    pub ct_score: i32,
    pub steam_id: i64,
    pub name: Seq<char>,
    pub team: Seq<char>,
    pub side: Seq<char>,
    pub is_alive: bool,
    pub hp: i32,
    pub armor: i32,
    pub x: u64,
    pub y: u64,
    pub z: u64,
    pub view_x: u64,
    pub view_y: u64,
    pub active_weapon: Seq<char>,
    pub demo_filename: Seq<char>,
    pub map_name: Seq<char>,
}

impl View for TickRow {
    type V = TickRowModel;

    open spec fn view(&self) -> TickRowModel {
        TickRowModel {
            tick: self.tick,
            round_num: self.round_num,
            seconds: self.seconds.spec_bits(),
            clock_time: self.clock_time@,
            t_score: self.t_score,
            ct_score: self.ct_score,
            steam_id: self.steam_id,
            name: self.name@,
            team: self.team@,
            side: self.side@,
            is_alive: self.is_alive,
            hp: self.hp,
            armor: self.armor,
            x: self.x.spec_bits(),
            y: self.y.spec_bits(),
            z: self.z.spec_bits(),
            view_x: self.view_x.spec_bits(),
            view_y: self.view_y.spec_bits(),
            active_weapon: self.active_weapon@,
            demo_filename: self.demo_filename@,
            map_name: self.map_name@,
        }
    }
}

/// The views of a sequence of rows, in the same order.
pub open spec fn row_models(rows: Seq<TickRow>) -> Seq<TickRowModel> {
    Seq::new(rows.len(), |i: int| rows[i]@)
}

/// The table of defaults: the row whose every field holds the value that
/// stands in for an absent or unusable field of the source. Integers are 0,
/// doubles are positive zero, texts are empty; an entity is alive with 100
/// hit points unless the record says otherwise.
pub open spec fn default_row(demo_filename: Seq<char>, map_name: Seq<char>) -> TickRowModel {
    TickRowModel {
        tick: 0,
        round_num: 0,
        seconds: 0,
        clock_time: Seq::empty(),
        t_score: 0,
        ct_score: 0,
        steam_id: 0,
        name: Seq::empty(),
        team: Seq::empty(),
        side: Seq::empty(),
        is_alive: true,
        hp: 100,
        armor: 0,
        x: 0,
        y: 0,
        z: 0,
        view_x: 0,
        view_y: 0,
        active_weapon: Seq::empty(),
        demo_filename,
        map_name,
    }
}

impl TickRow {
    /// The row of defaults for one load.
    pub fn defaults(demo_filename: &str, map_name: &str) -> (row: TickRow)
        ensures
            row@ == default_row(demo_filename@, map_name@),
    {
        TickRow {
            tick: 0,
            round_num: 0,
            seconds: Double::zero(),
            clock_time: String::new(),
            t_score: 0,
            ct_score: 0,
            steam_id: 0,
            name: String::new(),
            team: String::new(),
            side: String::new(),
            is_alive: true,
            hp: 100,
            armor: 0,
            x: Double::zero(),
            y: Double::zero(),
            z: Double::zero(),
            view_x: Double::zero(),
            view_y: Double::zero(),
            active_weapon: String::new(),
            demo_filename: demo_filename.to_owned(),
            map_name: map_name.to_owned(),
        }
    }
}

} // verus!
