use demo_processor::double::Double;
use demo_processor::progress::Progress;
use demo_processor::row::TickRow;
use demo_processor::schema::{columns, insert_statement, SqlValue, COLUMN_COUNT};

fn dbl(x: f64) -> Double {
    Double::from_bits(x.to_bits())
}

fn sample() -> TickRow {
    TickRow {
        tick: 1,
        round_num: 2,
        seconds: dbl(3.5),
        clock_time: "01:55".to_string(),
        t_score: 4,
        ct_score: 5,
        steam_id: 6,
        name: "n".to_string(),
        team: "t".to_string(),
        side: "s".to_string(),
        is_alive: false,
        hp: 7,
        armor: 8,
        x: dbl(9.5),
        y: dbl(10.5),
        z: dbl(11.5),
        view_x: dbl(12.5),
        view_y: dbl(13.5),
        active_weapon: "w".to_string(),
        demo_filename: "d".to_string(),
        map_name: "m".to_string(),
    }
}

#[test]
fn columns_are_in_the_declared_order() {
    assert_eq!(
        columns(),
        vec![
            "tick", "round_num", "seconds", "clock_time", "t_score", "ct_score", "steam_id",
            "name", "team", "side", "is_alive", "hp", "armor", "x", "y", "z", "view_x",
            "view_y", "active_weapon", "demo_filename", "map_name",
        ]
    );
    assert_eq!(columns().len(), COLUMN_COUNT);
    assert_eq!(COLUMN_COUNT, 21);
}

#[test]
fn row_binds_in_the_order_of_the_columns() {
    let values = sample().params();
    assert_eq!(
        values,
        vec![
            SqlValue::Integer(1),
            SqlValue::Integer(2),
            SqlValue::Double(dbl(3.5)),
            SqlValue::Text("01:55".to_string()),
            SqlValue::Integer(4),
            SqlValue::Integer(5),
            SqlValue::BigInt(6),
            SqlValue::Text("n".to_string()),
            SqlValue::Text("t".to_string()),
            SqlValue::Text("s".to_string()),
            SqlValue::Boolean(false),
            SqlValue::Integer(7),
            SqlValue::Integer(8),
            SqlValue::Double(dbl(9.5)),
            SqlValue::Double(dbl(10.5)),
            SqlValue::Double(dbl(11.5)),
            SqlValue::Double(dbl(12.5)),
            SqlValue::Double(dbl(13.5)),
            SqlValue::Text("w".to_string()),
            SqlValue::Text("d".to_string()),
            SqlValue::Text("m".to_string()),
        ]
    );
    assert_eq!(values.len(), COLUMN_COUNT);
}

#[test]
fn insert_statement_lists_every_column_and_placeholder() {
    assert_eq!(
        insert_statement(),
        "INSERT INTO demo_ticks (tick, round_num, seconds, clock_time, t_score, ct_score, \
         steam_id, name, team, side, is_alive, hp, armor, x, y, z, view_x, view_y, \
         active_weapon, demo_filename, map_name) \
         VALUES (?, ?, ?, ?, ?, ?, ?, ?, ?, ?, ?, ?, ?, ?, ?, ?, ?, ?, ?, ?, ?)"
    );
    assert_eq!(insert_statement().matches('?').count(), COLUMN_COUNT);
}

#[test]
fn progress_starts_at_zero() {
    let p = Progress::new(10);
    assert_eq!(p.total(), 10);
    assert_eq!(p.position(), 0);
    assert!(!p.is_finished());
    assert_eq!(p.message(), "");
    assert_eq!(p.percent(), 0);
}

#[test]
fn progress_of_no_rows_is_complete() {
    let p = Progress::new(0);
    assert_eq!(p.percent(), 100);
    assert_eq!(p.position(), 0);
}

#[test]
fn progress_percent_rounds_down() {
    let mut p = Progress::new(3);
    p.advance(1);
    assert_eq!(p.percent(), 33);
    p.advance(2);
    assert_eq!(p.percent(), 66);
    p.advance(3);
    assert_eq!(p.percent(), 100);
    let mut q = Progress::new(200);
    q.advance(199);
    assert_eq!(q.percent(), 99);
    q.advance(1);
    assert_eq!(q.percent(), 0);
}

#[test]
fn progress_percent_does_not_overflow() {
    let mut p = Progress::new(u64::MAX);
    p.advance(u64::MAX - 1);
    assert_eq!(p.percent(), 99);
    p.advance(u64::MAX / 2);
    assert_eq!(p.percent(), 49);
    p.advance(u64::MAX);
    assert_eq!(p.percent(), 100);
}

#[test]
fn progress_past_the_total_is_complete() {
    let mut p = Progress::new(5);
    p.advance(9);
    assert_eq!(p.position(), 9);
    assert_eq!(p.percent(), 100);
}

#[test]
fn progress_finish_keeps_the_position() {
    let mut p = Progress::new(5);
    p.advance(5);
    p.finish("all done");
    assert!(p.is_finished());
    assert_eq!(p.message(), "all done");
    assert_eq!(p.position(), 5);
    assert_eq!(p.total(), 5);
}
